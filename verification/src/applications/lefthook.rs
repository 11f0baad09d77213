//! Lefthook, a Git hooks manager.

use crate::applications::{AnalyzeAction, AnalyzeActionView, ApplicationName, args1, captured, identify_and_query, identify_and_query_spec};
use crate::configuration::{TagFormat, Version, tag_of};
use crate::error::UserError;
use crate::executables::{ExecutableNameUnix, RunMethod, RunMethodView};
use crate::hosting::{VersionSource, VersionSourceView, releases};
use crate::installation::{BinFolder, BinFolderView, Method, MethodView, methods_view, texts, two_methods};
use crate::platform::{Cpu, Os, Platform};
use crate::regexp::{End, Gap, Start, VersionPattern, first_capture, spec_first_capture};
use vstd::prelude::*;
use vstd::string::*;

verus! {

/// The Lefthook application.
#[derive(Debug, Clone, Copy, PartialEq, Eq)]
pub struct Lefthook {}

/// The name of Lefthook.
pub open spec fn name_text() -> Seq<char> {
    "lefthook"@
}

/// The name of the Lefthook executable.
pub open spec fn executable_text() -> Seq<char> {
    "lefthook"@
}

/// The homepage of Lefthook.
pub open spec fn homepage_text() -> Seq<char> {
    "https://lefthook.dev"@
}

/// The ways to install Lefthook `version` on `platform`.
pub open spec fn install_methods_spec(version: Seq<char>, platform: Platform) -> Seq<MethodView> {
    let cpu = match platform.cpu { Cpu::Arm64 => "arm64"@, Cpu::Intel64 => "x86_64"@ };
    let os = match platform.os { Os::Linux => "Linux"@, Os::MacOS => "MacOS"@, Os::Windows => "Windows"@ };
    seq![
        MethodView::DownloadArchive { url: "https://github.com/evilmartians/lefthook/releases/download/"@ + tag_of(TagFormat::PrefixV, version) + "/lefthook_"@ + version + "_"@ + os + "_"@ + cpu + ".gz"@, bin_folder: BinFolderView::Root },
        MethodView::CompileGoSource { import_path: "github.com/evilmartians/lefthook/v2@"@ + tag_of(TagFormat::PrefixV, version) },
    ]
}

/// How to run Lefthook `version` on `platform` with path separator `sep`.
pub open spec fn run_method_spec(version: Seq<char>, platform: Platform, sep: Seq<char>) -> RunMethodView {
    RunMethodView::ThisApp { install_methods: install_methods_spec(version, platform) }
}

/// The pattern that finds the version in the output of Lefthook.
pub open spec fn version_pattern() -> VersionPattern {
    VersionPattern { start: Start::Anywhere, prefix: "lefthook version ", gap: Gap::Nothing, parts: 3, suffix: "", end: End::Anywhere }
}

/// The next step in analyzing an executable as Lefthook, given the outputs of the runs so far.
pub open spec fn analyze_spec(outputs: Seq<Seq<char>>) -> AnalyzeActionView {
    identify_and_query_spec(outputs, seq!["-h"@], "Git hooks manager"@, seq!["--version"@], version_pattern())
}

/// Where the versions of Lefthook come from.
pub open spec fn version_source_spec() -> VersionSourceView {
    releases("evilmartians", "lefthook", Some("v"))
}

fn pattern() -> (p: VersionPattern)
    ensures
        p == version_pattern(),
{
    VersionPattern { start: Start::Anywhere, prefix: "lefthook version ", gap: Gap::Nothing, parts: 3, suffix: "", end: End::Anywhere }
}

/// Finds the version of Lefthook in the given output.
pub fn extract_version(output: &str) -> (r: Result<&str, UserError>)
    ensures
        captured(r, spec_first_capture(version_pattern(), output@)),
{
    first_capture(output, &pattern())
}

impl Lefthook {
    /// The name by which the user selects Lefthook.
    pub fn name(&self) -> (r: ApplicationName)
        ensures
            r@ == name_text(),
    {
        ApplicationName::from("lefthook")
    }

    /// The name of the Lefthook executable.
    pub fn executable_filename(&self) -> (r: ExecutableNameUnix)
        ensures
            r@ == executable_text(),
    {
        ExecutableNameUnix::from("lefthook")
    }

    /// The homepage of Lefthook.
    pub fn homepage(&self) -> (r: &'static str)
        ensures
            r@ == homepage_text(),
    {
        "https://lefthook.dev"
    }

    /// How the release tags of Lefthook spell its versions.
    pub fn tag_format(&self) -> (r: TagFormat)
        ensures
            r == TagFormat::PrefixV,
    {
        TagFormat::PrefixV
    }

    /// The ways to install Lefthook `version` on `platform`.
    fn install_methods(&self, version: &Version, platform: Platform) -> (r: Vec<Method>)
        ensures
            methods_view(r@) == install_methods_spec(version@, platform),
    {
        let cpu = match platform.cpu { Cpu::Arm64 => "arm64", Cpu::Intel64 => "x86_64" };
        let os = match platform.os { Os::Linux => "Linux", Os::MacOS => "MacOS", Os::Windows => "Windows" };
        let tag = TagFormat::PrefixV.format_version(version);
        let mut url0 = String::from_str("https://github.com/evilmartians/lefthook/releases/download/");
        url0.append(tag.as_str());
        url0.append("/lefthook_");
        url0.append(version.as_str());
        url0.append("_");
        url0.append(os);
        url0.append("_");
        url0.append(cpu);
        url0.append(".gz");
        let mut import_path1 = String::from_str("github.com/evilmartians/lefthook/v2@");
        import_path1.append(tag.as_str());
        two_methods(Method::DownloadArchive { url: url0, bin_folder: BinFolder::Root }, Method::CompileGoSource { import_path: import_path1 })
    }

    /// How to run Lefthook `version` on `platform`.
    pub fn run_method(&self, version: &Version, platform: Platform) -> (r: RunMethod)
        ensures
            forall|sep: Seq<char>| r@ == run_method_spec(version@, platform, sep),
    {
        RunMethod::ThisApp { install_methods: self.install_methods(version, platform) }
    }

    /// Where the versions of Lefthook come from.
    pub fn version_source(&self) -> (r: VersionSource)
        ensures
            r@ == version_source_spec(),
    {
        VersionSource::GithubReleases { org: "evilmartians", repo: "lefthook", tag_prefix: Some("v") }
    }

    /// The next step in analyzing an executable as Lefthook, given the outputs of the runs so far.
    pub fn analyze_step(&self, outputs: &Vec<String>) -> (r: AnalyzeAction)
        ensures
            r@ == analyze_spec(texts(outputs@)),
    {
        identify_and_query(outputs, args1("-h"), "Git hooks manager", args1("--version"), &pattern())
    }
}

} // verus!
