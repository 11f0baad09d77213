//! dprint, a pluggable code formatter.

use crate::applications::{AnalyzeAction, AnalyzeActionView, ApplicationName, args1, captured, identify_and_query, identify_and_query_spec};
use crate::configuration::Version;
use crate::error::UserError;
use crate::executables::{ExecutableNameUnix, RunMethod, RunMethodView};
use crate::hosting::{VersionSource, VersionSourceView, releases};
use crate::installation::{BinFolder, BinFolderView, Method, MethodView, methods_view, no_texts, texts, two_methods};
use crate::platform::{Cpu, Os, Platform};
use crate::regexp::{End, Gap, Start, VersionPattern, first_capture, spec_first_capture};
use vstd::prelude::*;
use vstd::string::*;

verus! {

/// The dprint application.
#[derive(Debug, Clone, Copy, PartialEq, Eq)]
pub struct Dprint {}

/// The name of dprint.
pub open spec fn name_text() -> Seq<char> {
    "dprint"@
}

/// The name of the dprint executable.
pub open spec fn executable_text() -> Seq<char> {
    name_text()
}

/// The homepage of dprint.
pub open spec fn homepage_text() -> Seq<char> {
    "https://dprint.dev"@
}

/// The ways to install dprint `version` on `platform`.
pub open spec fn install_methods_spec(version: Seq<char>, platform: Platform) -> Seq<MethodView> {
    let cpu = match platform.cpu { Cpu::Arm64 => "aarch64"@, Cpu::Intel64 => "x86_64"@ };
    let os = match platform.os { Os::Linux => "unknown-linux-gnu"@, Os::MacOS => "apple-darwin"@, Os::Windows => "pc-windows-msvc"@ };
    seq![
        MethodView::DownloadArchive { url: "https://github.com/dprint/dprint/releases/download/"@ + version + "/dprint-"@ + cpu + "-"@ + os + ".zip"@, bin_folder: BinFolderView::Subfolders { options: seq![] } },
        MethodView::CompileRustSource { crate_name: "dprint"@, bin_folder: BinFolderView::Subfolder { path: "bin"@ } },
    ]
}

/// How to run dprint `version` on `platform` with path separator `sep`.
pub open spec fn run_method_spec(version: Seq<char>, platform: Platform, sep: Seq<char>) -> RunMethodView {
    RunMethodView::ThisApp { install_methods: install_methods_spec(version, platform) }
}

/// The pattern that finds the version in the output of dprint.
pub open spec fn version_pattern() -> VersionPattern {
    VersionPattern { start: Start::Anywhere, prefix: "dprint ", gap: Gap::Nothing, parts: 3, suffix: "", end: End::Anywhere }
}

/// The next step in analyzing an executable as dprint, given the outputs of the runs so far.
pub open spec fn analyze_spec(outputs: Seq<Seq<char>>) -> AnalyzeActionView {
    identify_and_query_spec(outputs, seq!["-h"@], "Auto-formats source code based on the specified plugins"@, seq!["--version"@], version_pattern())
}

/// Where the versions of dprint come from.
pub open spec fn version_source_spec() -> VersionSourceView {
    releases("dprint", "dprint", None)
}

fn pattern() -> (p: VersionPattern)
    ensures
        p == version_pattern(),
{
    VersionPattern { start: Start::Anywhere, prefix: "dprint ", gap: Gap::Nothing, parts: 3, suffix: "", end: End::Anywhere }
}

/// Finds the version of dprint in the given output.
pub fn extract_version(output: &str) -> (r: Result<&str, UserError>)
    ensures
        captured(r, spec_first_capture(version_pattern(), output@)),
{
    first_capture(output, &pattern())
}

impl Dprint {
    /// The name by which the user selects dprint.
    pub fn name(&self) -> (r: ApplicationName)
        ensures
            r@ == name_text(),
    {
        ApplicationName::from("dprint")
    }

    /// The name of the dprint executable.
    pub fn executable_filename(&self) -> (r: ExecutableNameUnix)
        ensures
            r@ == executable_text(),
    {
        ExecutableNameUnix::from("dprint")
    }

    /// The homepage of dprint.
    pub fn homepage(&self) -> (r: &'static str)
        ensures
            r@ == homepage_text(),
    {
        "https://dprint.dev"
    }

    /// The ways to install dprint `version` on `platform`.
    fn install_methods(&self, version: &Version, platform: Platform) -> (r: Vec<Method>)
        ensures
            methods_view(r@) == install_methods_spec(version@, platform),
    {
        let cpu = match platform.cpu { Cpu::Arm64 => "aarch64", Cpu::Intel64 => "x86_64" };
        let os = match platform.os { Os::Linux => "unknown-linux-gnu", Os::MacOS => "apple-darwin", Os::Windows => "pc-windows-msvc" };
        let mut url0 = String::from_str("https://github.com/dprint/dprint/releases/download/");
        url0.append(version.as_str());
        url0.append("/dprint-");
        url0.append(cpu);
        url0.append("-");
        url0.append(os);
        url0.append(".zip");
        let path1 = String::from_str("bin");
        two_methods(Method::DownloadArchive { url: url0, bin_folder: BinFolder::Subfolders { options: no_texts() } }, Method::CompileRustSource { crate_name: "dprint", bin_folder: BinFolder::Subfolder { path: path1 } })
    }

    /// How to run dprint `version` on `platform`.
    pub fn run_method(&self, version: &Version, platform: Platform) -> (r: RunMethod)
        ensures
            forall|sep: Seq<char>| r@ == run_method_spec(version@, platform, sep),
    {
        RunMethod::ThisApp { install_methods: self.install_methods(version, platform) }
    }

    /// Where the versions of dprint come from.
    pub fn version_source(&self) -> (r: VersionSource)
        ensures
            r@ == version_source_spec(),
    {
        VersionSource::GithubReleases { org: "dprint", repo: "dprint", tag_prefix: None }
    }

    /// The next step in analyzing an executable as dprint, given the outputs of the runs so far.
    pub fn analyze_step(&self, outputs: &Vec<String>) -> (r: AnalyzeAction)
        ensures
            r@ == analyze_spec(texts(outputs@)),
    {
        identify_and_query(outputs, args1("-h"), "Auto-formats source code based on the specified plugins", args1("--version"), &pattern())
    }
}

} // verus!
