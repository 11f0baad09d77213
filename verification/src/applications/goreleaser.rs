//! GoReleaser, a release automation tool for Go projects.

use crate::applications::{AnalyzeAction, AnalyzeActionView, ApplicationName, args1, captured, identify_same_output, identify_same_output_spec};
use crate::configuration::Version;
use crate::error::UserError;
use crate::executables::{ExecutableNameUnix, RunMethod, RunMethodView};
use crate::hosting::{VersionSource, VersionSourceView, releases};
use crate::installation::{BinFolder, BinFolderView, Method, MethodView, methods_view, no_texts, one_method, texts};
use crate::platform::{Cpu, Os, Platform};
use crate::regexp::{End, Gap, Start, VersionPattern, first_capture, spec_first_capture};
use vstd::prelude::*;
use vstd::string::*;

verus! {

/// The GoReleaser application.
#[derive(Debug, Clone, Copy, PartialEq, Eq)]
pub struct Goreleaser {}

/// The name of GoReleaser.
pub open spec fn name_text() -> Seq<char> {
    "goreleaser"@
}

/// The name of the GoReleaser executable.
pub open spec fn executable_text() -> Seq<char> {
    name_text()
}

/// The homepage of GoReleaser.
pub open spec fn homepage_text() -> Seq<char> {
    "https://goreleaser.com"@
}

/// The ways to install GoReleaser `version` on `platform`.
pub open spec fn install_methods_spec(version: Seq<char>, platform: Platform) -> Seq<MethodView> {
    let os = match platform.os { Os::Linux => "Linux"@, Os::MacOS => "Darwin"@, Os::Windows => "Windows"@ };
    let cpu = match platform.cpu { Cpu::Arm64 => "arm64"@, Cpu::Intel64 => "x86_64"@ };
    let ext = match platform.os { Os::Linux => "tar.gz"@, Os::MacOS => "tar.gz"@, Os::Windows => "zip"@ };
    seq![
        MethodView::DownloadArchive { url: "https://github.com/goreleaser/goreleaser/releases/download/v"@ + version + "/goreleaser_"@ + os + "_"@ + cpu + "."@ + ext, bin_folder: BinFolderView::Subfolders { options: seq![] } },
    ]
}

/// How to run GoReleaser `version` on `platform` with path separator `sep`.
pub open spec fn run_method_spec(version: Seq<char>, platform: Platform, sep: Seq<char>) -> RunMethodView {
    RunMethodView::ThisApp { install_methods: install_methods_spec(version, platform) }
}

/// The pattern that finds the version in the output of GoReleaser.
pub open spec fn version_pattern() -> VersionPattern {
    VersionPattern { start: Start::Anywhere, prefix: "GitVersion:", gap: Gap::Optional, parts: 3, suffix: "", end: End::Anywhere }
}

/// The next step in analyzing an executable as GoReleaser, given the outputs of the runs so far.
pub open spec fn analyze_spec(outputs: Seq<Seq<char>>) -> AnalyzeActionView {
    identify_same_output_spec(outputs, seq!["-v"@], "https://goreleaser.com"@, version_pattern())
}

/// Where the versions of GoReleaser come from.
pub open spec fn version_source_spec() -> VersionSourceView {
    releases("goreleaser", "goreleaser", None)
}

fn pattern() -> (p: VersionPattern)
    ensures
        p == version_pattern(),
{
    VersionPattern { start: Start::Anywhere, prefix: "GitVersion:", gap: Gap::Optional, parts: 3, suffix: "", end: End::Anywhere }
}

/// Finds the version of GoReleaser in the given output.
pub fn extract_version(output: &str) -> (r: Result<&str, UserError>)
    ensures
        captured(r, spec_first_capture(version_pattern(), output@)),
{
    first_capture(output, &pattern())
}

impl Goreleaser {
    /// The name by which the user selects GoReleaser.
    pub fn name(&self) -> (r: ApplicationName)
        ensures
            r@ == name_text(),
    {
        ApplicationName::from("goreleaser")
    }

    /// The name of the GoReleaser executable.
    pub fn executable_filename(&self) -> (r: ExecutableNameUnix)
        ensures
            r@ == executable_text(),
    {
        ExecutableNameUnix::from("goreleaser")
    }

    /// The homepage of GoReleaser.
    pub fn homepage(&self) -> (r: &'static str)
        ensures
            r@ == homepage_text(),
    {
        "https://goreleaser.com"
    }

    /// The ways to install GoReleaser `version` on `platform`.
    pub fn install_methods(&self, version: &Version, platform: Platform) -> (r: Vec<Method>)
        ensures
            methods_view(r@) == install_methods_spec(version@, platform),
    {
        let os = match platform.os { Os::Linux => "Linux", Os::MacOS => "Darwin", Os::Windows => "Windows" };
        let cpu = match platform.cpu { Cpu::Arm64 => "arm64", Cpu::Intel64 => "x86_64" };
        let ext = match platform.os { Os::Linux => "tar.gz", Os::MacOS => "tar.gz", Os::Windows => "zip" };
        let mut url0 = String::from_str("https://github.com/goreleaser/goreleaser/releases/download/v");
        url0.append(version.as_str());
        url0.append("/goreleaser_");
        url0.append(os);
        url0.append("_");
        url0.append(cpu);
        url0.append(".");
        url0.append(ext);
        one_method(Method::DownloadArchive { url: url0, bin_folder: BinFolder::Subfolders { options: no_texts() } })
    }

    /// How to run GoReleaser `version` on `platform`.
    pub fn run_method(&self, version: &Version, platform: Platform) -> (r: RunMethod)
        ensures
            forall|sep: Seq<char>| r@ == run_method_spec(version@, platform, sep),
    {
        RunMethod::ThisApp { install_methods: self.install_methods(version, platform) }
    }

    /// Where the versions of GoReleaser come from.
    pub fn version_source(&self) -> (r: VersionSource)
        ensures
            r@ == version_source_spec(),
    {
        VersionSource::GithubReleases { org: "goreleaser", repo: "goreleaser", tag_prefix: None }
    }

    /// The next step in analyzing an executable as GoReleaser, given the outputs of the runs so far.
    pub fn analyze_step(&self, outputs: &Vec<String>) -> (r: AnalyzeAction)
        ensures
            r@ == analyze_spec(texts(outputs@)),
    {
        identify_same_output(outputs, args1("-v"), "https://goreleaser.com", &pattern())
    }
}

} // verus!
