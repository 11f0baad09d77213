//! golangci-lint, a runner for Go linters.

use crate::applications::{AnalyzeAction, AnalyzeActionView, ApplicationName, args1, captured, version_result, version_result_of};
use crate::configuration::Version;
use crate::error::UserError;
use crate::executables::{ExecutableNameUnix, RunMethod, RunMethodView};
use crate::hosting::{VersionSource, VersionSourceView, releases};
use crate::installation::{BinFolder, BinFolderView, Method, MethodView, methods_view, one_method, texts};
use crate::platform::{Cpu, Os, Platform};
use crate::regexp::{End, Gap, Start, VersionPattern, first_capture, spec_first_capture};
use vstd::prelude::*;
use vstd::string::*;

verus! {

/// The golangci-lint application.
#[derive(Debug, Clone, Copy, PartialEq, Eq)]
pub struct GolangCiLint {}

/// The name of golangci-lint.
pub open spec fn name_text() -> Seq<char> {
    "golangci-lint"@
}

/// The name of the golangci-lint executable.
pub open spec fn executable_text() -> Seq<char> {
    name_text()
}

/// The homepage of golangci-lint.
pub open spec fn homepage_text() -> Seq<char> {
    "https://github.com/golangci/golangci-lint"@
}

/// The ways to install golangci-lint `version` on `platform`.
pub open spec fn install_methods_spec(version: Seq<char>, platform: Platform) -> Seq<MethodView> {
    let os = match platform.os { Os::Linux => "linux"@, Os::MacOS => "darwin"@, Os::Windows => "windows"@ };
    let cpu = match platform.cpu { Cpu::Arm64 => "arm64"@, Cpu::Intel64 => "amd64"@ };
    let ext = match platform.os { Os::Linux => "tar.gz"@, Os::MacOS => "tar.gz"@, Os::Windows => "zip"@ };
    seq![
        MethodView::DownloadArchive { url: "https://github.com/golangci/golangci-lint/releases/download/v"@ + version + "/golangci-lint-"@ + version + "-"@ + os + "-"@ + cpu + "."@ + ext, bin_folder: BinFolderView::Subfolder { path: "golangci-lint-"@ + version + "-"@ + os + "-"@ + cpu } },
    ]
}

/// How to run golangci-lint `version` on `platform` with path separator `sep`.
pub open spec fn run_method_spec(version: Seq<char>, platform: Platform, sep: Seq<char>) -> RunMethodView {
    RunMethodView::ThisApp { install_methods: install_methods_spec(version, platform) }
}

/// The pattern that finds the version in the output of golangci-lint.
pub open spec fn version_pattern() -> VersionPattern {
    VersionPattern { start: Start::Anywhere, prefix: "golangci-lint has version ", gap: Gap::Nothing, parts: 3, suffix: " built with", end: End::Anywhere }
}

/// The next step in analyzing an executable as golangci-lint, given the outputs of the runs so far.
pub open spec fn analyze_spec(outputs: Seq<Seq<char>>) -> AnalyzeActionView {
    if outputs.len() == 0 {
        AnalyzeActionView::Run { args: seq!["--version"@] }
    } else {
        AnalyzeActionView::Done(version_result(outputs[0], version_pattern()))
    }
}

/// Where the versions of golangci-lint come from.
pub open spec fn version_source_spec() -> VersionSourceView {
    releases("golangci", "golangci-lint", None)
}

fn pattern() -> (p: VersionPattern)
    ensures
        p == version_pattern(),
{
    VersionPattern { start: Start::Anywhere, prefix: "golangci-lint has version ", gap: Gap::Nothing, parts: 3, suffix: " built with", end: End::Anywhere }
}

/// Finds the version of golangci-lint in the given output.
pub fn extract_version(output: &str) -> (r: Result<&str, UserError>)
    ensures
        captured(r, spec_first_capture(version_pattern(), output@)),
{
    first_capture(output, &pattern())
}

impl GolangCiLint {
    /// The name by which the user selects golangci-lint.
    pub fn name(&self) -> (r: ApplicationName)
        ensures
            r@ == name_text(),
    {
        ApplicationName::from("golangci-lint")
    }

    /// The name of the golangci-lint executable.
    pub fn executable_filename(&self) -> (r: ExecutableNameUnix)
        ensures
            r@ == executable_text(),
    {
        ExecutableNameUnix::from("golangci-lint")
    }

    /// The homepage of golangci-lint.
    pub fn homepage(&self) -> (r: &'static str)
        ensures
            r@ == homepage_text(),
    {
        "https://github.com/golangci/golangci-lint"
    }

    /// The ways to install golangci-lint `version` on `platform`.
    fn install_methods(&self, version: &Version, platform: Platform) -> (r: Vec<Method>)
        ensures
            methods_view(r@) == install_methods_spec(version@, platform),
    {
        let os = match platform.os { Os::Linux => "linux", Os::MacOS => "darwin", Os::Windows => "windows" };
        let cpu = match platform.cpu { Cpu::Arm64 => "arm64", Cpu::Intel64 => "amd64" };
        let ext = match platform.os { Os::Linux => "tar.gz", Os::MacOS => "tar.gz", Os::Windows => "zip" };
        let mut url0 = String::from_str("https://github.com/golangci/golangci-lint/releases/download/v");
        url0.append(version.as_str());
        url0.append("/golangci-lint-");
        url0.append(version.as_str());
        url0.append("-");
        url0.append(os);
        url0.append("-");
        url0.append(cpu);
        url0.append(".");
        url0.append(ext);
        let mut path0 = String::from_str("golangci-lint-");
        path0.append(version.as_str());
        path0.append("-");
        path0.append(os);
        path0.append("-");
        path0.append(cpu);
        one_method(Method::DownloadArchive { url: url0, bin_folder: BinFolder::Subfolder { path: path0 } })
    }

    /// How to run golangci-lint `version` on `platform`.
    pub fn run_method(&self, version: &Version, platform: Platform) -> (r: RunMethod)
        ensures
            forall|sep: Seq<char>| r@ == run_method_spec(version@, platform, sep),
    {
        RunMethod::ThisApp { install_methods: self.install_methods(version, platform) }
    }

    /// Where the versions of golangci-lint come from.
    pub fn version_source(&self) -> (r: VersionSource)
        ensures
            r@ == version_source_spec(),
    {
        VersionSource::GithubReleases { org: "golangci", repo: "golangci-lint", tag_prefix: None }
    }

    /// The next step in analyzing an executable as golangci-lint, given the outputs of the runs so far.
    pub fn analyze_step(&self, outputs: &Vec<String>) -> (r: AnalyzeAction)
        ensures
            r@ == analyze_spec(texts(outputs@)),
    {
        if outputs.len() == 0 {
            return AnalyzeAction::Run { args: args1("--version") };
        }
        AnalyzeAction::Done(version_result_of(outputs[0].as_str(), &pattern()))
    }
}

} // verus!
