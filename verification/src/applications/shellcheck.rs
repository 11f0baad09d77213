//! ShellCheck, a static analysis tool for shell scripts.

use crate::applications::{AnalyzeAction, AnalyzeActionView, ApplicationName, args1, captured, identify_same_output, identify_same_output_spec};
use crate::configuration::Version;
use crate::error::UserError;
use crate::executables::{ExecutableNameUnix, RunMethod, RunMethodView};
use crate::hosting::{VersionSource, VersionSourceView, releases};
use crate::installation::{BinFolder, BinFolderView, Method, MethodView, methods_view, one_method, texts};
use crate::platform::{Cpu, Os, Platform};
use crate::regexp::{End, Gap, Start, VersionPattern, first_capture, spec_first_capture};
use vstd::prelude::*;
use vstd::string::*;

verus! {

/// The ShellCheck application.
#[derive(Debug, Clone, Copy, PartialEq, Eq)]
pub struct ShellCheck {}

/// The name of ShellCheck.
pub open spec fn name_text() -> Seq<char> {
    "shellcheck"@
}

/// The name of the ShellCheck executable.
pub open spec fn executable_text() -> Seq<char> {
    name_text()
}

/// The homepage of ShellCheck.
pub open spec fn homepage_text() -> Seq<char> {
    "https://www.shellcheck.net"@
}

/// The ways to install ShellCheck `version` on `platform`.
pub open spec fn install_methods_spec(version: Seq<char>, platform: Platform) -> Seq<MethodView> {
    let os = match platform.os { Os::Linux => "linux"@, Os::MacOS => "darwin"@, Os::Windows => "windows"@ };
    let cpu = match platform.cpu { Cpu::Arm64 => "aarch64"@, Cpu::Intel64 => "x86_64"@ };
    let ext = match platform.os { Os::Linux => "tar.gz"@, Os::MacOS => "tar.xz"@, Os::Windows => "zip"@ };
    seq![
        MethodView::DownloadArchive { url: "https://github.com/koalaman/shellcheck/releases/download/v"@ + version + "/shellcheck-v"@ + version + "."@ + os + "."@ + cpu + "."@ + ext, bin_folder: BinFolderView::Subfolder { path: "shellcheck-v"@ + version } },
    ]
}

/// How to run ShellCheck `version` on `platform` with path separator `sep`.
pub open spec fn run_method_spec(version: Seq<char>, platform: Platform, sep: Seq<char>) -> RunMethodView {
    RunMethodView::ThisApp { install_methods: install_methods_spec(version, platform) }
}

/// The pattern that finds the version in the output of ShellCheck.
pub open spec fn version_pattern() -> VersionPattern {
    VersionPattern { start: Start::Anywhere, prefix: "version: ", gap: Gap::Nothing, parts: 3, suffix: "", end: End::Anywhere }
}

/// The next step in analyzing an executable as ShellCheck, given the outputs of the runs so far.
pub open spec fn analyze_spec(outputs: Seq<Seq<char>>) -> AnalyzeActionView {
    identify_same_output_spec(outputs, seq!["--version"@], "ShellCheck - shell script analysis tool"@, version_pattern())
}

/// Where the versions of ShellCheck come from.
pub open spec fn version_source_spec() -> VersionSourceView {
    releases("koalaman", "shellcheck", None)
}

fn pattern() -> (p: VersionPattern)
    ensures
        p == version_pattern(),
{
    VersionPattern { start: Start::Anywhere, prefix: "version: ", gap: Gap::Nothing, parts: 3, suffix: "", end: End::Anywhere }
}

/// Finds the version of ShellCheck in the given output.
pub fn extract_version(output: &str) -> (r: Result<&str, UserError>)
    ensures
        captured(r, spec_first_capture(version_pattern(), output@)),
{
    first_capture(output, &pattern())
}

impl ShellCheck {
    /// The name by which the user selects ShellCheck.
    pub fn name(&self) -> (r: ApplicationName)
        ensures
            r@ == name_text(),
    {
        ApplicationName::from("shellcheck")
    }

    /// The name of the ShellCheck executable.
    pub fn executable_filename(&self) -> (r: ExecutableNameUnix)
        ensures
            r@ == executable_text(),
    {
        ExecutableNameUnix::from("shellcheck")
    }

    /// The homepage of ShellCheck.
    pub fn homepage(&self) -> (r: &'static str)
        ensures
            r@ == homepage_text(),
    {
        "https://www.shellcheck.net"
    }

    /// The ways to install ShellCheck `version` on `platform`.
    fn install_methods(&self, version: &Version, platform: Platform) -> (r: Vec<Method>)
        ensures
            methods_view(r@) == install_methods_spec(version@, platform),
    {
        let os = match platform.os { Os::Linux => "linux", Os::MacOS => "darwin", Os::Windows => "windows" };
        let cpu = match platform.cpu { Cpu::Arm64 => "aarch64", Cpu::Intel64 => "x86_64" };
        let ext = match platform.os { Os::Linux => "tar.gz", Os::MacOS => "tar.xz", Os::Windows => "zip" };
        let mut url0 = String::from_str("https://github.com/koalaman/shellcheck/releases/download/v");
        url0.append(version.as_str());
        url0.append("/shellcheck-v");
        url0.append(version.as_str());
        url0.append(".");
        url0.append(os);
        url0.append(".");
        url0.append(cpu);
        url0.append(".");
        url0.append(ext);
        let mut path0 = String::from_str("shellcheck-v");
        path0.append(version.as_str());
        one_method(Method::DownloadArchive { url: url0, bin_folder: BinFolder::Subfolder { path: path0 } })
    }

    /// How to run ShellCheck `version` on `platform`.
    pub fn run_method(&self, version: &Version, platform: Platform) -> (r: RunMethod)
        ensures
            forall|sep: Seq<char>| r@ == run_method_spec(version@, platform, sep),
    {
        RunMethod::ThisApp { install_methods: self.install_methods(version, platform) }
    }

    /// Where the versions of ShellCheck come from.
    pub fn version_source(&self) -> (r: VersionSource)
        ensures
            r@ == version_source_spec(),
    {
        VersionSource::GithubReleases { org: "koalaman", repo: "shellcheck", tag_prefix: None }
    }

    /// The next step in analyzing an executable as ShellCheck, given the outputs of the runs so far.
    pub fn analyze_step(&self, outputs: &Vec<String>) -> (r: AnalyzeAction)
        ensures
            r@ == analyze_spec(texts(outputs@)),
    {
        identify_same_output(outputs, args1("--version"), "ShellCheck - shell script analysis tool", &pattern())
    }
}

} // verus!
