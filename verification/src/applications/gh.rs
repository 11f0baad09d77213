//! gh, the GitHub command-line client.

use crate::applications::{AnalyzeAction, AnalyzeActionView, ApplicationName, args1, captured, identify_and_query, identify_and_query_spec, is_separator};
use crate::configuration::Version;
use crate::error::UserError;
use crate::executables::{ExecutableNameUnix, RunMethod, RunMethodView};
use crate::hosting::{VersionSource, VersionSourceView, releases};
use crate::installation::{BinFolder, BinFolderView, Method, MethodView, methods_view, one_method, texts, two_texts};
use crate::outside::main_separator;
use crate::platform::{Cpu, Os, Platform};
use crate::regexp::{End, Gap, Start, VersionPattern, first_capture, spec_first_capture};
use vstd::prelude::*;
use vstd::string::*;

verus! {

/// The GitHub CLI application.
#[derive(Debug, Clone, Copy, PartialEq, Eq)]
pub struct Gh {}

/// The name of GitHub CLI.
pub open spec fn name_text() -> Seq<char> {
    "gh"@
}

/// The name of the GitHub CLI executable.
pub open spec fn executable_text() -> Seq<char> {
    name_text()
}

/// The homepage of GitHub CLI.
pub open spec fn homepage_text() -> Seq<char> {
    "https://cli.github.com"@
}

/// The ways to install GitHub CLI `version` on `platform` with path separator `sep`.
pub open spec fn install_methods_spec(version: Seq<char>, platform: Platform, sep: Seq<char>) -> Seq<MethodView> {
    let os = match platform.os { Os::Linux => "linux"@, Os::MacOS => "macOS"@, Os::Windows => "windows"@ };
    let cpu = match platform.cpu { Cpu::Arm64 => "arm64"@, Cpu::Intel64 => "amd64"@ };
    let ext = match platform.os { Os::Linux => "tar.gz"@, Os::MacOS => "zip"@, Os::Windows => "zip"@ };
    seq![
        MethodView::DownloadArchive { url: "https://github.com/cli/cli/releases/download/v"@ + version + "/gh_"@ + version + "_"@ + os + "_"@ + cpu + "."@ + ext, bin_folder: BinFolderView::Subfolders { options: seq!["bin"@, "gh_"@ + version + "_"@ + os + "_"@ + cpu + sep + "bin"@] } },
    ]
}

/// How to run GitHub CLI `version` on `platform` with path separator `sep`.
pub open spec fn run_method_spec(version: Seq<char>, platform: Platform, sep: Seq<char>) -> RunMethodView {
    RunMethodView::ThisApp { install_methods: install_methods_spec(version, platform, sep) }
}

/// The pattern that finds the version in the output of GitHub CLI.
pub open spec fn version_pattern() -> VersionPattern {
    VersionPattern { start: Start::Anywhere, prefix: "gh version ", gap: Gap::Nothing, parts: 3, suffix: "", end: End::Anywhere }
}

/// The next step in analyzing an executable as GitHub CLI, given the outputs of the runs so far.
pub open spec fn analyze_spec(outputs: Seq<Seq<char>>) -> AnalyzeActionView {
    identify_and_query_spec(outputs, seq!["-h"@], "Work seamlessly with GitHub from the command line"@, seq!["--version"@], version_pattern())
}

/// Where the versions of GitHub CLI come from.
pub open spec fn version_source_spec() -> VersionSourceView {
    releases("cli", "cli", Some("v"))
}

fn pattern() -> (p: VersionPattern)
    ensures
        p == version_pattern(),
{
    VersionPattern { start: Start::Anywhere, prefix: "gh version ", gap: Gap::Nothing, parts: 3, suffix: "", end: End::Anywhere }
}

/// Finds the version of GitHub CLI in the given output.
pub fn extract_version(output: &str) -> (r: Result<&str, UserError>)
    ensures
        captured(r, spec_first_capture(version_pattern(), output@)),
{
    first_capture(output, &pattern())
}

impl Gh {
    /// The name by which the user selects GitHub CLI.
    pub fn name(&self) -> (r: ApplicationName)
        ensures
            r@ == name_text(),
    {
        ApplicationName::from("gh")
    }

    /// The name of the GitHub CLI executable.
    pub fn executable_filename(&self) -> (r: ExecutableNameUnix)
        ensures
            r@ == executable_text(),
    {
        ExecutableNameUnix::from("gh")
    }

    /// The homepage of GitHub CLI.
    pub fn homepage(&self) -> (r: &'static str)
        ensures
            r@ == homepage_text(),
    {
        "https://cli.github.com"
    }

    /// The ways to install GitHub CLI `version` on `platform`.
    fn install_methods(&self, version: &Version, platform: Platform, sep: &str) -> (r: Vec<Method>)
        ensures
            methods_view(r@) == install_methods_spec(version@, platform, sep@),
    {
        let os = match platform.os { Os::Linux => "linux", Os::MacOS => "macOS", Os::Windows => "windows" };
        let cpu = match platform.cpu { Cpu::Arm64 => "arm64", Cpu::Intel64 => "amd64" };
        let ext = match platform.os { Os::Linux => "tar.gz", Os::MacOS => "zip", Os::Windows => "zip" };
        let mut url0 = String::from_str("https://github.com/cli/cli/releases/download/v");
        url0.append(version.as_str());
        url0.append("/gh_");
        url0.append(version.as_str());
        url0.append("_");
        url0.append(os);
        url0.append("_");
        url0.append(cpu);
        url0.append(".");
        url0.append(ext);
        let option0_0 = String::from_str("bin");
        let mut option0_1 = String::from_str("gh_");
        option0_1.append(version.as_str());
        option0_1.append("_");
        option0_1.append(os);
        option0_1.append("_");
        option0_1.append(cpu);
        option0_1.append(sep);
        option0_1.append("bin");
        one_method(Method::DownloadArchive { url: url0, bin_folder: BinFolder::Subfolders { options: two_texts(option0_0, option0_1) } })
    }

    /// How to run GitHub CLI `version` on `platform` with path separator `sep`.
    pub fn run_method_with_separator(&self, version: &Version, platform: Platform, sep: &str) -> (r: RunMethod)
        ensures
            r@ == run_method_spec(version@, platform, sep@),
    {
        RunMethod::ThisApp { install_methods: self.install_methods(version, platform, sep) }
    }

    /// How to run GitHub CLI `version` on `platform`.
    pub fn run_method(&self, version: &Version, platform: Platform) -> (r: RunMethod)
        ensures
            exists|sep: Seq<char>| is_separator(sep) && r@ == run_method_spec(version@, platform, sep),
    {
        let sep = main_separator();
        let r = self.run_method_with_separator(version, platform, sep);
        assert(is_separator(sep@) && r@ == run_method_spec(version@, platform, sep@));
        r
    }

    /// Where the versions of GitHub CLI come from.
    pub fn version_source(&self) -> (r: VersionSource)
        ensures
            r@ == version_source_spec(),
    {
        VersionSource::GithubReleases { org: "cli", repo: "cli", tag_prefix: Some("v") }
    }

    /// The next step in analyzing an executable as GitHub CLI, given the outputs of the runs so far.
    pub fn analyze_step(&self, outputs: &Vec<String>) -> (r: AnalyzeAction)
        ensures
            r@ == analyze_spec(texts(outputs@)),
    {
        identify_and_query(outputs, args1("-h"), "Work seamlessly with GitHub from the command line", args1("--version"), &pattern())
    }
}

} // verus!
