//! snyk, the command-line client of the Snyk security platform.

use crate::applications::{AnalyzeAction, AnalyzeActionView, ApplicationName, args1, captured, identify_and_query, identify_and_query_spec};
use crate::configuration::Version;
use crate::error::UserError;
use crate::executables::{ExecutableNameUnix, RunMethod, RunMethodView};
use crate::hosting::{VersionSource, VersionSourceView, releases};
use crate::installation::{Method, MethodView, methods_view, one_method, texts};
use crate::platform::{Cpu, Os, Platform};
use crate::regexp::{End, Gap, Start, VersionPattern, first_capture, spec_first_capture};
use vstd::prelude::*;
use vstd::string::*;

verus! {

/// The Snyk CLI application.
#[derive(Debug, Clone, Copy, PartialEq, Eq)]
pub struct Snyk {}

/// The name of Snyk CLI.
pub open spec fn name_text() -> Seq<char> {
    "snyk"@
}

/// The name of the Snyk CLI executable.
pub open spec fn executable_text() -> Seq<char> {
    name_text()
}

/// The homepage of Snyk CLI.
pub open spec fn homepage_text() -> Seq<char> {
    "https://github.com/snyk/cli"@
}

/// The ways to install Snyk CLI `version` on `platform`.
pub open spec fn install_methods_spec(version: Seq<char>, platform: Platform) -> Seq<MethodView> {
    let os = match platform.os { Os::Linux => "linux"@, Os::MacOS => "macos"@, Os::Windows => "win"@ };
    let cpu = match platform.cpu { Cpu::Arm64 => "-arm64"@, Cpu::Intel64 => ""@ };
    let ext = match platform.os { Os::Linux => ""@, Os::MacOS => ""@, Os::Windows => ".exe"@ };
    seq![
        MethodView::DownloadExecutable { url: "https://github.com/snyk/cli/releases/download/v"@ + version + "/snyk-"@ + os + cpu + ext },
    ]
}

/// How to run Snyk CLI `version` on `platform` with path separator `sep`.
pub open spec fn run_method_spec(version: Seq<char>, platform: Platform, sep: Seq<char>) -> RunMethodView {
    RunMethodView::ThisApp { install_methods: install_methods_spec(version, platform) }
}

/// The pattern that finds the version in the output of Snyk CLI.
pub open spec fn version_pattern() -> VersionPattern {
    VersionPattern { start: Start::TextStart, prefix: "", gap: Gap::Nothing, parts: 3, suffix: "", end: End::TextEnd }
}

/// The next step in analyzing an executable as Snyk CLI, given the outputs of the runs so far.
/// The help marker is the opening sentence of the Snyk CLI help; this text is
/// assumed, not confirmed against the help output of a released Snyk CLI.
pub open spec fn analyze_spec(outputs: Seq<Seq<char>>) -> AnalyzeActionView {
    identify_and_query_spec(outputs, seq!["-h"@], "Snyk CLI scans and monitors your projects for security vulnerabilities"@, seq!["--version"@], version_pattern())
}

/// Where the versions of Snyk CLI come from.
pub open spec fn version_source_spec() -> VersionSourceView {
    releases("snyk", "cli", Some("v"))
}

fn pattern() -> (p: VersionPattern)
    ensures
        p == version_pattern(),
{
    VersionPattern { start: Start::TextStart, prefix: "", gap: Gap::Nothing, parts: 3, suffix: "", end: End::TextEnd }
}

/// Finds the version of Snyk CLI in the given output.
pub fn extract_version(output: &str) -> (r: Result<&str, UserError>)
    ensures
        captured(r, spec_first_capture(version_pattern(), output@)),
{
    first_capture(output, &pattern())
}

impl Snyk {
    /// The name by which the user selects Snyk CLI.
    pub fn name(&self) -> (r: ApplicationName)
        ensures
            r@ == name_text(),
    {
        ApplicationName::from("snyk")
    }

    /// The name of the Snyk CLI executable.
    pub fn executable_filename(&self) -> (r: ExecutableNameUnix)
        ensures
            r@ == executable_text(),
    {
        ExecutableNameUnix::from("snyk")
    }

    /// The homepage of Snyk CLI.
    pub fn homepage(&self) -> (r: &'static str)
        ensures
            r@ == homepage_text(),
    {
        "https://github.com/snyk/cli"
    }

    /// The ways to install Snyk CLI `version` on `platform`.
    fn install_methods(&self, version: &Version, platform: Platform) -> (r: Vec<Method>)
        ensures
            methods_view(r@) == install_methods_spec(version@, platform),
    {
        let os = match platform.os { Os::Linux => "linux", Os::MacOS => "macos", Os::Windows => "win" };
        let cpu = match platform.cpu { Cpu::Arm64 => "-arm64", Cpu::Intel64 => "" };
        let ext = match platform.os { Os::Linux => "", Os::MacOS => "", Os::Windows => ".exe" };
        let mut url0 = String::from_str("https://github.com/snyk/cli/releases/download/v");
        url0.append(version.as_str());
        url0.append("/snyk-");
        url0.append(os);
        url0.append(cpu);
        url0.append(ext);
        one_method(Method::DownloadExecutable { url: url0 })
    }

    /// How to run Snyk CLI `version` on `platform`.
    pub fn run_method(&self, version: &Version, platform: Platform) -> (r: RunMethod)
        ensures
            forall|sep: Seq<char>| r@ == run_method_spec(version@, platform, sep),
    {
        RunMethod::ThisApp { install_methods: self.install_methods(version, platform) }
    }

    /// Where the versions of Snyk CLI come from.
    pub fn version_source(&self) -> (r: VersionSource)
        ensures
            r@ == version_source_spec(),
    {
        VersionSource::GithubReleases { org: "snyk", repo: "cli", tag_prefix: Some("v") }
    }

    /// The next step in analyzing an executable as Snyk CLI, given the outputs of the runs so far.
    pub fn analyze_step(&self, outputs: &Vec<String>) -> (r: AnalyzeAction)
        ensures
            r@ == analyze_spec(texts(outputs@)),
    {
        identify_and_query(outputs, args1("-h"), "Snyk CLI scans and monitors your projects for security vulnerabilities", args1("--version"), &pattern())
    }
}

} // verus!
