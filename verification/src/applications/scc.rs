//! scc, a counter of lines of code.

use crate::applications::{AnalyzeAction, AnalyzeActionView, AnalyzeResultView, ApplicationName, args1, captured, identify_and_query, identify_and_query_spec};
use crate::configuration::Version;
use crate::error::UserError;
use crate::executables::{ExecutableNameUnix, RunMethod, RunMethodView, platform_file_name};
use crate::hosting::{VersionSource, VersionSourceView, releases};
use crate::installation::{Method, MethodView, methods_view, texts, two_methods};
use crate::platform::{Cpu, Os, Platform};
use crate::regexp::{End, Gap, Start, VersionPattern, first_capture, is_digit, spec_first_capture, version_after_prefix_is_found, version_end};
use crate::text::contains_seq;
use vstd::prelude::*;
use vstd::string::*;

verus! {

/// The scc application.
#[derive(Debug, Clone, Copy, PartialEq, Eq)]
pub struct Scc {}

/// The name of scc.
pub open spec fn name_text() -> Seq<char> {
    "scc"@
}

/// The name of the scc executable.
pub open spec fn executable_text() -> Seq<char> {
    name_text()
}

/// The homepage of scc.
pub open spec fn homepage_text() -> Seq<char> {
    "https://github.com/boyter/scc"@
}

/// The ways to install scc `version` on `platform`.
pub open spec fn install_methods_spec(version: Seq<char>, platform: Platform) -> Seq<MethodView> {
    let os = match platform.os { Os::Linux => "Linux"@, Os::MacOS => "Darwin"@, Os::Windows => "Windows"@ };
    let cpu = match platform.cpu { Cpu::Arm64 => "arm64"@, Cpu::Intel64 => "x86_64"@ };
    seq![
        MethodView::DownloadArchiveFile { url: "https://github.com/boyter/scc/releases/download/v"@ + version + "/scc_"@ + os + "_"@ + cpu + ".tar.gz"@, path_in_archive: platform_file_name("scc"@, platform.os == Os::Windows) },
        MethodView::CompileGoSource { import_path: "github.com/boyter/scc/v3@v"@ + version },
    ]
}

/// How to run scc `version` on `platform` with path separator `sep`.
pub open spec fn run_method_spec(version: Seq<char>, platform: Platform, sep: Seq<char>) -> RunMethodView {
    RunMethodView::ThisApp { install_methods: install_methods_spec(version, platform) }
}

/// Once its help output shows the scc description, scc is asked for its version,
/// and the version that follows `scc version ` in the answer is the version found:
/// for every such help output and every version of three parts.
pub proof fn scc_reports_its_version(help: Seq<char>, version: Seq<char>, rest: Seq<char>)
    requires
        contains_seq(help, "Count lines of code in a directory with complexity estimation"@),
        version_end(version, 0, 3) == Some(version.len() as int),
        rest.len() == 0 || !is_digit(rest[0]),
    ensures
        analyze_spec(seq![help]) == (AnalyzeActionView::Run { args: seq!["--version"@] }),
        analyze_spec(seq![help, "scc version "@ + version + rest])
            == AnalyzeActionView::Done(AnalyzeResultView::IdentifiedWithVersion(version)),
{
    reveal_strlit("");
    version_after_prefix_is_found(version_pattern(), version, rest);
}

/// The pattern that finds the version in the output of scc.
pub open spec fn version_pattern() -> VersionPattern {
    VersionPattern { start: Start::Anywhere, prefix: "scc version ", gap: Gap::Nothing, parts: 3, suffix: "", end: End::Anywhere }
}

/// The next step in analyzing an executable as scc, given the outputs of the runs so far.
pub open spec fn analyze_spec(outputs: Seq<Seq<char>>) -> AnalyzeActionView {
    identify_and_query_spec(outputs, seq!["-h"@], "Count lines of code in a directory with complexity estimation"@, seq!["--version"@], version_pattern())
}

/// Where the versions of scc come from.
pub open spec fn version_source_spec() -> VersionSourceView {
    releases("boyter", "scc", None)
}

fn pattern() -> (p: VersionPattern)
    ensures
        p == version_pattern(),
{
    VersionPattern { start: Start::Anywhere, prefix: "scc version ", gap: Gap::Nothing, parts: 3, suffix: "", end: End::Anywhere }
}

/// Finds the version of scc in the given output.
pub fn extract_version(output: &str) -> (r: Result<&str, UserError>)
    ensures
        captured(r, spec_first_capture(version_pattern(), output@)),
{
    first_capture(output, &pattern())
}

impl Scc {
    /// The name by which the user selects scc.
    pub fn name(&self) -> (r: ApplicationName)
        ensures
            r@ == name_text(),
    {
        ApplicationName::from("scc")
    }

    /// The name of the scc executable.
    pub fn executable_filename(&self) -> (r: ExecutableNameUnix)
        ensures
            r@ == executable_text(),
    {
        ExecutableNameUnix::from("scc")
    }

    /// The homepage of scc.
    pub fn homepage(&self) -> (r: &'static str)
        ensures
            r@ == homepage_text(),
    {
        "https://github.com/boyter/scc"
    }

    /// The ways to install scc `version` on `platform`.
    pub fn install_methods(&self, version: &Version, platform: Platform) -> (r: Vec<Method>)
        ensures
            methods_view(r@) == install_methods_spec(version@, platform),
    {
        let os = match platform.os { Os::Linux => "Linux", Os::MacOS => "Darwin", Os::Windows => "Windows" };
        let cpu = match platform.cpu { Cpu::Arm64 => "arm64", Cpu::Intel64 => "x86_64" };
        let mut url0 = String::from_str("https://github.com/boyter/scc/releases/download/v");
        url0.append(version.as_str());
        url0.append("/scc_");
        url0.append(os);
        url0.append("_");
        url0.append(cpu);
        url0.append(".tar.gz");
        let mut import_path1 = String::from_str("github.com/boyter/scc/v3@v");
        import_path1.append(version.as_str());
        two_methods(Method::DownloadArchiveFile { url: url0, path_in_archive: ExecutableNameUnix::from("scc").platform_path(platform.os) }, Method::CompileGoSource { import_path: import_path1 })
    }

    /// How to run scc `version` on `platform`.
    pub fn run_method(&self, version: &Version, platform: Platform) -> (r: RunMethod)
        ensures
            forall|sep: Seq<char>| r@ == run_method_spec(version@, platform, sep),
    {
        RunMethod::ThisApp { install_methods: self.install_methods(version, platform) }
    }

    /// Where the versions of scc come from.
    pub fn version_source(&self) -> (r: VersionSource)
        ensures
            r@ == version_source_spec(),
    {
        VersionSource::GithubReleases { org: "boyter", repo: "scc", tag_prefix: None }
    }

    /// The next step in analyzing an executable as scc, given the outputs of the runs so far.
    pub fn analyze_step(&self, outputs: &Vec<String>) -> (r: AnalyzeAction)
        ensures
            r@ == analyze_spec(texts(outputs@)),
    {
        identify_and_query(outputs, args1("-h"), "Count lines of code in a directory with complexity estimation", args1("--version"), &pattern())
    }
}

} // verus!
