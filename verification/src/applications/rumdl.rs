//! rumdl, a linter for Markdown.

use crate::applications::{AnalyzeAction, AnalyzeActionView, ApplicationName, args1, captured, identify_and_query, identify_and_query_spec};
use crate::configuration::Version;
use crate::error::UserError;
use crate::executables::{ExecutableNameUnix, RunMethod, RunMethodView};
use crate::hosting::{VersionSource, VersionSourceView, releases};
use crate::installation::{BinFolder, BinFolderView, Method, MethodView, methods_view, one_method, texts};
use crate::platform::{Cpu, Os, Platform};
use crate::regexp::{End, Gap, Start, VersionPattern, first_capture, spec_first_capture};
use vstd::prelude::*;
use vstd::string::*;

verus! {

/// The rumdl application.
#[derive(Debug, Clone, Copy, PartialEq, Eq)]
pub struct Rumdl {}

/// The name of rumdl.
pub open spec fn name_text() -> Seq<char> {
    "rumdl"@
}

/// The name of the rumdl executable.
pub open spec fn executable_text() -> Seq<char> {
    name_text()
}

/// The homepage of rumdl.
pub open spec fn homepage_text() -> Seq<char> {
    "https://github.com/rvben/rumdl"@
}

/// The ways to install rumdl `version` on `platform`.
pub open spec fn install_methods_spec(version: Seq<char>, platform: Platform) -> Seq<MethodView> {
    let cpu = match platform.cpu { Cpu::Arm64 => "aarch64"@, Cpu::Intel64 => "x86_64"@ };
    let os = match platform.os { Os::Linux => "unknown-linux-gnu"@, Os::MacOS => "apple-darwin"@, Os::Windows => "pc-windows-msvc"@ };
    let ext = match platform.os { Os::Linux => "tar.gz"@, Os::MacOS => "tar.gz"@, Os::Windows => "zip"@ };
    seq![
        MethodView::DownloadArchive { url: "https://github.com/rvben/rumdl/releases/download/v"@ + version + "/rumdl-v"@ + version + "-"@ + cpu + "-"@ + os + "."@ + ext, bin_folder: BinFolderView::Root },
    ]
}

/// How to run rumdl `version` on `platform` with path separator `sep`.
pub open spec fn run_method_spec(version: Seq<char>, platform: Platform, sep: Seq<char>) -> RunMethodView {
    RunMethodView::ThisApp { install_methods: install_methods_spec(version, platform) }
}

/// The pattern that finds the version in the output of rumdl.
pub open spec fn version_pattern() -> VersionPattern {
    VersionPattern { start: Start::Anywhere, prefix: "rumdl ", gap: Gap::Nothing, parts: 3, suffix: "", end: End::Anywhere }
}

/// The next step in analyzing an executable as rumdl, given the outputs of the runs so far.
/// The help marker is the usage line that rumdl prints; this text is assumed,
/// not confirmed against the help output of a released rumdl.
pub open spec fn analyze_spec(outputs: Seq<Seq<char>>) -> AnalyzeActionView {
    identify_and_query_spec(outputs, seq!["-h"@], "Usage: rumdl"@, seq!["--version"@], version_pattern())
}

/// Where the versions of rumdl come from.
pub open spec fn version_source_spec() -> VersionSourceView {
    releases("rvben", "rumdl", Some("v"))
}

fn pattern() -> (p: VersionPattern)
    ensures
        p == version_pattern(),
{
    VersionPattern { start: Start::Anywhere, prefix: "rumdl ", gap: Gap::Nothing, parts: 3, suffix: "", end: End::Anywhere }
}

/// Finds the version of rumdl in the given output.
pub fn extract_version(output: &str) -> (r: Result<&str, UserError>)
    ensures
        captured(r, spec_first_capture(version_pattern(), output@)),
{
    first_capture(output, &pattern())
}

impl Rumdl {
    /// The name by which the user selects rumdl.
    pub fn name(&self) -> (r: ApplicationName)
        ensures
            r@ == name_text(),
    {
        ApplicationName::from("rumdl")
    }

    /// The name of the rumdl executable.
    pub fn executable_filename(&self) -> (r: ExecutableNameUnix)
        ensures
            r@ == executable_text(),
    {
        ExecutableNameUnix::from("rumdl")
    }

    /// The homepage of rumdl.
    pub fn homepage(&self) -> (r: &'static str)
        ensures
            r@ == homepage_text(),
    {
        "https://github.com/rvben/rumdl"
    }

    /// The ways to install rumdl `version` on `platform`.
    fn install_methods(&self, version: &Version, platform: Platform) -> (r: Vec<Method>)
        ensures
            methods_view(r@) == install_methods_spec(version@, platform),
    {
        let cpu = match platform.cpu { Cpu::Arm64 => "aarch64", Cpu::Intel64 => "x86_64" };
        let os = match platform.os { Os::Linux => "unknown-linux-gnu", Os::MacOS => "apple-darwin", Os::Windows => "pc-windows-msvc" };
        let ext = match platform.os { Os::Linux => "tar.gz", Os::MacOS => "tar.gz", Os::Windows => "zip" };
        let mut url0 = String::from_str("https://github.com/rvben/rumdl/releases/download/v");
        url0.append(version.as_str());
        url0.append("/rumdl-v");
        url0.append(version.as_str());
        url0.append("-");
        url0.append(cpu);
        url0.append("-");
        url0.append(os);
        url0.append(".");
        url0.append(ext);
        one_method(Method::DownloadArchive { url: url0, bin_folder: BinFolder::Root })
    }

    /// How to run rumdl `version` on `platform`.
    pub fn run_method(&self, version: &Version, platform: Platform) -> (r: RunMethod)
        ensures
            forall|sep: Seq<char>| r@ == run_method_spec(version@, platform, sep),
    {
        RunMethod::ThisApp { install_methods: self.install_methods(version, platform) }
    }

    /// Where the versions of rumdl come from.
    pub fn version_source(&self) -> (r: VersionSource)
        ensures
            r@ == version_source_spec(),
    {
        VersionSource::GithubReleases { org: "rvben", repo: "rumdl", tag_prefix: Some("v") }
    }

    /// The next step in analyzing an executable as rumdl, given the outputs of the runs so far.
    pub fn analyze_step(&self, outputs: &Vec<String>) -> (r: AnalyzeAction)
        ensures
            r@ == analyze_spec(texts(outputs@)),
    {
        identify_and_query(outputs, args1("-h"), "Usage: rumdl", args1("--version"), &pattern())
    }
}

} // verus!
