//! Bun, a JavaScript runtime.

use crate::applications::{AnalyzeAction, AnalyzeActionView, ApplicationName, args1, captured, identify_and_query, identify_and_query_spec};
use crate::configuration::Version;
use crate::error::UserError;
use crate::executables::{ExecutableNameUnix, RunMethod, RunMethodView};
use crate::hosting::{VersionSource, VersionSourceView, releases};
use crate::installation::{BinFolder, BinFolderView, Method, MethodView, methods_view, one_method, texts};
use crate::platform::{Cpu, Os, Platform};
use crate::regexp::{End, Gap, Start, VersionPattern, first_capture, spec_first_capture};
use vstd::prelude::*;
use vstd::string::*;

verus! {

/// The Bun application.
#[derive(Debug, Clone, Copy, PartialEq, Eq)]
pub struct Bun {}

/// The name of Bun.
pub open spec fn name_text() -> Seq<char> {
    "bun"@
}

/// The name of the Bun executable.
pub open spec fn executable_text() -> Seq<char> {
    name_text()
}

/// The homepage of Bun.
pub open spec fn homepage_text() -> Seq<char> {
    "https://github.com/oven-sh/bun"@
}

/// The ways to install Bun `version` on `platform`.
pub open spec fn install_methods_spec(version: Seq<char>, platform: Platform) -> Seq<MethodView> {
    let cpu = match platform.cpu { Cpu::Arm64 => "aarch64"@, Cpu::Intel64 => "x64"@ };
    let os = match platform.os { Os::Linux => "linux"@, Os::MacOS => "darwin"@, Os::Windows => "windows"@ };
    seq![
        MethodView::DownloadArchive { url: "https://github.com/oven-sh/bun/releases/download/bun-v"@ + version + "/bun-"@ + os + "-"@ + cpu + ".zip"@, bin_folder: BinFolderView::Subfolder { path: "bun-"@ + os + "-"@ + cpu } },
    ]
}

/// How to run Bun `version` on `platform` with path separator `sep`.
pub open spec fn run_method_spec(version: Seq<char>, platform: Platform, sep: Seq<char>) -> RunMethodView {
    RunMethodView::ThisApp { install_methods: install_methods_spec(version, platform) }
}

/// The pattern that finds the version in the output of Bun.
pub open spec fn version_pattern() -> VersionPattern {
    VersionPattern { start: Start::Anywhere, prefix: "", gap: Gap::Nothing, parts: 3, suffix: "", end: End::Anywhere }
}

/// The next step in analyzing an executable as Bun, given the outputs of the runs so far.
pub open spec fn analyze_spec(outputs: Seq<Seq<char>>) -> AnalyzeActionView {
    identify_and_query_spec(outputs, seq!["-h"@], "Bun is a fast JavaScript runtime"@, seq!["--version"@], version_pattern())
}

/// Where the versions of Bun come from.
pub open spec fn version_source_spec() -> VersionSourceView {
    releases("oven-sh", "bun", Some("bun-v"))
}

fn pattern() -> (p: VersionPattern)
    ensures
        p == version_pattern(),
{
    VersionPattern { start: Start::Anywhere, prefix: "", gap: Gap::Nothing, parts: 3, suffix: "", end: End::Anywhere }
}

/// Finds the version of Bun in the given output.
pub fn extract_version(output: &str) -> (r: Result<&str, UserError>)
    ensures
        captured(r, spec_first_capture(version_pattern(), output@)),
{
    first_capture(output, &pattern())
}

impl Bun {
    /// The name by which the user selects Bun.
    pub fn name(&self) -> (r: ApplicationName)
        ensures
            r@ == name_text(),
    {
        ApplicationName::from("bun")
    }

    /// The name of the Bun executable.
    pub fn executable_filename(&self) -> (r: ExecutableNameUnix)
        ensures
            r@ == executable_text(),
    {
        ExecutableNameUnix::from("bun")
    }

    /// The homepage of Bun.
    pub fn homepage(&self) -> (r: &'static str)
        ensures
            r@ == homepage_text(),
    {
        "https://github.com/oven-sh/bun"
    }

    /// The ways to install Bun `version` on `platform`.
    fn install_methods(&self, version: &Version, platform: Platform) -> (r: Vec<Method>)
        ensures
            methods_view(r@) == install_methods_spec(version@, platform),
    {
        let cpu = match platform.cpu { Cpu::Arm64 => "aarch64", Cpu::Intel64 => "x64" };
        let os = match platform.os { Os::Linux => "linux", Os::MacOS => "darwin", Os::Windows => "windows" };
        let mut url0 = String::from_str("https://github.com/oven-sh/bun/releases/download/bun-v");
        url0.append(version.as_str());
        url0.append("/bun-");
        url0.append(os);
        url0.append("-");
        url0.append(cpu);
        url0.append(".zip");
        let mut path0 = String::from_str("bun-");
        path0.append(os);
        path0.append("-");
        path0.append(cpu);
        one_method(Method::DownloadArchive { url: url0, bin_folder: BinFolder::Subfolder { path: path0 } })
    }

    /// How to run Bun `version` on `platform`.
    pub fn run_method(&self, version: &Version, platform: Platform) -> (r: RunMethod)
        ensures
            forall|sep: Seq<char>| r@ == run_method_spec(version@, platform, sep),
    {
        RunMethod::ThisApp { install_methods: self.install_methods(version, platform) }
    }

    /// Where the versions of Bun come from.
    pub fn version_source(&self) -> (r: VersionSource)
        ensures
            r@ == version_source_spec(),
    {
        VersionSource::GithubReleases { org: "oven-sh", repo: "bun", tag_prefix: Some("bun-v") }
    }

    /// The next step in analyzing an executable as Bun, given the outputs of the runs so far.
    pub fn analyze_step(&self, outputs: &Vec<String>) -> (r: AnalyzeAction)
        ensures
            r@ == analyze_spec(texts(outputs@)),
    {
        identify_and_query(outputs, args1("-h"), "Bun is a fast JavaScript runtime", args1("--version"), &pattern())
    }
}

} // verus!
