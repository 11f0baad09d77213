//! rclone, a tool that syncs files with cloud storage.

use crate::applications::{AnalyzeAction, AnalyzeActionView, ApplicationName, args1, captured, identify_and_query, identify_and_query_spec};
use crate::configuration::{TagFormat, Version, tag_of};
use crate::error::UserError;
use crate::executables::{ExecutableNameUnix, RunMethod, RunMethodView};
use crate::hosting::{VersionSource, VersionSourceView, releases};
use crate::installation::{BinFolder, BinFolderView, Method, MethodView, methods_view, one_method, texts};
use crate::platform::{Cpu, Os, Platform};
use crate::regexp::{End, Gap, Start, VersionPattern, first_capture, spec_first_capture};
use vstd::prelude::*;
use vstd::string::*;

verus! {

/// The rclone application.
#[derive(Debug, Clone, Copy, PartialEq, Eq)]
pub struct Rclone {}

/// The name of rclone.
pub open spec fn name_text() -> Seq<char> {
    "rclone"@
}

/// The name of the rclone executable.
pub open spec fn executable_text() -> Seq<char> {
    name_text()
}

/// The homepage of rclone.
pub open spec fn homepage_text() -> Seq<char> {
    "https://rclone.org"@
}

/// The ways to install rclone `version` on `platform`.
pub open spec fn install_methods_spec(version: Seq<char>, platform: Platform) -> Seq<MethodView> {
    let os = match platform.os { Os::Linux => "linux"@, Os::MacOS => "osx"@, Os::Windows => "windows"@ };
    let cpu = match platform.cpu { Cpu::Arm64 => "arm64"@, Cpu::Intel64 => "amd64"@ };
    seq![
        MethodView::DownloadArchive { url: "https://github.com/rclone/rclone/releases/download/"@ + tag_of(TagFormat::PrefixV, version) + "/rclone-v"@ + version + "-"@ + os + "-"@ + cpu + ".zip"@, bin_folder: BinFolderView::Subfolder { path: "rclone-v"@ + version + "-"@ + os + "-"@ + cpu } },
    ]
}

/// How to run rclone `version` on `platform` with path separator `sep`.
pub open spec fn run_method_spec(version: Seq<char>, platform: Platform, sep: Seq<char>) -> RunMethodView {
    RunMethodView::ThisApp { install_methods: install_methods_spec(version, platform) }
}

/// The pattern that finds the version in the output of rclone.
pub open spec fn version_pattern() -> VersionPattern {
    VersionPattern { start: Start::Anywhere, prefix: "rclone v", gap: Gap::Nothing, parts: 3, suffix: "", end: End::Anywhere }
}

/// The next step in analyzing an executable as rclone, given the outputs of the runs so far.
pub open spec fn analyze_spec(outputs: Seq<Seq<char>>) -> AnalyzeActionView {
    identify_and_query_spec(outputs, seq!["-h"@], "Rclone syncs files to and from cloud storage providers"@, seq!["version"@], version_pattern())
}

/// Where the versions of rclone come from.
pub open spec fn version_source_spec() -> VersionSourceView {
    releases("rclone", "rclone", Some("v"))
}

fn pattern() -> (p: VersionPattern)
    ensures
        p == version_pattern(),
{
    VersionPattern { start: Start::Anywhere, prefix: "rclone v", gap: Gap::Nothing, parts: 3, suffix: "", end: End::Anywhere }
}

/// Finds the version of rclone in the given output.
pub fn extract_version(output: &str) -> (r: Result<&str, UserError>)
    ensures
        captured(r, spec_first_capture(version_pattern(), output@)),
{
    first_capture(output, &pattern())
}

impl Rclone {
    /// The name by which the user selects rclone.
    pub fn name(&self) -> (r: ApplicationName)
        ensures
            r@ == name_text(),
    {
        ApplicationName::from("rclone")
    }

    /// The name of the rclone executable.
    pub fn executable_filename(&self) -> (r: ExecutableNameUnix)
        ensures
            r@ == executable_text(),
    {
        ExecutableNameUnix::from("rclone")
    }

    /// The homepage of rclone.
    pub fn homepage(&self) -> (r: &'static str)
        ensures
            r@ == homepage_text(),
    {
        "https://rclone.org"
    }

    /// How the release tags of rclone spell its versions.
    pub fn tag_format(&self) -> (r: TagFormat)
        ensures
            r == TagFormat::PrefixV,
    {
        TagFormat::PrefixV
    }

    /// The ways to install rclone `version` on `platform`.
    fn install_methods(&self, version: &Version, platform: Platform) -> (r: Vec<Method>)
        ensures
            methods_view(r@) == install_methods_spec(version@, platform),
    {
        let os = match platform.os { Os::Linux => "linux", Os::MacOS => "osx", Os::Windows => "windows" };
        let cpu = match platform.cpu { Cpu::Arm64 => "arm64", Cpu::Intel64 => "amd64" };
        let tag = TagFormat::PrefixV.format_version(version);
        let mut url0 = String::from_str("https://github.com/rclone/rclone/releases/download/");
        url0.append(tag.as_str());
        url0.append("/rclone-v");
        url0.append(version.as_str());
        url0.append("-");
        url0.append(os);
        url0.append("-");
        url0.append(cpu);
        url0.append(".zip");
        let mut path0 = String::from_str("rclone-v");
        path0.append(version.as_str());
        path0.append("-");
        path0.append(os);
        path0.append("-");
        path0.append(cpu);
        one_method(Method::DownloadArchive { url: url0, bin_folder: BinFolder::Subfolder { path: path0 } })
    }

    /// How to run rclone `version` on `platform`.
    pub fn run_method(&self, version: &Version, platform: Platform) -> (r: RunMethod)
        ensures
            forall|sep: Seq<char>| r@ == run_method_spec(version@, platform, sep),
    {
        RunMethod::ThisApp { install_methods: self.install_methods(version, platform) }
    }

    /// Where the versions of rclone come from.
    pub fn version_source(&self) -> (r: VersionSource)
        ensures
            r@ == version_source_spec(),
    {
        VersionSource::GithubReleases { org: "rclone", repo: "rclone", tag_prefix: Some("v") }
    }

    /// The next step in analyzing an executable as rclone, given the outputs of the runs so far.
    pub fn analyze_step(&self, outputs: &Vec<String>) -> (r: AnalyzeAction)
        ensures
            r@ == analyze_spec(texts(outputs@)),
    {
        identify_and_query(outputs, args1("-h"), "Rclone syncs files to and from cloud storage providers", args1("version"), &pattern())
    }
}

} // verus!
