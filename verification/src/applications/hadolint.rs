//! hadolint, a linter for Dockerfiles.

use crate::applications::{AnalyzeAction, AnalyzeActionView, ApplicationName, args1, identify_and_query, identify_and_query_spec};
use crate::configuration::{TagFormat, Version, tag_of};
use crate::executables::{ExecutableNameUnix, RunMethod, RunMethodView};
use crate::hosting::{VersionSource, VersionSourceView, releases};
use crate::installation::{Method, MethodView, methods_view, one_method, texts};
use crate::platform::{Cpu, Os, Platform};
use crate::regexp::{any_version, any_version_pattern};
use vstd::prelude::*;
use vstd::string::*;

verus! {

/// The hadolint application.
#[derive(Debug, Clone, Copy, PartialEq, Eq)]
pub struct Hadolint {}

/// The name of hadolint.
pub open spec fn name_text() -> Seq<char> {
    "hadolint"@
}

/// The name of the hadolint executable.
pub open spec fn executable_text() -> Seq<char> {
    name_text()
}

/// The homepage of hadolint.
pub open spec fn homepage_text() -> Seq<char> {
    "https://github.com/hadolint/hadolint"@
}

/// The ways to install hadolint `version` on `platform`.
pub open spec fn install_methods_spec(version: Seq<char>, platform: Platform) -> Seq<MethodView> {
    let os = match platform.os { Os::Linux => "linux"@, Os::MacOS => "macos"@, Os::Windows => "windows"@ };
    let cpu = match platform.cpu { Cpu::Arm64 => "arm64"@, Cpu::Intel64 => "x86_64"@ };
    let ext = match platform.os { Os::Linux => ""@, Os::MacOS => ""@, Os::Windows => ".exe"@ };
    seq![
        MethodView::DownloadExecutable { url: "https://github.com/hadolint/hadolint/releases/download/"@ + tag_of(TagFormat::PrefixV, version) + "/hadolint-"@ + os + "-"@ + cpu + ext },
    ]
}

/// How to run hadolint `version` on `platform` with path separator `sep`.
pub open spec fn run_method_spec(version: Seq<char>, platform: Platform, sep: Seq<char>) -> RunMethodView {
    RunMethodView::ThisApp { install_methods: install_methods_spec(version, platform) }
}

/// The next step in analyzing an executable as hadolint, given the outputs of the runs so far.
pub open spec fn analyze_spec(outputs: Seq<Seq<char>>) -> AnalyzeActionView {
    identify_and_query_spec(outputs, seq!["-h"@], "Dockerfile Linter written in Haskell"@, seq!["--version"@], any_version_pattern())
}

/// Where the versions of hadolint come from.
pub open spec fn version_source_spec() -> VersionSourceView {
    releases("hadolint", "hadolint", Some("v"))
}

impl Hadolint {
    /// The name by which the user selects hadolint.
    pub fn name(&self) -> (r: ApplicationName)
        ensures
            r@ == name_text(),
    {
        ApplicationName::from("hadolint")
    }

    /// The name of the hadolint executable.
    pub fn executable_filename(&self) -> (r: ExecutableNameUnix)
        ensures
            r@ == executable_text(),
    {
        ExecutableNameUnix::from("hadolint")
    }

    /// The homepage of hadolint.
    pub fn homepage(&self) -> (r: &'static str)
        ensures
            r@ == homepage_text(),
    {
        "https://github.com/hadolint/hadolint"
    }

    /// How the release tags of hadolint spell its versions.
    pub fn tag_format(&self) -> (r: TagFormat)
        ensures
            r == TagFormat::PrefixV,
    {
        TagFormat::PrefixV
    }

    /// The ways to install hadolint `version` on `platform`.
    fn install_methods(&self, version: &Version, platform: Platform) -> (r: Vec<Method>)
        ensures
            methods_view(r@) == install_methods_spec(version@, platform),
    {
        let os = match platform.os { Os::Linux => "linux", Os::MacOS => "macos", Os::Windows => "windows" };
        let cpu = match platform.cpu { Cpu::Arm64 => "arm64", Cpu::Intel64 => "x86_64" };
        let ext = match platform.os { Os::Linux => "", Os::MacOS => "", Os::Windows => ".exe" };
        let tag = TagFormat::PrefixV.format_version(version);
        let mut url0 = String::from_str("https://github.com/hadolint/hadolint/releases/download/");
        url0.append(tag.as_str());
        url0.append("/hadolint-");
        url0.append(os);
        url0.append("-");
        url0.append(cpu);
        url0.append(ext);
        one_method(Method::DownloadExecutable { url: url0 })
    }

    /// How to run hadolint `version` on `platform`.
    pub fn run_method(&self, version: &Version, platform: Platform) -> (r: RunMethod)
        ensures
            forall|sep: Seq<char>| r@ == run_method_spec(version@, platform, sep),
    {
        RunMethod::ThisApp { install_methods: self.install_methods(version, platform) }
    }

    /// Where the versions of hadolint come from.
    pub fn version_source(&self) -> (r: VersionSource)
        ensures
            r@ == version_source_spec(),
    {
        VersionSource::GithubReleases { org: "hadolint", repo: "hadolint", tag_prefix: Some("v") }
    }

    /// The next step in analyzing an executable as hadolint, given the outputs of the runs so far.
    pub fn analyze_step(&self, outputs: &Vec<String>) -> (r: AnalyzeAction)
        ensures
            r@ == analyze_spec(texts(outputs@)),
    {
        identify_and_query(outputs, args1("-h"), "Dockerfile Linter written in Haskell", args1("--version"), &any_version())
    }
}

} // verus!
