//! Pyrefly, a type checker for Python.

use crate::applications::{AnalyzeAction, AnalyzeActionView, ApplicationName, args1, identify_and_query, identify_and_query_spec};
use crate::configuration::{TagFormat, Version, tag_of};
use crate::executables::{ExecutableNameUnix, RunMethod, RunMethodView};
use crate::hosting::{VersionSource, VersionSourceView, releases};
use crate::installation::{BinFolder, BinFolderView, Method, MethodView, methods_view, one_method, texts};
use crate::platform::{Cpu, Os, Platform};
use crate::regexp::{any_version, any_version_pattern};
use vstd::prelude::*;
use vstd::string::*;

verus! {

/// The Pyrefly application.
#[derive(Debug, Clone, Copy, PartialEq, Eq)]
pub struct Pyrefly {}

/// The name of Pyrefly.
pub open spec fn name_text() -> Seq<char> {
    "pyrefly"@
}

/// The name of the Pyrefly executable.
pub open spec fn executable_text() -> Seq<char> {
    name_text()
}

/// The homepage of Pyrefly.
pub open spec fn homepage_text() -> Seq<char> {
    "https://pyrefly.org"@
}

/// The ways to install Pyrefly `version` on `platform`.
pub open spec fn install_methods_spec(version: Seq<char>, platform: Platform) -> Seq<MethodView> {
    let cpu = match platform.cpu { Cpu::Arm64 => "arm64"@, Cpu::Intel64 => "x86_64"@ };
    let os = match platform.os { Os::Linux => "linux"@, Os::MacOS => "macos"@, Os::Windows => "windows"@ };
    let ext = match platform.os { Os::Linux => "tar.gz"@, Os::MacOS => "tar.gz"@, Os::Windows => "zip"@ };
    seq![
        MethodView::DownloadArchive { url: "https://github.com/facebook/pyrefly/releases/download/"@ + tag_of(TagFormat::Plain, version) + "/pyrefly-"@ + os + "-"@ + cpu + "."@ + ext, bin_folder: BinFolderView::Root },
    ]
}

/// How to run Pyrefly `version` on `platform` with path separator `sep`.
pub open spec fn run_method_spec(version: Seq<char>, platform: Platform, sep: Seq<char>) -> RunMethodView {
    RunMethodView::ThisApp { install_methods: install_methods_spec(version, platform) }
}

/// The next step in analyzing an executable as Pyrefly, given the outputs of the runs so far.
pub open spec fn analyze_spec(outputs: Seq<Seq<char>>) -> AnalyzeActionView {
    identify_and_query_spec(outputs, seq!["-h"@], "A fast Python type checker"@, seq!["--version"@], any_version_pattern())
}

/// Where the versions of Pyrefly come from.
pub open spec fn version_source_spec() -> VersionSourceView {
    releases("facebook", "pyrefly", Some(""))
}

impl Pyrefly {
    /// The name by which the user selects Pyrefly.
    pub fn name(&self) -> (r: ApplicationName)
        ensures
            r@ == name_text(),
    {
        ApplicationName::from("pyrefly")
    }

    /// The name of the Pyrefly executable.
    pub fn executable_filename(&self) -> (r: ExecutableNameUnix)
        ensures
            r@ == executable_text(),
    {
        ExecutableNameUnix::from("pyrefly")
    }

    /// The homepage of Pyrefly.
    pub fn homepage(&self) -> (r: &'static str)
        ensures
            r@ == homepage_text(),
    {
        "https://pyrefly.org"
    }

    /// How the release tags of Pyrefly spell its versions.
    pub fn tag_format(&self) -> (r: TagFormat)
        ensures
            r == TagFormat::Plain,
    {
        TagFormat::Plain
    }

    /// The ways to install Pyrefly `version` on `platform`.
    fn install_methods(&self, version: &Version, platform: Platform) -> (r: Vec<Method>)
        ensures
            methods_view(r@) == install_methods_spec(version@, platform),
    {
        let cpu = match platform.cpu { Cpu::Arm64 => "arm64", Cpu::Intel64 => "x86_64" };
        let os = match platform.os { Os::Linux => "linux", Os::MacOS => "macos", Os::Windows => "windows" };
        let ext = match platform.os { Os::Linux => "tar.gz", Os::MacOS => "tar.gz", Os::Windows => "zip" };
        let tag = TagFormat::Plain.format_version(version);
        let mut url0 = String::from_str("https://github.com/facebook/pyrefly/releases/download/");
        url0.append(tag.as_str());
        url0.append("/pyrefly-");
        url0.append(os);
        url0.append("-");
        url0.append(cpu);
        url0.append(".");
        url0.append(ext);
        one_method(Method::DownloadArchive { url: url0, bin_folder: BinFolder::Root })
    }

    /// How to run Pyrefly `version` on `platform`.
    pub fn run_method(&self, version: &Version, platform: Platform) -> (r: RunMethod)
        ensures
            forall|sep: Seq<char>| r@ == run_method_spec(version@, platform, sep),
    {
        RunMethod::ThisApp { install_methods: self.install_methods(version, platform) }
    }

    /// Where the versions of Pyrefly come from.
    pub fn version_source(&self) -> (r: VersionSource)
        ensures
            r@ == version_source_spec(),
    {
        VersionSource::GithubReleases { org: "facebook", repo: "pyrefly", tag_prefix: Some("") }
    }

    /// The next step in analyzing an executable as Pyrefly, given the outputs of the runs so far.
    pub fn analyze_step(&self, outputs: &Vec<String>) -> (r: AnalyzeAction)
        ensures
            r@ == analyze_spec(texts(outputs@)),
    {
        identify_and_query(outputs, args1("-h"), "A fast Python type checker", args1("--version"), &any_version())
    }
}

} // verus!
