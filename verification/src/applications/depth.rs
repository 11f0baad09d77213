//! depth, a tool that visualizes the dependencies of Go packages.

use crate::applications::{AnalyzeAction, AnalyzeActionView, ApplicationName, args1, identify, identify_spec};
use crate::configuration::Version;
use crate::executables::{ExecutableNameUnix, RunMethod, RunMethodView};
use crate::hosting::{VersionSource, VersionSourceView, releases};
use crate::installation::{Method, MethodView, methods_view, texts, two_methods};
use crate::platform::{Cpu, Os, Platform};
use vstd::prelude::*;
use vstd::string::*;

verus! {

/// The depth application.
#[derive(Debug, Clone, Copy, PartialEq, Eq)]
pub struct Depth {}

/// The name of depth.
pub open spec fn name_text() -> Seq<char> {
    "depth"@
}

/// The name of the depth executable.
pub open spec fn executable_text() -> Seq<char> {
    name_text()
}

/// The homepage of depth.
pub open spec fn homepage_text() -> Seq<char> {
    "https://github.com/KyleBanks/depth"@
}

/// The ways to install depth `version` on `platform`.
pub open spec fn install_methods_spec(version: Seq<char>, platform: Platform) -> Seq<MethodView> {
    let cpu = match platform.cpu { Cpu::Arm64 => "aarch64"@, Cpu::Intel64 => "amd64"@ };
    let os = match platform.os { Os::Linux => "linux"@, Os::MacOS => "darwin"@, Os::Windows => "windows"@ };
    let ext = match platform.os { Os::Linux => ""@, Os::MacOS => ""@, Os::Windows => ".exe"@ };
    seq![
        MethodView::DownloadExecutable { url: "https://github.com/KyleBanks/depth/releases/download/v"@ + version + "/depth_"@ + version + "_"@ + os + "_"@ + cpu + ext },
        MethodView::CompileGoSource { import_path: "github.com/KyleBanks/depth/cmd/depth@v"@ + version },
    ]
}

/// How to run depth `version` on `platform` with path separator `sep`.
pub open spec fn run_method_spec(version: Seq<char>, platform: Platform, sep: Seq<char>) -> RunMethodView {
    RunMethodView::ThisApp { install_methods: install_methods_spec(version, platform) }
}

/// The next step in analyzing an executable as depth, given the outputs of the runs so far.
pub open spec fn analyze_spec(outputs: Seq<Seq<char>>) -> AnalyzeActionView {
    identify_spec(outputs, seq!["-h"@], "resolves dependencies of internal (stdlib) packages."@)
}

/// Where the versions of depth come from.
pub open spec fn version_source_spec() -> VersionSourceView {
    releases("KyleBanks", "depth", None)
}

impl Depth {
    /// The name by which the user selects depth.
    pub fn name(&self) -> (r: ApplicationName)
        ensures
            r@ == name_text(),
    {
        ApplicationName::from("depth")
    }

    /// The name of the depth executable.
    pub fn executable_filename(&self) -> (r: ExecutableNameUnix)
        ensures
            r@ == executable_text(),
    {
        ExecutableNameUnix::from("depth")
    }

    /// The homepage of depth.
    pub fn homepage(&self) -> (r: &'static str)
        ensures
            r@ == homepage_text(),
    {
        "https://github.com/KyleBanks/depth"
    }

    /// The ways to install depth `version` on `platform`.
    fn install_methods(&self, version: &Version, platform: Platform) -> (r: Vec<Method>)
        ensures
            methods_view(r@) == install_methods_spec(version@, platform),
    {
        let cpu = match platform.cpu { Cpu::Arm64 => "aarch64", Cpu::Intel64 => "amd64" };
        let os = match platform.os { Os::Linux => "linux", Os::MacOS => "darwin", Os::Windows => "windows" };
        let ext = match platform.os { Os::Linux => "", Os::MacOS => "", Os::Windows => ".exe" };
        let mut url0 = String::from_str("https://github.com/KyleBanks/depth/releases/download/v");
        url0.append(version.as_str());
        url0.append("/depth_");
        url0.append(version.as_str());
        url0.append("_");
        url0.append(os);
        url0.append("_");
        url0.append(cpu);
        url0.append(ext);
        let mut import_path1 = String::from_str("github.com/KyleBanks/depth/cmd/depth@v");
        import_path1.append(version.as_str());
        two_methods(Method::DownloadExecutable { url: url0 }, Method::CompileGoSource { import_path: import_path1 })
    }

    /// How to run depth `version` on `platform`.
    pub fn run_method(&self, version: &Version, platform: Platform) -> (r: RunMethod)
        ensures
            forall|sep: Seq<char>| r@ == run_method_spec(version@, platform, sep),
    {
        RunMethod::ThisApp { install_methods: self.install_methods(version, platform) }
    }

    /// Where the versions of depth come from.
    pub fn version_source(&self) -> (r: VersionSource)
        ensures
            r@ == version_source_spec(),
    {
        VersionSource::GithubReleases { org: "KyleBanks", repo: "depth", tag_prefix: None }
    }

    /// The next step in analyzing an executable as depth, given the outputs of the runs so far.
    pub fn analyze_step(&self, outputs: &Vec<String>) -> (r: AnalyzeAction)
        ensures
            r@ == analyze_spec(texts(outputs@)),
    {
        identify(outputs, args1("-h"), "resolves dependencies of internal (stdlib) packages.")
    }
}

} // verus!
