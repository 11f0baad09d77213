//! Staticcheck, a linter for Go.

use crate::applications::{AnalyzeAction, AnalyzeActionView, ApplicationName, args1, identify, identify_spec};
use crate::configuration::Version;
use crate::executables::{ExecutableNameUnix, RunMethod, RunMethodView};
use crate::hosting::{VersionSource, VersionSourceView, releases};
use crate::installation::{BinFolder, BinFolderView, Method, MethodView, methods_view, texts, two_methods};
use crate::platform::{Cpu, Os, Platform};
use vstd::prelude::*;
use vstd::string::*;

verus! {

/// The Staticcheck application.
#[derive(Debug, Clone, Copy, PartialEq, Eq)]
pub struct StaticCheck {}

/// The name of Staticcheck.
pub open spec fn name_text() -> Seq<char> {
    "staticcheck"@
}

/// The name of the Staticcheck executable.
pub open spec fn executable_text() -> Seq<char> {
    name_text()
}

/// The homepage of Staticcheck.
pub open spec fn homepage_text() -> Seq<char> {
    "https://staticcheck.dev"@
}

/// The ways to install Staticcheck `version` on `platform`.
pub open spec fn install_methods_spec(version: Seq<char>, platform: Platform) -> Seq<MethodView> {
    let os = match platform.os { Os::Linux => "linux"@, Os::MacOS => "darwin"@, Os::Windows => "windows"@ };
    let cpu = match platform.cpu { Cpu::Arm64 => "arm64"@, Cpu::Intel64 => "amd64"@ };
    seq![
        MethodView::DownloadArchive { url: "https://github.com/dominikh/go-tools/releases/download/"@ + version + "/staticcheck_"@ + os + "_"@ + cpu + ".tar.gz"@, bin_folder: BinFolderView::Subfolder { path: "staticcheck"@ } },
        MethodView::CompileGoSource { import_path: "honnef.co/go/tools/cmd/staticcheck@"@ + version },
    ]
}

/// How to run Staticcheck `version` on `platform` with path separator `sep`.
pub open spec fn run_method_spec(version: Seq<char>, platform: Platform, sep: Seq<char>) -> RunMethodView {
    RunMethodView::ThisApp { install_methods: install_methods_spec(version, platform) }
}

/// The next step in analyzing an executable as Staticcheck, given the outputs of the runs so far.
pub open spec fn analyze_spec(outputs: Seq<Seq<char>>) -> AnalyzeActionView {
    identify_spec(outputs, seq!["-h"@], "Usage: staticcheck [flags] [packages]"@)
}

/// Where the versions of Staticcheck come from.
pub open spec fn version_source_spec() -> VersionSourceView {
    releases("dominikh", "go-tools", None)
}

impl StaticCheck {
    /// The name by which the user selects Staticcheck.
    pub fn name(&self) -> (r: ApplicationName)
        ensures
            r@ == name_text(),
    {
        ApplicationName::from("staticcheck")
    }

    /// The name of the Staticcheck executable.
    pub fn executable_filename(&self) -> (r: ExecutableNameUnix)
        ensures
            r@ == executable_text(),
    {
        ExecutableNameUnix::from("staticcheck")
    }

    /// The homepage of Staticcheck.
    pub fn homepage(&self) -> (r: &'static str)
        ensures
            r@ == homepage_text(),
    {
        "https://staticcheck.dev"
    }

    /// The ways to install Staticcheck `version` on `platform`.
    fn install_methods(&self, version: &Version, platform: Platform) -> (r: Vec<Method>)
        ensures
            methods_view(r@) == install_methods_spec(version@, platform),
    {
        let os = match platform.os { Os::Linux => "linux", Os::MacOS => "darwin", Os::Windows => "windows" };
        let cpu = match platform.cpu { Cpu::Arm64 => "arm64", Cpu::Intel64 => "amd64" };
        let mut url0 = String::from_str("https://github.com/dominikh/go-tools/releases/download/");
        url0.append(version.as_str());
        url0.append("/staticcheck_");
        url0.append(os);
        url0.append("_");
        url0.append(cpu);
        url0.append(".tar.gz");
        let path0 = String::from_str("staticcheck");
        let mut import_path1 = String::from_str("honnef.co/go/tools/cmd/staticcheck@");
        import_path1.append(version.as_str());
        two_methods(Method::DownloadArchive { url: url0, bin_folder: BinFolder::Subfolder { path: path0 } }, Method::CompileGoSource { import_path: import_path1 })
    }

    /// How to run Staticcheck `version` on `platform`.
    pub fn run_method(&self, version: &Version, platform: Platform) -> (r: RunMethod)
        ensures
            forall|sep: Seq<char>| r@ == run_method_spec(version@, platform, sep),
    {
        RunMethod::ThisApp { install_methods: self.install_methods(version, platform) }
    }

    /// Where the versions of Staticcheck come from.
    pub fn version_source(&self) -> (r: VersionSource)
        ensures
            r@ == version_source_spec(),
    {
        VersionSource::GithubReleases { org: "dominikh", repo: "go-tools", tag_prefix: None }
    }

    /// The next step in analyzing an executable as Staticcheck, given the outputs of the runs so far.
    pub fn analyze_step(&self, outputs: &Vec<String>) -> (r: AnalyzeAction)
        ensures
            r@ == analyze_spec(texts(outputs@)),
    {
        identify(outputs, args1("-h"), "Usage: staticcheck [flags] [packages]")
    }
}

} // verus!
