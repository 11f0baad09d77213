//! ghokin, a formatter for Gherkin files.

use crate::applications::{AnalyzeAction, AnalyzeActionView, ApplicationName, args1, identify, identify_spec};
use crate::configuration::Version;
use crate::executables::{ExecutableNameUnix, RunMethod, RunMethodView};
use crate::hosting::{VersionSource, VersionSourceView, releases};
use crate::installation::{BinFolder, BinFolderView, Method, MethodView, methods_view, texts, two_methods};
use crate::platform::{Cpu, Os, Platform};
use vstd::prelude::*;
use vstd::string::*;

verus! {

/// The ghokin application.
#[derive(Debug, Clone, Copy, PartialEq, Eq)]
pub struct Ghokin {}

/// The name of ghokin.
pub open spec fn name_text() -> Seq<char> {
    "ghokin"@
}

/// The name of the ghokin executable.
pub open spec fn executable_text() -> Seq<char> {
    name_text()
}

/// The homepage of ghokin.
pub open spec fn homepage_text() -> Seq<char> {
    "https://github.com/antham/ghokin"@
}

/// The ways to install ghokin `version` on `platform`.
pub open spec fn install_methods_spec(version: Seq<char>, platform: Platform) -> Seq<MethodView> {
    let cpu = match platform.cpu { Cpu::Arm64 => "arm64"@, Cpu::Intel64 => "amd64"@ };
    let os = match platform.os { Os::Linux => "linux"@, Os::MacOS => "darwin"@, Os::Windows => "windows"@ };
    seq![
        MethodView::DownloadArchive { url: "https://github.com/antham/ghokin/releases/download/v"@ + version + "/ghokin_"@ + version + "_"@ + os + "_"@ + cpu + ".tar.gz"@, bin_folder: BinFolderView::Root },
        MethodView::CompileGoSource { import_path: "github.com/antham/ghokin/v3@v"@ + version },
    ]
}

/// How to run ghokin `version` on `platform` with path separator `sep`.
pub open spec fn run_method_spec(version: Seq<char>, platform: Platform, sep: Seq<char>) -> RunMethodView {
    RunMethodView::ThisApp { install_methods: install_methods_spec(version, platform) }
}

/// The next step in analyzing an executable as ghokin, given the outputs of the runs so far.
pub open spec fn analyze_spec(outputs: Seq<Seq<char>>) -> AnalyzeActionView {
    identify_spec(outputs, seq!["-h"@], "Clean and/or apply transformation on gherkin files"@)
}

/// Where the versions of ghokin come from.
pub open spec fn version_source_spec() -> VersionSourceView {
    releases("antham", "ghokin", None)
}

impl Ghokin {
    /// The name by which the user selects ghokin.
    pub fn name(&self) -> (r: ApplicationName)
        ensures
            r@ == name_text(),
    {
        ApplicationName::from("ghokin")
    }

    /// The name of the ghokin executable.
    pub fn executable_filename(&self) -> (r: ExecutableNameUnix)
        ensures
            r@ == executable_text(),
    {
        ExecutableNameUnix::from("ghokin")
    }

    /// The homepage of ghokin.
    pub fn homepage(&self) -> (r: &'static str)
        ensures
            r@ == homepage_text(),
    {
        "https://github.com/antham/ghokin"
    }

    /// The ways to install ghokin `version` on `platform`.
    fn install_methods(&self, version: &Version, platform: Platform) -> (r: Vec<Method>)
        ensures
            methods_view(r@) == install_methods_spec(version@, platform),
    {
        let cpu = match platform.cpu { Cpu::Arm64 => "arm64", Cpu::Intel64 => "amd64" };
        let os = match platform.os { Os::Linux => "linux", Os::MacOS => "darwin", Os::Windows => "windows" };
        let mut url0 = String::from_str("https://github.com/antham/ghokin/releases/download/v");
        url0.append(version.as_str());
        url0.append("/ghokin_");
        url0.append(version.as_str());
        url0.append("_");
        url0.append(os);
        url0.append("_");
        url0.append(cpu);
        url0.append(".tar.gz");
        let mut import_path1 = String::from_str("github.com/antham/ghokin/v3@v");
        import_path1.append(version.as_str());
        two_methods(Method::DownloadArchive { url: url0, bin_folder: BinFolder::Root }, Method::CompileGoSource { import_path: import_path1 })
    }

    /// How to run ghokin `version` on `platform`.
    pub fn run_method(&self, version: &Version, platform: Platform) -> (r: RunMethod)
        ensures
            forall|sep: Seq<char>| r@ == run_method_spec(version@, platform, sep),
    {
        RunMethod::ThisApp { install_methods: self.install_methods(version, platform) }
    }

    /// Where the versions of ghokin come from.
    pub fn version_source(&self) -> (r: VersionSource)
        ensures
            r@ == version_source_spec(),
    {
        VersionSource::GithubReleases { org: "antham", repo: "ghokin", tag_prefix: None }
    }

    /// The next step in analyzing an executable as ghokin, given the outputs of the runs so far.
    pub fn analyze_step(&self, outputs: &Vec<String>) -> (r: AnalyzeAction)
        ensures
            r@ == analyze_spec(texts(outputs@)),
    {
        identify(outputs, args1("-h"), "Clean and/or apply transformation on gherkin files")
    }
}

} // verus!
