//! ireturn, a Go linter that checks that functions return concrete types.

use crate::applications::{AnalyzeAction, AnalyzeActionView, ApplicationName, args1, identify, identify_spec};
use crate::configuration::Version;
use crate::executables::{ExecutableNameUnix, RunMethod, RunMethodView, platform_file_name};
use crate::hosting::{VersionSource, VersionSourceView, releases};
use crate::installation::{Method, MethodView, methods_view, texts, two_methods};
use crate::platform::{Cpu, Os, Platform};
use vstd::prelude::*;
use vstd::string::*;

verus! {

/// The ireturn application.
#[derive(Debug, Clone, Copy, PartialEq, Eq)]
pub struct Ireturn {}

/// The name of ireturn.
pub open spec fn name_text() -> Seq<char> {
    "ireturn"@
}

/// The name of the ireturn executable.
pub open spec fn executable_text() -> Seq<char> {
    name_text()
}

/// The homepage of ireturn.
pub open spec fn homepage_text() -> Seq<char> {
    "https://github.com/butuzov/ireturn"@
}

/// The ways to install ireturn `version` on `platform`.
pub open spec fn install_methods_spec(version: Seq<char>, platform: Platform) -> Seq<MethodView> {
    let os = match platform.os { Os::Linux => "linux"@, Os::MacOS => "darwin"@, Os::Windows => "windows"@ };
    let cpu = match platform.cpu { Cpu::Arm64 => "arm64"@, Cpu::Intel64 => "x86_64"@ };
    let ext = match platform.os { Os::Linux => "tar.gz"@, Os::MacOS => "tar.gz"@, Os::Windows => "zip"@ };
    seq![
        MethodView::DownloadArchiveFile { url: "https://github.com/butuzov/ireturn/releases/download/v"@ + version + "/ireturn_"@ + os + "_"@ + cpu + "."@ + ext, path_in_archive: platform_file_name("ireturn"@, platform.os == Os::Windows) },
        MethodView::CompileGoSource { import_path: "github.com/butuzov/ireturn/cmd/ireturn@v"@ + version },
    ]
}

/// How to run ireturn `version` on `platform` with path separator `sep`.
pub open spec fn run_method_spec(version: Seq<char>, platform: Platform, sep: Seq<char>) -> RunMethodView {
    RunMethodView::ThisApp { install_methods: install_methods_spec(version, platform) }
}

/// The next step in analyzing an executable as ireturn, given the outputs of the runs so far.
pub open spec fn analyze_spec(outputs: Seq<Seq<char>>) -> AnalyzeActionView {
    identify_spec(outputs, seq!["-h"@], "ireturn: Accept Interfaces, Return Concrete Types"@)
}

/// Where the versions of ireturn come from.
pub open spec fn version_source_spec() -> VersionSourceView {
    releases("butuzov", "ireturn", None)
}

impl Ireturn {
    /// The name by which the user selects ireturn.
    pub fn name(&self) -> (r: ApplicationName)
        ensures
            r@ == name_text(),
    {
        ApplicationName::from("ireturn")
    }

    /// The name of the ireturn executable.
    pub fn executable_filename(&self) -> (r: ExecutableNameUnix)
        ensures
            r@ == executable_text(),
    {
        ExecutableNameUnix::from("ireturn")
    }

    /// The homepage of ireturn.
    pub fn homepage(&self) -> (r: &'static str)
        ensures
            r@ == homepage_text(),
    {
        "https://github.com/butuzov/ireturn"
    }

    /// The ways to install ireturn `version` on `platform`.
    pub fn run_methods(&self, version: &Version, platform: Platform) -> (r: Vec<Method>)
        ensures
            methods_view(r@) == install_methods_spec(version@, platform),
    {
        let os = match platform.os { Os::Linux => "linux", Os::MacOS => "darwin", Os::Windows => "windows" };
        let cpu = match platform.cpu { Cpu::Arm64 => "arm64", Cpu::Intel64 => "x86_64" };
        let ext = match platform.os { Os::Linux => "tar.gz", Os::MacOS => "tar.gz", Os::Windows => "zip" };
        let mut url0 = String::from_str("https://github.com/butuzov/ireturn/releases/download/v");
        url0.append(version.as_str());
        url0.append("/ireturn_");
        url0.append(os);
        url0.append("_");
        url0.append(cpu);
        url0.append(".");
        url0.append(ext);
        let mut import_path1 = String::from_str("github.com/butuzov/ireturn/cmd/ireturn@v");
        import_path1.append(version.as_str());
        two_methods(Method::DownloadArchiveFile { url: url0, path_in_archive: ExecutableNameUnix::from("ireturn").platform_path(platform.os) }, Method::CompileGoSource { import_path: import_path1 })
    }

    /// How to run ireturn `version` on `platform`.
    pub fn run_method(&self, version: &Version, platform: Platform) -> (r: RunMethod)
        ensures
            forall|sep: Seq<char>| r@ == run_method_spec(version@, platform, sep),
    {
        RunMethod::ThisApp { install_methods: self.run_methods(version, platform) }
    }

    /// Where the versions of ireturn come from.
    pub fn version_source(&self) -> (r: VersionSource)
        ensures
            r@ == version_source_spec(),
    {
        VersionSource::GithubReleases { org: "butuzov", repo: "ireturn", tag_prefix: None }
    }

    /// The next step in analyzing an executable as ireturn, given the outputs of the runs so far.
    pub fn analyze_step(&self, outputs: &Vec<String>) -> (r: AnalyzeAction)
        ensures
            r@ == analyze_spec(texts(outputs@)),
    {
        identify(outputs, args1("-h"), "ireturn: Accept Interfaces, Return Concrete Types")
    }
}

} // verus!
