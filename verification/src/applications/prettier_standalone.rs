//! prettier-standalone, Prettier packaged as a single executable.

use crate::applications::{AnalyzeAction, AnalyzeActionView, Application, ApplicationName, args1, carrier_spec, identify, identify_spec};
use crate::configuration::{TagFormat, Version, tag_of};
use crate::executables::{ExecutableArgs, ExecutableNameUnix, RunMethod, RunMethodView};
use crate::hosting::{VersionSource, VersionSourceView, releases};
use crate::installation::{BinFolder, BinFolderView, Method, MethodView, methods_view, one_method, texts};
use crate::platform::{Cpu, Os, Platform};
use vstd::prelude::*;
use vstd::string::*;

verus! {

/// The prettier-standalone application.
#[derive(Debug, Clone, Copy, PartialEq, Eq)]
pub struct PrettierStandalone {}

/// The name of prettier-standalone.
pub open spec fn name_text() -> Seq<char> {
    "prettier-standalone"@
}

/// The name of the prettier-standalone executable.
pub open spec fn executable_text() -> Seq<char> {
    "prettier"@
}

/// The homepage of prettier-standalone.
pub open spec fn homepage_text() -> Seq<char> {
    "https://github.com/markelliot/prettier-standalone"@
}

/// The ways to install prettier-standalone `version` on `platform`.
pub open spec fn install_methods_spec(version: Seq<char>, platform: Platform) -> Seq<MethodView> {
    let cpu = match platform.cpu { Cpu::Arm64 => "arm64"@, Cpu::Intel64 => "amd64"@ };
    let os = match platform.os { Os::Linux => "linux"@, Os::MacOS => "darwin"@, Os::Windows => "windows"@ };
    seq![
        MethodView::DownloadArchive { url: "https://github.com/markelliot/prettier-standalone/releases/download/"@ + tag_of(TagFormat::Plain, version) + "/prettier-"@ + os + "-"@ + cpu + "-"@ + version + ".tar.gz"@, bin_folder: BinFolderView::Root },
    ]
}

/// How to run prettier-standalone `version` on `platform` with path separator `sep`.
pub open spec fn run_method_spec(version: Seq<char>, platform: Platform, sep: Seq<char>) -> RunMethodView {
    RunMethodView::ThisApp { install_methods: install_methods_spec(version, platform) }
}

/// prettier-standalone runs the executable `prettier` that its archive holds, for
/// every version, platform and path separator.
pub proof fn prettier_standalone_runs_prettier(
    version: Seq<char>,
    platform: Platform,
    sep: Seq<char>,
    r: Option<(Application, ExecutableNameUnix, ExecutableArgs)>,
)
    requires
        carrier_spec(Application::PrettierStandalone, Application::PrettierStandalone.run_method_spec(version, platform, sep), r),
    ensures
        r matches Some((app, executable, args)) && app == Application::PrettierStandalone && executable@ == "prettier"@
            && args == ExecutableArgs::NoArgs,
{
}

/// The next step in analyzing an executable as prettier-standalone, given the outputs of the runs so far.
pub open spec fn analyze_spec(outputs: Seq<Seq<char>>) -> AnalyzeActionView {
    identify_spec(outputs, seq!["--help"@], "Print the names of files that are different from Prettier's formatting"@)
}

/// Where the versions of prettier-standalone come from.
pub open spec fn version_source_spec() -> VersionSourceView {
    releases("markelliot", "prettier-standalone", Some(""))
}

impl PrettierStandalone {
    /// The name by which the user selects prettier-standalone.
    pub fn name(&self) -> (r: ApplicationName)
        ensures
            r@ == name_text(),
    {
        ApplicationName::from("prettier-standalone")
    }

    /// The name of the prettier-standalone executable.
    pub fn executable_filename(&self) -> (r: ExecutableNameUnix)
        ensures
            r@ == executable_text(),
    {
        ExecutableNameUnix::from("prettier")
    }

    /// The homepage of prettier-standalone.
    pub fn homepage(&self) -> (r: &'static str)
        ensures
            r@ == homepage_text(),
    {
        "https://github.com/markelliot/prettier-standalone"
    }

    /// How the release tags of prettier-standalone spell its versions.
    pub fn tag_format(&self) -> (r: TagFormat)
        ensures
            r == TagFormat::Plain,
    {
        TagFormat::Plain
    }

    /// The ways to install prettier-standalone `version` on `platform`.
    fn install_methods(&self, version: &Version, platform: Platform) -> (r: Vec<Method>)
        ensures
            methods_view(r@) == install_methods_spec(version@, platform),
    {
        let cpu = match platform.cpu { Cpu::Arm64 => "arm64", Cpu::Intel64 => "amd64" };
        let os = match platform.os { Os::Linux => "linux", Os::MacOS => "darwin", Os::Windows => "windows" };
        let tag = TagFormat::Plain.format_version(version);
        let mut url0 = String::from_str("https://github.com/markelliot/prettier-standalone/releases/download/");
        url0.append(tag.as_str());
        url0.append("/prettier-");
        url0.append(os);
        url0.append("-");
        url0.append(cpu);
        url0.append("-");
        url0.append(version.as_str());
        url0.append(".tar.gz");
        one_method(Method::DownloadArchive { url: url0, bin_folder: BinFolder::Root })
    }

    /// How to run prettier-standalone `version` on `platform`.
    pub fn run_method(&self, version: &Version, platform: Platform) -> (r: RunMethod)
        ensures
            forall|sep: Seq<char>| r@ == run_method_spec(version@, platform, sep),
    {
        RunMethod::ThisApp { install_methods: self.install_methods(version, platform) }
    }

    /// Where the versions of prettier-standalone come from.
    pub fn version_source(&self) -> (r: VersionSource)
        ensures
            r@ == version_source_spec(),
    {
        VersionSource::GithubReleases { org: "markelliot", repo: "prettier-standalone", tag_prefix: Some("") }
    }

    /// The next step in analyzing an executable as prettier-standalone, given the outputs of the runs so far.
    pub fn analyze_step(&self, outputs: &Vec<String>) -> (r: AnalyzeAction)
        ensures
            r@ == analyze_spec(texts(outputs@)),
    {
        identify(outputs, args1("--help"), "Print the names of files that are different from Prettier's formatting")
    }
}

} // verus!
