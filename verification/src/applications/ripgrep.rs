//! ripgrep, a fast line-oriented search tool.

use crate::applications::{AnalyzeAction, AnalyzeActionView, ApplicationName, args1, identify_same_output, identify_same_output_spec};
use crate::configuration::{TagFormat, Version, tag_of};
use crate::executables::{ExecutableNameUnix, RunMethod, RunMethodView};
use crate::hosting::{VersionSource, VersionSourceView, releases};
use crate::installation::{BinFolder, BinFolderView, Method, MethodView, methods_view, one_method, texts};
use crate::platform::{Cpu, Os, Platform};
use crate::regexp::{any_version, any_version_pattern};
use vstd::prelude::*;
use vstd::string::*;

verus! {

/// The ripgrep application.
#[derive(Debug, Clone, Copy, PartialEq, Eq)]
pub struct RipGrep {}

/// The name of ripgrep.
pub open spec fn name_text() -> Seq<char> {
    "ripgrep"@
}

/// The name of the ripgrep executable.
pub open spec fn executable_text() -> Seq<char> {
    "rg"@
}

/// The homepage of ripgrep.
pub open spec fn homepage_text() -> Seq<char> {
    "https://github.com/BurntSushi/ripgrep"@
}

/// The ways to install ripgrep `version` on `platform`.
pub open spec fn install_methods_spec(version: Seq<char>, platform: Platform) -> Seq<MethodView> {
    let cpu = match platform.cpu { Cpu::Arm64 => "aarch64"@, Cpu::Intel64 => "x86_64"@ };
    let os = if platform.os == Os::Linux && platform.cpu == Cpu::Intel64 { "unknown-linux-musl"@ } else { match platform.os { Os::Linux => "unknown-linux-gnu"@, Os::MacOS => "apple-darwin"@, Os::Windows => "pc-windows-msvc"@ } };
    let ext = match platform.os { Os::Linux => "tar.gz"@, Os::MacOS => "tar.gz"@, Os::Windows => "zip"@ };
    seq![
        MethodView::DownloadArchive { url: "https://github.com/BurntSushi/ripgrep/releases/download/"@ + tag_of(TagFormat::Plain, version) + "/ripgrep-"@ + version + "-"@ + cpu + "-"@ + os + "."@ + ext, bin_folder: BinFolderView::Subfolder { path: "ripgrep-"@ + version + "-"@ + cpu + "-"@ + os } },
    ]
}

/// How to run ripgrep `version` on `platform` with path separator `sep`.
pub open spec fn run_method_spec(version: Seq<char>, platform: Platform, sep: Seq<char>) -> RunMethodView {
    RunMethodView::ThisApp { install_methods: install_methods_spec(version, platform) }
}

/// The next step in analyzing an executable as ripgrep, given the outputs of the runs so far.
pub open spec fn analyze_spec(outputs: Seq<Seq<char>>) -> AnalyzeActionView {
    identify_same_output_spec(outputs, seq!["-h"@], "ripgrep"@, any_version_pattern())
}

/// Where the versions of ripgrep come from.
pub open spec fn version_source_spec() -> VersionSourceView {
    releases("BurntSushi", "ripgrep", Some(""))
}

impl RipGrep {
    /// The name by which the user selects ripgrep.
    pub fn name(&self) -> (r: ApplicationName)
        ensures
            r@ == name_text(),
    {
        ApplicationName::from("ripgrep")
    }

    /// The name of the ripgrep executable.
    pub fn executable_filename(&self) -> (r: ExecutableNameUnix)
        ensures
            r@ == executable_text(),
    {
        ExecutableNameUnix::from("rg")
    }

    /// The homepage of ripgrep.
    pub fn homepage(&self) -> (r: &'static str)
        ensures
            r@ == homepage_text(),
    {
        "https://github.com/BurntSushi/ripgrep"
    }

    /// How the release tags of ripgrep spell its versions.
    pub fn tag_format(&self) -> (r: TagFormat)
        ensures
            r == TagFormat::Plain,
    {
        TagFormat::Plain
    }

    /// The ways to install ripgrep `version` on `platform`.
    fn install_methods(&self, version: &Version, platform: Platform) -> (r: Vec<Method>)
        ensures
            methods_view(r@) == install_methods_spec(version@, platform),
    {
        let cpu = match platform.cpu { Cpu::Arm64 => "aarch64", Cpu::Intel64 => "x86_64" };
        let os = match platform.os { Os::Linux => if platform.cpu == Cpu::Intel64 { "unknown-linux-musl" } else { "unknown-linux-gnu" }, Os::MacOS => "apple-darwin", Os::Windows => "pc-windows-msvc" };
        let ext = match platform.os { Os::Linux => "tar.gz", Os::MacOS => "tar.gz", Os::Windows => "zip" };
        let tag = TagFormat::Plain.format_version(version);
        let mut url0 = String::from_str("https://github.com/BurntSushi/ripgrep/releases/download/");
        url0.append(tag.as_str());
        url0.append("/ripgrep-");
        url0.append(version.as_str());
        url0.append("-");
        url0.append(cpu);
        url0.append("-");
        url0.append(os);
        url0.append(".");
        url0.append(ext);
        let mut path0 = String::from_str("ripgrep-");
        path0.append(version.as_str());
        path0.append("-");
        path0.append(cpu);
        path0.append("-");
        path0.append(os);
        one_method(Method::DownloadArchive { url: url0, bin_folder: BinFolder::Subfolder { path: path0 } })
    }

    /// How to run ripgrep `version` on `platform`.
    pub fn run_method(&self, version: &Version, platform: Platform) -> (r: RunMethod)
        ensures
            forall|sep: Seq<char>| r@ == run_method_spec(version@, platform, sep),
    {
        RunMethod::ThisApp { install_methods: self.install_methods(version, platform) }
    }

    /// Where the versions of ripgrep come from.
    pub fn version_source(&self) -> (r: VersionSource)
        ensures
            r@ == version_source_spec(),
    {
        VersionSource::GithubReleases { org: "BurntSushi", repo: "ripgrep", tag_prefix: Some("") }
    }

    /// The next step in analyzing an executable as ripgrep, given the outputs of the runs so far.
    pub fn analyze_step(&self, outputs: &Vec<String>) -> (r: AnalyzeAction)
        ensures
            r@ == analyze_spec(texts(outputs@)),
    {
        identify_same_output(outputs, args1("-h"), "ripgrep", &any_version())
    }
}

} // verus!
