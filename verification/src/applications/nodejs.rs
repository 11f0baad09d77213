//! Node.js, a JavaScript runtime.

use crate::applications::{AnalyzeAction, AnalyzeActionView, ApplicationName, args1, identify_and_query, identify_and_query_spec, is_separator};
use crate::configuration::{TagFormat, Version, tag_of};
use crate::executables::{ExecutableNameUnix, RunMethod, RunMethodView};
use crate::hosting::{VersionSource, VersionSourceView, releases};
use crate::installation::{BinFolder, BinFolderView, Method, MethodView, methods_view, one_method, texts, two_texts};
use crate::outside::main_separator;
use crate::platform::{Cpu, Os, Platform};
use crate::regexp::{any_version, any_version_pattern};
use vstd::prelude::*;
use vstd::string::*;

verus! {

/// The Node.js application.
#[derive(Debug, Clone, Copy, PartialEq, Eq)]
pub struct NodeJS {}

/// The name of Node.js.
pub open spec fn name_text() -> Seq<char> {
    "node"@
}

/// The name of the Node.js executable.
pub open spec fn executable_text() -> Seq<char> {
    name_text()
}

/// The homepage of Node.js.
pub open spec fn homepage_text() -> Seq<char> {
    "https://nodejs.org"@
}

/// The ways to install Node.js `version` on `platform` with path separator `sep`.
pub open spec fn install_methods_spec(version: Seq<char>, platform: Platform, sep: Seq<char>) -> Seq<MethodView> {
    let os = os_spec(platform.os);
    let cpu = cpu_spec(platform.cpu);
    let ext = ext_spec(platform.os);
    seq![
        MethodView::DownloadArchive { url: "https://nodejs.org/dist/v"@ + version + "/node-"@ + tag_of(TagFormat::PrefixV, version) + "-"@ + os + "-"@ + cpu + "."@ + ext, bin_folder: BinFolderView::RootOrSubfolders { options: seq!["node-v"@ + version + "-"@ + os + "-"@ + cpu, "node-v"@ + version + "-"@ + os + "-"@ + cpu + sep + "bin"@] } },
    ]
}

/// How to run Node.js `version` on `platform` with path separator `sep`.
pub open spec fn run_method_spec(version: Seq<char>, platform: Platform, sep: Seq<char>) -> RunMethodView {
    RunMethodView::ThisApp { install_methods: install_methods_spec(version, platform, sep) }
}

/// How Node.js release files name a CPU architecture.
pub open spec fn cpu_spec(cpu: Cpu) -> Seq<char> {
    match cpu {
        Cpu::Arm64 => "arm64"@,
        Cpu::Intel64 => "x64"@,
    }
}

/// How Node.js release files name an operating system.
pub open spec fn os_spec(os: Os) -> Seq<char> {
    match os {
        Os::Linux => "linux"@,
        Os::MacOS => "darwin"@,
        Os::Windows => "win"@,
    }
}

/// The file extension of the Node.js release archive for an operating system.
pub open spec fn ext_spec(os: Os) -> Seq<char> {
    match os {
        Os::Linux => "tar.xz"@,
        Os::MacOS => "tar.gz"@,
        Os::Windows => "zip"@,
    }
}

/// The next step in analyzing an executable as Node.js, given the outputs of the runs so far.
pub open spec fn analyze_spec(outputs: Seq<Seq<char>>) -> AnalyzeActionView {
    identify_and_query_spec(outputs, seq!["-h"@], "Documentation can be found at https://nodejs.org"@, seq!["--version"@], any_version_pattern())
}

/// Where the versions of Node.js come from.
pub open spec fn version_source_spec() -> VersionSourceView {
    releases("nodejs", "node", Some("v"))
}

/// How Node.js release files name a CPU architecture.
pub fn cpu_text(cpu: Cpu) -> (r: &'static str)
    ensures
        r@ == cpu_spec(cpu),
{
    match cpu {
        Cpu::Arm64 => "arm64",
        Cpu::Intel64 => "x64",
    }
}

/// The file extension of the Node.js release archive for an operating system.
pub fn ext_text(os: Os) -> (r: &'static str)
    ensures
        r@ == ext_spec(os),
{
    match os {
        Os::Linux => "tar.xz",
        Os::MacOS => "tar.gz",
        Os::Windows => "zip",
    }
}

/// How Node.js release files name an operating system.
pub fn os_text(os: Os) -> (r: &'static str)
    ensures
        r@ == os_spec(os),
{
    match os {
        Os::Linux => "linux",
        Os::MacOS => "darwin",
        Os::Windows => "win",
    }
}

impl NodeJS {
    /// The name by which the user selects Node.js.
    pub fn name(&self) -> (r: ApplicationName)
        ensures
            r@ == name_text(),
    {
        ApplicationName::from("node")
    }

    /// The name of the Node.js executable.
    pub fn executable_filename(&self) -> (r: ExecutableNameUnix)
        ensures
            r@ == executable_text(),
    {
        ExecutableNameUnix::from("node")
    }

    /// The homepage of Node.js.
    pub fn homepage(&self) -> (r: &'static str)
        ensures
            r@ == homepage_text(),
    {
        "https://nodejs.org"
    }

    /// How the release tags of Node.js spell its versions.
    pub fn tag_format(&self) -> (r: TagFormat)
        ensures
            r == TagFormat::PrefixV,
    {
        TagFormat::PrefixV
    }

    /// The ways to install Node.js `version` on `platform`.
    fn install_methods(&self, version: &Version, platform: Platform, sep: &str) -> (r: Vec<Method>)
        ensures
            methods_view(r@) == install_methods_spec(version@, platform, sep@),
    {
        let os = os_text(platform.os);
        let cpu = cpu_text(platform.cpu);
        let ext = ext_text(platform.os);
        let tag = TagFormat::PrefixV.format_version(version);
        let mut url0 = String::from_str("https://nodejs.org/dist/v");
        url0.append(version.as_str());
        url0.append("/node-");
        url0.append(tag.as_str());
        url0.append("-");
        url0.append(os);
        url0.append("-");
        url0.append(cpu);
        url0.append(".");
        url0.append(ext);
        let mut option0_0 = String::from_str("node-v");
        option0_0.append(version.as_str());
        option0_0.append("-");
        option0_0.append(os);
        option0_0.append("-");
        option0_0.append(cpu);
        let mut option0_1 = String::from_str("node-v");
        option0_1.append(version.as_str());
        option0_1.append("-");
        option0_1.append(os);
        option0_1.append("-");
        option0_1.append(cpu);
        option0_1.append(sep);
        option0_1.append("bin");
        one_method(Method::DownloadArchive { url: url0, bin_folder: BinFolder::RootOrSubfolders { options: two_texts(option0_0, option0_1) } })
    }

    /// How to run Node.js `version` on `platform` with path separator `sep`.
    pub fn run_method_with_separator(&self, version: &Version, platform: Platform, sep: &str) -> (r: RunMethod)
        ensures
            r@ == run_method_spec(version@, platform, sep@),
    {
        RunMethod::ThisApp { install_methods: self.install_methods(version, platform, sep) }
    }

    /// How to run Node.js `version` on `platform`.
    pub fn run_method(&self, version: &Version, platform: Platform) -> (r: RunMethod)
        ensures
            exists|sep: Seq<char>| is_separator(sep) && r@ == run_method_spec(version@, platform, sep),
    {
        let sep = main_separator();
        let r = self.run_method_with_separator(version, platform, sep);
        assert(is_separator(sep@) && r@ == run_method_spec(version@, platform, sep@));
        r
    }

    /// Where the versions of Node.js come from.
    pub fn version_source(&self) -> (r: VersionSource)
        ensures
            r@ == version_source_spec(),
    {
        VersionSource::GithubReleases { org: "nodejs", repo: "node", tag_prefix: Some("v") }
    }

    /// The next step in analyzing an executable as Node.js, given the outputs of the runs so far.
    pub fn analyze_step(&self, outputs: &Vec<String>) -> (r: AnalyzeAction)
        ensures
            r@ == analyze_spec(texts(outputs@)),
    {
        identify_and_query(outputs, args1("-h"), "Documentation can be found at https://nodejs.org", args1("--version"), &any_version())
    }
}

} // verus!
