//! shfmt, a formatter for shell scripts.

use crate::applications::{AnalyzeAction, AnalyzeActionView, ApplicationName, args1, captured, identify_and_query, identify_and_query_spec};
use crate::configuration::Version;
use crate::error::UserError;
use crate::executables::{ExecutableNameUnix, RunMethod, RunMethodView};
use crate::hosting::{VersionSource, VersionSourceView, releases};
use crate::installation::{Method, MethodView, methods_view, texts, two_methods};
use crate::platform::{Cpu, Os, Platform};
use crate::regexp::{End, Gap, Start, VersionPattern, first_capture, spec_first_capture};
use vstd::prelude::*;
use vstd::string::*;

verus! {

/// The shfmt application.
#[derive(Debug, Clone, Copy, PartialEq, Eq)]
pub struct Shfmt {}

/// The name of shfmt.
pub open spec fn name_text() -> Seq<char> {
    "shfmt"@
}

/// The name of the shfmt executable.
pub open spec fn executable_text() -> Seq<char> {
    name_text()
}

/// The homepage of shfmt.
pub open spec fn homepage_text() -> Seq<char> {
    "https://github.com/mvdan/sh"@
}

/// The ways to install shfmt `version` on `platform`.
pub open spec fn install_methods_spec(version: Seq<char>, platform: Platform) -> Seq<MethodView> {
    let url = download_url_spec(version, platform);
    seq![
        MethodView::DownloadExecutable { url: url },
        MethodView::CompileGoSource { import_path: "mvdan.cc/sh/v3/cmd/shfmt@v"@ + version },
    ]
}

/// How to run shfmt `version` on `platform` with path separator `sep`.
pub open spec fn run_method_spec(version: Seq<char>, platform: Platform, sep: Seq<char>) -> RunMethodView {
    RunMethodView::ThisApp { install_methods: install_methods_spec(version, platform) }
}

/// The URL of the shfmt executable `version` for `platform`.
pub open spec fn download_url_spec(version: Seq<char>, platform: Platform) -> Seq<char> {
    let os = match platform.os {
        Os::Linux => "linux"@,
        Os::MacOS => "darwin"@,
        Os::Windows => "windows"@,
    };
    let cpu = match platform.cpu {
        Cpu::Arm64 => "arm64"@,
        Cpu::Intel64 => "amd64"@,
    };
    let ext = match platform.os {
        Os::Linux | Os::MacOS => ""@,
        Os::Windows => ".exe"@,
    };
    "https://github.com/mvdan/sh/releases/download/v"@ + version + "/shfmt_v"@ + version + "_"@ + os + "_"@ + cpu + ext
}

/// The pattern that finds the version in the output of shfmt.
pub open spec fn version_pattern() -> VersionPattern {
    VersionPattern { start: Start::TextStart, prefix: "v", gap: Gap::Nothing, parts: 3, suffix: "", end: End::TextEnd }
}

/// The next step in analyzing an executable as shfmt, given the outputs of the runs so far.
pub open spec fn analyze_spec(outputs: Seq<Seq<char>>) -> AnalyzeActionView {
    identify_and_query_spec(outputs, seq!["-h"@], "shfmt formats shell programs"@, seq!["--version"@], version_pattern())
}

/// Where the versions of shfmt come from.
pub open spec fn version_source_spec() -> VersionSourceView {
    releases("mvdan", "sh", None)
}

fn pattern() -> (p: VersionPattern)
    ensures
        p == version_pattern(),
{
    VersionPattern { start: Start::TextStart, prefix: "v", gap: Gap::Nothing, parts: 3, suffix: "", end: End::TextEnd }
}

/// Finds the version of shfmt in the given output.
pub fn extract_version(output: &str) -> (r: Result<&str, UserError>)
    ensures
        captured(r, spec_first_capture(version_pattern(), output@)),
{
    first_capture(output, &pattern())
}

/// The URL of the shfmt executable `version` for `platform`.
pub fn download_url(version: &Version, platform: Platform) -> (r: String)
    ensures
        r@ == download_url_spec(version@, platform),
{
    let os = match platform.os {
        Os::Linux => "linux",
        Os::MacOS => "darwin",
        Os::Windows => "windows",
    };
    let cpu = match platform.cpu {
        Cpu::Arm64 => "arm64",
        Cpu::Intel64 => "amd64",
    };
    let ext = match platform.os {
        Os::Linux | Os::MacOS => "",
        Os::Windows => ".exe",
    };
    let mut url = String::from_str("https://github.com/mvdan/sh/releases/download/v");
    url.append(version.as_str());
    url.append("/shfmt_v");
    url.append(version.as_str());
    url.append("_");
    url.append(os);
    url.append("_");
    url.append(cpu);
    url.append(ext);
    url
}

impl Shfmt {
    /// The name by which the user selects shfmt.
    pub fn name(&self) -> (r: ApplicationName)
        ensures
            r@ == name_text(),
    {
        ApplicationName::from("shfmt")
    }

    /// The name of the shfmt executable.
    pub fn executable_filename(&self) -> (r: ExecutableNameUnix)
        ensures
            r@ == executable_text(),
    {
        ExecutableNameUnix::from("shfmt")
    }

    /// The homepage of shfmt.
    pub fn homepage(&self) -> (r: &'static str)
        ensures
            r@ == homepage_text(),
    {
        "https://github.com/mvdan/sh"
    }

    /// The ways to install shfmt `version` on `platform`.
    pub fn install_methods(&self, version: &Version, platform: Platform) -> (r: Vec<Method>)
        ensures
            methods_view(r@) == install_methods_spec(version@, platform),
    {
        let url = download_url(version, platform);
        let url0 = String::from_str(url.as_str());
        let mut import_path1 = String::from_str("mvdan.cc/sh/v3/cmd/shfmt@v");
        import_path1.append(version.as_str());
        two_methods(Method::DownloadExecutable { url: url0 }, Method::CompileGoSource { import_path: import_path1 })
    }

    /// How to run shfmt `version` on `platform`.
    pub fn run_method(&self, version: &Version, platform: Platform) -> (r: RunMethod)
        ensures
            forall|sep: Seq<char>| r@ == run_method_spec(version@, platform, sep),
    {
        RunMethod::ThisApp { install_methods: self.install_methods(version, platform) }
    }

    /// Where the versions of shfmt come from.
    pub fn version_source(&self) -> (r: VersionSource)
        ensures
            r@ == version_source_spec(),
    {
        VersionSource::GithubReleases { org: "mvdan", repo: "sh", tag_prefix: None }
    }

    /// The next step in analyzing an executable as shfmt, given the outputs of the runs so far.
    pub fn analyze_step(&self, outputs: &Vec<String>) -> (r: AnalyzeAction)
        ensures
            r@ == analyze_spec(texts(outputs@)),
    {
        identify_and_query(outputs, args1("-h"), "shfmt formats shell programs", args1("--version"), &pattern())
    }
}

} // verus!
