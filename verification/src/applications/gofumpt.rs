//! gofumpt, a stricter Go formatter.

use crate::applications::{AnalyzeAction, AnalyzeActionView, ApplicationName, args1, captured, identify_and_query, identify_and_query_spec};
use crate::configuration::Version;
use crate::error::UserError;
use crate::executables::{ExecutableNameUnix, RunMethod, RunMethodView};
use crate::hosting::{VersionSource, VersionSourceView, releases};
use crate::installation::{Method, MethodView, methods_view, texts, two_methods};
use crate::platform::{Cpu, Os, Platform};
use crate::regexp::{End, Gap, Start, VersionPattern, first_capture, spec_first_capture};
use vstd::prelude::*;
use vstd::string::*;

verus! {

/// The gofumpt application.
#[derive(Debug, Clone, Copy, PartialEq, Eq)]
pub struct Gofumpt {}

/// The name of gofumpt.
pub open spec fn name_text() -> Seq<char> {
    "gofumpt"@
}

/// The name of the gofumpt executable.
pub open spec fn executable_text() -> Seq<char> {
    name_text()
}

/// The homepage of gofumpt.
pub open spec fn homepage_text() -> Seq<char> {
    "https://github.com/mvdan/gofumpt"@
}

/// The ways to install gofumpt `version` on `platform`.
pub open spec fn install_methods_spec(version: Seq<char>, platform: Platform) -> Seq<MethodView> {
    let os = match platform.os { Os::Linux => "linux"@, Os::MacOS => "darwin"@, Os::Windows => "windows"@ };
    let cpu = match platform.cpu { Cpu::Arm64 => "arm64"@, Cpu::Intel64 => "amd64"@ };
    let ext = match platform.os { Os::Linux => ""@, Os::MacOS => ""@, Os::Windows => ".exe"@ };
    seq![
        MethodView::DownloadExecutable { url: "https://github.com/mvdan/gofumpt/releases/download/v"@ + version + "/gofumpt_v"@ + version + "_"@ + os + "_"@ + cpu + ext },
        MethodView::CompileGoSource { import_path: "mvdan.cc/gofumpt@v"@ + version },
    ]
}

/// How to run gofumpt `version` on `platform` with path separator `sep`.
pub open spec fn run_method_spec(version: Seq<char>, platform: Platform, sep: Seq<char>) -> RunMethodView {
    RunMethodView::ThisApp { install_methods: install_methods_spec(version, platform) }
}

/// The gofumpt download names the operating system in lower case (`linux`,
/// `darwin`, `windows`) and the CPU as `amd64` or `arm64`; the Windows file ends in
/// `.exe`. Compiling `mvdan.cc/gofumpt` at the version is the fallback.
pub proof fn gofumpt_download_names_the_platform(version: Seq<char>, platform: Platform, sep: Seq<char>)
    ensures
        run_method_spec(version, platform, sep) == (RunMethodView::ThisApp {
            install_methods: seq![
                MethodView::DownloadExecutable {
                    url: "https://github.com/mvdan/gofumpt/releases/download/v"@ + version + "/gofumpt_v"@ + version
                        + "_"@ + (if platform.os == Os::Linux {
                        "linux"@
                    } else if platform.os == Os::MacOS {
                        "darwin"@
                    } else {
                        "windows"@
                    }) + "_"@ + (if platform.cpu == Cpu::Intel64 {
                        "amd64"@
                    } else {
                        "arm64"@
                    }) + (if platform.os == Os::Windows {
                        ".exe"@
                    } else {
                        ""@
                    }),
                },
                MethodView::CompileGoSource { import_path: "mvdan.cc/gofumpt@v"@ + version },
            ],
        }),
{
}

/// The pattern that finds the version in the output of gofumpt.
pub open spec fn version_pattern() -> VersionPattern {
    VersionPattern { start: Start::Anywhere, prefix: "v", gap: Gap::Nothing, parts: 3, suffix: " (go", end: End::Anywhere }
}

/// The next step in analyzing an executable as gofumpt, given the outputs of the runs so far.
pub open spec fn analyze_spec(outputs: Seq<Seq<char>>) -> AnalyzeActionView {
    identify_and_query_spec(outputs, seq!["-h"@], "display diffs instead of rewriting files"@, seq!["--version"@], version_pattern())
}

/// Where the versions of gofumpt come from.
pub open spec fn version_source_spec() -> VersionSourceView {
    releases("mvdan", "gofumpt", None)
}

fn pattern() -> (p: VersionPattern)
    ensures
        p == version_pattern(),
{
    VersionPattern { start: Start::Anywhere, prefix: "v", gap: Gap::Nothing, parts: 3, suffix: " (go", end: End::Anywhere }
}

/// Finds the version of gofumpt in the given output.
pub fn extract_version(output: &str) -> (r: Result<&str, UserError>)
    ensures
        captured(r, spec_first_capture(version_pattern(), output@)),
{
    first_capture(output, &pattern())
}

impl Gofumpt {
    /// The name by which the user selects gofumpt.
    pub fn name(&self) -> (r: ApplicationName)
        ensures
            r@ == name_text(),
    {
        ApplicationName::from("gofumpt")
    }

    /// The name of the gofumpt executable.
    pub fn executable_filename(&self) -> (r: ExecutableNameUnix)
        ensures
            r@ == executable_text(),
    {
        ExecutableNameUnix::from("gofumpt")
    }

    /// The homepage of gofumpt.
    pub fn homepage(&self) -> (r: &'static str)
        ensures
            r@ == homepage_text(),
    {
        "https://github.com/mvdan/gofumpt"
    }

    /// The ways to install gofumpt `version` on `platform`.
    fn install_methods(&self, version: &Version, platform: Platform) -> (r: Vec<Method>)
        ensures
            methods_view(r@) == install_methods_spec(version@, platform),
    {
        let os = match platform.os { Os::Linux => "linux", Os::MacOS => "darwin", Os::Windows => "windows" };
        let cpu = match platform.cpu { Cpu::Arm64 => "arm64", Cpu::Intel64 => "amd64" };
        let ext = match platform.os { Os::Linux => "", Os::MacOS => "", Os::Windows => ".exe" };
        let mut url0 = String::from_str("https://github.com/mvdan/gofumpt/releases/download/v");
        url0.append(version.as_str());
        url0.append("/gofumpt_v");
        url0.append(version.as_str());
        url0.append("_");
        url0.append(os);
        url0.append("_");
        url0.append(cpu);
        url0.append(ext);
        let mut import_path1 = String::from_str("mvdan.cc/gofumpt@v");
        import_path1.append(version.as_str());
        two_methods(Method::DownloadExecutable { url: url0 }, Method::CompileGoSource { import_path: import_path1 })
    }

    /// How to run gofumpt `version` on `platform`.
    pub fn run_method(&self, version: &Version, platform: Platform) -> (r: RunMethod)
        ensures
            forall|sep: Seq<char>| r@ == run_method_spec(version@, platform, sep),
    {
        RunMethod::ThisApp { install_methods: self.install_methods(version, platform) }
    }

    /// Where the versions of gofumpt come from.
    pub fn version_source(&self) -> (r: VersionSource)
        ensures
            r@ == version_source_spec(),
    {
        VersionSource::GithubReleases { org: "mvdan", repo: "gofumpt", tag_prefix: None }
    }

    /// The next step in analyzing an executable as gofumpt, given the outputs of the runs so far.
    pub fn analyze_step(&self, outputs: &Vec<String>) -> (r: AnalyzeAction)
        ensures
            r@ == analyze_spec(texts(outputs@)),
    {
        identify_and_query(outputs, args1("-h"), "display diffs instead of rewriting files", args1("--version"), &pattern())
    }
}

} // verus!
