//! Biome, a formatter and linter for web projects.

use crate::applications::{AnalyzeAction, AnalyzeActionView, ApplicationName, args1, captured, identify_and_query, identify_and_query_spec};
use crate::configuration::Version;
use crate::error::UserError;
use crate::executables::{ExecutableNameUnix, RunMethod, RunMethodView};
use crate::hosting::{VersionSource, VersionSourceView, releases};
use crate::installation::{Method, MethodView, methods_view, one_method, texts};
use crate::outside::{percent_encoded, url_encode};
use crate::platform::{Cpu, Os, Platform};
use crate::regexp::{End, Gap, Start, VersionPattern, first_capture, spec_first_capture};
use vstd::utf8::encode_utf8;
use vstd::prelude::*;
use vstd::string::*;

verus! {

/// The Biome application.
#[derive(Debug, Clone, Copy, PartialEq, Eq)]
pub struct Biome {}

/// The name of Biome.
pub open spec fn name_text() -> Seq<char> {
    "biome"@
}

/// The name of the Biome executable.
pub open spec fn executable_text() -> Seq<char> {
    name_text()
}

/// The homepage of Biome.
pub open spec fn homepage_text() -> Seq<char> {
    "https://github.com/biomejs/biome"@
}

/// The ways to install Biome `version` on `platform`.
pub open spec fn install_methods_spec(version: Seq<char>, platform: Platform) -> Seq<MethodView> {
    let cpu = match platform.cpu { Cpu::Arm64 => "arm64"@, Cpu::Intel64 => "x64"@ };
    let os = match platform.os { Os::Linux => "linux"@, Os::MacOS => "darwin"@, Os::Windows => "win32"@ };
    let ext = match platform.os { Os::Linux => ""@, Os::MacOS => ""@, Os::Windows => ".exe"@ };
    let tag = percent_encoded(encode_utf8("@biomejs/biome@"@));
    seq![
        MethodView::DownloadExecutable { url: "https://github.com/biomejs/biome/releases/download/"@ + tag + version + "/biome-"@ + os + "-"@ + cpu + ext },
    ]
}

/// How to run Biome `version` on `platform` with path separator `sep`.
pub open spec fn run_method_spec(version: Seq<char>, platform: Platform, sep: Seq<char>) -> RunMethodView {
    RunMethodView::ThisApp { install_methods: install_methods_spec(version, platform) }
}

/// The pattern that finds the version in the output of Biome.
pub open spec fn version_pattern() -> VersionPattern {
    VersionPattern { start: Start::Anywhere, prefix: "Version: ", gap: Gap::Nothing, parts: 3, suffix: "", end: End::Anywhere }
}

/// The next step in analyzing an executable as Biome, given the outputs of the runs so far.
pub open spec fn analyze_spec(outputs: Seq<Seq<char>>) -> AnalyzeActionView {
    identify_and_query_spec(outputs, seq!["-h"@], "Biome official CLI."@, seq!["--version"@], version_pattern())
}

/// Where the versions of Biome come from.
pub open spec fn version_source_spec() -> VersionSourceView {
    releases("biomejs", "biome", Some("@biomejs/biome@"))
}

fn pattern() -> (p: VersionPattern)
    ensures
        p == version_pattern(),
{
    VersionPattern { start: Start::Anywhere, prefix: "Version: ", gap: Gap::Nothing, parts: 3, suffix: "", end: End::Anywhere }
}

/// Finds the version of Biome in the given output.
pub fn extract_version(output: &str) -> (r: Result<&str, UserError>)
    ensures
        captured(r, spec_first_capture(version_pattern(), output@)),
{
    first_capture(output, &pattern())
}

impl Biome {
    /// The name by which the user selects Biome.
    pub fn name(&self) -> (r: ApplicationName)
        ensures
            r@ == name_text(),
    {
        ApplicationName::from("biome")
    }

    /// The name of the Biome executable.
    pub fn executable_filename(&self) -> (r: ExecutableNameUnix)
        ensures
            r@ == executable_text(),
    {
        ExecutableNameUnix::from("biome")
    }

    /// The homepage of Biome.
    pub fn homepage(&self) -> (r: &'static str)
        ensures
            r@ == homepage_text(),
    {
        "https://github.com/biomejs/biome"
    }

    /// The ways to install Biome `version` on `platform`.
    fn install_methods(&self, version: &Version, platform: Platform) -> (r: Vec<Method>)
        ensures
            methods_view(r@) == install_methods_spec(version@, platform),
    {
        let cpu = match platform.cpu { Cpu::Arm64 => "arm64", Cpu::Intel64 => "x64" };
        let os = match platform.os { Os::Linux => "linux", Os::MacOS => "darwin", Os::Windows => "win32" };
        let ext = match platform.os { Os::Linux => "", Os::MacOS => "", Os::Windows => ".exe" };
        let tag = url_encode("@biomejs/biome@");
        let mut url0 = String::from_str("https://github.com/biomejs/biome/releases/download/");
        url0.append(tag.as_str());
        url0.append(version.as_str());
        url0.append("/biome-");
        url0.append(os);
        url0.append("-");
        url0.append(cpu);
        url0.append(ext);
        one_method(Method::DownloadExecutable { url: url0 })
    }

    /// How to run Biome `version` on `platform`.
    pub fn run_method(&self, version: &Version, platform: Platform) -> (r: RunMethod)
        ensures
            forall|sep: Seq<char>| r@ == run_method_spec(version@, platform, sep),
    {
        RunMethod::ThisApp { install_methods: self.install_methods(version, platform) }
    }

    /// Where the versions of Biome come from.
    pub fn version_source(&self) -> (r: VersionSource)
        ensures
            r@ == version_source_spec(),
    {
        VersionSource::GithubReleases { org: "biomejs", repo: "biome", tag_prefix: Some("@biomejs/biome@") }
    }

    /// The next step in analyzing an executable as Biome, given the outputs of the runs so far.
    pub fn analyze_step(&self, outputs: &Vec<String>) -> (r: AnalyzeAction)
        ensures
            r@ == analyze_spec(texts(outputs@)),
    {
        identify_and_query(outputs, args1("-h"), "Biome official CLI.", args1("--version"), &pattern())
    }
}

} // verus!
