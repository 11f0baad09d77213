//! mdbook-linkcheck, a link checker for mdBook.

use crate::applications::{AnalyzeAction, AnalyzeActionView, ApplicationName, args1, captured, identify_and_query, identify_and_query_spec};
use crate::configuration::Version;
use crate::error::UserError;
use crate::executables::{ExecutableNameUnix, RunMethod, RunMethodView};
use crate::hosting::{VersionSource, VersionSourceView, releases};
use crate::installation::{BinFolder, BinFolderView, Method, MethodView, methods_view, texts, two_methods};
use crate::outside::owned;
use crate::platform::{Cpu, Os, Platform};
use crate::regexp::{End, Gap, Start, VersionPattern, first_capture, spec_first_capture};
use vstd::prelude::*;
use vstd::string::*;

verus! {

/// The mdbook-linkcheck application.
#[derive(Debug, Clone, Copy, PartialEq, Eq)]
pub struct MdBookLinkCheck {}

/// The name of mdbook-linkcheck.
pub open spec fn name_text() -> Seq<char> {
    "mdbook-linkcheck"@
}

/// The name of the mdbook-linkcheck executable.
pub open spec fn executable_text() -> Seq<char> {
    name_text()
}

/// The homepage of mdbook-linkcheck.
pub open spec fn homepage_text() -> Seq<char> {
    "https://github.com/Michael-F-Bryan/mdbook-linkcheck"@
}

/// The ways to install mdbook-linkcheck `version` on `platform`.
pub open spec fn install_methods_spec(version: Seq<char>, platform: Platform) -> Seq<MethodView> {
    let os = match platform.os { Os::Linux => "unknown-linux-gnu"@, Os::MacOS => "apple-darwin"@, Os::Windows => "pc-windows-msvc"@ };
    let cpu = match platform.cpu { Cpu::Arm64 => "aarch64"@, Cpu::Intel64 => "x86_64"@ };
    seq![
        MethodView::DownloadArchive { url: "https://github.com/Michael-F-Bryan/mdbook-linkcheck/releases/download/v"@ + version + "/mdbook-linkcheck."@ + cpu + "-"@ + os + ".zip"@, bin_folder: BinFolderView::Root },
        MethodView::CompileRustSource { crate_name: "mdbook-linkcheck"@, bin_folder: BinFolderView::Subfolder { path: "bin"@ } },
    ]
}

/// How to run mdbook-linkcheck `version` on `platform` with path separator `sep`.
pub open spec fn run_method_spec(version: Seq<char>, platform: Platform, sep: Seq<char>) -> RunMethodView {
    RunMethodView::ThisApp { install_methods: install_methods_spec(version, platform) }
}

/// The pattern that finds the version in the output of mdbook-linkcheck.
pub open spec fn version_pattern() -> VersionPattern {
    VersionPattern { start: Start::Anywhere, prefix: "mdbook-linkcheck ", gap: Gap::Nothing, parts: 3, suffix: "", end: End::Anywhere }
}

/// The next step in analyzing an executable as mdbook-linkcheck, given the outputs of the runs so far.
pub open spec fn analyze_spec(outputs: Seq<Seq<char>>) -> AnalyzeActionView {
    identify_and_query_spec(outputs, seq!["-h"@], "mdbook-linkcheck"@, seq!["-V"@], version_pattern())
}

/// Where the versions of mdbook-linkcheck come from.
pub open spec fn version_source_spec() -> VersionSourceView {
    releases("Michael-F-Bryan", "mdbook-linkcheck", None)
}

fn pattern() -> (p: VersionPattern)
    ensures
        p == version_pattern(),
{
    VersionPattern { start: Start::Anywhere, prefix: "mdbook-linkcheck ", gap: Gap::Nothing, parts: 3, suffix: "", end: End::Anywhere }
}

/// Finds the version of mdbook-linkcheck in the given output.
pub fn extract_version(output: &str) -> (r: Result<&str, UserError>)
    ensures
        captured(r, spec_first_capture(version_pattern(), output@)),
{
    first_capture(output, &pattern())
}

impl MdBookLinkCheck {
    /// The name by which the user selects mdbook-linkcheck.
    pub fn name(&self) -> (r: ApplicationName)
        ensures
            r@ == name_text(),
    {
        ApplicationName::from("mdbook-linkcheck")
    }

    /// The name of the mdbook-linkcheck executable.
    pub fn executable_filename(&self) -> (r: ExecutableNameUnix)
        ensures
            r@ == executable_text(),
    {
        ExecutableNameUnix::from("mdbook-linkcheck")
    }

    /// The homepage of mdbook-linkcheck.
    pub fn homepage(&self) -> (r: &'static str)
        ensures
            r@ == homepage_text(),
    {
        "https://github.com/Michael-F-Bryan/mdbook-linkcheck"
    }

    /// The ways to install mdbook-linkcheck `version` on `platform`.
    fn install_methods(&self, version: &Version, platform: Platform) -> (r: Vec<Method>)
        ensures
            methods_view(r@) == install_methods_spec(version@, platform),
    {
        let os = match platform.os { Os::Linux => "unknown-linux-gnu", Os::MacOS => "apple-darwin", Os::Windows => "pc-windows-msvc" };
        let cpu = match platform.cpu { Cpu::Arm64 => "aarch64", Cpu::Intel64 => "x86_64" };
        let mut url0 = String::from_str("https://github.com/Michael-F-Bryan/mdbook-linkcheck/releases/download/v");
        url0.append(version.as_str());
        url0.append("/mdbook-linkcheck.");
        url0.append(cpu);
        url0.append("-");
        url0.append(os);
        url0.append(".zip");
        two_methods(Method::DownloadArchive { url: url0, bin_folder: BinFolder::Root }, Method::CompileRustSource { crate_name: "mdbook-linkcheck", bin_folder: BinFolder::Subfolder { path: owned("bin") } })
    }

    /// How to run mdbook-linkcheck `version` on `platform`.
    pub fn run_method(&self, version: &Version, platform: Platform) -> (r: RunMethod)
        ensures
            forall|sep: Seq<char>| r@ == run_method_spec(version@, platform, sep),
    {
        RunMethod::ThisApp { install_methods: self.install_methods(version, platform) }
    }

    /// Where the versions of mdbook-linkcheck come from.
    pub fn version_source(&self) -> (r: VersionSource)
        ensures
            r@ == version_source_spec(),
    {
        VersionSource::GithubReleases { org: "Michael-F-Bryan", repo: "mdbook-linkcheck", tag_prefix: None }
    }

    /// The next step in analyzing an executable as mdbook-linkcheck, given the outputs of the runs so far.
    pub fn analyze_step(&self, outputs: &Vec<String>) -> (r: AnalyzeAction)
        ensures
            r@ == analyze_spec(texts(outputs@)),
    {
        identify_and_query(outputs, args1("-h"), "mdbook-linkcheck", args1("-V"), &pattern())
    }
}

} // verus!
