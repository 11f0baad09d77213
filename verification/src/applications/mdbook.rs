//! mdBook, a tool that creates books from Markdown files.

use crate::applications::{AnalyzeAction, AnalyzeActionView, ApplicationName, args1, captured, identify_and_query, identify_and_query_spec};
use crate::configuration::Version;
use crate::error::UserError;
use crate::executables::{ExecutableNameUnix, RunMethod, RunMethodView};
use crate::hosting::{VersionSource, VersionSourceView, releases};
use crate::installation::{BinFolder, BinFolderView, Method, MethodView, methods_view, texts, two_methods};
use crate::platform::{Cpu, Os, Platform};
use crate::regexp::{End, Gap, Start, VersionPattern, first_capture, spec_first_capture};
use vstd::prelude::*;
use vstd::string::*;

verus! {

/// The mdBook application.
#[derive(Debug, Clone, Copy, PartialEq, Eq)]
pub struct MdBook {}

/// The name of mdBook.
pub open spec fn name_text() -> Seq<char> {
    "mdbook"@
}

/// The name of the mdBook executable.
pub open spec fn executable_text() -> Seq<char> {
    name_text()
}

/// The homepage of mdBook.
pub open spec fn homepage_text() -> Seq<char> {
    "https://github.com/rust-lang/mdBook"@
}

/// The ways to install mdBook `version` on `platform`.
pub open spec fn install_methods_spec(version: Seq<char>, platform: Platform) -> Seq<MethodView> {
    let os = match platform.os { Os::Linux => "unknown-linux-gnu"@, Os::MacOS => "apple-darwin"@, Os::Windows => "pc-windows-msvc"@ };
    let cpu = match platform.cpu { Cpu::Arm64 => "aarch64"@, Cpu::Intel64 => "x86_64"@ };
    let ext = match platform.os { Os::Linux => "tar.gz"@, Os::MacOS => "tar.gz"@, Os::Windows => "zip"@ };
    seq![
        MethodView::DownloadArchive { url: "https://github.com/rust-lang/mdBook/releases/download/v"@ + version + "/mdbook-v"@ + version + "-"@ + cpu + "-"@ + os + "."@ + ext, bin_folder: BinFolderView::Root },
        MethodView::CompileRustSource { crate_name: "mdbook"@, bin_folder: BinFolderView::Subfolder { path: "bin"@ } },
    ]
}

/// How to run mdBook `version` on `platform` with path separator `sep`.
pub open spec fn run_method_spec(version: Seq<char>, platform: Platform, sep: Seq<char>) -> RunMethodView {
    RunMethodView::ThisApp { install_methods: install_methods_spec(version, platform) }
}

/// The pattern that finds the version in the output of mdBook.
pub open spec fn version_pattern() -> VersionPattern {
    VersionPattern { start: Start::Anywhere, prefix: "mdbook v", gap: Gap::Nothing, parts: 3, suffix: "", end: End::Anywhere }
}

/// The next step in analyzing an executable as mdBook, given the outputs of the runs so far.
pub open spec fn analyze_spec(outputs: Seq<Seq<char>>) -> AnalyzeActionView {
    identify_and_query_spec(outputs, seq!["-h"@], "Creates a book from markdown files"@, seq!["-V"@], version_pattern())
}

/// Where the versions of mdBook come from.
pub open spec fn version_source_spec() -> VersionSourceView {
    releases("rust-lang", "mdBook", None)
}

fn pattern() -> (p: VersionPattern)
    ensures
        p == version_pattern(),
{
    VersionPattern { start: Start::Anywhere, prefix: "mdbook v", gap: Gap::Nothing, parts: 3, suffix: "", end: End::Anywhere }
}

/// Finds the version of mdBook in the given output.
pub fn extract_version(output: &str) -> (r: Result<&str, UserError>)
    ensures
        captured(r, spec_first_capture(version_pattern(), output@)),
{
    first_capture(output, &pattern())
}

impl MdBook {
    /// The name by which the user selects mdBook.
    pub fn name(&self) -> (r: ApplicationName)
        ensures
            r@ == name_text(),
    {
        ApplicationName::from("mdbook")
    }

    /// The name of the mdBook executable.
    pub fn executable_filename(&self) -> (r: ExecutableNameUnix)
        ensures
            r@ == executable_text(),
    {
        ExecutableNameUnix::from("mdbook")
    }

    /// The homepage of mdBook.
    pub fn homepage(&self) -> (r: &'static str)
        ensures
            r@ == homepage_text(),
    {
        "https://github.com/rust-lang/mdBook"
    }

    /// The ways to install mdBook `version` on `platform`.
    fn install_methods(&self, version: &Version, platform: Platform) -> (r: Vec<Method>)
        ensures
            methods_view(r@) == install_methods_spec(version@, platform),
    {
        let os = match platform.os { Os::Linux => "unknown-linux-gnu", Os::MacOS => "apple-darwin", Os::Windows => "pc-windows-msvc" };
        let cpu = match platform.cpu { Cpu::Arm64 => "aarch64", Cpu::Intel64 => "x86_64" };
        let ext = match platform.os { Os::Linux => "tar.gz", Os::MacOS => "tar.gz", Os::Windows => "zip" };
        let mut url0 = String::from_str("https://github.com/rust-lang/mdBook/releases/download/v");
        url0.append(version.as_str());
        url0.append("/mdbook-v");
        url0.append(version.as_str());
        url0.append("-");
        url0.append(cpu);
        url0.append("-");
        url0.append(os);
        url0.append(".");
        url0.append(ext);
        let path1 = String::from_str("bin");
        two_methods(Method::DownloadArchive { url: url0, bin_folder: BinFolder::Root }, Method::CompileRustSource { crate_name: "mdbook", bin_folder: BinFolder::Subfolder { path: path1 } })
    }

    /// How to run mdBook `version` on `platform`.
    pub fn run_method(&self, version: &Version, platform: Platform) -> (r: RunMethod)
        ensures
            forall|sep: Seq<char>| r@ == run_method_spec(version@, platform, sep),
    {
        RunMethod::ThisApp { install_methods: self.install_methods(version, platform) }
    }

    /// Where the versions of mdBook come from.
    pub fn version_source(&self) -> (r: VersionSource)
        ensures
            r@ == version_source_spec(),
    {
        VersionSource::GithubReleases { org: "rust-lang", repo: "mdBook", tag_prefix: None }
    }

    /// The next step in analyzing an executable as mdBook, given the outputs of the runs so far.
    pub fn analyze_step(&self, outputs: &Vec<String>) -> (r: AnalyzeAction)
        ensures
            r@ == analyze_spec(texts(outputs@)),
    {
        identify_and_query(outputs, args1("-h"), "Creates a book from markdown files", args1("-V"), &pattern())
    }
}

} // verus!
