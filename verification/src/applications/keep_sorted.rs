//! keep-sorted, a language-agnostic formatter that sorts lines.

use crate::applications::{AnalyzeAction, AnalyzeActionView, ApplicationName, args1, identify_and_query, identify_and_query_spec};
use crate::configuration::{TagFormat, Version, tag_of};
use crate::executables::{ExecutableNameUnix, RunMethod, RunMethodView};
use crate::hosting::{VersionSource, VersionSourceView, releases};
use crate::installation::{Method, MethodView, methods_view, one_method, texts};
use crate::platform::Platform;
use crate::regexp::{any_version, any_version_pattern};
use vstd::prelude::*;
use vstd::string::*;

verus! {

/// The keep-sorted application.
#[derive(Debug, Clone, Copy, PartialEq, Eq)]
pub struct KeepSorted {}

/// The name of keep-sorted.
pub open spec fn name_text() -> Seq<char> {
    "keep-sorted"@
}

/// The name of the keep-sorted executable.
pub open spec fn executable_text() -> Seq<char> {
    name_text()
}

/// The homepage of keep-sorted.
pub open spec fn homepage_text() -> Seq<char> {
    "https://github.com/google/keep-sorted"@
}

/// The ways to install keep-sorted `version` on `platform`.
pub open spec fn install_methods_spec(version: Seq<char>, platform: Platform) -> Seq<MethodView> {
    seq![
        MethodView::CompileGoSource { import_path: "github.com/google/keep-sorted@"@ + tag_of(TagFormat::PrefixV, version) },
    ]
}

/// How to run keep-sorted `version` on `platform` with path separator `sep`.
pub open spec fn run_method_spec(version: Seq<char>, platform: Platform, sep: Seq<char>) -> RunMethodView {
    RunMethodView::ThisApp { install_methods: install_methods_spec(version, platform) }
}

/// The next step in analyzing an executable as keep-sorted, given the outputs of the runs so far.
pub open spec fn analyze_spec(outputs: Seq<Seq<char>>) -> AnalyzeActionView {
    identify_and_query_spec(outputs, seq!["-h"@], "The options keep-sorted will use to sort."@, seq!["--version"@], any_version_pattern())
}

/// Where the versions of keep-sorted come from.
pub open spec fn version_source_spec() -> VersionSourceView {
    releases("google", "keep-sorted", Some("v"))
}

impl KeepSorted {
    /// The name by which the user selects keep-sorted.
    pub fn name(&self) -> (r: ApplicationName)
        ensures
            r@ == name_text(),
    {
        ApplicationName::from("keep-sorted")
    }

    /// The name of the keep-sorted executable.
    pub fn executable_filename(&self) -> (r: ExecutableNameUnix)
        ensures
            r@ == executable_text(),
    {
        ExecutableNameUnix::from("keep-sorted")
    }

    /// The homepage of keep-sorted.
    pub fn homepage(&self) -> (r: &'static str)
        ensures
            r@ == homepage_text(),
    {
        "https://github.com/google/keep-sorted"
    }

    /// How the release tags of keep-sorted spell its versions.
    pub fn tag_format(&self) -> (r: TagFormat)
        ensures
            r == TagFormat::PrefixV,
    {
        TagFormat::PrefixV
    }

    /// The ways to install keep-sorted `version` on `platform`.
    fn install_methods(&self, version: &Version, platform: Platform) -> (r: Vec<Method>)
        ensures
            methods_view(r@) == install_methods_spec(version@, platform),
    {
        let tag = TagFormat::PrefixV.format_version(version);
        let mut import_path0 = String::from_str("github.com/google/keep-sorted@");
        import_path0.append(tag.as_str());
        one_method(Method::CompileGoSource { import_path: import_path0 })
    }

    /// How to run keep-sorted `version` on `platform`.
    pub fn run_method(&self, version: &Version, platform: Platform) -> (r: RunMethod)
        ensures
            forall|sep: Seq<char>| r@ == run_method_spec(version@, platform, sep),
    {
        RunMethod::ThisApp { install_methods: self.install_methods(version, platform) }
    }

    /// Where the versions of keep-sorted come from.
    pub fn version_source(&self) -> (r: VersionSource)
        ensures
            r@ == version_source_spec(),
    {
        VersionSource::GithubReleases { org: "google", repo: "keep-sorted", tag_prefix: Some("v") }
    }

    /// The next step in analyzing an executable as keep-sorted, given the outputs of the runs so far.
    pub fn analyze_step(&self, outputs: &Vec<String>) -> (r: AnalyzeAction)
        ensures
            r@ == analyze_spec(texts(outputs@)),
    {
        identify_and_query(outputs, args1("-h"), "The options keep-sorted will use to sort.", args1("--version"), &any_version())
    }
}

} // verus!
