//! alphavet, a Go linter that checks that functions are ordered alphabetically.

use crate::applications::{AnalyzeAction, AnalyzeActionView, ApplicationName, args1, identify, identify_spec};
use crate::configuration::Version;
use crate::executables::{ExecutableNameUnix, RunMethod, RunMethodView};
use crate::hosting::{VersionSource, VersionSourceView, releases};
use crate::installation::{Method, MethodView, methods_view, one_method, texts};
use crate::platform::Platform;
use vstd::prelude::*;
use vstd::string::*;

verus! {

/// The alphavet application.
#[derive(Debug, Clone, Copy, PartialEq, Eq)]
pub struct Alphavet {}

/// The name of alphavet.
pub open spec fn name_text() -> Seq<char> {
    "alphavet"@
}

/// The name of the alphavet executable.
pub open spec fn executable_text() -> Seq<char> {
    name_text()
}

/// The homepage of alphavet.
pub open spec fn homepage_text() -> Seq<char> {
    "https://github.com/skx/alphavet"@
}

/// The ways to install alphavet `version` on `platform`.
pub open spec fn install_methods_spec(version: Seq<char>, platform: Platform) -> Seq<MethodView> {
    seq![
        MethodView::CompileGoSource { import_path: "github.com/skx/alphavet/cmd/alphavet@v"@ + version },
    ]
}

/// How to run alphavet `version` on `platform` with path separator `sep`.
pub open spec fn run_method_spec(version: Seq<char>, platform: Platform, sep: Seq<char>) -> RunMethodView {
    RunMethodView::ThisApp { install_methods: install_methods_spec(version, platform) }
}

/// The next step in analyzing an executable as alphavet, given the outputs of the runs so far.
pub open spec fn analyze_spec(outputs: Seq<Seq<char>>) -> AnalyzeActionView {
    identify_spec(outputs, seq!["-h"@], "Checks that functions are ordered alphabetically within packages"@)
}

/// Where the versions of alphavet come from.
pub open spec fn version_source_spec() -> VersionSourceView {
    releases("skx", "alphavet", None)
}

impl Alphavet {
    /// The name by which the user selects alphavet.
    pub fn name(&self) -> (r: ApplicationName)
        ensures
            r@ == name_text(),
    {
        ApplicationName::from("alphavet")
    }

    /// The name of the alphavet executable.
    pub fn executable_filename(&self) -> (r: ExecutableNameUnix)
        ensures
            r@ == executable_text(),
    {
        ExecutableNameUnix::from("alphavet")
    }

    /// The homepage of alphavet.
    pub fn homepage(&self) -> (r: &'static str)
        ensures
            r@ == homepage_text(),
    {
        "https://github.com/skx/alphavet"
    }

    /// The ways to install alphavet `version` on `platform`.
    fn install_methods(&self, version: &Version, platform: Platform) -> (r: Vec<Method>)
        ensures
            methods_view(r@) == install_methods_spec(version@, platform),
    {
        let mut import_path0 = String::from_str("github.com/skx/alphavet/cmd/alphavet@v");
        import_path0.append(version.as_str());
        one_method(Method::CompileGoSource { import_path: import_path0 })
    }

    /// How to run alphavet `version` on `platform`.
    pub fn run_method(&self, version: &Version, platform: Platform) -> (r: RunMethod)
        ensures
            forall|sep: Seq<char>| r@ == run_method_spec(version@, platform, sep),
    {
        RunMethod::ThisApp { install_methods: self.install_methods(version, platform) }
    }

    /// Where the versions of alphavet come from.
    pub fn version_source(&self) -> (r: VersionSource)
        ensures
            r@ == version_source_spec(),
    {
        VersionSource::GithubReleases { org: "skx", repo: "alphavet", tag_prefix: None }
    }

    /// The next step in analyzing an executable as alphavet, given the outputs of the runs so far.
    pub fn analyze_step(&self, outputs: &Vec<String>) -> (r: AnalyzeAction)
        ensures
            r@ == analyze_spec(texts(outputs@)),
    {
        identify(outputs, args1("-h"), "Checks that functions are ordered alphabetically within packages")
    }
}

} // verus!
