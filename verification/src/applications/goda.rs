//! goda, a Go dependency analysis toolkit.

use crate::applications::{AnalyzeAction, AnalyzeActionView, ApplicationName, args1, identify, identify_spec};
use crate::configuration::{TagFormat, Version, tag_of};
use crate::executables::{ExecutableNameUnix, RunMethod, RunMethodView};
use crate::hosting::{VersionSource, VersionSourceView, releases};
use crate::installation::{Method, MethodView, methods_view, one_method, texts};
use crate::platform::Platform;
use vstd::prelude::*;
use vstd::string::*;

verus! {

/// The goda application.
#[derive(Debug, Clone, Copy, PartialEq, Eq)]
pub struct Goda {}

/// The name of goda.
pub open spec fn name_text() -> Seq<char> {
    "goda"@
}

/// The name of the goda executable.
pub open spec fn executable_text() -> Seq<char> {
    name_text()
}

/// The homepage of goda.
pub open spec fn homepage_text() -> Seq<char> {
    "https://github.com/loov/goda"@
}

/// The ways to install goda `version` on `platform`.
pub open spec fn install_methods_spec(version: Seq<char>, platform: Platform) -> Seq<MethodView> {
    seq![
        MethodView::CompileGoSource { import_path: "github.com/loov/goda@"@ + tag_of(TagFormat::PrefixV, version) },
    ]
}

/// How to run goda `version` on `platform` with path separator `sep`.
pub open spec fn run_method_spec(version: Seq<char>, platform: Platform, sep: Seq<char>) -> RunMethodView {
    RunMethodView::ThisApp { install_methods: install_methods_spec(version, platform) }
}

/// The next step in analyzing an executable as goda, given the outputs of the runs so far.
pub open spec fn analyze_spec(outputs: Seq<Seq<char>>) -> AnalyzeActionView {
    identify_spec(outputs, seq!["help"@], "Print dependency graph"@)
}

/// Where the versions of goda come from.
pub open spec fn version_source_spec() -> VersionSourceView {
    releases("loov", "goda", Some("v"))
}

impl Goda {
    /// The name by which the user selects goda.
    pub fn name(&self) -> (r: ApplicationName)
        ensures
            r@ == name_text(),
    {
        ApplicationName::from("goda")
    }

    /// The name of the goda executable.
    pub fn executable_filename(&self) -> (r: ExecutableNameUnix)
        ensures
            r@ == executable_text(),
    {
        ExecutableNameUnix::from("goda")
    }

    /// The homepage of goda.
    pub fn homepage(&self) -> (r: &'static str)
        ensures
            r@ == homepage_text(),
    {
        "https://github.com/loov/goda"
    }

    /// How the release tags of goda spell its versions.
    pub fn tag_format(&self) -> (r: TagFormat)
        ensures
            r == TagFormat::PrefixV,
    {
        TagFormat::PrefixV
    }

    /// The ways to install goda `version` on `platform`.
    fn install_methods(&self, version: &Version, platform: Platform) -> (r: Vec<Method>)
        ensures
            methods_view(r@) == install_methods_spec(version@, platform),
    {
        let tag = TagFormat::PrefixV.format_version(version);
        let mut import_path0 = String::from_str("github.com/loov/goda@");
        import_path0.append(tag.as_str());
        one_method(Method::CompileGoSource { import_path: import_path0 })
    }

    /// How to run goda `version` on `platform`.
    pub fn run_method(&self, version: &Version, platform: Platform) -> (r: RunMethod)
        ensures
            forall|sep: Seq<char>| r@ == run_method_spec(version@, platform, sep),
    {
        RunMethod::ThisApp { install_methods: self.install_methods(version, platform) }
    }

    /// Where the versions of goda come from.
    pub fn version_source(&self) -> (r: VersionSource)
        ensures
            r@ == version_source_spec(),
    {
        VersionSource::GithubReleases { org: "loov", repo: "goda", tag_prefix: Some("v") }
    }

    /// The next step in analyzing an executable as goda, given the outputs of the runs so far.
    pub fn analyze_step(&self, outputs: &Vec<String>) -> (r: AnalyzeAction)
        ensures
            r@ == analyze_spec(texts(outputs@)),
    {
        identify(outputs, args1("help"), "Print dependency graph")
    }
}

} // verus!
