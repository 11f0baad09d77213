//! deadcode, a tool that reports unreachable functions in Go programs.

use crate::applications::{AnalyzeAction, AnalyzeActionView, ApplicationName, args1, identify, identify_spec};
use crate::configuration::{TagFormat, Version, tag_of};
use crate::executables::{ExecutableNameUnix, RunMethod, RunMethodView};
use crate::hosting::{VersionSource, VersionSourceView};
use crate::installation::{Method, MethodView, methods_view, one_method, texts};
use crate::platform::Platform;
use vstd::prelude::*;
use vstd::string::*;

verus! {

/// The deadcode application.
#[derive(Debug, Clone, Copy, PartialEq, Eq)]
pub struct Deadcode {}

/// The name of deadcode.
pub open spec fn name_text() -> Seq<char> {
    "deadcode"@
}

/// The name of the deadcode executable.
pub open spec fn executable_text() -> Seq<char> {
    name_text()
}

/// The homepage of deadcode.
pub open spec fn homepage_text() -> Seq<char> {
    "https://pkg.go.dev/golang.org/x/tools/cmd/deadcode"@
}

/// The ways to install deadcode `version` on `platform`.
pub open spec fn install_methods_spec(version: Seq<char>, platform: Platform) -> Seq<MethodView> {
    seq![
        MethodView::CompileGoSource { import_path: "golang.org/x/tools/cmd/deadcode@"@ + tag_of(TagFormat::PrefixV, version) },
    ]
}

/// How to run deadcode `version` on `platform` with path separator `sep`.
pub open spec fn run_method_spec(version: Seq<char>, platform: Platform, sep: Seq<char>) -> RunMethodView {
    RunMethodView::ThisApp { install_methods: install_methods_spec(version, platform) }
}

/// The next step in analyzing an executable as deadcode, given the outputs of the runs so far.
pub open spec fn analyze_spec(outputs: Seq<Seq<char>>) -> AnalyzeActionView {
    identify_spec(outputs, seq!["-h"@], "The deadcode command reports unreachable functions in Go programs"@)
}

/// Where the versions of deadcode come from.
pub open spec fn version_source_spec() -> VersionSourceView {
    VersionSourceView::PkgGoDev { package: "golang.org/x/tools"@, tag_format: TagFormat::PrefixV }
}

impl Deadcode {
    /// The name by which the user selects deadcode.
    pub fn name(&self) -> (r: ApplicationName)
        ensures
            r@ == name_text(),
    {
        ApplicationName::from("deadcode")
    }

    /// The name of the deadcode executable.
    pub fn executable_filename(&self) -> (r: ExecutableNameUnix)
        ensures
            r@ == executable_text(),
    {
        ExecutableNameUnix::from("deadcode")
    }

    /// The homepage of deadcode.
    pub fn homepage(&self) -> (r: &'static str)
        ensures
            r@ == homepage_text(),
    {
        "https://pkg.go.dev/golang.org/x/tools/cmd/deadcode"
    }

    /// How the release tags of deadcode spell its versions.
    pub fn tag_format(&self) -> (r: TagFormat)
        ensures
            r == TagFormat::PrefixV,
    {
        TagFormat::PrefixV
    }

    /// The ways to install deadcode `version` on `platform`.
    fn install_methods(&self, version: &Version, platform: Platform) -> (r: Vec<Method>)
        ensures
            methods_view(r@) == install_methods_spec(version@, platform),
    {
        let tag = TagFormat::PrefixV.format_version(version);
        let mut import_path0 = String::from_str("golang.org/x/tools/cmd/deadcode@");
        import_path0.append(tag.as_str());
        one_method(Method::CompileGoSource { import_path: import_path0 })
    }

    /// How to run deadcode `version` on `platform`.
    pub fn run_method(&self, version: &Version, platform: Platform) -> (r: RunMethod)
        ensures
            forall|sep: Seq<char>| r@ == run_method_spec(version@, platform, sep),
    {
        RunMethod::ThisApp { install_methods: self.install_methods(version, platform) }
    }

    /// Where the versions of deadcode come from.
    pub fn version_source(&self) -> (r: VersionSource)
        ensures
            r@ == version_source_spec(),
    {
        VersionSource::PkgGoDev { package: "golang.org/x/tools", tag_format: TagFormat::PrefixV }
    }

    /// The next step in analyzing an executable as deadcode, given the outputs of the runs so far.
    pub fn analyze_step(&self, outputs: &Vec<String>) -> (r: AnalyzeAction)
        ensures
            r@ == analyze_spec(texts(outputs@)),
    {
        identify(outputs, args1("-h"), "The deadcode command reports unreachable functions in Go programs")
    }
}

} // verus!
