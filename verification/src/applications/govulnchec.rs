//! govulncheck, a tool that reports known vulnerabilities in the dependencies of Go code.

use crate::applications::{AnalyzeAction, AnalyzeActionView, ApplicationName, args1, identify, identify_spec};
use crate::configuration::{Version, version_texts};
use crate::error::UserError;
use crate::executables::{ExecutableNameUnix, RunMethod, RunMethodView};
use crate::hosting::{VersionSource, VersionSourceView};
use crate::installation::{Method, MethodView, methods_view, one_method, texts};
use crate::platform::Platform;
use vstd::prelude::*;
use vstd::string::*;

verus! {

/// The govulncheck application.
#[derive(Debug, Clone, Copy, PartialEq, Eq)]
pub struct Govulncheck {}

/// The name of govulncheck.
pub open spec fn name_text() -> Seq<char> {
    "govulncheck"@
}

/// The name of the govulncheck executable.
pub open spec fn executable_text() -> Seq<char> {
    name_text()
}

/// The homepage of govulncheck.
pub open spec fn homepage_text() -> Seq<char> {
    "https://pkg.go.dev/golang.org/x/vuln/cmd/govulncheck"@
}

/// The ways to install govulncheck `version` on `platform`.
pub open spec fn install_methods_spec(version: Seq<char>, platform: Platform) -> Seq<MethodView> {
    seq![
        MethodView::CompileGoSource { import_path: "golang.org/x/vuln/cmd/govulncheck@v"@ + version },
    ]
}

/// How to run govulncheck `version` on `platform` with path separator `sep`.
pub open spec fn run_method_spec(version: Seq<char>, platform: Platform, sep: Seq<char>) -> RunMethodView {
    RunMethodView::ThisApp { install_methods: install_methods_spec(version, platform) }
}

/// The versions of govulncheck that can be installed, newest first.
pub open spec fn fixed_versions() -> Seq<Seq<char>> {
    seq!["1.1.4"@, "1.1.3"@]
}

/// The next step in analyzing an executable as govulncheck, given the outputs of the runs so far.
pub open spec fn analyze_spec(outputs: Seq<Seq<char>>) -> AnalyzeActionView {
    identify_spec(outputs, seq!["-h"@], "Govulncheck reports known vulnerabilities in dependencies"@)
}

/// Where the versions of govulncheck come from.
pub open spec fn version_source_spec() -> VersionSourceView {
    VersionSourceView::Fixed
}

impl Govulncheck {
    /// The name by which the user selects govulncheck.
    pub fn name(&self) -> (r: ApplicationName)
        ensures
            r@ == name_text(),
    {
        ApplicationName::from("govulncheck")
    }

    /// The name of the govulncheck executable.
    pub fn executable_filename(&self) -> (r: ExecutableNameUnix)
        ensures
            r@ == executable_text(),
    {
        ExecutableNameUnix::from("govulncheck")
    }

    /// The homepage of govulncheck.
    pub fn homepage(&self) -> (r: &'static str)
        ensures
            r@ == homepage_text(),
    {
        "https://pkg.go.dev/golang.org/x/vuln/cmd/govulncheck"
    }

    /// The ways to install govulncheck `version` on `platform`.
    pub fn run_methods(&self, version: &Version, platform: Platform) -> (r: Vec<Method>)
        ensures
            methods_view(r@) == install_methods_spec(version@, platform),
    {
        let mut import_path0 = String::from_str("golang.org/x/vuln/cmd/govulncheck@v");
        import_path0.append(version.as_str());
        one_method(Method::CompileGoSource { import_path: import_path0 })
    }

    /// How to run govulncheck `version` on `platform`.
    pub fn run_method(&self, version: &Version, platform: Platform) -> (r: RunMethod)
        ensures
            forall|sep: Seq<char>| r@ == run_method_spec(version@, platform, sep),
    {
        RunMethod::ThisApp { install_methods: self.run_methods(version, platform) }
    }

    /// Where the versions of govulncheck come from.
    pub fn version_source(&self) -> (r: VersionSource)
        ensures
            r@ == version_source_spec(),
    {
        VersionSource::Fixed
    }

    /// The next step in analyzing an executable as govulncheck, given the outputs of the runs so far.
    pub fn analyze_step(&self, outputs: &Vec<String>) -> (r: AnalyzeAction)
        ensures
            r@ == analyze_spec(texts(outputs@)),
    {
        identify(outputs, args1("-h"), "Govulncheck reports known vulnerabilities in dependencies")
    }

    /// The newest version of govulncheck that can be installed.
    pub fn latest_installable_version(&self) -> (r: Result<Version, UserError>)
        ensures
            r matches Ok(v) && v@ == "1.1.4"@,
    {
        Ok(Version::from("1.1.4"))
    }

    /// The versions of govulncheck that can be installed, newest first.
    pub fn installable_versions(&self, amount: usize) -> (r: Result<Vec<Version>, UserError>)
        ensures
            r matches Ok(v) && version_texts(v@) == fixed_versions().take(if amount < 2 { amount as int } else { 2 }),
    {
        let mut versions: Vec<Version> = Vec::new();
        if amount >= 1 {
            versions.push(Version::from("1.1.4"));
        }
        if amount >= 2 {
            versions.push(Version::from("1.1.3"));
        }
        assert(version_texts(versions@) =~= fixed_versions().take(if amount < 2 { amount as int } else { 2 }));
        Ok(versions)
    }
}

} // verus!
