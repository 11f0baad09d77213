//! exhaustruct, a Go linter that checks that all fields of structs are initialized.

use crate::applications::{AnalyzeAction, AnalyzeActionView, ApplicationName, args1, identify, identify_spec};
use crate::configuration::{Version, major_number};
use crate::executables::{ExecutableNameUnix, RunMethod, RunMethodView};
use crate::hosting::{VersionSource, VersionSourceView, releases};
use crate::installation::{Method, MethodView, one_method, texts};
use crate::platform::Platform;
use crate::text::{decimal_string, decimal_text};
use vstd::prelude::*;
use vstd::string::*;

verus! {

/// The exhaustruct application.
#[derive(Debug, Clone, Copy, PartialEq, Eq)]
pub struct Exhaustruct {}

/// The name of exhaustruct.
pub open spec fn name_text() -> Seq<char> {
    "exhaustruct"@
}

/// The name of the exhaustruct executable.
pub open spec fn executable_text() -> Seq<char> {
    name_text()
}

/// The homepage of exhaustruct.
pub open spec fn homepage_text() -> Seq<char> {
    "https://github.com/GaijinEntertainment/go-exhaustruct"@
}

/// How to run exhaustruct `version` on `platform` with path separator `sep`.
pub open spec fn run_method_spec(version: Seq<char>, platform: Platform, sep: Seq<char>) -> RunMethodView {
    RunMethodView::ThisApp { install_methods: seq![MethodView::CompileGoSource { import_path: import_path_spec(version) }] }
}

/// The major version of exhaustruct `version`: the number before its first dot, or 3.
pub open spec fn major_spec(version: Seq<char>) -> nat {
    match major_number(version) {
        Some(n) => n as nat,
        None => 3,
    }
}

/// The Go import path of exhaustruct `version`: versions from 4 on live at `dev.gaijin.team`.
pub open spec fn import_path_spec(version: Seq<char>) -> Seq<char> {
    let major = major_spec(version);
    if major >= 4 {
        "dev.gaijin.team/go/exhaustruct/v"@ + decimal_text(major) + "/cmd/exhaustruct@v"@ + version
    } else {
        "github.com/GaijinEntertainment/go-exhaustruct/v"@ + decimal_text(major) + "/cmd/exhaustruct@v"@ + version
    }
}

/// The next step in analyzing an executable as exhaustruct, given the outputs of the runs so far.
pub open spec fn analyze_spec(outputs: Seq<Seq<char>>) -> AnalyzeActionView {
    identify_spec(outputs, seq!["-h"@], "exhaustruct: Checks if all structure fields are initialized"@)
}

/// Where the versions of exhaustruct come from.
pub open spec fn version_source_spec() -> VersionSourceView {
    releases("GaijinEntertainment", "go-exhaustruct", None)
}

/// The Go import path of exhaustruct `version`.
pub fn import_path(version: &Version) -> (r: String)
    ensures
        r@ == import_path_spec(version@),
{
    let major = match version.major_version() {
        Some(n) => n,
        None => 3,
    };
    let mut path = if major >= 4 {
        String::from_str("dev.gaijin.team/go/exhaustruct/v")
    } else {
        String::from_str("github.com/GaijinEntertainment/go-exhaustruct/v")
    };
    path.append(decimal_string(major).as_str());
    path.append("/cmd/exhaustruct@v");
    path.append(version.as_str());
    path
}

impl Exhaustruct {
    /// The name by which the user selects exhaustruct.
    pub fn name(&self) -> (r: ApplicationName)
        ensures
            r@ == name_text(),
    {
        ApplicationName::from("exhaustruct")
    }

    /// The name of the exhaustruct executable.
    pub fn executable_filename(&self) -> (r: ExecutableNameUnix)
        ensures
            r@ == executable_text(),
    {
        ExecutableNameUnix::from("exhaustruct")
    }

    /// The homepage of exhaustruct.
    pub fn homepage(&self) -> (r: &'static str)
        ensures
            r@ == homepage_text(),
    {
        "https://github.com/GaijinEntertainment/go-exhaustruct"
    }

    /// How to run exhaustruct `version` on `platform`.
    pub fn run_method(&self, version: &Version, platform: Platform) -> (r: RunMethod)
        ensures
            forall|sep: Seq<char>| r@ == run_method_spec(version@, platform, sep),
    {
        RunMethod::ThisApp { install_methods: one_method(Method::CompileGoSource { import_path: import_path(version) }) }
    }

    /// Where the versions of exhaustruct come from.
    pub fn version_source(&self) -> (r: VersionSource)
        ensures
            r@ == version_source_spec(),
    {
        VersionSource::GithubReleases { org: "GaijinEntertainment", repo: "go-exhaustruct", tag_prefix: None }
    }

    /// The next step in analyzing an executable as exhaustruct, given the outputs of the runs so far.
    pub fn analyze_step(&self, outputs: &Vec<String>) -> (r: AnalyzeAction)
        ensures
            r@ == analyze_spec(texts(outputs@)),
    {
        identify(outputs, args1("-h"), "exhaustruct: Checks if all structure fields are initialized")
    }
}

} // verus!
