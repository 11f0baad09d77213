//! gofmt, the Go formatter, which comes with Go.

use crate::applications::{AnalyzeAction, AnalyzeActionView, AnalyzeResult, AnalyzeResultView, Application, ApplicationName, args1, copy_text};
use crate::applications::go::Go;
use crate::configuration::Version;
use crate::executables::{ExecutableNameUnix, RunMethod, RunMethodView};
use crate::hosting::{VersionSource, VersionSourceView};
use crate::installation::texts;
use crate::platform::Platform;
use crate::text::{contains, contains_seq};
use vstd::prelude::*;
use vstd::string::*;

verus! {

/// The gofmt application.
#[derive(Debug, Clone, Copy, PartialEq, Eq)]
pub struct Gofmt {}

/// The name of gofmt.
pub open spec fn name_text() -> Seq<char> {
    "gofmt"@
}

/// The name of the gofmt executable.
pub open spec fn executable_text() -> Seq<char> {
    name_text()
}

/// The homepage of gofmt.
pub open spec fn homepage_text() -> Seq<char> {
    "https://go.dev"@
}

/// How to run gofmt `version` on `platform` with path separator `sep`.
pub open spec fn run_method_spec(version: Seq<char>, platform: Platform, sep: Seq<char>) -> RunMethodView {
    RunMethodView::OtherAppOtherExecutable { app_definition: Application::Go, executable_name: "gofmt"@ }
}

/// The next step in analyzing an executable as gofmt, given the outputs of the runs so far.
pub open spec fn analyze_spec(outputs: Seq<Seq<char>>) -> AnalyzeActionView {
    if outputs.len() == 0 {
        AnalyzeActionView::Run { args: seq!["-h"@] }
    } else if !contains_seq(outputs[0], "report all errors (not just the first 10 on different lines)"@) {
        AnalyzeActionView::Done(AnalyzeResultView::NotIdentified { output: outputs[0] })
    } else {
        AnalyzeActionView::AnalyzeSibling { app: Application::Go, executable_name: crate::applications::go::executable_text() }
    }
}

/// Where the versions of gofmt come from.
pub open spec fn version_source_spec() -> VersionSourceView {
    VersionSourceView::SameAs(Application::Go)
}

/// The application that provides gofmt.
pub fn app_to_install() -> (r: Go)
    ensures
        r == (Go {}),
{
    Go {}
}

impl Gofmt {
    /// The name by which the user selects gofmt.
    pub fn name(&self) -> (r: ApplicationName)
        ensures
            r@ == name_text(),
    {
        ApplicationName::from("gofmt")
    }

    /// The name of the gofmt executable.
    pub fn executable_filename(&self) -> (r: ExecutableNameUnix)
        ensures
            r@ == executable_text(),
    {
        ExecutableNameUnix::from("gofmt")
    }

    /// The homepage of gofmt.
    pub fn homepage(&self) -> (r: &'static str)
        ensures
            r@ == homepage_text(),
    {
        "https://go.dev"
    }

    /// How to run gofmt `version` on `platform`.
    pub fn run_method(&self, version: &Version, platform: Platform) -> (r: RunMethod)
        ensures
            forall|sep: Seq<char>| r@ == run_method_spec(version@, platform, sep),
    {
        RunMethod::OtherAppOtherExecutable { app_definition: Application::Go, executable_name: ExecutableNameUnix::from("gofmt") }
    }

    /// Where the versions of gofmt come from.
    pub fn version_source(&self) -> (r: VersionSource)
        ensures
            r@ == version_source_spec(),
    {
        VersionSource::SameAs(Application::Go)
    }

    /// The next step in analyzing an executable as gofmt, given the outputs of the runs so far.
    pub fn analyze_step(&self, outputs: &Vec<String>) -> (r: AnalyzeAction)
        ensures
            r@ == analyze_spec(texts(outputs@)),
    {
        if outputs.len() == 0 {
            return AnalyzeAction::Run { args: args1("-h") };
        }
        if !contains(outputs[0].as_str(), "report all errors (not just the first 10 on different lines)") {
            return AnalyzeAction::Done(AnalyzeResult::NotIdentified { output: copy_text(&outputs[0]) });
        }
        AnalyzeAction::AnalyzeSibling { app: Application::Go, executable_name: (Go {}).executable_filename() }
    }
}

} // verus!
