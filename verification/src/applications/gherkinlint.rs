//! gherkin-lint, a linter for Gherkin files.

use crate::applications::{AnalyzeAction, AnalyzeActionView, ApplicationName, args1, identify, identify_spec};
use crate::configuration::{TagFormat, Version};
use crate::executables::{ExecutableNameUnix, RunMethod, RunMethodView};
use crate::hosting::{VersionSource, VersionSourceView, releases};
use crate::installation::texts;
use crate::platform::Platform;
use vstd::prelude::*;
use vstd::string::*;

verus! {

/// The gherkin-lint application.
#[derive(Debug, Clone, Copy, PartialEq, Eq)]
pub struct GherkinLint {}

/// The name of gherkin-lint.
pub open spec fn name_text() -> Seq<char> {
    "gherkin-lint"@
}

/// The name of the gherkin-lint executable.
pub open spec fn executable_text() -> Seq<char> {
    name_text()
}

/// The homepage of gherkin-lint.
pub open spec fn homepage_text() -> Seq<char> {
    "https://github.com/gherkin-lint/gherkin-lint"@
}

/// How to run gherkin-lint `version` on `platform` with path separator `sep`.
pub open spec fn run_method_spec(version: Seq<char>, platform: Platform, sep: Seq<char>) -> RunMethodView {
    RunMethodView::NodeJSExecutable { package_name: "gherkin-lint"@, executable_path: "node_modules/.bin/gherkin-lint"@ }
}

/// The next step in analyzing an executable as gherkin-lint, given the outputs of the runs so far.
pub open spec fn analyze_spec(outputs: Seq<Seq<char>>) -> AnalyzeActionView {
    identify_spec(outputs, seq!["-h"@], ".gherkin-lintrc"@)
}

/// Where the versions of gherkin-lint come from.
pub open spec fn version_source_spec() -> VersionSourceView {
    releases("gherkin-lint", "gherkin-lint", Some(""))
}

impl GherkinLint {
    /// The name by which the user selects gherkin-lint.
    pub fn name(&self) -> (r: ApplicationName)
        ensures
            r@ == name_text(),
    {
        ApplicationName::from("gherkin-lint")
    }

    /// The name of the gherkin-lint executable.
    pub fn executable_filename(&self) -> (r: ExecutableNameUnix)
        ensures
            r@ == executable_text(),
    {
        ExecutableNameUnix::from("gherkin-lint")
    }

    /// The homepage of gherkin-lint.
    pub fn homepage(&self) -> (r: &'static str)
        ensures
            r@ == homepage_text(),
    {
        "https://github.com/gherkin-lint/gherkin-lint"
    }

    /// How the release tags of gherkin-lint spell its versions.
    pub fn tag_format(&self) -> (r: TagFormat)
        ensures
            r == TagFormat::Plain,
    {
        TagFormat::Plain
    }

    /// How to run gherkin-lint `version` on `platform`.
    pub fn run_method(&self, version: &Version, platform: Platform) -> (r: RunMethod)
        ensures
            forall|sep: Seq<char>| r@ == run_method_spec(version@, platform, sep),
    {
        RunMethod::NodeJSExecutable {
            package_name: String::from_str("gherkin-lint"),
            executable_path: String::from_str("node_modules/.bin/gherkin-lint"),
        }
    }

    /// Where the versions of gherkin-lint come from.
    pub fn version_source(&self) -> (r: VersionSource)
        ensures
            r@ == version_source_spec(),
    {
        VersionSource::GithubReleases { org: "gherkin-lint", repo: "gherkin-lint", tag_prefix: Some("") }
    }

    /// The next step in analyzing an executable as gherkin-lint, given the outputs of the runs so far.
    pub fn analyze_step(&self, outputs: &Vec<String>) -> (r: AnalyzeAction)
        ensures
            r@ == analyze_spec(texts(outputs@)),
    {
        identify(outputs, args1("-h"), ".gherkin-lintrc")
    }
}

} // verus!
