//! Text-Runner, a tool that runs the code blocks in Markdown documents, run through Node.js.

use crate::applications::{AnalyzeAction, AnalyzeActionView, ApplicationName, args1, identify_and_query, identify_and_query_spec};
use crate::configuration::{TagFormat, Version};
use crate::executables::{ExecutableNameUnix, RunMethod, RunMethodView};
use crate::hosting::{VersionSource, VersionSourceView, releases};
use crate::installation::texts;
use crate::platform::Platform;
use crate::regexp::{any_version, any_version_pattern};
use vstd::prelude::*;
use vstd::string::*;

verus! {

/// The Text-Runner application.
#[derive(Debug, Clone, Copy, PartialEq, Eq)]
pub struct TextRunner {}

/// The name of Text-Runner.
pub open spec fn name_text() -> Seq<char> {
    "text-runner"@
}

/// The name of the Text-Runner executable.
pub open spec fn executable_text() -> Seq<char> {
    name_text()
}

/// The homepage of Text-Runner.
pub open spec fn homepage_text() -> Seq<char> {
    "https://github.com/kevgo/text-runner"@
}

/// How to run Text-Runner `version` on `platform` with path separator `sep`.
pub open spec fn run_method_spec(version: Seq<char>, platform: Platform, sep: Seq<char>) -> RunMethodView {
    RunMethodView::NodeJS { package: "text-runner"@ }
}

/// The next step in analyzing an executable as Text-Runner, given the outputs of the runs so far.
/// The help marker is the program name, which the Text-Runner help is assumed
/// to show; this is not confirmed against the help output of a released Text-Runner.
pub open spec fn analyze_spec(outputs: Seq<Seq<char>>) -> AnalyzeActionView {
    identify_and_query_spec(outputs, seq!["-h"@], "text-runner"@, seq!["--version"@], any_version_pattern())
}

/// Where the versions of Text-Runner come from.
pub open spec fn version_source_spec() -> VersionSourceView {
    releases("kevgo", "text-runner", Some("v"))
}

impl TextRunner {
    /// The name by which the user selects Text-Runner.
    pub fn name(&self) -> (r: ApplicationName)
        ensures
            r@ == name_text(),
    {
        ApplicationName::from("text-runner")
    }

    /// The name of the Text-Runner executable.
    pub fn executable_filename(&self) -> (r: ExecutableNameUnix)
        ensures
            r@ == executable_text(),
    {
        ExecutableNameUnix::from("text-runner")
    }

    /// The homepage of Text-Runner.
    pub fn homepage(&self) -> (r: &'static str)
        ensures
            r@ == homepage_text(),
    {
        "https://github.com/kevgo/text-runner"
    }

    /// How the release tags of Text-Runner spell its versions.
    pub fn tag_format(&self) -> (r: TagFormat)
        ensures
            r == TagFormat::PrefixV,
    {
        TagFormat::PrefixV
    }

    /// How to run Text-Runner `version` on `platform`.
    pub fn run_method(&self, version: &Version, platform: Platform) -> (r: RunMethod)
        ensures
            forall|sep: Seq<char>| r@ == run_method_spec(version@, platform, sep),
    {
        RunMethod::NodeJS { package: "text-runner" }
    }

    /// Where the versions of Text-Runner come from.
    pub fn version_source(&self) -> (r: VersionSource)
        ensures
            r@ == version_source_spec(),
    {
        VersionSource::GithubReleases { org: "kevgo", repo: "text-runner", tag_prefix: Some("v") }
    }

    /// The next step in analyzing an executable as Text-Runner, given the outputs of the runs so far.
    pub fn analyze_step(&self, outputs: &Vec<String>) -> (r: AnalyzeAction)
        ensures
            r@ == analyze_spec(texts(outputs@)),
    {
        identify_and_query(outputs, args1("-h"), "text-runner", args1("--version"), &any_version())
    }
}

} // verus!
