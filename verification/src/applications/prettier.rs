//! Prettier, a code formatter, run through Node.js.

use crate::applications::{AnalyzeAction, AnalyzeActionView, ApplicationName, args1, identify_and_query, identify_and_query_spec};
use crate::configuration::{TagFormat, Version};
use crate::executables::{ExecutableNameUnix, RunMethod, RunMethodView};
use crate::hosting::{VersionSource, VersionSourceView, releases};
use crate::installation::texts;
use crate::platform::Platform;
use crate::regexp::{any_version, any_version_pattern};
use vstd::prelude::*;
use vstd::string::*;

verus! {

/// The Prettier application.
#[derive(Debug, Clone, Copy, PartialEq, Eq)]
pub struct Prettier {}

/// The name of Prettier.
pub open spec fn name_text() -> Seq<char> {
    "prettier"@
}

/// The name of the Prettier executable.
pub open spec fn executable_text() -> Seq<char> {
    name_text()
}

/// The homepage of Prettier.
pub open spec fn homepage_text() -> Seq<char> {
    "https://github.com/prettier/prettier"@
}

/// How to run Prettier `version` on `platform` with path separator `sep`.
pub open spec fn run_method_spec(version: Seq<char>, platform: Platform, sep: Seq<char>) -> RunMethodView {
    RunMethodView::NodeJS { package: "prettier"@ }
}

/// The next step in analyzing an executable as Prettier, given the outputs of the runs so far.
pub open spec fn analyze_spec(outputs: Seq<Seq<char>>) -> AnalyzeActionView {
    identify_and_query_spec(outputs, seq!["-h"@], "Stdin is read if it is piped to Prettier and no files are given."@, seq!["--version"@], any_version_pattern())
}

/// Where the versions of Prettier come from.
pub open spec fn version_source_spec() -> VersionSourceView {
    releases("prettier", "prettier", Some("v"))
}

impl Prettier {
    /// The name by which the user selects Prettier.
    pub fn name(&self) -> (r: ApplicationName)
        ensures
            r@ == name_text(),
    {
        ApplicationName::from("prettier")
    }

    /// The name of the Prettier executable.
    pub fn executable_filename(&self) -> (r: ExecutableNameUnix)
        ensures
            r@ == executable_text(),
    {
        ExecutableNameUnix::from("prettier")
    }

    /// The homepage of Prettier.
    pub fn homepage(&self) -> (r: &'static str)
        ensures
            r@ == homepage_text(),
    {
        "https://github.com/prettier/prettier"
    }

    /// How the release tags of Prettier spell its versions.
    pub fn tag_format(&self) -> (r: TagFormat)
        ensures
            r == TagFormat::PrefixV,
    {
        TagFormat::PrefixV
    }

    /// How to run Prettier `version` on `platform`.
    pub fn run_method(&self, version: &Version, platform: Platform) -> (r: RunMethod)
        ensures
            forall|sep: Seq<char>| r@ == run_method_spec(version@, platform, sep),
    {
        RunMethod::NodeJS { package: "prettier" }
    }

    /// Where the versions of Prettier come from.
    pub fn version_source(&self) -> (r: VersionSource)
        ensures
            r@ == version_source_spec(),
    {
        VersionSource::GithubReleases { org: "prettier", repo: "prettier", tag_prefix: Some("v") }
    }

    /// The next step in analyzing an executable as Prettier, given the outputs of the runs so far.
    pub fn analyze_step(&self, outputs: &Vec<String>) -> (r: AnalyzeAction)
        ensures
            r@ == analyze_spec(texts(outputs@)),
    {
        identify_and_query(outputs, args1("-h"), "Stdin is read if it is piped to Prettier and no files are given.", args1("--version"), &any_version())
    }
}

} // verus!
