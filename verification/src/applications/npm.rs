//! npm, the package manager of Node.js, which comes with Node.js.

use crate::applications::{AnalyzeAction, AnalyzeActionView, Application, ApplicationName, args1, args2, identify_and_query, identify_and_query_spec};
use crate::applications::nodejs::NodeJS;
use crate::configuration::{TagFormat, Version};
use crate::executables::{ExecutableNameUnix, RunMethod, RunMethodView};
use crate::hosting::{VersionSource, VersionSourceView};
use crate::installation::texts;
use crate::platform::{Os, Platform};
use crate::regexp::{any_version, any_version_pattern};
use vstd::prelude::*;
use vstd::string::*;

verus! {

/// The npm application.
#[derive(Debug, Clone, Copy, PartialEq, Eq)]
pub struct Npm {}

/// The name of npm.
pub open spec fn name_text() -> Seq<char> {
    "npm"@
}

/// The name of the npm executable.
pub open spec fn executable_text() -> Seq<char> {
    name_text()
}

/// The homepage of npm.
pub open spec fn homepage_text() -> Seq<char> {
    "https://www.npmjs.com"@
}

/// How to run npm `version` on `platform` with path separator `sep`.
pub open spec fn run_method_spec(version: Seq<char>, platform: Platform, sep: Seq<char>) -> RunMethodView {
    RunMethodView::OtherAppShellScript {
        carrier: Application::NodeJS,
        script_name: match platform.os {
            Os::Linux | Os::MacOS => "npm"@,
            Os::Windows => "npm.cmd"@,
        },
    }
}

/// The next step in analyzing an executable as npm, given the outputs of the runs so far.
pub open spec fn analyze_spec(outputs: Seq<Seq<char>>) -> AnalyzeActionView {
    identify_and_query_spec(outputs, seq!["help"@, "npm"@], "javascript package manager"@, seq!["--version"@], any_version_pattern())
}

/// Where the versions of npm come from.
pub open spec fn version_source_spec() -> VersionSourceView {
    VersionSourceView::SameAs(Application::NodeJS)
}

/// The application that provides npm.
pub fn app_to_install() -> (r: NodeJS)
    ensures
        r == (NodeJS {}),
{
    NodeJS {}
}

impl Npm {
    /// The name by which the user selects npm.
    pub fn name(&self) -> (r: ApplicationName)
        ensures
            r@ == name_text(),
    {
        ApplicationName::from("npm")
    }

    /// The name of the npm executable.
    pub fn executable_filename(&self) -> (r: ExecutableNameUnix)
        ensures
            r@ == executable_text(),
    {
        ExecutableNameUnix::from("npm")
    }

    /// The homepage of npm.
    pub fn homepage(&self) -> (r: &'static str)
        ensures
            r@ == homepage_text(),
    {
        "https://www.npmjs.com"
    }

    /// How the release tags of npm spell its versions.
    pub fn tag_format(&self) -> (r: TagFormat)
        ensures
            r == TagFormat::PrefixV,
    {
        TagFormat::PrefixV
    }

    /// How to run npm `version` on `platform`.
    pub fn run_method(&self, version: &Version, platform: Platform) -> (r: RunMethod)
        ensures
            forall|sep: Seq<char>| r@ == run_method_spec(version@, platform, sep),
    {
        RunMethod::OtherAppShellScript {
            carrier: Application::NodeJS,
            script_name: match platform.os {
                Os::Linux | Os::MacOS => "npm",
                Os::Windows => "npm.cmd",
            },
        }
    }

    /// Where the versions of npm come from.
    pub fn version_source(&self) -> (r: VersionSource)
        ensures
            r@ == version_source_spec(),
    {
        VersionSource::SameAs(Application::NodeJS)
    }

    /// The next step in analyzing an executable as npm, given the outputs of the runs so far.
    pub fn analyze_step(&self, outputs: &Vec<String>) -> (r: AnalyzeAction)
        ensures
            r@ == analyze_spec(texts(outputs@)),
    {
        identify_and_query(outputs, args2("help", "npm"), "javascript package manager", args1("--version"), &any_version())
    }
}

} // verus!
