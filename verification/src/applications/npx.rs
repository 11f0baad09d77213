//! npx, the package runner of Node.js, which comes with Node.js.

use crate::applications::{AnalyzeAction, AnalyzeActionView, Application, ApplicationName, args1, identify, identify_spec};
use crate::applications::nodejs::NodeJS;
use crate::configuration::{TagFormat, Version};
use crate::executables::{ExecutableNameUnix, RunMethod, RunMethodView};
use crate::hosting::{VersionSource, VersionSourceView};
use crate::installation::texts;
use crate::platform::{Os, Platform};
use vstd::prelude::*;
use vstd::string::*;

verus! {

/// The npx application.
#[derive(Debug, Clone, Copy, PartialEq, Eq)]
pub struct Npx {}

/// The name of npx.
pub open spec fn name_text() -> Seq<char> {
    "npx"@
}

/// The name of the npx executable.
pub open spec fn executable_text() -> Seq<char> {
    name_text()
}

/// The homepage of npx.
pub open spec fn homepage_text() -> Seq<char> {
    "https://www.npmjs.com"@
}

/// How to run npx `version` on `platform` with path separator `sep`.
pub open spec fn run_method_spec(version: Seq<char>, platform: Platform, sep: Seq<char>) -> RunMethodView {
    RunMethodView::OtherAppShellScript {
        carrier: Application::NodeJS,
        script_name: match platform.os {
            Os::Linux | Os::MacOS => "npx"@,
            Os::Windows => "npx.cmd"@,
        },
    }
}

/// The next step in analyzing an executable as npx, given the outputs of the runs so far.
pub open spec fn analyze_spec(outputs: Seq<Seq<char>>) -> AnalyzeActionView {
    identify_spec(outputs, seq!["-h"@], "Run a command from a local or remote npm package"@)
}

/// Where the versions of npx come from.
pub open spec fn version_source_spec() -> VersionSourceView {
    VersionSourceView::SameAs(Application::NodeJS)
}

/// The application that provides npx.
pub fn app_to_install() -> (r: NodeJS)
    ensures
        r == (NodeJS {}),
{
    NodeJS {}
}

impl Npx {
    /// The name by which the user selects npx.
    pub fn name(&self) -> (r: ApplicationName)
        ensures
            r@ == name_text(),
    {
        ApplicationName::from("npx")
    }

    /// The name of the npx executable.
    pub fn executable_filename(&self) -> (r: ExecutableNameUnix)
        ensures
            r@ == executable_text(),
    {
        ExecutableNameUnix::from("npx")
    }

    /// The homepage of npx.
    pub fn homepage(&self) -> (r: &'static str)
        ensures
            r@ == homepage_text(),
    {
        "https://www.npmjs.com"
    }

    /// How the release tags of npx spell its versions.
    pub fn tag_format(&self) -> (r: TagFormat)
        ensures
            r == TagFormat::PrefixV,
    {
        TagFormat::PrefixV
    }

    /// How to run npx `version` on `platform`.
    pub fn run_method(&self, version: &Version, platform: Platform) -> (r: RunMethod)
        ensures
            forall|sep: Seq<char>| r@ == run_method_spec(version@, platform, sep),
    {
        RunMethod::OtherAppShellScript {
            carrier: Application::NodeJS,
            script_name: match platform.os {
                Os::Linux | Os::MacOS => "npx",
                Os::Windows => "npx.cmd",
            },
        }
    }

    /// Where the versions of npx come from.
    pub fn version_source(&self) -> (r: VersionSource)
        ensures
            r@ == version_source_spec(),
    {
        VersionSource::SameAs(Application::NodeJS)
    }

    /// The next step in analyzing an executable as npx, given the outputs of the runs so far.
    pub fn analyze_step(&self, outputs: &Vec<String>) -> (r: AnalyzeAction)
        ensures
            r@ == analyze_spec(texts(outputs@)),
    {
        identify(outputs, args1("-h"), "Run a command from a local or remote npm package")
    }
}

} // verus!
