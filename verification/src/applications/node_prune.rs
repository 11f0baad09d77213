//! node-prune, a tool that removes unnecessary files from `node_modules`.

use crate::applications::{AnalyzeAction, AnalyzeActionView, ApplicationName, args1, identify, identify_spec};
use crate::configuration::Version;
use crate::error::UserError;
use crate::executables::{ExecutableNameUnix, RunMethod, RunMethodView};
use crate::hosting::{VersionSource, VersionSourceView};
use crate::installation::{Method, MethodView, methods_view, texts, two_methods};
use crate::platform::{Cpu, Os, Platform};
use vstd::prelude::*;
use vstd::string::*;

verus! {

/// The node-prune application.
#[derive(Debug, Clone, Copy, PartialEq, Eq)]
pub struct NodePrune {}

/// The name of node-prune.
pub open spec fn name_text() -> Seq<char> {
    "node-prune"@
}

/// The name of the node-prune executable.
pub open spec fn executable_text() -> Seq<char> {
    name_text()
}

/// The homepage of node-prune.
pub open spec fn homepage_text() -> Seq<char> {
    "https://github.com/tj/node-prune"@
}

/// The ways to install node-prune `version` on `platform`.
pub open spec fn install_methods_spec(version: Seq<char>, platform: Platform) -> Seq<MethodView> {
    let os = match platform.os { Os::Linux => "linux"@, Os::MacOS => "darwin"@, Os::Windows => "windows"@ };
    let cpu = match platform.cpu { Cpu::Arm64 => "arm64"@, Cpu::Intel64 => "amd64"@ };
    seq![
        MethodView::DownloadExecutable { url: "https://github.com/tj/node-prune/releases/download/v"@ + version + "/node-prune_"@ + version + "_"@ + os + "_"@ + cpu + ".tar.gz"@ },
        MethodView::CompileGoSource { import_path: "github.com/tj/node-prune@v"@ + version },
    ]
}

/// How to run node-prune `version` on `platform` with path separator `sep`.
pub open spec fn run_method_spec(version: Seq<char>, platform: Platform, sep: Seq<char>) -> RunMethodView {
    RunMethodView::ThisApp { install_methods: install_methods_spec(version, platform) }
}

/// The next step in analyzing an executable as node-prune, given the outputs of the runs so far.
pub open spec fn analyze_spec(outputs: Seq<Seq<char>>) -> AnalyzeActionView {
    identify_spec(outputs, seq!["-h"@], "Glob of files that should not be pruned"@)
}

/// Where the versions of node-prune come from.
pub open spec fn version_source_spec() -> VersionSourceView {
    VersionSourceView::GithubTags { org: "tj"@, repo: "node-prune"@, count: None }
}

impl NodePrune {
    /// The name by which the user selects node-prune.
    pub fn name(&self) -> (r: ApplicationName)
        ensures
            r@ == name_text(),
    {
        ApplicationName::from("node-prune")
    }

    /// The name of the node-prune executable.
    pub fn executable_filename(&self) -> (r: ExecutableNameUnix)
        ensures
            r@ == executable_text(),
    {
        ExecutableNameUnix::from("node-prune")
    }

    /// The homepage of node-prune.
    pub fn homepage(&self) -> (r: &'static str)
        ensures
            r@ == homepage_text(),
    {
        "https://github.com/tj/node-prune"
    }

    /// The ways to install node-prune `version` on `platform`.
    fn install_methods(&self, version: &Version, platform: Platform) -> (r: Vec<Method>)
        ensures
            methods_view(r@) == install_methods_spec(version@, platform),
    {
        let os = match platform.os { Os::Linux => "linux", Os::MacOS => "darwin", Os::Windows => "windows" };
        let cpu = match platform.cpu { Cpu::Arm64 => "arm64", Cpu::Intel64 => "amd64" };
        let mut url0 = String::from_str("https://github.com/tj/node-prune/releases/download/v");
        url0.append(version.as_str());
        url0.append("/node-prune_");
        url0.append(version.as_str());
        url0.append("_");
        url0.append(os);
        url0.append("_");
        url0.append(cpu);
        url0.append(".tar.gz");
        let mut import_path1 = String::from_str("github.com/tj/node-prune@v");
        import_path1.append(version.as_str());
        two_methods(Method::DownloadExecutable { url: url0 }, Method::CompileGoSource { import_path: import_path1 })
    }

    /// How to run node-prune `version` on `platform`.
    pub fn run_method(&self, version: &Version, platform: Platform) -> (r: RunMethod)
        ensures
            forall|sep: Seq<char>| r@ == run_method_spec(version@, platform, sep),
    {
        RunMethod::ThisApp { install_methods: self.install_methods(version, platform) }
    }

    /// Where the versions of node-prune come from.
    pub fn version_source(&self) -> (r: VersionSource)
        ensures
            r@ == version_source_spec(),
    {
        VersionSource::GithubTags { org: "tj", repo: "node-prune", count: None }
    }

    /// The next step in analyzing an executable as node-prune, given the outputs of the runs so far.
    pub fn analyze_step(&self, outputs: &Vec<String>) -> (r: AnalyzeAction)
        ensures
            r@ == analyze_spec(texts(outputs@)),
    {
        identify(outputs, args1("-h"), "Glob of files that should not be pruned")
    }

    /// The newest version of node-prune, given the tags of its repository, newest first.
    pub fn latest_from_tags(&self, tags: &Vec<String>) -> (r: Result<Version, UserError>)
        ensures
            tags@.len() > 0 ==> (r matches Ok(v) && v@ == tags@[0]@),
            tags@.len() == 0 ==> (r matches Err(UserError::NoVersionsFound { app }) && app@ == name_text()),
    {
        if tags.len() == 0 {
            return Err(UserError::NoVersionsFound { app: String::from_str(self.name().as_str()) });
        }
        Ok(Version::from(tags[0].as_str()))
    }

    /// The versions of node-prune, given the tags of its repository: each tag is a version.
    pub fn versions_from_tags(&self, tags: &Vec<String>) -> (r: Vec<Version>)
        ensures
            r@.len() == tags@.len(),
            forall|i: int| 0 <= i < tags@.len() ==> #[trigger] r@[i]@ == tags@[i]@,
    {
        let mut versions: Vec<Version> = Vec::new();
        let mut i: usize = 0;
        while i < tags.len()
            invariant
                i <= tags@.len(),
                versions@.len() == i,
                forall|k: int| 0 <= k < i ==> #[trigger] versions@[k]@ == tags@[k]@,
            decreases tags@.len() - i,
        {
            versions.push(Version::from(tags[i].as_str()));
            i = i + 1;
        }
        versions
    }
}

} // verus!
