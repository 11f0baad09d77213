//! actionlint, a linter for GitHub Actions workflow files.

use crate::applications::{
    args1, captured, copy_text, AnalyzeAction, AnalyzeActionView, AnalyzeResult, AnalyzeResultView, ApplicationName,
};
use crate::configuration::Version;
use crate::error::UserError;
use crate::executables::{platform_file_name, ExecutableNameUnix, RunMethod, RunMethodView};
use crate::hosting::{releases, VersionSource, VersionSourceView};
use crate::installation::{methods_view, two_methods, Method, MethodView};
use crate::platform::{Cpu, Os, Platform};
use crate::regexp::{first_capture, spec_first_capture, End, Gap, Start, VersionPattern};
use crate::text::{contains, contains_seq};
use vstd::prelude::*;
use vstd::string::*;

verus! {

/// The actionlint application.
#[derive(Debug, Clone, Copy, PartialEq, Eq)]
pub struct ActionLint {}

/// The name of actionlint.
pub open spec fn name_text() -> Seq<char> {
    "actionlint"@
}

/// The name of the actionlint executable.
pub open spec fn executable_text() -> Seq<char> {
    name_text()
}

/// The homepage of actionlint.
pub open spec fn homepage_text() -> Seq<char> {
    "https://rhysd.github.io/actionlint"@
}

/// The URL of the release archive of actionlint `version` for `platform`.
pub open spec fn archive_url_spec(version: Seq<char>, platform: Platform) -> Seq<char> {
    let cpu = match platform.cpu {
        Cpu::Arm64 => "arm64"@,
        Cpu::Intel64 => "amd64"@,
    };
    let os = match platform.os {
        Os::Linux => "linux"@,
        Os::MacOS => "darwin"@,
        Os::Windows => "windows"@,
    };
    let ext = match platform.os {
        Os::Linux | Os::MacOS => "tar.gz"@,
        Os::Windows => "zip"@,
    };
    "https://github.com/rhysd/actionlint/releases/download/v"@ + version + "/actionlint_"@ + version + "_"@ + os + "_"@
        + cpu + "."@ + ext
}

/// The ways to install actionlint `version` on `platform`.
pub open spec fn install_methods_spec(version: Seq<char>, platform: Platform) -> Seq<MethodView> {
    seq![
        MethodView::DownloadArchiveFile {
            url: archive_url_spec(version, platform),
            path_in_archive: platform_file_name(name_text(), platform.os == Os::Windows),
        },
        MethodView::CompileGoSource { import_path: "github.com/rhysd/actionlint/cmd/actionlint@v"@ + version },
    ]
}

/// How to run actionlint `version` on `platform`.
pub open spec fn run_method_spec(version: Seq<char>, platform: Platform, sep: Seq<char>) -> RunMethodView {
    RunMethodView::ThisApp { install_methods: install_methods_spec(version, platform) }
}

/// The pattern that finds the version of actionlint.
pub open spec fn version_pattern() -> VersionPattern {
    VersionPattern { start: Start::Anywhere, prefix: "", gap: Gap::Nothing, parts: 3, suffix: "", end: End::Anywhere }
}

/// The steps to analyze an executable: its help output must contain the
/// actionlint description, and the output of `--version` must contain a version.
pub open spec fn analyze_spec(outputs: Seq<Seq<char>>) -> AnalyzeActionView {
    if outputs.len() == 0 {
        AnalyzeActionView::Run { args: seq!["-h"@] }
    } else if !contains_seq(outputs[0], "actionlint is a linter for GitHub Actions workflow files"@) {
        AnalyzeActionView::Done(AnalyzeResultView::NotIdentified { output: outputs[0] })
    } else if outputs.len() == 1 {
        AnalyzeActionView::Run { args: seq!["--version"@] }
    } else {
        match spec_first_capture(version_pattern(), outputs[1]) {
            Ok(v) => AnalyzeActionView::Done(AnalyzeResultView::IdentifiedWithVersion(v)),
            Err(_) => AnalyzeActionView::Done(AnalyzeResultView::NotIdentified { output: outputs[1] }),
        }
    }
}

/// Where the versions of actionlint come from.
pub open spec fn version_source_spec() -> VersionSourceView {
    releases("rhysd", "actionlint", None)
}

/// The URL of the release archive of actionlint `version` for `platform`.
pub fn archive_url(version: &Version, platform: Platform) -> (r: String)
    ensures
        r@ == archive_url_spec(version@, platform),
{
    let cpu = match platform.cpu {
        Cpu::Arm64 => "arm64",
        Cpu::Intel64 => "amd64",
    };
    let os = match platform.os {
        Os::Linux => "linux",
        Os::MacOS => "darwin",
        Os::Windows => "windows",
    };
    let ext = match platform.os {
        Os::Linux | Os::MacOS => "tar.gz",
        Os::Windows => "zip",
    };
    let mut url = String::from_str("https://github.com/rhysd/actionlint/releases/download/v");
    url.append(version.as_str());
    url.append("/actionlint_");
    url.append(version.as_str());
    url.append("_");
    url.append(os);
    url.append("_");
    url.append(cpu);
    url.append(".");
    url.append(ext);
    url
}

/// Finds the version in the output of `actionlint --version`.
pub fn extract_version(output: &str) -> (r: Result<&str, UserError>)
    ensures
        captured(r, spec_first_capture(version_pattern(), output@)),
{
    first_capture(
        output,
        &VersionPattern { start: Start::Anywhere, prefix: "", gap: Gap::Nothing, parts: 3, suffix: "", end: End::Anywhere },
    )
}

impl ActionLint {
    /// The name by which the user selects actionlint.
    pub fn name(&self) -> (r: ApplicationName)
        ensures
            r@ == name_text(),
    {
        ApplicationName::from("actionlint")
    }

    /// The name of the actionlint executable.
    pub fn executable_filename(&self) -> (r: ExecutableNameUnix)
        ensures
            r@ == name_text(),
    {
        ExecutableNameUnix::from("actionlint")
    }

    /// The homepage of actionlint.
    pub fn homepage(&self) -> (r: &'static str)
        ensures
            r@ == homepage_text(),
    {
        "https://rhysd.github.io/actionlint"
    }

    /// The ways to install actionlint `version` on `platform`.
    pub fn install_methods(&self, version: &Version, platform: Platform) -> (r: Vec<Method>)
        ensures
            methods_view(r@) == install_methods_spec(version@, platform),
    {
        let mut import_path = String::from_str("github.com/rhysd/actionlint/cmd/actionlint@v");
        import_path.append(version.as_str());
        two_methods(
            Method::DownloadArchiveFile {
                url: archive_url(version, platform),
                path_in_archive: self.executable_filename().platform_path(platform.os),
            },
            Method::CompileGoSource { import_path },
        )
    }

    /// How to run actionlint `version` on `platform`.
    pub fn run_method(&self, version: &Version, platform: Platform) -> (r: RunMethod)
        ensures
            forall|sep: Seq<char>| r@ == run_method_spec(version@, platform, sep),
    {
        RunMethod::ThisApp { install_methods: self.install_methods(version, platform) }
    }

    /// Where the versions of actionlint come from.
    pub fn version_source(&self) -> (r: VersionSource)
        ensures
            r@ == version_source_spec(),
    {
        VersionSource::GithubReleases { org: "rhysd", repo: "actionlint", tag_prefix: None }
    }

    /// The next step to analyze an executable, given the outputs of the runs so far.
    pub fn analyze_step(&self, outputs: &Vec<String>) -> (r: AnalyzeAction)
        ensures
            r@ == analyze_spec(crate::installation::texts(outputs@)),
    {
        if outputs.len() == 0 {
            return AnalyzeAction::Run { args: args1("-h") };
        }
        if !contains(outputs[0].as_str(), "actionlint is a linter for GitHub Actions workflow files") {
            return AnalyzeAction::Done(AnalyzeResult::NotIdentified { output: copy_text(&outputs[0]) });
        }
        if outputs.len() == 1 {
            return AnalyzeAction::Run { args: args1("--version") };
        }
        match extract_version(outputs[1].as_str()) {
            Ok(v) => AnalyzeAction::Done(AnalyzeResult::IdentifiedWithVersion(Version::from(v))),
            Err(_) => AnalyzeAction::Done(AnalyzeResult::NotIdentified { output: copy_text(&outputs[1]) }),
        }
    }
}

} // verus!
