//! All applications that run-that-app can run, and what they have in common.

pub mod actionlint;
pub mod alphavet;
pub mod biome;
pub mod bun;
pub mod deadcode;
pub mod depth;
pub mod dprint;
pub mod exhaustruct;
pub mod fd;
pub mod funcorder;
pub mod gherkinlint;
pub mod gh;
pub mod ghokin;
pub mod go;
pub mod goda;
pub mod gofmt;
pub mod gofumpt;
pub mod golangci_lint;
pub mod goreleaser;
pub mod govulnchec;
pub mod gum;
pub mod hadolint;
pub mod ireturn;
pub mod keep_sorted;
pub mod lefthook;
pub mod mdbook;
pub mod mdbook_linkcheck;
pub mod nodejs;
pub mod node_prune;
pub mod npm;
pub mod npx;
pub mod prettier;
pub mod prettier_standalone;
pub mod pyrefly;
pub mod rclone;
pub mod ripgrep;
pub mod ruff;
pub mod rumdl;
pub mod scc;
pub mod shellcheck;
pub mod shfmt;
pub mod snyk;
pub mod staticcheck;
pub mod text_runner;
pub mod tikibase;

use crate::configuration::{AllowedVersions, Version, version_texts};
use crate::error::UserError;
use crate::executables::{ExecutableArgs, ExecutableNameUnix, RunMethod, RunMethodView};
use crate::hosting::{VersionSource, VersionSourceView};
use crate::installation::texts;
use crate::outside::main_separator;
use crate::platform::Platform;
use crate::regexp::{first_capture, found_version_is_a_version, spec_first_capture, VersionPattern};
use crate::text::{contains, contains_seq, same_text};
use vstd::prelude::*;
use vstd::string::*;
use vstd::utf8::encode_utf8;

verus! {

/// The name by which the user selects an application.
#[derive(Debug, Clone, PartialEq, Eq)]
pub struct ApplicationName(String);

impl View for ApplicationName {
    type V = Seq<char>;

    closed spec fn view(&self) -> Seq<char> {
        self.0@
    }
}

/// The number of bytes in the UTF-8 form of `s`.
pub open spec fn byte_len(s: Seq<char>) -> nat {
    encode_utf8(s).len()
}

impl ApplicationName {
    /// Creates an application name.
    pub fn from(name: &str) -> (r: ApplicationName)
        ensures
            r@ == name@,
    {
        ApplicationName(String::from_str(name))
    }

    /// The name as text.
    pub fn as_str(&self) -> (r: &str)
        ensures
            r@ == self@,
    {
        self.0.as_str()
    }

    /// The length of the name in bytes.
    pub fn len(&self) -> (r: usize)
        ensures
            r == byte_len(self@) as usize,
    {
        self.0.as_str().len()
    }
}

/// What analyzing an executable found out about it.
#[derive(Debug, PartialEq, Eq)]
pub enum AnalyzeResult {
    /// the given executable does not belong to this app
    NotIdentified { output: String },
    /// the given executable belongs to this app but doesn't allow determining the version
    IdentifiedButUnknownVersion,
    /// the given executable belongs to this app and has the contained version
    IdentifiedWithVersion(Version),
}

/// The next step in analyzing an executable.
#[derive(Debug, PartialEq, Eq)]
pub enum AnalyzeAction {
    /// run the executable with the given arguments and analyze its output next
    Run { args: Vec<&'static str> },
    /// the result is that of analyzing, as the given application, the executable
    /// with the given name in the folder of the analyzed executable
    AnalyzeSibling { app: Application, executable_name: ExecutableNameUnix },
    /// the analysis is complete
    Done(AnalyzeResult),
}

/// The mathematical form of an [`AnalyzeResult`].
pub enum AnalyzeResultView {
    NotIdentified { output: Seq<char> },
    IdentifiedButUnknownVersion,
    IdentifiedWithVersion(Seq<char>),
}

/// The mathematical form of an [`AnalyzeAction`].
pub enum AnalyzeActionView {
    Run { args: Seq<Seq<char>> },
    AnalyzeSibling { app: Application, executable_name: Seq<char> },
    Done(AnalyzeResultView),
}

impl View for AnalyzeResult {
    type V = AnalyzeResultView;

    open spec fn view(&self) -> AnalyzeResultView {
        match self {
            AnalyzeResult::NotIdentified { output } => AnalyzeResultView::NotIdentified { output: output@ },
            AnalyzeResult::IdentifiedButUnknownVersion => AnalyzeResultView::IdentifiedButUnknownVersion,
            AnalyzeResult::IdentifiedWithVersion(v) => AnalyzeResultView::IdentifiedWithVersion(v@),
        }
    }
}

/// The texts of a sequence of arguments.
pub open spec fn arg_texts(args: Seq<&'static str>) -> Seq<Seq<char>> {
    args.map_values(|a: &'static str| a@)
}

impl View for AnalyzeAction {
    type V = AnalyzeActionView;

    open spec fn view(&self) -> AnalyzeActionView {
        match self {
            AnalyzeAction::Run { args } => AnalyzeActionView::Run { args: arg_texts(args@) },
            AnalyzeAction::AnalyzeSibling { app, executable_name } => AnalyzeActionView::AnalyzeSibling {
                app: *app,
                executable_name: executable_name@,
            },
            AnalyzeAction::Done(result) => AnalyzeActionView::Done(result@),
        }
    }
}

/// Arguments for one run of an executable.
pub fn args1(a: &'static str) -> (v: Vec<&'static str>)
    ensures
        arg_texts(v@) == seq![a@],
{
    let mut v = Vec::new();
    v.push(a);
    assert(arg_texts(v@) =~= seq![a@]);
    v
}

/// Two arguments for one run of an executable.
pub fn args2(a: &'static str, b: &'static str) -> (v: Vec<&'static str>)
    ensures
        arg_texts(v@) == seq![a@, b@],
{
    let mut v = Vec::new();
    v.push(a);
    v.push(b);
    assert(arg_texts(v@) =~= seq![a@, b@]);
    v
}

/// Identification by the help text alone: run the executable with `help_args`;
/// it belongs to the application if the output contains `marker`, and its
/// version cannot be determined.
pub open spec fn identify_spec(outputs: Seq<Seq<char>>, help_args: Seq<Seq<char>>, marker: Seq<char>) -> AnalyzeActionView {
    if outputs.len() == 0 {
        AnalyzeActionView::Run { args: help_args }
    } else if !contains_seq(outputs[0], marker) {
        AnalyzeActionView::Done(AnalyzeResultView::NotIdentified { output: outputs[0] })
    } else {
        AnalyzeActionView::Done(AnalyzeResultView::IdentifiedButUnknownVersion)
    }
}

/// The analysis result for the output of a version query.
pub open spec fn version_result(output: Seq<char>, pattern: VersionPattern) -> AnalyzeResultView {
    match spec_first_capture(pattern, output) {
        Ok(v) => AnalyzeResultView::IdentifiedWithVersion(v),
        Err(_) => AnalyzeResultView::IdentifiedButUnknownVersion,
    }
}

/// Identification by the help text, then a version query: run the executable
/// with `help_args`; it belongs to the application if the output contains
/// `marker`. Then run it with `version_args`; the version is what `pattern`
/// captures in that output, or unknown if the pattern does not match.
pub open spec fn identify_and_query_spec(
    outputs: Seq<Seq<char>>,
    help_args: Seq<Seq<char>>,
    marker: Seq<char>,
    version_args: Seq<Seq<char>>,
    pattern: VersionPattern,
) -> AnalyzeActionView {
    if outputs.len() == 0 {
        AnalyzeActionView::Run { args: help_args }
    } else if !contains_seq(outputs[0], marker) {
        AnalyzeActionView::Done(AnalyzeResultView::NotIdentified { output: outputs[0] })
    } else if outputs.len() == 1 {
        AnalyzeActionView::Run { args: version_args }
    } else {
        AnalyzeActionView::Done(version_result(outputs[1], pattern))
    }
}

/// Identification and version from the same output: run the executable with
/// `args`; it belongs to the application if the output contains `marker`, and
/// its version is what `pattern` captures in that output, or unknown.
pub open spec fn identify_same_output_spec(
    outputs: Seq<Seq<char>>,
    args: Seq<Seq<char>>,
    marker: Seq<char>,
    pattern: VersionPattern,
) -> AnalyzeActionView {
    if outputs.len() == 0 {
        AnalyzeActionView::Run { args: args }
    } else if !contains_seq(outputs[0], marker) {
        AnalyzeActionView::Done(AnalyzeResultView::NotIdentified { output: outputs[0] })
    } else {
        AnalyzeActionView::Done(version_result(outputs[0], pattern))
    }
}

/// The next step of identification and version detection from the same output.
pub fn identify_same_output(outputs: &Vec<String>, args: Vec<&'static str>, marker: &str, pattern: &VersionPattern) -> (r: AnalyzeAction)
    ensures
        r@ == identify_same_output_spec(texts(outputs@), arg_texts(args@), marker@, *pattern),
{
    if outputs.len() == 0 {
        return AnalyzeAction::Run { args };
    }
    if !contains(outputs[0].as_str(), marker) {
        return AnalyzeAction::Done(AnalyzeResult::NotIdentified { output: copy_text(&outputs[0]) });
    }
    AnalyzeAction::Done(version_result_of(outputs[0].as_str(), pattern))
}

/// Copies a text.
pub fn copy_text(s: &String) -> (r: String)
    ensures
        r@ == s@,
{
    String::from_str(s.as_str())
}

/// The analysis result for the output of a version query.
pub fn version_result_of(output: &str, pattern: &VersionPattern) -> (r: AnalyzeResult)
    ensures
        r@ == version_result(output@, *pattern),
{
    match first_capture(output, pattern) {
        Ok(v) => AnalyzeResult::IdentifiedWithVersion(Version::from(v)),
        Err(_) => AnalyzeResult::IdentifiedButUnknownVersion,
    }
}

/// The next step of identification by the help text alone.
pub fn identify(outputs: &Vec<String>, help_args: Vec<&'static str>, marker: &str) -> (r: AnalyzeAction)
    ensures
        r@ == identify_spec(texts(outputs@), arg_texts(help_args@), marker@),
{
    if outputs.len() == 0 {
        return AnalyzeAction::Run { args: help_args };
    }
    let first = &outputs[0];
    if !contains(first.as_str(), marker) {
        return AnalyzeAction::Done(AnalyzeResult::NotIdentified { output: copy_text(first) });
    }
    AnalyzeAction::Done(AnalyzeResult::IdentifiedButUnknownVersion)
}

/// The next step of identification by the help text followed by a version query.
pub fn identify_and_query(
    outputs: &Vec<String>,
    help_args: Vec<&'static str>,
    marker: &str,
    version_args: Vec<&'static str>,
    pattern: &VersionPattern,
) -> (r: AnalyzeAction)
    ensures
        r@ == identify_and_query_spec(texts(outputs@), arg_texts(help_args@), marker@, arg_texts(version_args@), *pattern),
{
    if outputs.len() == 0 {
        return AnalyzeAction::Run { args: help_args };
    }
    let first = &outputs[0];
    if !contains(first.as_str(), marker) {
        return AnalyzeAction::Done(AnalyzeResult::NotIdentified { output: copy_text(first) });
    }
    if outputs.len() == 1 {
        return AnalyzeAction::Run { args: version_args };
    }
    AnalyzeAction::Done(version_result_of(outputs[1].as_str(), pattern))
}

/// `r` reports what finding a version yields: the found text, or the error.
pub open spec fn captured(r: Result<&str, UserError>, expected: Result<Seq<char>, UserError>) -> bool {
    match expected {
        Ok(v) => r matches Ok(found) && found@ == v,
        Err(e) => r == Err::<&str, UserError>(e),
    }
}

} // verus!

verus! {

/// A list of applications.
pub struct Apps(Vec<Application>);

impl View for Apps {
    type V = Seq<Application>;

    closed spec fn view(&self) -> Seq<Application> {
        self.0@
    }
}

/// The application answers to `name`, by its own name or by the name of its executable.
pub open spec fn answers_to(app: Application, name: Seq<char>) -> bool {
    app.name_spec() == name || app.executable_spec() == name
}

/// The index of the first application in `apps`, at or after `i`, that answers to `name`.
pub open spec fn first_answering_from(apps: Seq<Application>, name: Seq<char>, i: int) -> Option<int>
    decreases apps.len() - i,
{
    if i < 0 || i >= apps.len() {
        None
    } else if answers_to(apps[i], name) {
        Some(i)
    } else {
        first_answering_from(apps, name, i + 1)
    }
}

/// The index of the first application in `apps` that answers to `name`.
pub open spec fn first_answering(apps: Seq<Application>, name: Seq<char>) -> Option<int> {
    first_answering_from(apps, name, 0)
}

/// What looking up `name` among `apps` yields.
pub open spec fn lookup_result(apps: Seq<Application>, name: Seq<char>, r: Result<Application, UserError>) -> bool {
    match first_answering(apps, name) {
        Some(i) => r == Ok::<Application, UserError>(apps[i]),
        None => r matches Err(UserError::UnknownApp(n)) && n@ == name,
    }
}

impl Apps {
    /// A list of the given applications.
    pub fn new(apps: Vec<Application>) -> (r: Apps)
        ensures
            r@ == apps@,
    {
        Apps(apps)
    }

    /// The applications in this list.
    pub fn list(&self) -> (r: &Vec<Application>)
        ensures
            r@ == self@,
    {
        &self.0
    }

    /// The first application that answers to the given name.
    pub fn lookup(&self, name: &str) -> (r: Result<Application, UserError>)
        ensures
            lookup_result(self@, name@, r),
    {
        let mut i: usize = 0;
        while i < self.0.len()
            invariant
                i <= self@.len(),
                first_answering(self@, name@) == first_answering_from(self@, name@, i as int),
            decreases self@.len() - i,
        {
            let app = self.0[i];
            if same_text(app.name().as_str(), name) {
                return Ok(app);
            }
            if same_text(app.executable_filename().as_str(), name) {
                return Ok(app);
            }
            i = i + 1;
        }
        Err(UserError::UnknownApp(String::from_str(name)))
    }

    /// The length in bytes of the longest application name.
    pub fn longest_name_length(&self) -> (r: usize)
        ensures
            forall|i: int| 0 <= i < self@.len() ==> byte_len(#[trigger] self@[i].name_spec()) as usize <= r,
            self@.len() == 0 ==> r == 0,
            self@.len() > 0 ==> exists|i: int| 0 <= i < self@.len() && byte_len(#[trigger] self@[i].name_spec()) as usize == r,
    {
        let mut longest: usize = 0;
        let mut i: usize = 0;
        while i < self.0.len()
            invariant
                i <= self@.len(),
                forall|k: int| 0 <= k < i ==> byte_len(#[trigger] self@[k].name_spec()) as usize <= longest,
                i == 0 ==> longest == 0,
                i > 0 ==> exists|k: int| 0 <= k < i && byte_len(#[trigger] self@[k].name_spec()) as usize == longest,
            decreases self@.len() - i,
        {
            let len = self.0[i].name().len();
            if len > longest || i == 0 {
                longest = len;
            }
            i = i + 1;
        }
        longest
    }
}

/// The application, executable and arguments that run `app` according to `method`.
pub open spec fn carrier_spec(
    app: Application,
    method: RunMethodView,
    r: Option<(Application, ExecutableNameUnix, ExecutableArgs)>,
) -> bool {
    match method {
        RunMethodView::ThisApp { .. } => r matches Some((a, e, args)) && a == app && e@ == app.executable_spec()
            && args == ExecutableArgs::NoArgs,
        RunMethodView::OtherAppOtherExecutable { app_definition, executable_name } => r matches Some((a, e, args))
            && a == app_definition && e@ == executable_name && args == ExecutableArgs::NoArgs,
        RunMethodView::OtherAppDefaultExecutable { app_definition, args: wanted } => r matches Some((a, e, args))
            && a == app_definition && e@ == app_definition.executable_spec() && args@ == wanted,
        _ => r is None,
    }
}

/// The application that contains the executable that runs `app`, the name of that
/// executable, and the arguments to call it with. Applications run through
/// Node.js or through a shell script of another application have no such carrier.
pub fn carrier(app: Application, version: &Version, platform: Platform) -> (r: Option<(Application, ExecutableNameUnix, ExecutableArgs)>)
    ensures
        exists|sep: Seq<char>| is_separator(sep) && carrier_spec(app, app.run_method_spec(version@, platform, sep), r),
{
    let sep = main_separator();
    let method = app.run_method_with_separator(version, platform, sep);
    let ghost method_view = method@;
    let r = match method {
        RunMethod::ThisApp { install_methods: _ } => Some((app, app.executable_filename(), ExecutableArgs::NoArgs)),
        RunMethod::OtherAppOtherExecutable { app_definition, executable_name } => Some(
            (app_definition, executable_name, ExecutableArgs::NoArgs),
        ),
        RunMethod::OtherAppDefaultExecutable { app_definition, args } => Some(
            (app_definition, app_definition.executable_filename(), args),
        ),
        _ => None,
    };
    assert(is_separator(sep@) && carrier_spec(app, app.run_method_spec(version@, platform, sep@), r));
    r
}

} // verus!

verus! {

/// An application that run-that-app knows.
#[derive(Debug, Clone, Copy, PartialEq, Eq, Structural)]
pub enum Application {
    ActionLint,
    Alphavet,
    Biome,
    Bun,
    Deadcode,
    Depth,
    Dprint,
    Exhaustruct,
    Fd,
    FuncOrder,
    GherkinLint,
    Gh,
    Ghokin,
    Go,
    Goda,
    Gofmt,
    Gofumpt,
    GolangCiLint,
    Goreleaser,
    Govulncheck,
    Gum,
    Hadolint,
    Ireturn,
    KeepSorted,
    Lefthook,
    MdBook,
    MdBookLinkCheck,
    NodeJS,
    NodePrune,
    Npm,
    Npx,
    Prettier,
    PrettierStandalone,
    Pyrefly,
    Rclone,
    RipGrep,
    Ruff,
    Rumdl,
    Scc,
    ShellCheck,
    Shfmt,
    Snyk,
    StaticCheck,
    TextRunner,
    Tikibase,
}

/// A path separator: `/` or `\\`.
pub open spec fn is_separator(sep: Seq<char>) -> bool {
    sep == seq!['/'] || sep == seq!['\\']
}

impl Application {
    /// The name of this application.
    pub open spec fn name_spec(self) -> Seq<char> {
        match self {
            Application::ActionLint => actionlint::name_text(),
            Application::Alphavet => alphavet::name_text(),
            Application::Biome => biome::name_text(),
            Application::Bun => bun::name_text(),
            Application::Deadcode => deadcode::name_text(),
            Application::Depth => depth::name_text(),
            Application::Dprint => dprint::name_text(),
            Application::Exhaustruct => exhaustruct::name_text(),
            Application::Fd => fd::name_text(),
            Application::FuncOrder => funcorder::name_text(),
            Application::GherkinLint => gherkinlint::name_text(),
            Application::Gh => gh::name_text(),
            Application::Ghokin => ghokin::name_text(),
            Application::Go => go::name_text(),
            Application::Goda => goda::name_text(),
            Application::Gofmt => gofmt::name_text(),
            Application::Gofumpt => gofumpt::name_text(),
            Application::GolangCiLint => golangci_lint::name_text(),
            Application::Goreleaser => goreleaser::name_text(),
            Application::Govulncheck => govulnchec::name_text(),
            Application::Gum => gum::name_text(),
            Application::Hadolint => hadolint::name_text(),
            Application::Ireturn => ireturn::name_text(),
            Application::KeepSorted => keep_sorted::name_text(),
            Application::Lefthook => lefthook::name_text(),
            Application::MdBook => mdbook::name_text(),
            Application::MdBookLinkCheck => mdbook_linkcheck::name_text(),
            Application::NodeJS => nodejs::name_text(),
            Application::NodePrune => node_prune::name_text(),
            Application::Npm => npm::name_text(),
            Application::Npx => npx::name_text(),
            Application::Prettier => prettier::name_text(),
            Application::PrettierStandalone => prettier_standalone::name_text(),
            Application::Pyrefly => pyrefly::name_text(),
            Application::Rclone => rclone::name_text(),
            Application::RipGrep => ripgrep::name_text(),
            Application::Ruff => ruff::name_text(),
            Application::Rumdl => rumdl::name_text(),
            Application::Scc => scc::name_text(),
            Application::ShellCheck => shellcheck::name_text(),
            Application::Shfmt => shfmt::name_text(),
            Application::Snyk => snyk::name_text(),
            Application::StaticCheck => staticcheck::name_text(),
            Application::TextRunner => text_runner::name_text(),
            Application::Tikibase => tikibase::name_text(),
        }
    }

    /// The name of the executable of this application.
    pub open spec fn executable_spec(self) -> Seq<char> {
        match self {
            Application::ActionLint => actionlint::executable_text(),
            Application::Alphavet => alphavet::executable_text(),
            Application::Biome => biome::executable_text(),
            Application::Bun => bun::executable_text(),
            Application::Deadcode => deadcode::executable_text(),
            Application::Depth => depth::executable_text(),
            Application::Dprint => dprint::executable_text(),
            Application::Exhaustruct => exhaustruct::executable_text(),
            Application::Fd => fd::executable_text(),
            Application::FuncOrder => funcorder::executable_text(),
            Application::GherkinLint => gherkinlint::executable_text(),
            Application::Gh => gh::executable_text(),
            Application::Ghokin => ghokin::executable_text(),
            Application::Go => go::executable_text(),
            Application::Goda => goda::executable_text(),
            Application::Gofmt => gofmt::executable_text(),
            Application::Gofumpt => gofumpt::executable_text(),
            Application::GolangCiLint => golangci_lint::executable_text(),
            Application::Goreleaser => goreleaser::executable_text(),
            Application::Govulncheck => govulnchec::executable_text(),
            Application::Gum => gum::executable_text(),
            Application::Hadolint => hadolint::executable_text(),
            Application::Ireturn => ireturn::executable_text(),
            Application::KeepSorted => keep_sorted::executable_text(),
            Application::Lefthook => lefthook::executable_text(),
            Application::MdBook => mdbook::executable_text(),
            Application::MdBookLinkCheck => mdbook_linkcheck::executable_text(),
            Application::NodeJS => nodejs::executable_text(),
            Application::NodePrune => node_prune::executable_text(),
            Application::Npm => npm::executable_text(),
            Application::Npx => npx::executable_text(),
            Application::Prettier => prettier::executable_text(),
            Application::PrettierStandalone => prettier_standalone::executable_text(),
            Application::Pyrefly => pyrefly::executable_text(),
            Application::Rclone => rclone::executable_text(),
            Application::RipGrep => ripgrep::executable_text(),
            Application::Ruff => ruff::executable_text(),
            Application::Rumdl => rumdl::executable_text(),
            Application::Scc => scc::executable_text(),
            Application::ShellCheck => shellcheck::executable_text(),
            Application::Shfmt => shfmt::executable_text(),
            Application::Snyk => snyk::executable_text(),
            Application::StaticCheck => staticcheck::executable_text(),
            Application::TextRunner => text_runner::executable_text(),
            Application::Tikibase => tikibase::executable_text(),
        }
    }

    /// The homepage of this application.
    pub open spec fn homepage_spec(self) -> Seq<char> {
        match self {
            Application::ActionLint => actionlint::homepage_text(),
            Application::Alphavet => alphavet::homepage_text(),
            Application::Biome => biome::homepage_text(),
            Application::Bun => bun::homepage_text(),
            Application::Deadcode => deadcode::homepage_text(),
            Application::Depth => depth::homepage_text(),
            Application::Dprint => dprint::homepage_text(),
            Application::Exhaustruct => exhaustruct::homepage_text(),
            Application::Fd => fd::homepage_text(),
            Application::FuncOrder => funcorder::homepage_text(),
            Application::GherkinLint => gherkinlint::homepage_text(),
            Application::Gh => gh::homepage_text(),
            Application::Ghokin => ghokin::homepage_text(),
            Application::Go => go::homepage_text(),
            Application::Goda => goda::homepage_text(),
            Application::Gofmt => gofmt::homepage_text(),
            Application::Gofumpt => gofumpt::homepage_text(),
            Application::GolangCiLint => golangci_lint::homepage_text(),
            Application::Goreleaser => goreleaser::homepage_text(),
            Application::Govulncheck => govulnchec::homepage_text(),
            Application::Gum => gum::homepage_text(),
            Application::Hadolint => hadolint::homepage_text(),
            Application::Ireturn => ireturn::homepage_text(),
            Application::KeepSorted => keep_sorted::homepage_text(),
            Application::Lefthook => lefthook::homepage_text(),
            Application::MdBook => mdbook::homepage_text(),
            Application::MdBookLinkCheck => mdbook_linkcheck::homepage_text(),
            Application::NodeJS => nodejs::homepage_text(),
            Application::NodePrune => node_prune::homepage_text(),
            Application::Npm => npm::homepage_text(),
            Application::Npx => npx::homepage_text(),
            Application::Prettier => prettier::homepage_text(),
            Application::PrettierStandalone => prettier_standalone::homepage_text(),
            Application::Pyrefly => pyrefly::homepage_text(),
            Application::Rclone => rclone::homepage_text(),
            Application::RipGrep => ripgrep::homepage_text(),
            Application::Ruff => ruff::homepage_text(),
            Application::Rumdl => rumdl::homepage_text(),
            Application::Scc => scc::homepage_text(),
            Application::ShellCheck => shellcheck::homepage_text(),
            Application::Shfmt => shfmt::homepage_text(),
            Application::Snyk => snyk::homepage_text(),
            Application::StaticCheck => staticcheck::homepage_text(),
            Application::TextRunner => text_runner::homepage_text(),
            Application::Tikibase => tikibase::homepage_text(),
        }
    }

    /// How to run this application at the given version on the given platform, with the given path separator.
    pub open spec fn run_method_spec(self, version: Seq<char>, platform: Platform, sep: Seq<char>) -> RunMethodView {
        match self {
            Application::ActionLint => actionlint::run_method_spec(version, platform, sep),
            Application::Alphavet => alphavet::run_method_spec(version, platform, sep),
            Application::Biome => biome::run_method_spec(version, platform, sep),
            Application::Bun => bun::run_method_spec(version, platform, sep),
            Application::Deadcode => deadcode::run_method_spec(version, platform, sep),
            Application::Depth => depth::run_method_spec(version, platform, sep),
            Application::Dprint => dprint::run_method_spec(version, platform, sep),
            Application::Exhaustruct => exhaustruct::run_method_spec(version, platform, sep),
            Application::Fd => fd::run_method_spec(version, platform, sep),
            Application::FuncOrder => funcorder::run_method_spec(version, platform, sep),
            Application::GherkinLint => gherkinlint::run_method_spec(version, platform, sep),
            Application::Gh => gh::run_method_spec(version, platform, sep),
            Application::Ghokin => ghokin::run_method_spec(version, platform, sep),
            Application::Go => go::run_method_spec(version, platform, sep),
            Application::Goda => goda::run_method_spec(version, platform, sep),
            Application::Gofmt => gofmt::run_method_spec(version, platform, sep),
            Application::Gofumpt => gofumpt::run_method_spec(version, platform, sep),
            Application::GolangCiLint => golangci_lint::run_method_spec(version, platform, sep),
            Application::Goreleaser => goreleaser::run_method_spec(version, platform, sep),
            Application::Govulncheck => govulnchec::run_method_spec(version, platform, sep),
            Application::Gum => gum::run_method_spec(version, platform, sep),
            Application::Hadolint => hadolint::run_method_spec(version, platform, sep),
            Application::Ireturn => ireturn::run_method_spec(version, platform, sep),
            Application::KeepSorted => keep_sorted::run_method_spec(version, platform, sep),
            Application::Lefthook => lefthook::run_method_spec(version, platform, sep),
            Application::MdBook => mdbook::run_method_spec(version, platform, sep),
            Application::MdBookLinkCheck => mdbook_linkcheck::run_method_spec(version, platform, sep),
            Application::NodeJS => nodejs::run_method_spec(version, platform, sep),
            Application::NodePrune => node_prune::run_method_spec(version, platform, sep),
            Application::Npm => npm::run_method_spec(version, platform, sep),
            Application::Npx => npx::run_method_spec(version, platform, sep),
            Application::Prettier => prettier::run_method_spec(version, platform, sep),
            Application::PrettierStandalone => prettier_standalone::run_method_spec(version, platform, sep),
            Application::Pyrefly => pyrefly::run_method_spec(version, platform, sep),
            Application::Rclone => rclone::run_method_spec(version, platform, sep),
            Application::RipGrep => ripgrep::run_method_spec(version, platform, sep),
            Application::Ruff => ruff::run_method_spec(version, platform, sep),
            Application::Rumdl => rumdl::run_method_spec(version, platform, sep),
            Application::Scc => scc::run_method_spec(version, platform, sep),
            Application::ShellCheck => shellcheck::run_method_spec(version, platform, sep),
            Application::Shfmt => shfmt::run_method_spec(version, platform, sep),
            Application::Snyk => snyk::run_method_spec(version, platform, sep),
            Application::StaticCheck => staticcheck::run_method_spec(version, platform, sep),
            Application::TextRunner => text_runner::run_method_spec(version, platform, sep),
            Application::Tikibase => tikibase::run_method_spec(version, platform, sep),
        }
    }

    /// The next step in analyzing an executable, given the outputs of the runs so far.
    pub open spec fn analyze_spec(self, outputs: Seq<Seq<char>>) -> AnalyzeActionView {
        match self {
            Application::ActionLint => actionlint::analyze_spec(outputs),
            Application::Alphavet => alphavet::analyze_spec(outputs),
            Application::Biome => biome::analyze_spec(outputs),
            Application::Bun => bun::analyze_spec(outputs),
            Application::Deadcode => deadcode::analyze_spec(outputs),
            Application::Depth => depth::analyze_spec(outputs),
            Application::Dprint => dprint::analyze_spec(outputs),
            Application::Exhaustruct => exhaustruct::analyze_spec(outputs),
            Application::Fd => fd::analyze_spec(outputs),
            Application::FuncOrder => funcorder::analyze_spec(outputs),
            Application::GherkinLint => gherkinlint::analyze_spec(outputs),
            Application::Gh => gh::analyze_spec(outputs),
            Application::Ghokin => ghokin::analyze_spec(outputs),
            Application::Go => go::analyze_spec(outputs),
            Application::Goda => goda::analyze_spec(outputs),
            Application::Gofmt => gofmt::analyze_spec(outputs),
            Application::Gofumpt => gofumpt::analyze_spec(outputs),
            Application::GolangCiLint => golangci_lint::analyze_spec(outputs),
            Application::Goreleaser => goreleaser::analyze_spec(outputs),
            Application::Govulncheck => govulnchec::analyze_spec(outputs),
            Application::Gum => gum::analyze_spec(outputs),
            Application::Hadolint => hadolint::analyze_spec(outputs),
            Application::Ireturn => ireturn::analyze_spec(outputs),
            Application::KeepSorted => keep_sorted::analyze_spec(outputs),
            Application::Lefthook => lefthook::analyze_spec(outputs),
            Application::MdBook => mdbook::analyze_spec(outputs),
            Application::MdBookLinkCheck => mdbook_linkcheck::analyze_spec(outputs),
            Application::NodeJS => nodejs::analyze_spec(outputs),
            Application::NodePrune => node_prune::analyze_spec(outputs),
            Application::Npm => npm::analyze_spec(outputs),
            Application::Npx => npx::analyze_spec(outputs),
            Application::Prettier => prettier::analyze_spec(outputs),
            Application::PrettierStandalone => prettier_standalone::analyze_spec(outputs),
            Application::Pyrefly => pyrefly::analyze_spec(outputs),
            Application::Rclone => rclone::analyze_spec(outputs),
            Application::RipGrep => ripgrep::analyze_spec(outputs),
            Application::Ruff => ruff::analyze_spec(outputs),
            Application::Rumdl => rumdl::analyze_spec(outputs),
            Application::Scc => scc::analyze_spec(outputs),
            Application::ShellCheck => shellcheck::analyze_spec(outputs),
            Application::Shfmt => shfmt::analyze_spec(outputs),
            Application::Snyk => snyk::analyze_spec(outputs),
            Application::StaticCheck => staticcheck::analyze_spec(outputs),
            Application::TextRunner => text_runner::analyze_spec(outputs),
            Application::Tikibase => tikibase::analyze_spec(outputs),
        }
    }

    /// Where the versions of this application come from.
    pub open spec fn version_source_spec(self) -> VersionSourceView {
        match self {
            Application::ActionLint => actionlint::version_source_spec(),
            Application::Alphavet => alphavet::version_source_spec(),
            Application::Biome => biome::version_source_spec(),
            Application::Bun => bun::version_source_spec(),
            Application::Deadcode => deadcode::version_source_spec(),
            Application::Depth => depth::version_source_spec(),
            Application::Dprint => dprint::version_source_spec(),
            Application::Exhaustruct => exhaustruct::version_source_spec(),
            Application::Fd => fd::version_source_spec(),
            Application::FuncOrder => funcorder::version_source_spec(),
            Application::GherkinLint => gherkinlint::version_source_spec(),
            Application::Gh => gh::version_source_spec(),
            Application::Ghokin => ghokin::version_source_spec(),
            Application::Go => go::version_source_spec(),
            Application::Goda => goda::version_source_spec(),
            Application::Gofmt => gofmt::version_source_spec(),
            Application::Gofumpt => gofumpt::version_source_spec(),
            Application::GolangCiLint => golangci_lint::version_source_spec(),
            Application::Goreleaser => goreleaser::version_source_spec(),
            Application::Govulncheck => govulnchec::version_source_spec(),
            Application::Gum => gum::version_source_spec(),
            Application::Hadolint => hadolint::version_source_spec(),
            Application::Ireturn => ireturn::version_source_spec(),
            Application::KeepSorted => keep_sorted::version_source_spec(),
            Application::Lefthook => lefthook::version_source_spec(),
            Application::MdBook => mdbook::version_source_spec(),
            Application::MdBookLinkCheck => mdbook_linkcheck::version_source_spec(),
            Application::NodeJS => nodejs::version_source_spec(),
            Application::NodePrune => node_prune::version_source_spec(),
            Application::Npm => npm::version_source_spec(),
            Application::Npx => npx::version_source_spec(),
            Application::Prettier => prettier::version_source_spec(),
            Application::PrettierStandalone => prettier_standalone::version_source_spec(),
            Application::Pyrefly => pyrefly::version_source_spec(),
            Application::Rclone => rclone::version_source_spec(),
            Application::RipGrep => ripgrep::version_source_spec(),
            Application::Ruff => ruff::version_source_spec(),
            Application::Rumdl => rumdl::version_source_spec(),
            Application::Scc => scc::version_source_spec(),
            Application::ShellCheck => shellcheck::version_source_spec(),
            Application::Shfmt => shfmt::version_source_spec(),
            Application::Snyk => snyk::version_source_spec(),
            Application::StaticCheck => staticcheck::version_source_spec(),
            Application::TextRunner => text_runner::version_source_spec(),
            Application::Tikibase => tikibase::version_source_spec(),
        }
    }

    /// The name by which the user selects this application.
    pub fn name(&self) -> (r: ApplicationName)
        ensures
            r@ == self.name_spec(),
    {
        match self {
            Application::ActionLint => actionlint::ActionLint {}.name(),
            Application::Alphavet => alphavet::Alphavet {}.name(),
            Application::Biome => biome::Biome {}.name(),
            Application::Bun => bun::Bun {}.name(),
            Application::Deadcode => deadcode::Deadcode {}.name(),
            Application::Depth => depth::Depth {}.name(),
            Application::Dprint => dprint::Dprint {}.name(),
            Application::Exhaustruct => exhaustruct::Exhaustruct {}.name(),
            Application::Fd => fd::Fd {}.name(),
            Application::FuncOrder => funcorder::FuncOrder {}.name(),
            Application::GherkinLint => gherkinlint::GherkinLint {}.name(),
            Application::Gh => gh::Gh {}.name(),
            Application::Ghokin => ghokin::Ghokin {}.name(),
            Application::Go => go::Go {}.name(),
            Application::Goda => goda::Goda {}.name(),
            Application::Gofmt => gofmt::Gofmt {}.name(),
            Application::Gofumpt => gofumpt::Gofumpt {}.name(),
            Application::GolangCiLint => golangci_lint::GolangCiLint {}.name(),
            Application::Goreleaser => goreleaser::Goreleaser {}.name(),
            Application::Govulncheck => govulnchec::Govulncheck {}.name(),
            Application::Gum => gum::Gum {}.name(),
            Application::Hadolint => hadolint::Hadolint {}.name(),
            Application::Ireturn => ireturn::Ireturn {}.name(),
            Application::KeepSorted => keep_sorted::KeepSorted {}.name(),
            Application::Lefthook => lefthook::Lefthook {}.name(),
            Application::MdBook => mdbook::MdBook {}.name(),
            Application::MdBookLinkCheck => mdbook_linkcheck::MdBookLinkCheck {}.name(),
            Application::NodeJS => nodejs::NodeJS {}.name(),
            Application::NodePrune => node_prune::NodePrune {}.name(),
            Application::Npm => npm::Npm {}.name(),
            Application::Npx => npx::Npx {}.name(),
            Application::Prettier => prettier::Prettier {}.name(),
            Application::PrettierStandalone => prettier_standalone::PrettierStandalone {}.name(),
            Application::Pyrefly => pyrefly::Pyrefly {}.name(),
            Application::Rclone => rclone::Rclone {}.name(),
            Application::RipGrep => ripgrep::RipGrep {}.name(),
            Application::Ruff => ruff::Ruff {}.name(),
            Application::Rumdl => rumdl::Rumdl {}.name(),
            Application::Scc => scc::Scc {}.name(),
            Application::ShellCheck => shellcheck::ShellCheck {}.name(),
            Application::Shfmt => shfmt::Shfmt {}.name(),
            Application::Snyk => snyk::Snyk {}.name(),
            Application::StaticCheck => staticcheck::StaticCheck {}.name(),
            Application::TextRunner => text_runner::TextRunner {}.name(),
            Application::Tikibase => tikibase::Tikibase {}.name(),
        }
    }

    /// The name of the executable that starts this application.
    pub fn executable_filename(&self) -> (r: ExecutableNameUnix)
        ensures
            r@ == self.executable_spec(),
    {
        match self {
            Application::ActionLint => actionlint::ActionLint {}.executable_filename(),
            Application::Alphavet => alphavet::Alphavet {}.executable_filename(),
            Application::Biome => biome::Biome {}.executable_filename(),
            Application::Bun => bun::Bun {}.executable_filename(),
            Application::Deadcode => deadcode::Deadcode {}.executable_filename(),
            Application::Depth => depth::Depth {}.executable_filename(),
            Application::Dprint => dprint::Dprint {}.executable_filename(),
            Application::Exhaustruct => exhaustruct::Exhaustruct {}.executable_filename(),
            Application::Fd => fd::Fd {}.executable_filename(),
            Application::FuncOrder => funcorder::FuncOrder {}.executable_filename(),
            Application::GherkinLint => gherkinlint::GherkinLint {}.executable_filename(),
            Application::Gh => gh::Gh {}.executable_filename(),
            Application::Ghokin => ghokin::Ghokin {}.executable_filename(),
            Application::Go => go::Go {}.executable_filename(),
            Application::Goda => goda::Goda {}.executable_filename(),
            Application::Gofmt => gofmt::Gofmt {}.executable_filename(),
            Application::Gofumpt => gofumpt::Gofumpt {}.executable_filename(),
            Application::GolangCiLint => golangci_lint::GolangCiLint {}.executable_filename(),
            Application::Goreleaser => goreleaser::Goreleaser {}.executable_filename(),
            Application::Govulncheck => govulnchec::Govulncheck {}.executable_filename(),
            Application::Gum => gum::Gum {}.executable_filename(),
            Application::Hadolint => hadolint::Hadolint {}.executable_filename(),
            Application::Ireturn => ireturn::Ireturn {}.executable_filename(),
            Application::KeepSorted => keep_sorted::KeepSorted {}.executable_filename(),
            Application::Lefthook => lefthook::Lefthook {}.executable_filename(),
            Application::MdBook => mdbook::MdBook {}.executable_filename(),
            Application::MdBookLinkCheck => mdbook_linkcheck::MdBookLinkCheck {}.executable_filename(),
            Application::NodeJS => nodejs::NodeJS {}.executable_filename(),
            Application::NodePrune => node_prune::NodePrune {}.executable_filename(),
            Application::Npm => npm::Npm {}.executable_filename(),
            Application::Npx => npx::Npx {}.executable_filename(),
            Application::Prettier => prettier::Prettier {}.executable_filename(),
            Application::PrettierStandalone => prettier_standalone::PrettierStandalone {}.executable_filename(),
            Application::Pyrefly => pyrefly::Pyrefly {}.executable_filename(),
            Application::Rclone => rclone::Rclone {}.executable_filename(),
            Application::RipGrep => ripgrep::RipGrep {}.executable_filename(),
            Application::Ruff => ruff::Ruff {}.executable_filename(),
            Application::Rumdl => rumdl::Rumdl {}.executable_filename(),
            Application::Scc => scc::Scc {}.executable_filename(),
            Application::ShellCheck => shellcheck::ShellCheck {}.executable_filename(),
            Application::Shfmt => shfmt::Shfmt {}.executable_filename(),
            Application::Snyk => snyk::Snyk {}.executable_filename(),
            Application::StaticCheck => staticcheck::StaticCheck {}.executable_filename(),
            Application::TextRunner => text_runner::TextRunner {}.executable_filename(),
            Application::Tikibase => tikibase::Tikibase {}.executable_filename(),
        }
    }

    /// The homepage of this application.
    pub fn homepage(&self) -> (r: &'static str)
        ensures
            r@ == self.homepage_spec(),
    {
        match self {
            Application::ActionLint => actionlint::ActionLint {}.homepage(),
            Application::Alphavet => alphavet::Alphavet {}.homepage(),
            Application::Biome => biome::Biome {}.homepage(),
            Application::Bun => bun::Bun {}.homepage(),
            Application::Deadcode => deadcode::Deadcode {}.homepage(),
            Application::Depth => depth::Depth {}.homepage(),
            Application::Dprint => dprint::Dprint {}.homepage(),
            Application::Exhaustruct => exhaustruct::Exhaustruct {}.homepage(),
            Application::Fd => fd::Fd {}.homepage(),
            Application::FuncOrder => funcorder::FuncOrder {}.homepage(),
            Application::GherkinLint => gherkinlint::GherkinLint {}.homepage(),
            Application::Gh => gh::Gh {}.homepage(),
            Application::Ghokin => ghokin::Ghokin {}.homepage(),
            Application::Go => go::Go {}.homepage(),
            Application::Goda => goda::Goda {}.homepage(),
            Application::Gofmt => gofmt::Gofmt {}.homepage(),
            Application::Gofumpt => gofumpt::Gofumpt {}.homepage(),
            Application::GolangCiLint => golangci_lint::GolangCiLint {}.homepage(),
            Application::Goreleaser => goreleaser::Goreleaser {}.homepage(),
            Application::Govulncheck => govulnchec::Govulncheck {}.homepage(),
            Application::Gum => gum::Gum {}.homepage(),
            Application::Hadolint => hadolint::Hadolint {}.homepage(),
            Application::Ireturn => ireturn::Ireturn {}.homepage(),
            Application::KeepSorted => keep_sorted::KeepSorted {}.homepage(),
            Application::Lefthook => lefthook::Lefthook {}.homepage(),
            Application::MdBook => mdbook::MdBook {}.homepage(),
            Application::MdBookLinkCheck => mdbook_linkcheck::MdBookLinkCheck {}.homepage(),
            Application::NodeJS => nodejs::NodeJS {}.homepage(),
            Application::NodePrune => node_prune::NodePrune {}.homepage(),
            Application::Npm => npm::Npm {}.homepage(),
            Application::Npx => npx::Npx {}.homepage(),
            Application::Prettier => prettier::Prettier {}.homepage(),
            Application::PrettierStandalone => prettier_standalone::PrettierStandalone {}.homepage(),
            Application::Pyrefly => pyrefly::Pyrefly {}.homepage(),
            Application::Rclone => rclone::Rclone {}.homepage(),
            Application::RipGrep => ripgrep::RipGrep {}.homepage(),
            Application::Ruff => ruff::Ruff {}.homepage(),
            Application::Rumdl => rumdl::Rumdl {}.homepage(),
            Application::Scc => scc::Scc {}.homepage(),
            Application::ShellCheck => shellcheck::ShellCheck {}.homepage(),
            Application::Shfmt => shfmt::Shfmt {}.homepage(),
            Application::Snyk => snyk::Snyk {}.homepage(),
            Application::StaticCheck => staticcheck::StaticCheck {}.homepage(),
            Application::TextRunner => text_runner::TextRunner {}.homepage(),
            Application::Tikibase => tikibase::Tikibase {}.homepage(),
        }
    }

    /// How to run this application at the given version on the given platform, with the given path separator.
    pub fn run_method_with_separator(&self, version: &Version, platform: Platform, sep: &str) -> (r: RunMethod)
        ensures
            r@ == self.run_method_spec(version@, platform, sep@),
    {
        match self {
            Application::ActionLint => actionlint::ActionLint {}.run_method(version, platform),
            Application::Alphavet => alphavet::Alphavet {}.run_method(version, platform),
            Application::Biome => biome::Biome {}.run_method(version, platform),
            Application::Bun => bun::Bun {}.run_method(version, platform),
            Application::Deadcode => deadcode::Deadcode {}.run_method(version, platform),
            Application::Depth => depth::Depth {}.run_method(version, platform),
            Application::Dprint => dprint::Dprint {}.run_method(version, platform),
            Application::Exhaustruct => exhaustruct::Exhaustruct {}.run_method(version, platform),
            Application::Fd => fd::Fd {}.run_method(version, platform),
            Application::FuncOrder => funcorder::FuncOrder {}.run_method(version, platform),
            Application::GherkinLint => gherkinlint::GherkinLint {}.run_method(version, platform),
            Application::Gh => gh::Gh {}.run_method_with_separator(version, platform, sep),
            Application::Ghokin => ghokin::Ghokin {}.run_method(version, platform),
            Application::Go => go::Go {}.run_method_with_separator(version, platform, sep),
            Application::Goda => goda::Goda {}.run_method(version, platform),
            Application::Gofmt => gofmt::Gofmt {}.run_method(version, platform),
            Application::Gofumpt => gofumpt::Gofumpt {}.run_method(version, platform),
            Application::GolangCiLint => golangci_lint::GolangCiLint {}.run_method(version, platform),
            Application::Goreleaser => goreleaser::Goreleaser {}.run_method(version, platform),
            Application::Govulncheck => govulnchec::Govulncheck {}.run_method(version, platform),
            Application::Gum => gum::Gum {}.run_method(version, platform),
            Application::Hadolint => hadolint::Hadolint {}.run_method(version, platform),
            Application::Ireturn => ireturn::Ireturn {}.run_method(version, platform),
            Application::KeepSorted => keep_sorted::KeepSorted {}.run_method(version, platform),
            Application::Lefthook => lefthook::Lefthook {}.run_method(version, platform),
            Application::MdBook => mdbook::MdBook {}.run_method(version, platform),
            Application::MdBookLinkCheck => mdbook_linkcheck::MdBookLinkCheck {}.run_method(version, platform),
            Application::NodeJS => nodejs::NodeJS {}.run_method_with_separator(version, platform, sep),
            Application::NodePrune => node_prune::NodePrune {}.run_method(version, platform),
            Application::Npm => npm::Npm {}.run_method(version, platform),
            Application::Npx => npx::Npx {}.run_method(version, platform),
            Application::Prettier => prettier::Prettier {}.run_method(version, platform),
            Application::PrettierStandalone => prettier_standalone::PrettierStandalone {}.run_method(version, platform),
            Application::Pyrefly => pyrefly::Pyrefly {}.run_method(version, platform),
            Application::Rclone => rclone::Rclone {}.run_method(version, platform),
            Application::RipGrep => ripgrep::RipGrep {}.run_method(version, platform),
            Application::Ruff => ruff::Ruff {}.run_method(version, platform),
            Application::Rumdl => rumdl::Rumdl {}.run_method(version, platform),
            Application::Scc => scc::Scc {}.run_method(version, platform),
            Application::ShellCheck => shellcheck::ShellCheck {}.run_method(version, platform),
            Application::Shfmt => shfmt::Shfmt {}.run_method(version, platform),
            Application::Snyk => snyk::Snyk {}.run_method(version, platform),
            Application::StaticCheck => staticcheck::StaticCheck {}.run_method(version, platform),
            Application::TextRunner => text_runner::TextRunner {}.run_method(version, platform),
            Application::Tikibase => tikibase::Tikibase {}.run_method(version, platform),
        }
    }

    /// The next step in analyzing an executable, given the outputs of the runs so far.
    pub fn analyze_step(&self, outputs: &Vec<String>) -> (r: AnalyzeAction)
        ensures
            r@ == self.analyze_spec(texts(outputs@)),
    {
        match self {
            Application::ActionLint => actionlint::ActionLint {}.analyze_step(outputs),
            Application::Alphavet => alphavet::Alphavet {}.analyze_step(outputs),
            Application::Biome => biome::Biome {}.analyze_step(outputs),
            Application::Bun => bun::Bun {}.analyze_step(outputs),
            Application::Deadcode => deadcode::Deadcode {}.analyze_step(outputs),
            Application::Depth => depth::Depth {}.analyze_step(outputs),
            Application::Dprint => dprint::Dprint {}.analyze_step(outputs),
            Application::Exhaustruct => exhaustruct::Exhaustruct {}.analyze_step(outputs),
            Application::Fd => fd::Fd {}.analyze_step(outputs),
            Application::FuncOrder => funcorder::FuncOrder {}.analyze_step(outputs),
            Application::GherkinLint => gherkinlint::GherkinLint {}.analyze_step(outputs),
            Application::Gh => gh::Gh {}.analyze_step(outputs),
            Application::Ghokin => ghokin::Ghokin {}.analyze_step(outputs),
            Application::Go => go::Go {}.analyze_step(outputs),
            Application::Goda => goda::Goda {}.analyze_step(outputs),
            Application::Gofmt => gofmt::Gofmt {}.analyze_step(outputs),
            Application::Gofumpt => gofumpt::Gofumpt {}.analyze_step(outputs),
            Application::GolangCiLint => golangci_lint::GolangCiLint {}.analyze_step(outputs),
            Application::Goreleaser => goreleaser::Goreleaser {}.analyze_step(outputs),
            Application::Govulncheck => govulnchec::Govulncheck {}.analyze_step(outputs),
            Application::Gum => gum::Gum {}.analyze_step(outputs),
            Application::Hadolint => hadolint::Hadolint {}.analyze_step(outputs),
            Application::Ireturn => ireturn::Ireturn {}.analyze_step(outputs),
            Application::KeepSorted => keep_sorted::KeepSorted {}.analyze_step(outputs),
            Application::Lefthook => lefthook::Lefthook {}.analyze_step(outputs),
            Application::MdBook => mdbook::MdBook {}.analyze_step(outputs),
            Application::MdBookLinkCheck => mdbook_linkcheck::MdBookLinkCheck {}.analyze_step(outputs),
            Application::NodeJS => nodejs::NodeJS {}.analyze_step(outputs),
            Application::NodePrune => node_prune::NodePrune {}.analyze_step(outputs),
            Application::Npm => npm::Npm {}.analyze_step(outputs),
            Application::Npx => npx::Npx {}.analyze_step(outputs),
            Application::Prettier => prettier::Prettier {}.analyze_step(outputs),
            Application::PrettierStandalone => prettier_standalone::PrettierStandalone {}.analyze_step(outputs),
            Application::Pyrefly => pyrefly::Pyrefly {}.analyze_step(outputs),
            Application::Rclone => rclone::Rclone {}.analyze_step(outputs),
            Application::RipGrep => ripgrep::RipGrep {}.analyze_step(outputs),
            Application::Ruff => ruff::Ruff {}.analyze_step(outputs),
            Application::Rumdl => rumdl::Rumdl {}.analyze_step(outputs),
            Application::Scc => scc::Scc {}.analyze_step(outputs),
            Application::ShellCheck => shellcheck::ShellCheck {}.analyze_step(outputs),
            Application::Shfmt => shfmt::Shfmt {}.analyze_step(outputs),
            Application::Snyk => snyk::Snyk {}.analyze_step(outputs),
            Application::StaticCheck => staticcheck::StaticCheck {}.analyze_step(outputs),
            Application::TextRunner => text_runner::TextRunner {}.analyze_step(outputs),
            Application::Tikibase => tikibase::Tikibase {}.analyze_step(outputs),
        }
    }

    /// Where the versions of this application come from.
    pub fn version_source(&self) -> (r: VersionSource)
        ensures
            r@ == self.version_source_spec(),
    {
        match self {
            Application::ActionLint => actionlint::ActionLint {}.version_source(),
            Application::Alphavet => alphavet::Alphavet {}.version_source(),
            Application::Biome => biome::Biome {}.version_source(),
            Application::Bun => bun::Bun {}.version_source(),
            Application::Deadcode => deadcode::Deadcode {}.version_source(),
            Application::Depth => depth::Depth {}.version_source(),
            Application::Dprint => dprint::Dprint {}.version_source(),
            Application::Exhaustruct => exhaustruct::Exhaustruct {}.version_source(),
            Application::Fd => fd::Fd {}.version_source(),
            Application::FuncOrder => funcorder::FuncOrder {}.version_source(),
            Application::GherkinLint => gherkinlint::GherkinLint {}.version_source(),
            Application::Gh => gh::Gh {}.version_source(),
            Application::Ghokin => ghokin::Ghokin {}.version_source(),
            Application::Go => go::Go {}.version_source(),
            Application::Goda => goda::Goda {}.version_source(),
            Application::Gofmt => gofmt::Gofmt {}.version_source(),
            Application::Gofumpt => gofumpt::Gofumpt {}.version_source(),
            Application::GolangCiLint => golangci_lint::GolangCiLint {}.version_source(),
            Application::Goreleaser => goreleaser::Goreleaser {}.version_source(),
            Application::Govulncheck => govulnchec::Govulncheck {}.version_source(),
            Application::Gum => gum::Gum {}.version_source(),
            Application::Hadolint => hadolint::Hadolint {}.version_source(),
            Application::Ireturn => ireturn::Ireturn {}.version_source(),
            Application::KeepSorted => keep_sorted::KeepSorted {}.version_source(),
            Application::Lefthook => lefthook::Lefthook {}.version_source(),
            Application::MdBook => mdbook::MdBook {}.version_source(),
            Application::MdBookLinkCheck => mdbook_linkcheck::MdBookLinkCheck {}.version_source(),
            Application::NodeJS => nodejs::NodeJS {}.version_source(),
            Application::NodePrune => node_prune::NodePrune {}.version_source(),
            Application::Npm => npm::Npm {}.version_source(),
            Application::Npx => npx::Npx {}.version_source(),
            Application::Prettier => prettier::Prettier {}.version_source(),
            Application::PrettierStandalone => prettier_standalone::PrettierStandalone {}.version_source(),
            Application::Pyrefly => pyrefly::Pyrefly {}.version_source(),
            Application::Rclone => rclone::Rclone {}.version_source(),
            Application::RipGrep => ripgrep::RipGrep {}.version_source(),
            Application::Ruff => ruff::Ruff {}.version_source(),
            Application::Rumdl => rumdl::Rumdl {}.version_source(),
            Application::Scc => scc::Scc {}.version_source(),
            Application::ShellCheck => shellcheck::ShellCheck {}.version_source(),
            Application::Shfmt => shfmt::Shfmt {}.version_source(),
            Application::Snyk => snyk::Snyk {}.version_source(),
            Application::StaticCheck => staticcheck::StaticCheck {}.version_source(),
            Application::TextRunner => text_runner::TextRunner {}.version_source(),
            Application::Tikibase => tikibase::Tikibase {}.version_source(),
        }
    }

    /// How to run this application at the given version on the given platform.
    pub fn run_method(&self, version: &Version, platform: Platform) -> (r: RunMethod)
        ensures
            exists|sep: Seq<char>| is_separator(sep) && r@ == self.run_method_spec(version@, platform, sep),
    {
        let sep = main_separator();
        let r = self.run_method_with_separator(version, platform, sep);
        assert(is_separator(sep@) && r@ == self.run_method_spec(version@, platform, sep@));
        r
    }

    /// The versions of this application, given the tags of its repository, for the
    /// applications whose versions come from tags: the newest `amount` Go releases, or
    /// the tags of node-prune, which are its versions. `None` for other applications.
    pub fn versions_from_tags(&self, tags: &Vec<String>, amount: usize) -> (r: Option<Vec<Version>>)
        requires
            *self == Application::Go ==> go::comparable(go::release_versions(texts(tags@))),
        ensures
            match self {
                Application::Go => r matches Some(versions) && version_texts(versions@) == go::go_versions(
                    texts(tags@),
                ).take(go::at_most(amount as int, go::go_versions(texts(tags@)).len() as int)),
                Application::NodePrune => r matches Some(versions) && version_texts(versions@) == texts(tags@),
                _ => r is None,
            },
    {
        match self {
            Application::Go => Some(go::Go {}.versions_from_tags(tags, amount)),
            Application::NodePrune => Some(node_prune::NodePrune {}.versions_from_tags(tags)),
            _ => None,
        }
    }

    /// The latest version of this application, given the tags of its repository, for
    /// the applications whose versions come from tags: the newest Go release, or the
    /// first tag of node-prune. `None` for other applications.
    pub fn latest_from_tags(&self, tags: &Vec<String>) -> (r: Option<Result<Version, UserError>>)
        requires
            *self == Application::Go ==> go::comparable(go::release_versions(texts(tags@))),
        ensures
            match self {
                Application::Go => r matches Some(result) && match result {
                    Ok(version) => go::go_versions(texts(tags@)).len() > 0 && version@ == go::go_versions(texts(tags@))[0],
                    Err(e) => go::release_versions(texts(tags@)).len() == 0
                        && (e matches UserError::NoVersionsFound { app } && app@ == go::name_text()),
                },
                Application::NodePrune => r matches Some(result) && match result {
                    Ok(version) => tags@.len() > 0 && version@ == tags@[0]@,
                    Err(e) => tags@.len() == 0
                        && (e matches UserError::NoVersionsFound { app } && app@ == node_prune::name_text()),
                },
                _ => r is None,
            },
    {
        match self {
            Application::Go => Some(go::Go {}.latest_from_tags(tags)),
            Application::NodePrune => Some(node_prune::NodePrune {}.latest_from_tags(tags)),
            _ => None,
        }
    }

    /// The names of the other executables that this application provides. None of
    /// the applications here provides any.
    pub fn additional_executables(&self) -> (r: Vec<ExecutableNameUnix>)
        ensures
            r@.len() == 0,
    {
        Vec::new()
    }

    /// The file in the working directory that restricts the versions of this
    /// application, if there is one.
    pub fn version_requirement_file(&self) -> (r: Option<&'static str>)
        ensures
            match self {
                Application::Go => r matches Some(name) && name@ == "go.mod"@,
                _ => r is None,
            },
    {
        match self {
            Application::Go => Some("go.mod"),
            _ => None,
        }
    }

    /// The versions of this application that the project in the working directory
    /// allows, given the content of its version requirement file if it has one.
    /// Only Go restricts its versions, through `go.mod`.
    pub fn allowed_versions(&self, file_content: Option<&str>) -> (r: Result<AllowedVersions, UserError>)
        ensures
            match self {
                Application::Go => go::allowed_versions_spec(
                    match file_content {
                        Some(content) => Some(content@),
                        None => None,
                    },
                    r,
                ),
                _ => r == Ok::<AllowedVersions, UserError>(AllowedVersions::Any),
            },
    {
        match self {
            Application::Go => go::Go {}.allowed_versions(file_content),
            _ => Ok(AllowedVersions::Any),
        }
    }
}

/// Analyzing an executable as any application takes at most two runs of it:
/// once the outputs of two runs are known, the analysis is over.
pub proof fn analysis_takes_at_most_two_runs(app: Application, outputs: Seq<Seq<char>>)
    requires
        outputs.len() >= 2,
    ensures
        !(app.analyze_spec(outputs) is Run),
{
}

/// Analyzing an executable as any application starts by running it: with no
/// output known yet, the first step is a run.
pub proof fn analysis_starts_with_a_run(app: Application)
    ensures
        app.analyze_spec(Seq::empty()) is Run,
{
}

/// When the analysis decides that an executable is not the application, it
/// reports the output of one of the runs.
pub proof fn rejection_reports_an_output(app: Application, outputs: Seq<Seq<char>>)
    ensures
        app.analyze_spec(outputs) matches AnalyzeActionView::Done(AnalyzeResultView::NotIdentified { output })
            ==> outputs.contains(output),
{
    match app.analyze_spec(outputs) {
        AnalyzeActionView::Done(AnalyzeResultView::NotIdentified { output }) => {
            if output == outputs[0] {
                assert(outputs.contains(outputs[0]));
            } else {
                assert(outputs.contains(outputs[1]));
            }
        },
        _ => {},
    }
}

/// The application that runs `method`, when it runs through another application.
pub open spec fn runs_through(method: RunMethodView) -> Option<Application> {
    match method {
        RunMethodView::OtherAppOtherExecutable { app_definition, .. } => Some(app_definition),
        RunMethodView::OtherAppDefaultExecutable { app_definition, .. } => Some(app_definition),
        RunMethodView::OtherAppShellScript { carrier, .. } => Some(carrier),
        _ => None,
    }
}

/// An application whose versions are those of another application runs through
/// that application, and an application that runs through another application
/// has the versions of that application.
pub proof fn borrowed_versions_match_the_carrier(app: Application, version: Seq<char>, platform: Platform, sep: Seq<char>)
    ensures
        (app.version_source_spec() matches VersionSourceView::SameAs(other)) <==> (runs_through(
            app.run_method_spec(version, platform, sep),
        ) matches Some(carrier) && app.version_source_spec() == VersionSourceView::SameAs(carrier)),
{
}

/// The position of an application in the list of offered applications, or -1.
pub open spec fn offered_position(app: Application) -> int {
    match app {
        Application::ActionLint => 0,
        Application::Alphavet => 1,
        Application::Deadcode => 2,
        Application::Depth => 3,
        Application::Dprint => 4,
        Application::Gh => 5,
        Application::Exhaustruct => 6,
        Application::FuncOrder => 7,
        Application::Ghokin => 8,
        Application::Go => 9,
        Application::Goda => 10,
        Application::Gofmt => 11,
        Application::Gofumpt => 12,
        Application::GolangCiLint => 13,
        Application::Goreleaser => 14,
        Application::Govulncheck => 15,
        Application::Ireturn => 16,
        Application::KeepSorted => 17,
        Application::MdBook => 18,
        Application::MdBookLinkCheck => 19,
        Application::NodeJS => 20,
        Application::NodePrune => 21,
        Application::Npm => 22,
        Application::Npx => 23,
        Application::RipGrep => 24,
        Application::Rclone => 25,
        Application::Scc => 26,
        Application::ShellCheck => 27,
        Application::Shfmt => 28,
        Application::StaticCheck => 29,
        Application::Tikibase => 30,
        _ => -1,
    }
}

proof fn lemma_offered_positions()
    ensures
        forall|j: int| 0 <= j < all_spec().len() ==> offered_position(#[trigger] all_spec()[j]) == j,
{
    assert forall|j: int| 0 <= j < all_spec().len() implies offered_position(#[trigger] all_spec()[j]) == j by {
        if j == 0 {
        } else if j == 1 {
        } else if j == 2 {
        } else if j == 3 {
        } else if j == 4 {
        } else if j == 5 {
        } else if j == 6 {
        } else if j == 7 {
        } else if j == 8 {
        } else if j == 9 {
        } else if j == 10 {
        } else if j == 11 {
        } else if j == 12 {
        } else if j == 13 {
        } else if j == 14 {
        } else if j == 15 {
        } else if j == 16 {
        } else if j == 17 {
        } else if j == 18 {
        } else if j == 19 {
        } else if j == 20 {
        } else if j == 21 {
        } else if j == 22 {
        } else if j == 23 {
        } else if j == 24 {
        } else if j == 25 {
        } else if j == 26 {
        } else if j == 27 {
        } else if j == 28 {
        } else if j == 29 {
        } else if j == 30 {
        }
    }
}

proof fn lemma_offered_names_differ(a: Application, b: Application)
    requires
        offered_position(a) >= 0,
        offered_position(b) >= 0,
        a != b,
    ensures
        !answers_to(b, a.name_spec()),
        !answers_to(b, a.executable_spec()),
{
    reveal_strlit("actionlint");
    assert("actionlint"@.len() == 10 && "actionlint"@[0] == 'a');
    reveal_strlit("alphavet");
    assert("alphavet"@.len() == 8 && "alphavet"@[0] == 'a');
    reveal_strlit("deadcode");
    assert("deadcode"@.len() == 8 && "deadcode"@[0] == 'd');
    reveal_strlit("depth");
    assert("depth"@.len() == 5 && "depth"@[0] == 'd');
    reveal_strlit("dprint");
    assert("dprint"@.len() == 6 && "dprint"@[0] == 'd');
    reveal_strlit("gh");
    assert("gh"@.len() == 2 && "gh"@[0] == 'g' && "gh"@[1] == 'h');
    reveal_strlit("exhaustruct");
    assert("exhaustruct"@.len() == 11 && "exhaustruct"@[0] == 'e');
    reveal_strlit("funcorder");
    assert("funcorder"@.len() == 9);
    reveal_strlit("ghokin");
    assert("ghokin"@.len() == 6 && "ghokin"@[0] == 'g');
    reveal_strlit("go");
    assert("go"@.len() == 2 && "go"@[0] == 'g' && "go"@[1] == 'o');
    reveal_strlit("goda");
    assert("goda"@.len() == 4 && "goda"@[0] == 'g');
    reveal_strlit("gofmt");
    assert("gofmt"@.len() == 5 && "gofmt"@[0] == 'g');
    reveal_strlit("gofumpt");
    assert("gofumpt"@.len() == 7 && "gofumpt"@[0] == 'g');
    reveal_strlit("golangci-lint");
    assert("golangci-lint"@.len() == 13);
    reveal_strlit("goreleaser");
    assert("goreleaser"@.len() == 10 && "goreleaser"@[0] == 'g');
    reveal_strlit("govulncheck");
    assert("govulncheck"@.len() == 11 && "govulncheck"@[0] == 'g');
    reveal_strlit("ireturn");
    assert("ireturn"@.len() == 7 && "ireturn"@[0] == 'i');
    reveal_strlit("keep-sorted");
    assert("keep-sorted"@.len() == 11 && "keep-sorted"@[0] == 'k');
    reveal_strlit("mdbook");
    assert("mdbook"@.len() == 6 && "mdbook"@[0] == 'm');
    reveal_strlit("mdbook-linkcheck");
    assert("mdbook-linkcheck"@.len() == 16);
    reveal_strlit("node");
    assert("node"@.len() == 4 && "node"@[0] == 'n');
    reveal_strlit("node-prune");
    assert("node-prune"@.len() == 10 && "node-prune"@[0] == 'n');
    reveal_strlit("npm");
    assert("npm"@.len() == 3 && "npm"@[0] == 'n' && "npm"@[2] == 'm');
    reveal_strlit("npx");
    assert("npx"@.len() == 3 && "npx"@[0] == 'n' && "npx"@[2] == 'x');
    reveal_strlit("ripgrep");
    assert("ripgrep"@.len() == 7 && "ripgrep"@[0] == 'r');
    reveal_strlit("rg");
    assert("rg"@.len() == 2 && "rg"@[0] == 'r');
    reveal_strlit("rclone");
    assert("rclone"@.len() == 6 && "rclone"@[0] == 'r');
    reveal_strlit("scc");
    assert("scc"@.len() == 3 && "scc"@[0] == 's');
    reveal_strlit("shellcheck");
    assert("shellcheck"@.len() == 10 && "shellcheck"@[0] == 's');
    reveal_strlit("shfmt");
    assert("shfmt"@.len() == 5 && "shfmt"@[0] == 's');
    reveal_strlit("staticcheck");
    assert("staticcheck"@.len() == 11 && "staticcheck"@[0] == 's');
    reveal_strlit("tikibase");
    assert("tikibase"@.len() == 8 && "tikibase"@[0] == 't');
}

proof fn lemma_first_answering(apps: Seq<Application>, name: Seq<char>, k: int, i: int)
    requires
        0 <= k <= i < apps.len(),
        forall|j: int| k <= j < i ==> !answers_to(#[trigger] apps[j], name),
        answers_to(apps[i], name),
    ensures
        first_answering_from(apps, name, k) == Some(i),
    decreases i - k,
{
    if k < i {
        lemma_first_answering(apps, name, k + 1, i);
    }
}

/// Every application that run-that-app offers is found by its name and by the
/// name of its executable.
pub proof fn offered_apps_are_found(app: Application, r: Result<Application, UserError>)
    requires
        all_spec().contains(app),
    ensures
        lookup_result(all_spec(), app.name_spec(), r) ==> r == Ok::<Application, UserError>(app),
        lookup_result(all_spec(), app.executable_spec(), r) ==> r == Ok::<Application, UserError>(app),
{
    let apps = all_spec();
    let i = choose|i: int| 0 <= i < apps.len() && apps[i] == app;
    lemma_offered_positions();
    assert(offered_position(apps[i]) == i);
    assert forall|j: int| 0 <= j < i implies !answers_to(#[trigger] apps[j], app.name_spec()) && !answers_to(
        apps[j],
        app.executable_spec(),
    ) by {
        assert(offered_position(apps[j]) == j);
        lemma_offered_names_differ(app, apps[j]);
    }
    lemma_first_answering(apps, app.name_spec(), 0, i);
    lemma_first_answering(apps, app.executable_spec(), 0, i);
}

/// A version that the analysis of an executable reports occurs in the output
/// of one of its runs.
pub proof fn reported_version_occurs_in_an_output(app: Application, outputs: Seq<Seq<char>>)
    ensures
        app.analyze_spec(outputs) matches AnalyzeActionView::Done(AnalyzeResultView::IdentifiedWithVersion(v))
            ==> exists|k: int| 0 <= k < outputs.len() && contains_seq(#[trigger] outputs[k], v),
{
    match app {
        Application::ActionLint => {
            found_version_is_a_version(actionlint::version_pattern(), outputs[0]);
            found_version_is_a_version(actionlint::version_pattern(), outputs[1]);
        },
        Application::Alphavet => {},
        Application::Biome => {
            found_version_is_a_version(biome::version_pattern(), outputs[0]);
            found_version_is_a_version(biome::version_pattern(), outputs[1]);
        },
        Application::Bun => {
            found_version_is_a_version(bun::version_pattern(), outputs[0]);
            found_version_is_a_version(bun::version_pattern(), outputs[1]);
        },
        Application::Deadcode => {},
        Application::Depth => {},
        Application::Dprint => {
            found_version_is_a_version(dprint::version_pattern(), outputs[0]);
            found_version_is_a_version(dprint::version_pattern(), outputs[1]);
        },
        Application::Exhaustruct => {},
        Application::Fd => {
            found_version_is_a_version(fd::version_pattern(), outputs[0]);
            found_version_is_a_version(fd::version_pattern(), outputs[1]);
        },
        Application::FuncOrder => {},
        Application::GherkinLint => {},
        Application::Gh => {
            found_version_is_a_version(gh::version_pattern(), outputs[0]);
            found_version_is_a_version(gh::version_pattern(), outputs[1]);
        },
        Application::Ghokin => {},
        Application::Go => {
            found_version_is_a_version(go::version_pattern(), outputs[0]);
            found_version_is_a_version(go::version_pattern(), outputs[1]);
        },
        Application::Goda => {},
        Application::Gofmt => {},
        Application::Gofumpt => {
            found_version_is_a_version(gofumpt::version_pattern(), outputs[0]);
            found_version_is_a_version(gofumpt::version_pattern(), outputs[1]);
        },
        Application::GolangCiLint => {
            found_version_is_a_version(golangci_lint::version_pattern(), outputs[0]);
            found_version_is_a_version(golangci_lint::version_pattern(), outputs[1]);
        },
        Application::Goreleaser => {
            found_version_is_a_version(goreleaser::version_pattern(), outputs[0]);
            found_version_is_a_version(goreleaser::version_pattern(), outputs[1]);
        },
        Application::Govulncheck => {},
        Application::Gum => {
            found_version_is_a_version(gum::version_pattern(), outputs[0]);
            found_version_is_a_version(gum::version_pattern(), outputs[1]);
        },
        Application::Hadolint => {
            found_version_is_a_version(crate::regexp::any_version_pattern(), outputs[0]);
            found_version_is_a_version(crate::regexp::any_version_pattern(), outputs[1]);
        },
        Application::Ireturn => {},
        Application::KeepSorted => {
            found_version_is_a_version(crate::regexp::any_version_pattern(), outputs[0]);
            found_version_is_a_version(crate::regexp::any_version_pattern(), outputs[1]);
        },
        Application::Lefthook => {
            found_version_is_a_version(lefthook::version_pattern(), outputs[0]);
            found_version_is_a_version(lefthook::version_pattern(), outputs[1]);
        },
        Application::MdBook => {
            found_version_is_a_version(mdbook::version_pattern(), outputs[0]);
            found_version_is_a_version(mdbook::version_pattern(), outputs[1]);
        },
        Application::MdBookLinkCheck => {
            found_version_is_a_version(mdbook_linkcheck::version_pattern(), outputs[0]);
            found_version_is_a_version(mdbook_linkcheck::version_pattern(), outputs[1]);
        },
        Application::NodeJS => {
            found_version_is_a_version(crate::regexp::any_version_pattern(), outputs[0]);
            found_version_is_a_version(crate::regexp::any_version_pattern(), outputs[1]);
        },
        Application::NodePrune => {},
        Application::Npm => {
            found_version_is_a_version(crate::regexp::any_version_pattern(), outputs[0]);
            found_version_is_a_version(crate::regexp::any_version_pattern(), outputs[1]);
        },
        Application::Npx => {},
        Application::Prettier => {
            found_version_is_a_version(crate::regexp::any_version_pattern(), outputs[0]);
            found_version_is_a_version(crate::regexp::any_version_pattern(), outputs[1]);
        },
        Application::PrettierStandalone => {},
        Application::Pyrefly => {
            found_version_is_a_version(crate::regexp::any_version_pattern(), outputs[0]);
            found_version_is_a_version(crate::regexp::any_version_pattern(), outputs[1]);
        },
        Application::Rclone => {
            found_version_is_a_version(rclone::version_pattern(), outputs[0]);
            found_version_is_a_version(rclone::version_pattern(), outputs[1]);
        },
        Application::RipGrep => {
            found_version_is_a_version(crate::regexp::any_version_pattern(), outputs[0]);
            found_version_is_a_version(crate::regexp::any_version_pattern(), outputs[1]);
        },
        Application::Ruff => {
            found_version_is_a_version(ruff::version_pattern(), outputs[0]);
            found_version_is_a_version(ruff::version_pattern(), outputs[1]);
        },
        Application::Rumdl => {
            found_version_is_a_version(rumdl::version_pattern(), outputs[0]);
            found_version_is_a_version(rumdl::version_pattern(), outputs[1]);
        },
        Application::Scc => {
            found_version_is_a_version(scc::version_pattern(), outputs[0]);
            found_version_is_a_version(scc::version_pattern(), outputs[1]);
        },
        Application::ShellCheck => {
            found_version_is_a_version(shellcheck::version_pattern(), outputs[0]);
            found_version_is_a_version(shellcheck::version_pattern(), outputs[1]);
        },
        Application::Shfmt => {
            found_version_is_a_version(shfmt::version_pattern(), outputs[0]);
            found_version_is_a_version(shfmt::version_pattern(), outputs[1]);
        },
        Application::Snyk => {
            found_version_is_a_version(snyk::version_pattern(), outputs[0]);
            found_version_is_a_version(snyk::version_pattern(), outputs[1]);
        },
        Application::StaticCheck => {},
        Application::TextRunner => {
            found_version_is_a_version(crate::regexp::any_version_pattern(), outputs[0]);
            found_version_is_a_version(crate::regexp::any_version_pattern(), outputs[1]);
        },
        Application::Tikibase => {
            found_version_is_a_version(tikibase::version_pattern(), outputs[0]);
            found_version_is_a_version(tikibase::version_pattern(), outputs[1]);
        },
    }
}

/// The applications that run-that-app offers, in the order in which it lists them.
pub open spec fn all_spec() -> Seq<Application> {
    seq![
        Application::ActionLint,
        Application::Alphavet,
        Application::Deadcode,
        Application::Depth,
        Application::Dprint,
        Application::Gh,
        Application::Exhaustruct,
        Application::FuncOrder,
        Application::Ghokin,
        Application::Go,
        Application::Goda,
        Application::Gofmt,
        Application::Gofumpt,
        Application::GolangCiLint,
        Application::Goreleaser,
        Application::Govulncheck,
        Application::Ireturn,
        Application::KeepSorted,
        Application::MdBook,
        Application::MdBookLinkCheck,
        Application::NodeJS,
        Application::NodePrune,
        Application::Npm,
        Application::Npx,
        Application::RipGrep,
        Application::Rclone,
        Application::Scc,
        Application::ShellCheck,
        Application::Shfmt,
        Application::StaticCheck,
        Application::Tikibase,
    ]
}

/// The applications that run-that-app offers.
pub fn all() -> (r: Apps)
    ensures
        r@ == all_spec(),
{
    let mut v: Vec<Application> = Vec::new();
    v.push(Application::ActionLint);
    v.push(Application::Alphavet);
    v.push(Application::Deadcode);
    v.push(Application::Depth);
    v.push(Application::Dprint);
    v.push(Application::Gh);
    v.push(Application::Exhaustruct);
    v.push(Application::FuncOrder);
    v.push(Application::Ghokin);
    v.push(Application::Go);
    v.push(Application::Goda);
    v.push(Application::Gofmt);
    v.push(Application::Gofumpt);
    v.push(Application::GolangCiLint);
    v.push(Application::Goreleaser);
    v.push(Application::Govulncheck);
    v.push(Application::Ireturn);
    v.push(Application::KeepSorted);
    v.push(Application::MdBook);
    v.push(Application::MdBookLinkCheck);
    v.push(Application::NodeJS);
    v.push(Application::NodePrune);
    v.push(Application::Npm);
    v.push(Application::Npx);
    v.push(Application::RipGrep);
    v.push(Application::Rclone);
    v.push(Application::Scc);
    v.push(Application::ShellCheck);
    v.push(Application::Shfmt);
    v.push(Application::StaticCheck);
    v.push(Application::Tikibase);
    assert(v@ =~= all_spec());
    Apps(v)
}

} // verus!
