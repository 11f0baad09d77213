use big_s::S;
use run_that_app::applications::exhaustruct::{Exhaustruct, import_path};
use run_that_app::applications::go::{Go, allowed_from_parse, release_versions_of, sort_newest_first};
use run_that_app::applications::gofmt::Gofmt;
use run_that_app::applications::govulnchec::Govulncheck;
use run_that_app::applications::node_prune::NodePrune;
use run_that_app::applications::{AnalyzeAction, AnalyzeResult, Application, Apps, all, carrier};
use run_that_app::configuration::{AllowedVersions, TagFormat, Version};
use run_that_app::error::UserError;
use run_that_app::executables::{ExecutableArgs, ExecutableNameUnix, RunMethod};
use run_that_app::hosting::VersionSource;
use run_that_app::installation::Method;
use run_that_app::platform::{Cpu, Os, Platform};
use run_that_app::regexp::{End, Gap, Start, VersionPattern, first_capture, first_version, has_fitting_digit_runs};
use run_that_app::text::{contains, decimal_string, same_text, starts_with, trim_start_matches};

fn texts(items: &[&str]) -> Vec<String> {
  items.iter().map(|item| item.to_string()).collect()
}

fn version_texts(versions: &[Version]) -> Vec<String> {
  versions.iter().map(|version| version.as_str().to_string()).collect()
}

const LINUX_ARM: Platform = Platform {
  os: Os::Linux,
  cpu: Cpu::Arm64,
};

#[test]
fn every_offered_app_is_found_by_its_name() {
  let apps = all();
  for app in apps.list() {
    let found = apps.lookup(app.name().as_str()).unwrap();
    assert_eq!(found, *app);
  }
}

#[test]
fn every_offered_app_is_found_by_its_executable() {
  let apps = all();
  for app in apps.list() {
    let found = apps.lookup(app.executable_filename().as_str()).unwrap();
    assert_eq!(found, *app);
  }
}

#[test]
fn ripgrep_is_found_by_its_executable_name() {
  assert_eq!(all().lookup("rg"), Ok(Application::RipGrep));
  assert_eq!(all().lookup("ripgrep"), Ok(Application::RipGrep));
}

#[test]
fn offered_apps_in_listed_order() {
  let apps = all();
  assert_eq!(apps.list().len(), 31);
  assert_eq!(apps.list()[0], Application::ActionLint);
  assert_eq!(apps.list()[9], Application::Go);
  assert_eq!(apps.list()[30], Application::Tikibase);
}

#[test]
fn longest_name_of_offered_apps() {
  // mdbook-linkcheck
  assert_eq!(all().longest_name_length(), 16);
}

#[test]
fn longest_name_of_no_apps() {
  assert_eq!(Apps::new(vec![]).longest_name_length(), 0);
}

#[test]
fn lookup_picks_the_first_answering_app() {
  let apps = Apps::new(vec![Application::ShellCheck, Application::Dprint, Application::ShellCheck]);
  assert_eq!(apps.lookup("shellcheck"), Ok(Application::ShellCheck));
  assert_eq!(apps.lookup("dprint"), Ok(Application::Dprint));
}

#[test]
fn lookup_is_exact() {
  let apps = all();
  assert_eq!(apps.lookup("Go"), Err(UserError::UnknownApp(S("Go"))));
  assert_eq!(apps.lookup("g"), Err(UserError::UnknownApp(S("g"))));
  assert_eq!(apps.lookup(""), Err(UserError::UnknownApp(S(""))));
}

#[test]
fn every_analysis_starts_with_a_run() {
  for app in all().list() {
    let step = app.analyze_step(&vec![]);
    assert!(matches!(step, AnalyzeAction::Run { .. }), "{:?}", app);
  }
}

#[test]
fn every_analysis_ends_after_two_runs() {
  let outputs = texts(&["unrelated output", "more unrelated output"]);
  for app in all().list() {
    let step = app.analyze_step(&outputs);
    assert!(!matches!(step, AnalyzeAction::Run { .. }), "{:?}", app);
  }
}

#[test]
fn rejection_reports_the_output() {
  let outputs = texts(&["unrelated output"]);
  let step = Application::Gh.analyze_step(&outputs);
  assert_eq!(step, AnalyzeAction::Done(AnalyzeResult::NotIdentified { output: S("unrelated output") }));
}

#[test]
fn gh_analysis() {
  let app = Application::Gh;
  assert_eq!(app.analyze_step(&vec![]), AnalyzeAction::Run { args: vec!["-h"] });
  let help = texts(&["Work seamlessly with GitHub from the command line.\n"]);
  assert_eq!(app.analyze_step(&help), AnalyzeAction::Run { args: vec!["--version"] });
  let both = texts(&["Work seamlessly with GitHub from the command line.", "gh version 2.45.0 (2024-03-04)"]);
  assert_eq!(app.analyze_step(&both), AnalyzeAction::Done(AnalyzeResult::IdentifiedWithVersion(Version::from("2.45.0"))));
  let no_version = texts(&["Work seamlessly with GitHub from the command line.", "unknown"]);
  assert_eq!(app.analyze_step(&no_version), AnalyzeAction::Done(AnalyzeResult::IdentifiedButUnknownVersion));
}

#[test]
fn shellcheck_analysis_uses_one_output() {
  let output = texts(&["ShellCheck - shell script analysis tool\nversion: 0.9.0\n"]);
  assert_eq!(
    Application::ShellCheck.analyze_step(&output),
    AnalyzeAction::Done(AnalyzeResult::IdentifiedWithVersion(Version::from("0.9.0")))
  );
}

#[test]
fn go_analysis_with_version() {
  let app = Application::Go;
  assert_eq!(app.analyze_step(&vec![]), AnalyzeAction::Run { args: vec!["version"] });
  let outputs = texts(&["go version go1.21.7 linux/arm64"]);
  assert_eq!(app.analyze_step(&outputs), AnalyzeAction::Done(AnalyzeResult::IdentifiedWithVersion(Version::from("1.21.7"))));
}

#[test]
fn go_analysis_without_version() {
  let app = Application::Go;
  let outputs = texts(&["flag provided but not defined"]);
  assert_eq!(app.analyze_step(&outputs), AnalyzeAction::Run { args: vec!["-h"] });
  let outputs = texts(&["flag provided but not defined", "Go is a tool for managing Go source code.\n"]);
  assert_eq!(app.analyze_step(&outputs), AnalyzeAction::Done(AnalyzeResult::IdentifiedButUnknownVersion));
  let outputs = texts(&["flag provided but not defined", "something else"]);
  assert_eq!(app.analyze_step(&outputs), AnalyzeAction::Done(AnalyzeResult::NotIdentified { output: S("something else") }));
}

#[test]
fn gofmt_analysis_continues_with_go() {
  let outputs = texts(&["usage: gofmt [flags] [path ...]\n  -e\treport all errors (not just the first 10 on different lines)\n"]);
  assert_eq!(
    (Gofmt {}).analyze_step(&outputs),
    AnalyzeAction::AnalyzeSibling {
      app: Application::Go,
      executable_name: ExecutableNameUnix::from("go"),
    }
  );
}

#[test]
fn carrier_of_an_installed_app_is_the_app() {
  let have = carrier(Application::ShellCheck, &Version::from("0.9.0"), LINUX_ARM);
  assert_eq!(have, Some((Application::ShellCheck, ExecutableNameUnix::from("shellcheck"), ExecutableArgs::NoArgs)));
  let have = carrier(Application::RipGrep, &Version::from("14.1.0"), LINUX_ARM);
  assert_eq!(have, Some((Application::RipGrep, ExecutableNameUnix::from("rg"), ExecutableArgs::NoArgs)));
}

#[test]
fn carrier_of_gofmt_is_go() {
  let have = carrier(Application::Gofmt, &Version::from("1.23.4"), LINUX_ARM);
  assert_eq!(have, Some((Application::Go, ExecutableNameUnix::from("gofmt"), ExecutableArgs::NoArgs)));
}

#[test]
fn npm_has_no_carrier() {
  assert_eq!(carrier(Application::Npm, &Version::from("10.2.0"), LINUX_ARM), None);
  assert_eq!(carrier(Application::Prettier, &Version::from("3.0.0"), LINUX_ARM), None);
}

#[test]
fn application_properties() {
  assert_eq!(Application::Go.name().as_str(), "go");
  assert_eq!(Application::Go.homepage(), "https://go.dev");
  assert_eq!(Application::RipGrep.executable_filename().as_str(), "rg");
  assert_eq!(Application::GolangCiLint.name().len(), 13);
  assert_eq!(
    Application::Go.version_source(),
    VersionSource::GithubTags {
      org: "golang",
      repo: "go",
      count: Some(400),
    }
  );
  assert_eq!(Application::Npm.version_source(), VersionSource::SameAs(Application::NodeJS));
  assert_eq!(
    Application::Gh.version_source(),
    VersionSource::GithubReleases {
      org: "cli",
      repo: "cli",
      tag_prefix: Some("v"),
    }
  );
}

#[test]
fn go_reads_go_mod() {
  assert_eq!(Application::Go.version_requirement_file(), Some("go.mod"));
  assert_eq!(Application::Gh.version_requirement_file(), None);
}

#[test]
fn go_allows_what_go_mod_asks_for() {
  let have = Application::Go.allowed_versions(Some("module example.com/x\n\ngo 1.21\n"));
  let want = AllowedVersions::Matching { expression: S("1.21") };
  assert_eq!(have, Ok(want.clone()));
  assert!(want.allows(&Version::from("1.21.7")));
  assert!(want.allows(&Version::from("1.22.0")));
  assert!(!want.allows(&Version::from("1.20.3")));
  assert!(!want.allows(&Version::from("2.0.0")));
}

#[test]
fn any_version_is_what_star_allows() {
  assert!(AllowedVersions::Any.allows(&Version::from("1.20.3")));
  assert!(AllowedVersions::Any.allows(&Version::from("0.0.1")));
  assert!(!AllowedVersions::Any.allows(&Version::from("1.21rc1")));
}

#[test]
fn unparsable_requirement_allows_nothing() {
  let broken = AllowedVersions::Matching { expression: S("01.21") };
  assert!(!broken.allows(&Version::from("1.21.0")));
}

#[test]
fn go_allows_any_version_without_go_mod() {
  assert_eq!(Application::Go.allowed_versions(None), Ok(AllowedVersions::Any));
  assert_eq!(Application::Go.allowed_versions(Some("module example.com/x\n")), Ok(AllowedVersions::Any));
  assert_eq!(Application::Go.allowed_versions(Some("go 1.21 // comment\n")), Ok(AllowedVersions::Any));
}

#[test]
fn go_mod_with_invalid_requirement() {
  let have = Application::Go.allowed_versions(Some("go 01.21\n"));
  let Err(UserError::CannotParseSemverRange { expression, reason }) = have else {
    panic!("expected an error here");
  };
  assert_eq!(expression, "01.21");
  assert_eq!(reason, semver::VersionReq::parse("01.21").unwrap_err().to_string());
}

#[test]
fn other_apps_allow_any_version() {
  assert_eq!(Application::Gh.allowed_versions(Some("go 1.21\n")), Ok(AllowedVersions::Any));
}

#[test]
fn requirement_from_parse_outcome() {
  assert_eq!(
    allowed_from_parse(">=1.2", Ok(())),
    Ok(AllowedVersions::Matching { expression: S(">=1.2") })
  );
  assert_eq!(
    allowed_from_parse("x", Err(S("unexpected character"))),
    Err(UserError::CannotParseSemverRange {
      expression: S("x"),
      reason: S("unexpected character"),
    })
  );
}

#[test]
fn go_release_versions() {
  let tags = texts(&["go1.9", "weekly.2011-12-22", "go1.21rc2", "go1.21.5", "release.r60", "gogo1.10"]);
  assert_eq!(release_versions_of(&tags), texts(&["1.9", "1.21.5", "1.10"]));
}

#[test]
fn go_sorts_versions_newest_first() {
  let have = sort_newest_first(&texts(&["1.9", "1.21.5", "1.10", "1.21.10", "1.2"]));
  assert_eq!(have, texts(&["1.21.10", "1.21.5", "1.10", "1.9", "1.2"]));
}

#[test]
fn go_versions_from_tags() {
  let tags = texts(&["go1.9", "go1.21rc2", "go1.21.5", "weekly.2011-12-22", "go1.10", "go1.21.0"]);
  let have = (Go {}).versions_from_tags(&tags, 3);
  assert_eq!(version_texts(&have), texts(&["1.21.5", "1.21.0", "1.10"]));
  let have = (Go {}).versions_from_tags(&tags, 10);
  assert_eq!(version_texts(&have), texts(&["1.21.5", "1.21.0", "1.10", "1.9"]));
  let have = (Go {}).versions_from_tags(&tags, 0);
  assert!(have.is_empty());
}

#[test]
fn go_versions_are_never_release_candidates() {
  let tags = texts(&["go1.22rc1", "go1.22rc2", "go1.21.5", "go1.22.0", "go1.23rc1"]);
  let have = (Go {}).versions_from_tags(&tags, 10);
  assert_eq!(version_texts(&have), texts(&["1.22.0", "1.21.5"]));
}

#[test]
fn go_latest_version() {
  let tags = texts(&["go1.9", "go1.21.5", "go1.10"]);
  assert_eq!((Go {}).latest_from_tags(&tags), Ok(Version::from("1.21.5")));
}

#[test]
fn go_without_release_tags() {
  let tags = texts(&["weekly.2011-12-22", "go1.22rc1"]);
  assert_eq!((Go {}).latest_from_tags(&tags), Err(UserError::NoVersionsFound { app: S("go") }));
}

#[test]
fn go_versions_with_tag_prefix_removed_for_download() {
  let have = (Go {}).run_method_with_separator(&Version::from("go1.21.5"), LINUX_ARM, "/");
  let RunMethod::ThisApp { install_methods } = have else {
    panic!("expected an installation");
  };
  let Method::DownloadArchive { url, .. } = &install_methods[0] else {
    panic!("expected an archive download");
  };
  assert_eq!(url, "https://go.dev/dl/go1.21.5.linux-arm64.tar.gz");
}

#[test]
fn node_prune_versions_are_its_tags() {
  let tags = texts(&["1.0.1", "1.0.0"]);
  assert_eq!(version_texts(&(NodePrune {}).versions_from_tags(&tags)), tags);
  assert_eq!((NodePrune {}).latest_from_tags(&tags), Ok(Version::from("1.0.1")));
  assert_eq!((NodePrune {}).latest_from_tags(&vec![]), Err(UserError::NoVersionsFound { app: S("node-prune") }));
}

#[test]
fn govulncheck_versions_are_fixed() {
  assert_eq!((Govulncheck {}).latest_installable_version(), Ok(Version::from("1.1.4")));
  assert_eq!(
    (Govulncheck {}).installable_versions(5),
    Ok(vec![Version::from("1.1.4"), Version::from("1.1.3")])
  );
  assert_eq!((Govulncheck {}).installable_versions(1), Ok(vec![Version::from("1.1.4")]));
  assert_eq!((Govulncheck {}).installable_versions(0), Ok(vec![]));
}

#[test]
fn exhaustruct_from_version_4_on() {
  assert_eq!(
    import_path(&Version::from("4.0.0")),
    "dev.gaijin.team/go/exhaustruct/v4/cmd/exhaustruct@v4.0.0"
  );
  assert_eq!(
    import_path(&Version::from("12.1.0")),
    "dev.gaijin.team/go/exhaustruct/v12/cmd/exhaustruct@v12.1.0"
  );
}

#[test]
fn exhaustruct_without_major_version() {
  assert_eq!(
    import_path(&Version::from("latest")),
    "github.com/GaijinEntertainment/go-exhaustruct/v3/cmd/exhaustruct@vlatest"
  );
  let have = (Exhaustruct {}).run_method(&Version::from("2.0.0"), LINUX_ARM);
  let want = RunMethod::ThisApp {
    install_methods: vec![Method::CompileGoSource {
      import_path: S("github.com/GaijinEntertainment/go-exhaustruct/v2/cmd/exhaustruct@v2.0.0"),
    }],
  };
  assert_eq!(have, want);
}

#[test]
fn major_versions() {
  assert_eq!(Version::from("3.3.0").major_version(), Some(3));
  assert_eq!(Version::from("12").major_version(), Some(12));
  assert_eq!(Version::from("4294967295.0").major_version(), Some(4294967295));
  assert_eq!(Version::from("4294967296.0").major_version(), None);
  assert_eq!(Version::from("v1.2.3").major_version(), None);
  assert_eq!(Version::from(".1").major_version(), None);
  assert_eq!(Version::from("").major_version(), None);
}

#[test]
fn decimal_notation() {
  assert_eq!(decimal_string(0), "0");
  assert_eq!(decimal_string(7), "7");
  assert_eq!(decimal_string(10), "10");
  assert_eq!(decimal_string(4294967295), "4294967295");
}

#[test]
fn tags_of_versions() {
  let version = Version::from("1.6.26");
  assert_eq!(TagFormat::Plain.format_version(&version), "1.6.26");
  assert_eq!(TagFormat::PrefixV.format_version(&version), "v1.6.26");
  assert_ne!(
    TagFormat::PrefixV.format_version(&Version::from("1.0")),
    TagFormat::PrefixV.format_version(&Version::from("1.0.0"))
  );
}

#[test]
fn found_version_occurs_in_the_text() {
  let text = "tool v1.2.3-beta (build 4.5)";
  let found = first_version(text).unwrap();
  assert_eq!(found, "1.2.3");
  assert!(contains(text, found));
}

#[test]
fn leftmost_match_wins() {
  assert_eq!(first_version("10.20.30 and 1.2.3"), Ok("10.20.30"));
  assert_eq!(first_version("1.2 then 3.4.5"), Ok("3.4.5"));
  assert_eq!(first_version("1.2."), Err(UserError::RegexDoesntMatch));
}

#[test]
fn anchored_patterns() {
  let pattern = VersionPattern {
    start: Start::LineStart,
    prefix: "go",
    gap: Gap::Required,
    parts: 2,
    suffix: "",
    end: End::LineEndAfterSpaces,
  };
  assert_eq!(first_capture("go 1.21  \nrequire x", &pattern), Ok("1.21"));
  assert_eq!(first_capture("x go 1.21\n", &pattern), Err(UserError::RegexDoesntMatch));
  assert_eq!(first_capture("go1.21\n", &pattern), Err(UserError::RegexDoesntMatch));
  assert_eq!(first_capture("go 1.21.3\n", &pattern), Err(UserError::RegexDoesntMatch));
  assert_eq!(first_capture("toolchain\ngo\t1.22", &pattern), Ok("1.22"));
}

#[test]
fn whole_text_pattern() {
  let pattern = VersionPattern {
    start: Start::TextStart,
    prefix: "v",
    gap: Gap::Nothing,
    parts: 3,
    suffix: "",
    end: End::TextEnd,
  };
  assert_eq!(first_capture("v3.7.0", &pattern), Ok("3.7.0"));
  assert_eq!(first_capture("v3.7.0\n", &pattern), Err(UserError::RegexDoesntMatch));
  assert_eq!(first_capture(" v3.7.0", &pattern), Err(UserError::RegexDoesntMatch));
}

#[test]
fn optional_gap_pattern() {
  let pattern = VersionPattern {
    start: Start::Anywhere,
    prefix: "GitVersion:",
    gap: Gap::Optional,
    parts: 3,
    suffix: "",
    end: End::Anywhere,
  };
  assert_eq!(first_capture("GitVersion:1.24.0", &pattern), Ok("1.24.0"));
  assert_eq!(first_capture("GitVersion: \t 1.24.0", &pattern), Ok("1.24.0"));
}

#[test]
fn digit_runs() {
  assert!(has_fitting_digit_runs("1.21.5"));
  assert!(has_fitting_digit_runs("123456789"));
  assert!(has_fitting_digit_runs("1234567890"));
  assert!(has_fitting_digit_runs("4294967295"));
  assert!(!has_fitting_digit_runs("4294967296"));
  assert!(has_fitting_digit_runs("000000000004294967295"));
  assert!(!has_fitting_digit_runs("v1.99999999999"));
  assert!(has_fitting_digit_runs(""));
}

#[test]
fn text_helpers() {
  assert_eq!(trim_start_matches("gogo1.2", "go"), "1.2");
  assert_eq!(trim_start_matches("1.2", "go"), "1.2");
  assert_eq!(trim_start_matches("go", ""), "go");
  assert!(starts_with("go1.2", "go"));
  assert!(!starts_with("g", "go"));
  assert!(contains("go1.21rc1", "rc"));
  assert!(!contains("go1.21", "rc"));
  assert!(contains("abc", ""));
  assert!(same_text("äb", "äb"));
  assert!(!same_text("ab", "abc"));
}

#[test]
fn windows_executables() {
  assert_eq!(ExecutableNameUnix::from("scc").platform_path(Os::Windows), "scc.exe");
  assert_eq!(ExecutableNameUnix::from("scc").platform_path(Os::Linux), "scc");
}

fn runs_through(method: &RunMethod) -> Option<Application> {
  match method {
    RunMethod::OtherAppOtherExecutable { app_definition, .. } => Some(*app_definition),
    RunMethod::OtherAppDefaultExecutable { app_definition, .. } => Some(*app_definition),
    RunMethod::OtherAppShellScript { carrier, .. } => Some(*carrier),
    _ => None,
  }
}

#[test]
fn borrowed_versions_come_from_the_carrier() {
  for app in all().list() {
    let method = app.run_method(&Version::from("1.0.0"), LINUX_ARM);
    match app.version_source() {
      VersionSource::SameAs(other) => assert_eq!(runs_through(&method), Some(other), "{:?}", app),
      _ => assert_eq!(runs_through(&method), None, "{:?}", app),
    }
  }
  assert_eq!(Application::Npm.version_source(), VersionSource::SameAs(Application::NodeJS));
  assert_eq!(runs_through(&Application::Npx.run_method(&Version::from("1.0.0"), LINUX_ARM)), Some(Application::NodeJS));
}

#[test]
fn reported_version_occurs_in_the_output() {
  let output = "Mdbook-linkcheck says: mdbook-linkcheck 0.7.7 (build 2)";
  let outputs = texts(&["mdbook-linkcheck, a linkchecker for mdbook", output]);
  let step = Application::MdBookLinkCheck.analyze_step(&outputs);
  let AnalyzeAction::Done(AnalyzeResult::IdentifiedWithVersion(version)) = step else {
    panic!("expected a version, got {step:?}");
  };
  assert_eq!(version.as_str(), "0.7.7");
  assert!(output.contains(version.as_str()));
}

#[test]
fn no_app_provides_additional_executables() {
  for app in all().list() {
    assert!(app.additional_executables().is_empty());
  }
}

#[test]
fn apps_are_identified_by_their_own_help() {
  let shfmt = texts(&["shfmt formats shell programs.\n"]);
  assert_eq!(Application::Snyk.analyze_step(&shfmt), AnalyzeAction::Done(AnalyzeResult::NotIdentified { output: S("shfmt formats shell programs.\n") }));
  let snyk = texts(&["CLI commands help\n  Snyk CLI scans and monitors your projects for security vulnerabilities and license issues.\n"]);
  assert_eq!(Application::Snyk.analyze_step(&snyk), AnalyzeAction::Run { args: vec!["--version"] });
  let ruff = texts(&["Ruff: An extremely fast Python linter and code formatter.\n\nUsage: ruff [OPTIONS] <COMMAND>\n"]);
  assert!(matches!(Application::Rumdl.analyze_step(&ruff), AnalyzeAction::Done(AnalyzeResult::NotIdentified { .. })));
  let rumdl = texts(&["A high-performance Markdown linter\n\nUsage: rumdl [OPTIONS] [COMMAND]\n", "rumdl 0.0.200\n"]);
  assert_eq!(Application::Rumdl.analyze_step(&rumdl), AnalyzeAction::Done(AnalyzeResult::IdentifiedWithVersion(Version::from("0.0.200"))));
  let markdownlint = texts(&["Usage: markdownlint [options] [files|directories|globs...]\n\nMarkdownLint Command Line Interface\n"]);
  assert!(matches!(Application::TextRunner.analyze_step(&markdownlint), AnalyzeAction::Done(AnalyzeResult::NotIdentified { .. })));
}

#[test]
fn fd_analysis_finds_its_version() {
  let outputs = texts(&["A program to find entries in your filesystem\n", "fd 10.3.0\n"]);
  assert_eq!(Application::Fd.analyze_step(&outputs), AnalyzeAction::Done(AnalyzeResult::IdentifiedWithVersion(Version::from("10.3.0"))));
}

#[test]
fn latest_go_version_is_the_first_of_the_list() {
  let tags = texts(&["go1.9", "go1.21.5", "go1.10", "go1.21.05"]);
  let first = (Go {}).versions_from_tags(&tags, 1);
  assert_eq!(Ok(first[0].clone()), (Go {}).latest_from_tags(&tags));
  assert_eq!(Application::Go.latest_from_tags(&tags), Some((Go {}).latest_from_tags(&tags)));
  assert_eq!(Application::NodePrune.latest_from_tags(&texts(&["1.0.1"])), Some(Ok(Version::from("1.0.1"))));
  assert_eq!(Application::Gh.latest_from_tags(&tags), None);
}

#[test]
fn go_sorts_ten_digit_versions() {
  let tags = texts(&["go1.1234567890", "go1.2"]);
  let have = (Go {}).versions_from_tags(&tags, 2);
  assert_eq!(version_texts(&have), texts(&["1.1234567890", "1.2"]));
}
