use run_that_app::applications::gherkinlint::GherkinLint;
use run_that_app::configuration::Version;
use run_that_app::executables::RunMethod;
use run_that_app::platform::Cpu;
use run_that_app::platform::Os;
use run_that_app::platform::Platform;

#[test]
fn gherkinlint_linux_arm() {
  let have = (GherkinLint {}).run_method(
    &Version::from("4.2.4"),
    Platform {
      os: Os::Linux,
      cpu: Cpu::Arm64,
    },
  );
  let want = RunMethod::NodeJSExecutable {
    package_name: "gherkin-lint".into(),
    executable_path: "node_modules/.bin/gherkin-lint".into(),
  };
  assert_eq!(have, want);
}

#[test]
fn gherkinlint_linux_intel() {
  let have = (GherkinLint {}).run_method(
    &Version::from("4.2.4"),
    Platform {
      os: Os::Linux,
      cpu: Cpu::Intel64,
    },
  );
  let want = RunMethod::NodeJSExecutable {
    package_name: "gherkin-lint".into(),
    executable_path: "node_modules/.bin/gherkin-lint".into(),
  };
  assert_eq!(have, want);
}

#[test]
fn gherkinlint_macos_arm() {
  let have = (GherkinLint {}).run_method(
    &Version::from("4.2.4"),
    Platform {
      os: Os::MacOS,
      cpu: Cpu::Arm64,
    },
  );
  let want = RunMethod::NodeJSExecutable {
    package_name: "gherkin-lint".into(),
    executable_path: "node_modules/.bin/gherkin-lint".into(),
  };
  assert_eq!(have, want);
}

#[test]
fn gherkinlint_macos_intel() {
  let have = (GherkinLint {}).run_method(
    &Version::from("4.2.4"),
    Platform {
      os: Os::MacOS,
      cpu: Cpu::Intel64,
    },
  );
  let want = RunMethod::NodeJSExecutable {
    package_name: "gherkin-lint".into(),
    executable_path: "node_modules/.bin/gherkin-lint".into(),
  };
  assert_eq!(have, want);
}

#[test]
fn gherkinlint_windows_arm() {
  let have = (GherkinLint {}).run_method(
    &Version::from("3.4.1"),
    Platform {
      os: Os::Windows,
      cpu: Cpu::Arm64,
    },
  );
  let want = RunMethod::NodeJSExecutable {
    package_name: "gherkin-lint".into(),
    executable_path: "node_modules/.bin/gherkin-lint".into(),
  };
  assert_eq!(have, want);
}

#[test]
fn gherkinlint_windows_intel() {
  let have = (GherkinLint {}).run_method(
    &Version::from("4.2.4"),
    Platform {
      os: Os::Windows,
      cpu: Cpu::Intel64,
    },
  );
  let want = RunMethod::NodeJSExecutable {
    package_name: "gherkin-lint".into(),
    executable_path: "node_modules/.bin/gherkin-lint".into(),
  };
  assert_eq!(have, want);
}
