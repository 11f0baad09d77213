use run_that_app::applications::Application;
use run_that_app::applications::npm::Npm;
use run_that_app::configuration::Version;
use run_that_app::executables::RunMethod;
use run_that_app::platform::Cpu;
use run_that_app::platform::Os;
use run_that_app::platform::Platform;

#[test]
fn npm_linux_arm() {
  let have = (Npm {}).run_method(
    &Version::from("20.10.0"),
    Platform {
      os: Os::Linux,
      cpu: Cpu::Arm64,
    },
  );
  let want = RunMethod::OtherAppShellScript {
    carrier: Application::NodeJS,
    script_name: "npm",
  };
  assert_eq!(have, want);
}

#[test]
fn npm_linux_intel() {
  let have = (Npm {}).run_method(
    &Version::from("20.10.0"),
    Platform {
      os: Os::Linux,
      cpu: Cpu::Intel64,
    },
  );
  let want = RunMethod::OtherAppShellScript {
    carrier: Application::NodeJS,
    script_name: "npm",
  };
  assert_eq!(have, want);
}

#[test]
fn npm_macos_arm() {
  let have = (Npm {}).run_method(
    &Version::from("20.10.0"),
    Platform {
      os: Os::MacOS,
      cpu: Cpu::Arm64,
    },
  );
  let want = RunMethod::OtherAppShellScript {
    carrier: Application::NodeJS,
    script_name: "npm",
  };
  assert_eq!(have, want);
}

#[test]
fn npm_macos_intel() {
  let have = (Npm {}).run_method(
    &Version::from("20.10.0"),
    Platform {
      os: Os::MacOS,
      cpu: Cpu::Intel64,
    },
  );
  let want = RunMethod::OtherAppShellScript {
    carrier: Application::NodeJS,
    script_name: "npm",
  };
  assert_eq!(have, want);
}

#[test]
fn npm_windows_arm() {
  let have = (Npm {}).run_method(
    &Version::from("20.10.0"),
    Platform {
      os: Os::Windows,
      cpu: Cpu::Arm64,
    },
  );
  let want = RunMethod::OtherAppShellScript {
    carrier: Application::NodeJS,
    script_name: "npm.cmd",
  };
  assert_eq!(have, want);
}

#[test]
fn npm_windows_intel() {
  let have = (Npm {}).run_method(
    &Version::from("20.10.0"),
    Platform {
      os: Os::Windows,
      cpu: Cpu::Intel64,
    },
  );
  let want = RunMethod::OtherAppShellScript {
    carrier: Application::NodeJS,
    script_name: "npm.cmd",
  };
  assert_eq!(have, want);
}
