use run_that_app::applications::Application;
use run_that_app::applications::npx::Npx;
use run_that_app::configuration::Version;
use run_that_app::executables::RunMethod;
use run_that_app::platform::Cpu;
use run_that_app::platform::Os;
use run_that_app::platform::Platform;

#[test]
fn npx_linux_arm() {
  let have = (Npx {}).run_method(
    &Version::from("20.10.0"),
    Platform {
      os: Os::Linux,
      cpu: Cpu::Arm64,
    },
  );
  let want = RunMethod::OtherAppShellScript {
    carrier: Application::NodeJS,
    script_name: "npx",
  };
  assert_eq!(have, want);
}

#[test]
fn npx_linux_intel() {
  let have = (Npx {}).run_method(
    &Version::from("20.10.0"),
    Platform {
      os: Os::Linux,
      cpu: Cpu::Intel64,
    },
  );
  let want = RunMethod::OtherAppShellScript {
    carrier: Application::NodeJS,
    script_name: "npx",
  };
  assert_eq!(have, want);
}

#[test]
fn npx_macos_arm() {
  let have = (Npx {}).run_method(
    &Version::from("20.10.0"),
    Platform {
      os: Os::MacOS,
      cpu: Cpu::Arm64,
    },
  );
  let want = RunMethod::OtherAppShellScript {
    carrier: Application::NodeJS,
    script_name: "npx",
  };
  assert_eq!(have, want);
}

#[test]
fn npx_macos_intel() {
  let have = (Npx {}).run_method(
    &Version::from("20.10.0"),
    Platform {
      os: Os::MacOS,
      cpu: Cpu::Intel64,
    },
  );
  let want = RunMethod::OtherAppShellScript {
    carrier: Application::NodeJS,
    script_name: "npx",
  };
  assert_eq!(have, want);
}

#[test]
fn npx_windows_arm() {
  let have = (Npx {}).run_method(
    &Version::from("20.10.0"),
    Platform {
      os: Os::Windows,
      cpu: Cpu::Arm64,
    },
  );
  let want = RunMethod::OtherAppShellScript {
    carrier: Application::NodeJS,
    script_name: "npx.cmd",
  };
  assert_eq!(have, want);
}

#[test]
fn npx_windows_intel() {
  let have = (Npx {}).run_method(
    &Version::from("20.10.0"),
    Platform {
      os: Os::Windows,
      cpu: Cpu::Intel64,
    },
  );
  let want = RunMethod::OtherAppShellScript {
    carrier: Application::NodeJS,
    script_name: "npx.cmd",
  };
  assert_eq!(have, want);
}
