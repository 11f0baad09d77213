use run_that_app::applications::Application;
use run_that_app::applications::gofmt::Gofmt;
use run_that_app::configuration::Version;
use run_that_app::executables::ExecutableNameUnix;
use run_that_app::executables::RunMethod;
use run_that_app::platform::Cpu;
use run_that_app::platform::Os;
use run_that_app::platform::Platform;

#[test]
fn macos() {
  let have = (Gofmt {}).run_method(
    &Version::from("1.23.4"),
    Platform {
      os: Os::MacOS,
      cpu: Cpu::Intel64,
    },
  );
  let want = RunMethod::OtherAppOtherExecutable {
    app_definition: Application::Go,
    executable_name: ExecutableNameUnix::from("gofmt"),
  };
  assert_eq!(have, want);
}

#[test]
fn windows() {
  let have = (Gofmt {}).run_method(
    &Version::from("1.23.4"),
    Platform {
      os: Os::Windows,
      cpu: Cpu::Intel64,
    },
  );
  let want = RunMethod::OtherAppOtherExecutable {
    app_definition: Application::Go,
    executable_name: ExecutableNameUnix::from("gofmt"),
  };
  assert_eq!(have, want);
}
