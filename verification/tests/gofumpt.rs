use big_s::S;
use run_that_app::applications::gofumpt::{Gofumpt, extract_version};
use run_that_app::configuration::Version;
use run_that_app::error::UserError;
use run_that_app::executables::RunMethod;
use run_that_app::installation::Method;
use run_that_app::platform::Cpu;
use run_that_app::platform::Os;
use run_that_app::platform::Platform;

#[test]
fn gofumpt_linux_arm() {
  let have = (Gofumpt {}).run_method(
    &Version::from("0.5.0"),
    Platform {
      os: Os::MacOS,
      cpu: Cpu::Arm64,
    },
  );
  let want = RunMethod::ThisApp {
    install_methods: vec![
      Method::DownloadExecutable {
        url: S("https://github.com/mvdan/gofumpt/releases/download/v0.5.0/gofumpt_v0.5.0_darwin_arm64"),
      },
      Method::CompileGoSource {
        import_path: S("mvdan.cc/gofumpt@v0.5.0"),
      },
    ],
  };
  assert_eq!(have, want);
}

#[test]
fn gofumpt_windows_intel() {
  let have = (Gofumpt {}).run_method(
    &Version::from("0.5.0"),
    Platform {
      os: Os::Windows,
      cpu: Cpu::Intel64,
    },
  );
  let want = RunMethod::ThisApp {
    install_methods: vec![
      Method::DownloadExecutable {
        url: S("https://github.com/mvdan/gofumpt/releases/download/v0.5.0/gofumpt_v0.5.0_windows_amd64.exe"),
      },
      Method::CompileGoSource {
        import_path: S("mvdan.cc/gofumpt@v0.5.0"),
      },
    ],
  };
  assert_eq!(have, want);
}

#[test]
fn gofumpt_extract_version() {
  assert_eq!(extract_version("v0.6.0 (go1.21.6)"), Ok("0.6.0"));
  assert_eq!(extract_version("other"), Err(UserError::RegexDoesntMatch));
}
