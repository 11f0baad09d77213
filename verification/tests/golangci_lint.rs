use big_s::S;
use run_that_app::applications::golangci_lint::{GolangCiLint, extract_version};
use run_that_app::configuration::Version;
use run_that_app::error::UserError;
use run_that_app::executables::RunMethod;
use run_that_app::installation::BinFolder;
use run_that_app::installation::Method;
use run_that_app::platform::Cpu;
use run_that_app::platform::Os;
use run_that_app::platform::Platform;

#[test]
fn golangci_lint_linux_arm() {
  let have = (GolangCiLint {}).run_method(
    &Version::from("1.55.2"),
    Platform {
      os: Os::MacOS,
      cpu: Cpu::Arm64,
    },
  );
  let want = RunMethod::ThisApp {
    install_methods: vec![Method::DownloadArchive {
      url: S("https://github.com/golangci/golangci-lint/releases/download/v1.55.2/golangci-lint-1.55.2-darwin-arm64.tar.gz"),
      bin_folder: BinFolder::Subfolder {
        path: S("golangci-lint-1.55.2-darwin-arm64"),
      },
    }],
  };
  assert_eq!(have, want);
}

#[test]
fn golangci_lint_windows_intel() {
  let have = (GolangCiLint {}).run_method(
    &Version::from("1.55.2"),
    Platform {
      os: Os::Windows,
      cpu: Cpu::Intel64,
    },
  );
  let want = RunMethod::ThisApp {
    install_methods: vec![Method::DownloadArchive {
      url: S("https://github.com/golangci/golangci-lint/releases/download/v1.55.2/golangci-lint-1.55.2-windows-amd64.zip"),
      bin_folder: BinFolder::Subfolder {
        path: S("golangci-lint-1.55.2-windows-amd64"),
      },
    }],
  };
  assert_eq!(have, want);
}

#[test]
fn golangci_lint_extract_version() {
  assert_eq!(
    extract_version("golangci-lint has version 1.56.2 built with go1.22.0 from 58a724a0 on 2024-02-15T18:01:51Z"),
    Ok("1.56.2")
  );
  assert_eq!(extract_version("other"), Err(UserError::RegexDoesntMatch));
}
