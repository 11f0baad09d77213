use run_that_app::applications::gh::{Gh, extract_version};
use run_that_app::configuration::Version;
use run_that_app::error::UserError;
use run_that_app::executables::RunMethod;
use run_that_app::installation::BinFolder;
use run_that_app::installation::Method;
use run_that_app::platform::Cpu;
use run_that_app::platform::Os;
use run_that_app::platform::Platform;

fn want(url: &str, gh_extract_folder: &str) -> RunMethod {
  let sep = std::path::MAIN_SEPARATOR;
  RunMethod::ThisApp {
    install_methods: vec![Method::DownloadArchive {
      url: url.into(),
      bin_folder: BinFolder::Subfolders {
        options: vec![
          "bin".into(),
          format!("gh_2.39.1_{gh_extract_folder}{sep}bin").into(),
        ],
      },
    }],
  }
}

#[test]
fn gh_linux_arm() {
  assert_eq!(
    (Gh {}).run_method(
      &Version::from("2.39.1"),
      Platform {
        os: Os::Linux,
        cpu: Cpu::Arm64,
      },
    ),
    want(
      "https://github.com/cli/cli/releases/download/v2.39.1/gh_2.39.1_linux_arm64.tar.gz",
      "linux_arm64",
    ),
  );
}

#[test]
fn gh_linux_intel() {
  assert_eq!(
    (Gh {}).run_method(
      &Version::from("2.39.1"),
      Platform {
        os: Os::Linux,
        cpu: Cpu::Intel64,
      },
    ),
    want(
      "https://github.com/cli/cli/releases/download/v2.39.1/gh_2.39.1_linux_amd64.tar.gz",
      "linux_amd64",
    ),
  );
}

#[test]
fn gh_macos_arm() {
  assert_eq!(
    (Gh {}).run_method(
      &Version::from("2.39.1"),
      Platform {
        os: Os::MacOS,
        cpu: Cpu::Arm64,
      },
    ),
    want(
      "https://github.com/cli/cli/releases/download/v2.39.1/gh_2.39.1_macOS_arm64.zip",
      "macOS_arm64",
    ),
  );
}

#[test]
fn gh_macos_intel() {
  assert_eq!(
    (Gh {}).run_method(
      &Version::from("2.39.1"),
      Platform {
        os: Os::MacOS,
        cpu: Cpu::Intel64,
      },
    ),
    want(
      "https://github.com/cli/cli/releases/download/v2.39.1/gh_2.39.1_macOS_amd64.zip",
      "macOS_amd64",
    ),
  );
}

#[test]
fn gh_windows_arm() {
  assert_eq!(
    (Gh {}).run_method(
      &Version::from("2.39.1"),
      Platform {
        os: Os::Windows,
        cpu: Cpu::Arm64,
      },
    ),
    want(
      "https://github.com/cli/cli/releases/download/v2.39.1/gh_2.39.1_windows_arm64.zip",
      "windows_arm64",
    ),
  );
}

#[test]
fn gh_windows_intel() {
  assert_eq!(
    (Gh {}).run_method(
      &Version::from("2.39.1"),
      Platform {
        os: Os::Windows,
        cpu: Cpu::Intel64,
      },
    ),
    want(
      "https://github.com/cli/cli/releases/download/v2.39.1/gh_2.39.1_windows_amd64.zip",
      "windows_amd64",
    ),
  );
}

#[test]
fn gh_success() {
  let output = "
gh version 2.45.0 (2024-03-04)
https://github.com/cli/cli/releases/tag/v2.45.0
";
  assert_eq!(extract_version(output), Ok("2.45.0"));
}

#[test]
fn gh_other() {
  assert_eq!(extract_version("other"), Err(UserError::RegexDoesntMatch));
}
