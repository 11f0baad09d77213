use run_that_app::applications::ruff::{Ruff, extract_version};
use run_that_app::configuration::Version;
use run_that_app::error::UserError;
use run_that_app::executables::RunMethod;
use run_that_app::installation::BinFolder;
use run_that_app::installation::Method;
use run_that_app::platform::Cpu;
use run_that_app::platform::Os;
use run_that_app::platform::Platform;

#[test]
fn ruff_macos_arm() {
  let have = (Ruff {}).run_method(
    &Version::from("0.15.5"),
    Platform {
      os: Os::MacOS,
      cpu: Cpu::Arm64,
    },
  );
  let want = RunMethod::ThisApp {
    install_methods: vec![Method::DownloadArchive {
      url: "https://github.com/astral-sh/ruff/releases/download/0.15.5/ruff-aarch64-apple-darwin.tar.gz".into(),
      bin_folder: BinFolder::Subfolder {
        path: "ruff-aarch64-apple-darwin".into(),
      },
    }],
  };
  assert_eq!(have, want);
}

#[test]
fn ruff_linux_arm() {
  let have = (Ruff {}).run_method(
    &Version::from("0.15.5"),
    Platform {
      os: Os::Linux,
      cpu: Cpu::Arm64,
    },
  );
  let want = RunMethod::ThisApp {
    install_methods: vec![Method::DownloadArchive {
      url: "https://github.com/astral-sh/ruff/releases/download/0.15.5/ruff-aarch64-unknown-linux-gnu.tar.gz".into(),
      bin_folder: BinFolder::Subfolder {
        path: "ruff-aarch64-unknown-linux-gnu".into(),
      },
    }],
  };
  assert_eq!(have, want);
}

#[test]
fn ruff_windows_intel() {
  let have = (Ruff {}).run_method(
    &Version::from("0.15.5"),
    Platform {
      os: Os::Windows,
      cpu: Cpu::Intel64,
    },
  );
  let want = RunMethod::ThisApp {
    install_methods: vec![Method::DownloadArchive {
      url: "https://github.com/astral-sh/ruff/releases/download/0.15.5/ruff-x86_64-pc-windows-msvc.zip".into(),
      bin_folder: BinFolder::Subfolder {
        path: "ruff-x86_64-pc-windows-msvc".into(),
      },
    }],
  };
  assert_eq!(have, want);
}

#[test]
fn ruff_extract_version() {
  assert_eq!(extract_version("ruff 0.15.5"), Ok("0.15.5"));
  assert_eq!(extract_version("other"), Err(UserError::RegexDoesntMatch));
}
