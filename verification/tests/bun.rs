use run_that_app::applications::bun::{Bun, extract_version};
use run_that_app::configuration::Version;
use run_that_app::error::UserError;
use run_that_app::executables::RunMethod;
use run_that_app::installation::BinFolder;
use run_that_app::installation::Method;
use run_that_app::platform::Cpu;
use run_that_app::platform::Os;
use run_that_app::platform::Platform;

#[test]
fn bun_macos_arm() {
  let have = (Bun {}).run_method(
    &Version::from("1.3.8"),
    Platform {
      os: Os::MacOS,
      cpu: Cpu::Arm64,
    },
  );
  let want = RunMethod::ThisApp {
    install_methods: vec![Method::DownloadArchive {
      url: "https://github.com/oven-sh/bun/releases/download/bun-v1.3.8/bun-darwin-aarch64.zip".into(),
      bin_folder: BinFolder::Subfolder {
        path: "bun-darwin-aarch64".into(),
      },
    }],
  };
  assert_eq!(have, want);
}

#[test]
fn bun_linux_arm() {
  let have = (Bun {}).run_method(
    &Version::from("1.3.8"),
    Platform {
      os: Os::Linux,
      cpu: Cpu::Arm64,
    },
  );
  let want = RunMethod::ThisApp {
    install_methods: vec![Method::DownloadArchive {
      url: "https://github.com/oven-sh/bun/releases/download/bun-v1.3.8/bun-linux-aarch64.zip".into(),
      bin_folder: BinFolder::Subfolder {
        path: "bun-linux-aarch64".into(),
      },
    }],
  };
  assert_eq!(have, want);
}

#[test]
fn bun_windows_intel() {
  let have = (Bun {}).run_method(
    &Version::from("1.3.8"),
    Platform {
      os: Os::Windows,
      cpu: Cpu::Intel64,
    },
  );
  let want = RunMethod::ThisApp {
    install_methods: vec![Method::DownloadArchive {
      url: "https://github.com/oven-sh/bun/releases/download/bun-v1.3.8/bun-windows-x64.zip".into(),
      bin_folder: BinFolder::Subfolder {
        path: "bun-windows-x64".into(),
      },
    }],
  };
  assert_eq!(have, want);
}

#[test]
fn bun_extract_version() {
  assert_eq!(extract_version("1.3.10"), Ok("1.3.10"));
  assert_eq!(extract_version("other"), Err(UserError::RegexDoesntMatch));
}
