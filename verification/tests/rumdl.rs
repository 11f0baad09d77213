use run_that_app::applications::rumdl::{Rumdl, extract_version};
use run_that_app::configuration::Version;
use run_that_app::error::UserError;
use run_that_app::executables::RunMethod;
use run_that_app::installation::BinFolder;
use run_that_app::installation::Method;
use run_that_app::platform::Cpu;
use run_that_app::platform::Os;
use run_that_app::platform::Platform;

#[test]
fn rumdl_linux_arm() {
  let have = (Rumdl {}).run_method(
    &Version::from("0.1.58"),
    Platform {
      os: Os::Linux,
      cpu: Cpu::Arm64,
    },
  );
  let want = RunMethod::ThisApp {
    install_methods: vec![Method::DownloadArchive {
      url: "https://github.com/rvben/rumdl/releases/download/v0.1.58/rumdl-v0.1.58-aarch64-unknown-linux-gnu.tar.gz".into(),
      bin_folder: BinFolder::Root,
    }],
  };
  assert_eq!(have, want);
}

#[test]
fn rumdl_linux_intel() {
  let have = (Rumdl {}).run_method(
    &Version::from("0.1.58"),
    Platform {
      os: Os::Linux,
      cpu: Cpu::Intel64,
    },
  );
  let want = RunMethod::ThisApp {
    install_methods: vec![Method::DownloadArchive {
      url: "https://github.com/rvben/rumdl/releases/download/v0.1.58/rumdl-v0.1.58-x86_64-unknown-linux-gnu.tar.gz".into(),
      bin_folder: BinFolder::Root,
    }],
  };
  assert_eq!(have, want);
}

#[test]
fn rumdl_macos_arm() {
  let have = (Rumdl {}).run_method(
    &Version::from("0.1.58"),
    Platform {
      os: Os::MacOS,
      cpu: Cpu::Arm64,
    },
  );
  let want = RunMethod::ThisApp {
    install_methods: vec![Method::DownloadArchive {
      url: "https://github.com/rvben/rumdl/releases/download/v0.1.58/rumdl-v0.1.58-aarch64-apple-darwin.tar.gz".into(),
      bin_folder: BinFolder::Root,
    }],
  };
  assert_eq!(have, want);
}

#[test]
fn rumdl_macos_intel() {
  let have = (Rumdl {}).run_method(
    &Version::from("0.1.58"),
    Platform {
      os: Os::MacOS,
      cpu: Cpu::Intel64,
    },
  );
  let want = RunMethod::ThisApp {
    install_methods: vec![Method::DownloadArchive {
      url: "https://github.com/rvben/rumdl/releases/download/v0.1.58/rumdl-v0.1.58-x86_64-apple-darwin.tar.gz".into(),
      bin_folder: BinFolder::Root,
    }],
  };
  assert_eq!(have, want);
}

#[test]
fn rumdl_windows_intel() {
  let have = (Rumdl {}).run_method(
    &Version::from("0.1.58"),
    Platform {
      os: Os::Windows,
      cpu: Cpu::Intel64,
    },
  );
  let want = RunMethod::ThisApp {
    install_methods: vec![Method::DownloadArchive {
      url: "https://github.com/rvben/rumdl/releases/download/v0.1.58/rumdl-v0.1.58-x86_64-pc-windows-msvc.zip".into(),
      bin_folder: BinFolder::Root,
    }],
  };
  assert_eq!(have, want);
}

#[test]
fn rumdl_extract_version() {
  assert_eq!(extract_version("rumdl 0.1.58"), Ok("0.1.58"));
  assert_eq!(extract_version("other"), Err(UserError::RegexDoesntMatch));
}
