use run_that_app::applications::ripgrep::RipGrep;
use run_that_app::configuration::Version;
use run_that_app::executables::RunMethod;
use run_that_app::installation::BinFolder;
use run_that_app::installation::Method;
use run_that_app::platform::Cpu;
use run_that_app::platform::Os;
use run_that_app::platform::Platform;

#[test]
fn ripgrep_linux_arm() {
  let have = (RipGrep {}).run_method(
    &Version::from("14.1.1"),
    Platform {
      os: Os::Linux,
      cpu: Cpu::Arm64,
    },
  );
  let want = RunMethod::ThisApp {
    install_methods: vec![Method::DownloadArchive {
      url: "https://github.com/BurntSushi/ripgrep/releases/download/14.1.1/ripgrep-14.1.1-aarch64-unknown-linux-gnu.tar.gz".into(),
      bin_folder: BinFolder::Subfolder {
        path: "ripgrep-14.1.1-aarch64-unknown-linux-gnu".into(),
      },
    }],
  };
  assert_eq!(have, want);
}

#[test]
fn ripgrep_linux_intel() {
  let have = (RipGrep {}).run_method(
    &Version::from("14.1.1"),
    Platform {
      os: Os::Linux,
      cpu: Cpu::Intel64,
    },
  );
  let want = RunMethod::ThisApp {
    install_methods: vec![Method::DownloadArchive {
      url: "https://github.com/BurntSushi/ripgrep/releases/download/14.1.1/ripgrep-14.1.1-x86_64-unknown-linux-musl.tar.gz".into(),
      bin_folder: BinFolder::Subfolder {
        path: "ripgrep-14.1.1-x86_64-unknown-linux-musl".into(),
      },
    }],
  };
  assert_eq!(have, want);
}

#[test]
fn ripgrep_macos_arm() {
  let have = (RipGrep {}).run_method(
    &Version::from("14.1.1"),
    Platform {
      os: Os::MacOS,
      cpu: Cpu::Arm64,
    },
  );
  let want = RunMethod::ThisApp {
    install_methods: vec![Method::DownloadArchive {
      url: "https://github.com/BurntSushi/ripgrep/releases/download/14.1.1/ripgrep-14.1.1-aarch64-apple-darwin.tar.gz".into(),
      bin_folder: BinFolder::Subfolder {
        path: "ripgrep-14.1.1-aarch64-apple-darwin".into(),
      },
    }],
  };
  assert_eq!(have, want);
}

#[test]
fn ripgrep_macos_intel() {
  let have = (RipGrep {}).run_method(
    &Version::from("14.1.1"),
    Platform {
      os: Os::MacOS,
      cpu: Cpu::Intel64,
    },
  );
  let want = RunMethod::ThisApp {
    install_methods: vec![Method::DownloadArchive {
      url: "https://github.com/BurntSushi/ripgrep/releases/download/14.1.1/ripgrep-14.1.1-x86_64-apple-darwin.tar.gz".into(),
      bin_folder: BinFolder::Subfolder {
        path: "ripgrep-14.1.1-x86_64-apple-darwin".into(),
      },
    }],
  };
  assert_eq!(have, want);
}

#[test]
fn ripgrep_windows_arm() {
  let have = (RipGrep {}).run_method(
    &Version::from("14.1.1"),
    Platform {
      os: Os::Windows,
      cpu: Cpu::Arm64,
    },
  );
  let want = RunMethod::ThisApp {
    install_methods: vec![Method::DownloadArchive {
      url: "https://github.com/BurntSushi/ripgrep/releases/download/14.1.1/ripgrep-14.1.1-aarch64-pc-windows-msvc.zip".into(),
      bin_folder: BinFolder::Subfolder {
        path: "ripgrep-14.1.1-aarch64-pc-windows-msvc".into(),
      },
    }],
  };
  assert_eq!(have, want);
}

#[test]
fn ripgrep_windows_intel() {
  let have = (RipGrep {}).run_method(
    &Version::from("14.1.1"),
    Platform {
      os: Os::Windows,
      cpu: Cpu::Intel64,
    },
  );
  let want = RunMethod::ThisApp {
    install_methods: vec![Method::DownloadArchive {
      url: "https://github.com/BurntSushi/ripgrep/releases/download/14.1.1/ripgrep-14.1.1-x86_64-pc-windows-msvc.zip".into(),
      bin_folder: BinFolder::Subfolder {
        path: "ripgrep-14.1.1-x86_64-pc-windows-msvc".into(),
      },
    }],
  };
  assert_eq!(have, want);
}
