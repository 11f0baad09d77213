use run_that_app::applications::pyrefly::Pyrefly;
use run_that_app::configuration::Version;
use run_that_app::executables::RunMethod;
use run_that_app::installation::BinFolder;
use run_that_app::installation::Method;
use run_that_app::platform::Cpu;
use run_that_app::platform::Os;
use run_that_app::platform::Platform;

#[test]
fn pyrefly_linux_arm() {
  let have = (Pyrefly {}).run_method(
    &Version::from("0.57.1"),
    Platform {
      os: Os::Linux,
      cpu: Cpu::Arm64,
    },
  );
  let want = RunMethod::ThisApp {
    install_methods: vec![Method::DownloadArchive {
      url: "https://github.com/facebook/pyrefly/releases/download/0.57.1/pyrefly-linux-arm64.tar.gz".into(),
      bin_folder: BinFolder::Root,
    }],
  };
  assert_eq!(have, want);
}

#[test]
fn pyrefly_linux_intel() {
  let have = (Pyrefly {}).run_method(
    &Version::from("0.57.1"),
    Platform {
      os: Os::Linux,
      cpu: Cpu::Intel64,
    },
  );
  let want = RunMethod::ThisApp {
    install_methods: vec![Method::DownloadArchive {
      url: "https://github.com/facebook/pyrefly/releases/download/0.57.1/pyrefly-linux-x86_64.tar.gz".into(),
      bin_folder: BinFolder::Root,
    }],
  };
  assert_eq!(have, want);
}

#[test]
fn pyrefly_macos_arm() {
  let have = (Pyrefly {}).run_method(
    &Version::from("0.57.1"),
    Platform {
      os: Os::MacOS,
      cpu: Cpu::Arm64,
    },
  );
  let want = RunMethod::ThisApp {
    install_methods: vec![Method::DownloadArchive {
      url: "https://github.com/facebook/pyrefly/releases/download/0.57.1/pyrefly-macos-arm64.tar.gz".into(),
      bin_folder: BinFolder::Root,
    }],
  };
  assert_eq!(have, want);
}

#[test]
fn pyrefly_macos_intel() {
  let have = (Pyrefly {}).run_method(
    &Version::from("0.57.1"),
    Platform {
      os: Os::MacOS,
      cpu: Cpu::Intel64,
    },
  );
  let want = RunMethod::ThisApp {
    install_methods: vec![Method::DownloadArchive {
      url: "https://github.com/facebook/pyrefly/releases/download/0.57.1/pyrefly-macos-x86_64.tar.gz".into(),
      bin_folder: BinFolder::Root,
    }],
  };
  assert_eq!(have, want);
}

#[test]
fn pyrefly_windows_arm() {
  let have = (Pyrefly {}).run_method(
    &Version::from("0.57.1"),
    Platform {
      os: Os::Windows,
      cpu: Cpu::Arm64,
    },
  );
  let want = RunMethod::ThisApp {
    install_methods: vec![Method::DownloadArchive {
      url: "https://github.com/facebook/pyrefly/releases/download/0.57.1/pyrefly-windows-arm64.zip".into(),
      bin_folder: BinFolder::Root,
    }],
  };
  assert_eq!(have, want);
}

#[test]
fn pyrefly_windows_intel() {
  let have = (Pyrefly {}).run_method(
    &Version::from("0.57.1"),
    Platform {
      os: Os::Windows,
      cpu: Cpu::Intel64,
    },
  );
  let want = RunMethod::ThisApp {
    install_methods: vec![Method::DownloadArchive {
      url: "https://github.com/facebook/pyrefly/releases/download/0.57.1/pyrefly-windows-x86_64.zip".into(),
      bin_folder: BinFolder::Root,
    }],
  };
  assert_eq!(have, want);
}
