use run_that_app::applications::prettier_standalone::PrettierStandalone;
use run_that_app::configuration::Version;
use run_that_app::executables::RunMethod;
use run_that_app::installation::BinFolder;
use run_that_app::installation::Method;
use run_that_app::platform::Cpu;
use run_that_app::platform::Os;
use run_that_app::platform::Platform;

#[test]
fn prettier_standalone_linux_arm() {
  let have = (PrettierStandalone {}).run_method(
    &Version::from("0.24.0"),
    Platform {
      os: Os::Linux,
      cpu: Cpu::Arm64,
    },
  );
  let want = RunMethod::ThisApp {
    install_methods: vec![Method::DownloadArchive {
      url: "https://github.com/markelliot/prettier-standalone/releases/download/0.24.0/prettier-linux-arm64-0.24.0.tar.gz".into(),
      bin_folder: BinFolder::Root,
    }],
  };
  assert_eq!(have, want);
}

#[test]
fn prettier_standalone_linux_intel() {
  let have = (PrettierStandalone {}).run_method(
    &Version::from("0.24.0"),
    Platform {
      os: Os::Linux,
      cpu: Cpu::Intel64,
    },
  );
  let want = RunMethod::ThisApp {
    install_methods: vec![Method::DownloadArchive {
      url: "https://github.com/markelliot/prettier-standalone/releases/download/0.24.0/prettier-linux-amd64-0.24.0.tar.gz".into(),
      bin_folder: BinFolder::Root,
    }],
  };
  assert_eq!(have, want);
}

#[test]
fn prettier_standalone_macos_arm() {
  let have = (PrettierStandalone {}).run_method(
    &Version::from("0.24.0"),
    Platform {
      os: Os::MacOS,
      cpu: Cpu::Arm64,
    },
  );
  let want = RunMethod::ThisApp {
    install_methods: vec![Method::DownloadArchive {
      url: "https://github.com/markelliot/prettier-standalone/releases/download/0.24.0/prettier-darwin-arm64-0.24.0.tar.gz".into(),
      bin_folder: BinFolder::Root,
    }],
  };
  assert_eq!(have, want);
}

#[test]
fn prettier_standalone_macos_intel() {
  let have = (PrettierStandalone {}).run_method(
    &Version::from("0.24.0"),
    Platform {
      os: Os::MacOS,
      cpu: Cpu::Intel64,
    },
  );
  let want = RunMethod::ThisApp {
    install_methods: vec![Method::DownloadArchive {
      url: "https://github.com/markelliot/prettier-standalone/releases/download/0.24.0/prettier-darwin-amd64-0.24.0.tar.gz".into(),
      bin_folder: BinFolder::Root,
    }],
  };
  assert_eq!(have, want);
}
