use run_that_app::applications::rclone::Rclone;
use run_that_app::configuration::Version;
use run_that_app::executables::RunMethod;
use run_that_app::installation::BinFolder;
use run_that_app::installation::Method;
use run_that_app::platform::Cpu;
use run_that_app::platform::Os;
use run_that_app::platform::Platform;

#[test]
fn rclone_linux_arm() {
  let have = (Rclone {}).run_method(
    &Version::from("1.72.1"),
    Platform {
      os: Os::Linux,
      cpu: Cpu::Arm64,
    },
  );
  let want = RunMethod::ThisApp {
    install_methods: vec![Method::DownloadArchive {
      url: "https://github.com/rclone/rclone/releases/download/v1.72.1/rclone-v1.72.1-linux-arm64.zip".into(),
      bin_folder: BinFolder::Subfolder {
        path: "rclone-v1.72.1-linux-arm64".into(),
      },
    }],
  };
  assert_eq!(have, want);
}

#[test]
fn rclone_linux_intel() {
  let have = (Rclone {}).run_method(
    &Version::from("1.72.1"),
    Platform {
      os: Os::Linux,
      cpu: Cpu::Intel64,
    },
  );
  let want = RunMethod::ThisApp {
    install_methods: vec![Method::DownloadArchive {
      url: "https://github.com/rclone/rclone/releases/download/v1.72.1/rclone-v1.72.1-linux-amd64.zip".into(),
      bin_folder: BinFolder::Subfolder {
        path: "rclone-v1.72.1-linux-amd64".into(),
      },
    }],
  };
  assert_eq!(have, want);
}

#[test]
fn rclone_macos_arm() {
  let have = (Rclone {}).run_method(
    &Version::from("1.72.1"),
    Platform {
      os: Os::MacOS,
      cpu: Cpu::Arm64,
    },
  );
  let want = RunMethod::ThisApp {
    install_methods: vec![Method::DownloadArchive {
      url: "https://github.com/rclone/rclone/releases/download/v1.72.1/rclone-v1.72.1-osx-arm64.zip".into(),
      bin_folder: BinFolder::Subfolder {
        path: "rclone-v1.72.1-osx-arm64".into(),
      },
    }],
  };
  assert_eq!(have, want);
}

#[test]
fn rclone_macos_intel() {
  let have = (Rclone {}).run_method(
    &Version::from("1.72.1"),
    Platform {
      os: Os::MacOS,
      cpu: Cpu::Intel64,
    },
  );
  let want = RunMethod::ThisApp {
    install_methods: vec![Method::DownloadArchive {
      url: "https://github.com/rclone/rclone/releases/download/v1.72.1/rclone-v1.72.1-osx-amd64.zip".into(),
      bin_folder: BinFolder::Subfolder {
        path: "rclone-v1.72.1-osx-amd64".into(),
      },
    }],
  };
  assert_eq!(have, want);
}

#[test]
fn rclone_windows_arm() {
  let have = (Rclone {}).run_method(
    &Version::from("1.72.1"),
    Platform {
      os: Os::Windows,
      cpu: Cpu::Arm64,
    },
  );
  let want = RunMethod::ThisApp {
    install_methods: vec![Method::DownloadArchive {
      url: "https://github.com/rclone/rclone/releases/download/v1.72.1/rclone-v1.72.1-windows-arm64.zip".into(),
      bin_folder: BinFolder::Subfolder {
        path: "rclone-v1.72.1-windows-arm64".into(),
      },
    }],
  };
  assert_eq!(have, want);
}

#[test]
fn rclone_windows_intel() {
  let have = (Rclone {}).run_method(
    &Version::from("1.72.1"),
    Platform {
      os: Os::Windows,
      cpu: Cpu::Intel64,
    },
  );
  let want = RunMethod::ThisApp {
    install_methods: vec![Method::DownloadArchive {
      url: "https://github.com/rclone/rclone/releases/download/v1.72.1/rclone-v1.72.1-windows-amd64.zip".into(),
      bin_folder: BinFolder::Subfolder {
        path: "rclone-v1.72.1-windows-amd64".into(),
      },
    }],
  };
  assert_eq!(have, want);
}
