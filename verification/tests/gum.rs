use run_that_app::applications::gum::Gum;
use run_that_app::configuration::Version;
use run_that_app::executables::RunMethod;
use run_that_app::installation::BinFolder;
use run_that_app::installation::Method;
use run_that_app::platform::Cpu;
use run_that_app::platform::Os;
use run_that_app::platform::Platform;

#[test]
fn gum_linux_arm() {
  let have = (Gum {}).run_method(
    &Version::from("0.17.0"),
    Platform {
      os: Os::Linux,
      cpu: Cpu::Arm64,
    },
  );
  let want = RunMethod::ThisApp {
    install_methods: vec![
      Method::DownloadArchive {
        url: "https://github.com/charmbracelet/gum/releases/download/v0.17.0/gum_0.17.0_Linux_arm64.tar.gz".into(),
        bin_folder: BinFolder::Subfolder {
          path: "gum_0.17.0_Linux_arm64".into(),
        },
      },
      Method::CompileGoSource {
        import_path: "github.com/charmbracelet/gum@latest".into(),
      },
    ],
  };
  assert_eq!(have, want);
}

#[test]
fn gum_linux_intel() {
  let have = (Gum {}).run_method(
    &Version::from("0.17.0"),
    Platform {
      os: Os::Linux,
      cpu: Cpu::Intel64,
    },
  );
  let want = RunMethod::ThisApp {
    install_methods: vec![
      Method::DownloadArchive {
        url: "https://github.com/charmbracelet/gum/releases/download/v0.17.0/gum_0.17.0_Linux_x86_64.tar.gz".into(),
        bin_folder: BinFolder::Subfolder {
          path: "gum_0.17.0_Linux_x86_64".into(),
        },
      },
      Method::CompileGoSource {
        import_path: "github.com/charmbracelet/gum@latest".into(),
      },
    ],
  };
  assert_eq!(have, want);
}

#[test]
fn gum_macos_arm() {
  let have = (Gum {}).run_method(
    &Version::from("0.17.0"),
    Platform {
      os: Os::MacOS,
      cpu: Cpu::Arm64,
    },
  );
  let want = RunMethod::ThisApp {
    install_methods: vec![
      Method::DownloadArchive {
        url: "https://github.com/charmbracelet/gum/releases/download/v0.17.0/gum_0.17.0_Darwin_arm64.tar.gz".into(),
        bin_folder: BinFolder::Subfolder {
          path: "gum_0.17.0_Darwin_arm64".into(),
        },
      },
      Method::CompileGoSource {
        import_path: "github.com/charmbracelet/gum@latest".into(),
      },
    ],
  };
  assert_eq!(have, want);
}

#[test]
fn gum_macos_intel() {
  let have = (Gum {}).run_method(
    &Version::from("0.17.0"),
    Platform {
      os: Os::MacOS,
      cpu: Cpu::Intel64,
    },
  );
  let want = RunMethod::ThisApp {
    install_methods: vec![
      Method::DownloadArchive {
        url: "https://github.com/charmbracelet/gum/releases/download/v0.17.0/gum_0.17.0_Darwin_x86_64.tar.gz".into(),
        bin_folder: BinFolder::Subfolder {
          path: "gum_0.17.0_Darwin_x86_64".into(),
        },
      },
      Method::CompileGoSource {
        import_path: "github.com/charmbracelet/gum@latest".into(),
      },
    ],
  };
  assert_eq!(have, want);
}

#[test]
fn gum_windows_arm() {
  let have = (Gum {}).run_method(
    &Version::from("0.17.0"),
    Platform {
      os: Os::Windows,
      cpu: Cpu::Arm64,
    },
  );
  let want = RunMethod::ThisApp {
    install_methods: vec![
      Method::DownloadArchive {
        url: "https://github.com/charmbracelet/gum/releases/download/v0.17.0/gum_0.17.0_Windows_arm64.zip".into(),
        bin_folder: BinFolder::Subfolder {
          path: "gum_0.17.0_Windows_arm64".into(),
        },
      },
      Method::CompileGoSource {
        import_path: "github.com/charmbracelet/gum@latest".into(),
      },
    ],
  };
  assert_eq!(have, want);
}

#[test]
fn gum_windows_intel() {
  let have = (Gum {}).run_method(
    &Version::from("0.17.0"),
    Platform {
      os: Os::Windows,
      cpu: Cpu::Intel64,
    },
  );
  let want = RunMethod::ThisApp {
    install_methods: vec![
      Method::DownloadArchive {
        url: "https://github.com/charmbracelet/gum/releases/download/v0.17.0/gum_0.17.0_Windows_x86_64.zip".into(),
        bin_folder: BinFolder::Subfolder {
          path: "gum_0.17.0_Windows_x86_64".into(),
        },
      },
      Method::CompileGoSource {
        import_path: "github.com/charmbracelet/gum@latest".into(),
      },
    ],
  };
  assert_eq!(have, want);
}
