use big_s::S;
use run_that_app::applications::lefthook::{Lefthook, extract_version};
use run_that_app::configuration::Version;
use run_that_app::error::UserError;
use run_that_app::executables::RunMethod;
use run_that_app::installation::BinFolder;
use run_that_app::installation::Method;
use run_that_app::platform::Cpu;
use run_that_app::platform::Os;
use run_that_app::platform::Platform;

#[test]
fn lefthook_linux_arm() {
  let have = (Lefthook {}).run_method(
    &Version::from("2.1.6"),
    Platform {
      os: Os::Linux,
      cpu: Cpu::Arm64,
    },
  );
  let want = RunMethod::ThisApp {
    install_methods: vec![
      Method::DownloadArchive {
        url: "https://github.com/evilmartians/lefthook/releases/download/v2.1.6/lefthook_2.1.6_Linux_arm64.gz".into(),
        bin_folder: BinFolder::Root,
      },
      Method::CompileGoSource {
        import_path: S("github.com/evilmartians/lefthook/v2@v2.1.6"),
      },
    ],
  };
  assert_eq!(have, want);
}

#[test]
fn lefthook_linux_intel() {
  let have = (Lefthook {}).run_method(
    &Version::from("2.1.6"),
    Platform {
      os: Os::Linux,
      cpu: Cpu::Intel64,
    },
  );
  let want = RunMethod::ThisApp {
    install_methods: vec![
      Method::DownloadArchive {
        url: "https://github.com/evilmartians/lefthook/releases/download/v2.1.6/lefthook_2.1.6_Linux_x86_64.gz".into(),
        bin_folder: BinFolder::Root,
      },
      Method::CompileGoSource {
        import_path: S("github.com/evilmartians/lefthook/v2@v2.1.6"),
      },
    ],
  };
  assert_eq!(have, want);
}

#[test]
fn lefthook_macos_arm() {
  let have = (Lefthook {}).run_method(
    &Version::from("2.1.6"),
    Platform {
      os: Os::MacOS,
      cpu: Cpu::Arm64,
    },
  );
  let want = RunMethod::ThisApp {
    install_methods: vec![
      Method::DownloadArchive {
        url: "https://github.com/evilmartians/lefthook/releases/download/v2.1.6/lefthook_2.1.6_MacOS_arm64.gz".into(),
        bin_folder: BinFolder::Root,
      },
      Method::CompileGoSource {
        import_path: S("github.com/evilmartians/lefthook/v2@v2.1.6"),
      },
    ],
  };
  assert_eq!(have, want);
}

#[test]
fn lefthook_macos_intel() {
  let have = (Lefthook {}).run_method(
    &Version::from("2.1.6"),
    Platform {
      os: Os::MacOS,
      cpu: Cpu::Intel64,
    },
  );
  let want = RunMethod::ThisApp {
    install_methods: vec![
      Method::DownloadArchive {
        url: "https://github.com/evilmartians/lefthook/releases/download/v2.1.6/lefthook_2.1.6_MacOS_x86_64.gz".into(),
        bin_folder: BinFolder::Root,
      },
      Method::CompileGoSource {
        import_path: S("github.com/evilmartians/lefthook/v2@v2.1.6"),
      },
    ],
  };
  assert_eq!(have, want);
}

#[test]
fn lefthook_windows_arm() {
  let have = (Lefthook {}).run_method(
    &Version::from("2.1.6"),
    Platform {
      os: Os::Windows,
      cpu: Cpu::Arm64,
    },
  );
  let want = RunMethod::ThisApp {
    install_methods: vec![
      Method::DownloadArchive {
        url: "https://github.com/evilmartians/lefthook/releases/download/v2.1.6/lefthook_2.1.6_Windows_arm64.gz".into(),
        bin_folder: BinFolder::Root,
      },
      Method::CompileGoSource {
        import_path: S("github.com/evilmartians/lefthook/v2@v2.1.6"),
      },
    ],
  };
  assert_eq!(have, want);
}

#[test]
fn lefthook_windows_intel() {
  let have = (Lefthook {}).run_method(
    &Version::from("2.1.6"),
    Platform {
      os: Os::Windows,
      cpu: Cpu::Intel64,
    },
  );
  let want = RunMethod::ThisApp {
    install_methods: vec![
      Method::DownloadArchive {
        url: "https://github.com/evilmartians/lefthook/releases/download/v2.1.6/lefthook_2.1.6_Windows_x86_64.gz".into(),
        bin_folder: BinFolder::Root,
      },
      Method::CompileGoSource {
        import_path: S("github.com/evilmartians/lefthook/v2@v2.1.6"),
      },
    ],
  };
  assert_eq!(have, want);
}

#[test]
fn lefthook_extract_version() {
  assert_eq!(extract_version("lefthook version 2.1.6"), Ok("2.1.6"));
  assert_eq!(extract_version("other"), Err(UserError::RegexDoesntMatch));
}
