use run_that_app::applications::snyk::{Snyk, extract_version};
use run_that_app::configuration::Version;
use run_that_app::error::UserError;
use run_that_app::executables::RunMethod;
use run_that_app::installation::Method;
use run_that_app::platform::Cpu;
use run_that_app::platform::Os;
use run_that_app::platform::Platform;

#[test]
fn snyk_linux_arm() {
  let have = (Snyk {}).run_method(
    &Version::from("1.1304.1"),
    Platform {
      os: Os::Linux,
      cpu: Cpu::Arm64,
    },
  );
  let want = RunMethod::ThisApp {
    install_methods: vec![Method::DownloadExecutable {
      url: "https://github.com/snyk/cli/releases/download/v1.1304.1/snyk-linux-arm64".into(),
    }],
  };
  assert_eq!(have, want);
}

#[test]
fn snyk_linux_intel() {
  let have = (Snyk {}).run_method(
    &Version::from("1.1304.1"),
    Platform {
      os: Os::Linux,
      cpu: Cpu::Intel64,
    },
  );
  let want = RunMethod::ThisApp {
    install_methods: vec![Method::DownloadExecutable {
      url: "https://github.com/snyk/cli/releases/download/v1.1304.1/snyk-linux".into(),
    }],
  };
  assert_eq!(have, want);
}

#[test]
fn snyk_macos_arm() {
  let have = (Snyk {}).run_method(
    &Version::from("1.1304.1"),
    Platform {
      os: Os::MacOS,
      cpu: Cpu::Arm64,
    },
  );
  let want = RunMethod::ThisApp {
    install_methods: vec![Method::DownloadExecutable {
      url: "https://github.com/snyk/cli/releases/download/v1.1304.1/snyk-macos-arm64".into(),
    }],
  };
  assert_eq!(have, want);
}

#[test]
fn snyk_macos_intel() {
  let have = (Snyk {}).run_method(
    &Version::from("1.1304.1"),
    Platform {
      os: Os::MacOS,
      cpu: Cpu::Intel64,
    },
  );
  let want = RunMethod::ThisApp {
    install_methods: vec![Method::DownloadExecutable {
      url: "https://github.com/snyk/cli/releases/download/v1.1304.1/snyk-macos".into(),
    }],
  };
  assert_eq!(have, want);
}

#[test]
fn snyk_windows_intel() {
  let have = (Snyk {}).run_method(
    &Version::from("1.1304.1"),
    Platform {
      os: Os::Windows,
      cpu: Cpu::Intel64,
    },
  );
  let want = RunMethod::ThisApp {
    install_methods: vec![Method::DownloadExecutable {
      url: "https://github.com/snyk/cli/releases/download/v1.1304.1/snyk-win.exe".into(),
    }],
  };
  assert_eq!(have, want);
}

#[test]
fn snyk_extract_version() {
  assert_eq!(extract_version("1.1304.1"), Ok("1.1304.1"));
  assert_eq!(extract_version("other"), Err(UserError::RegexDoesntMatch));
}
