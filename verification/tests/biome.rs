use run_that_app::applications::biome::Biome;
use run_that_app::configuration::Version;
use run_that_app::executables::RunMethod;
use run_that_app::installation::Method;
use run_that_app::platform::Cpu;
use run_that_app::platform::Os;
use run_that_app::platform::Platform;

#[test]
fn biome_linux_arm() {
  let have = (Biome {}).run_method(
    &Version::from("2.4.8"),
    Platform {
      os: Os::Linux,
      cpu: Cpu::Arm64,
    },
  );
  let want = RunMethod::ThisApp {
    install_methods: vec![Method::DownloadExecutable {
      url: "https://github.com/biomejs/biome/releases/download/%40biomejs%2Fbiome%402.4.8/biome-linux-arm64".into(),
    }],
  };
  assert_eq!(have, want);
}

#[test]
fn biome_linux_x86() {
  let have = (Biome {}).run_method(
    &Version::from("2.4.8"),
    Platform {
      os: Os::Linux,
      cpu: Cpu::Intel64,
    },
  );
  let want = RunMethod::ThisApp {
    install_methods: vec![Method::DownloadExecutable {
      url: "https://github.com/biomejs/biome/releases/download/%40biomejs%2Fbiome%402.4.8/biome-linux-x64".into(),
    }],
  };
  assert_eq!(have, want);
}

#[test]
fn biome_macos_arm() {
  let have = (Biome {}).run_method(
    &Version::from("2.4.8"),
    Platform {
      os: Os::MacOS,
      cpu: Cpu::Arm64,
    },
  );
  let want = RunMethod::ThisApp {
    install_methods: vec![Method::DownloadExecutable {
      url: "https://github.com/biomejs/biome/releases/download/%40biomejs%2Fbiome%402.4.8/biome-darwin-arm64".into(),
    }],
  };
  assert_eq!(have, want);
}

#[test]
fn biome_macos_x86() {
  let have = (Biome {}).run_method(
    &Version::from("2.4.8"),
    Platform {
      os: Os::MacOS,
      cpu: Cpu::Intel64,
    },
  );
  let want = RunMethod::ThisApp {
    install_methods: vec![Method::DownloadExecutable {
      url: "https://github.com/biomejs/biome/releases/download/%40biomejs%2Fbiome%402.4.8/biome-darwin-x64".into(),
    }],
  };
  assert_eq!(have, want);
}

#[test]
fn biome_windows_arm() {
  let have = (Biome {}).run_method(
    &Version::from("2.4.8"),
    Platform {
      os: Os::Windows,
      cpu: Cpu::Arm64,
    },
  );
  let want = RunMethod::ThisApp {
    install_methods: vec![Method::DownloadExecutable {
      url: "https://github.com/biomejs/biome/releases/download/%40biomejs%2Fbiome%402.4.8/biome-win32-arm64.exe".into(),
    }],
  };
  assert_eq!(have, want);
}

#[test]
fn biome_windows_x86() {
  let have = (Biome {}).run_method(
    &Version::from("2.4.8"),
    Platform {
      os: Os::Windows,
      cpu: Cpu::Intel64,
    },
  );
  let want = RunMethod::ThisApp {
    install_methods: vec![Method::DownloadExecutable {
      url: "https://github.com/biomejs/biome/releases/download/%40biomejs%2Fbiome%402.4.8/biome-win32-x64.exe".into(),
    }],
  };
  assert_eq!(have, want);
}
