use big_s::S;
use run_that_app::applications::staticcheck::StaticCheck;
use run_that_app::configuration::Version;
use run_that_app::executables::RunMethod;
use run_that_app::installation::BinFolder;
use run_that_app::installation::Method;
use run_that_app::platform::Cpu;
use run_that_app::platform::Os;
use run_that_app::platform::Platform;

#[test]
fn staticcheck_linux_arm() {
  let have = (StaticCheck {}).run_method(
    &Version::from("3.7.0"),
    Platform {
      os: Os::MacOS,
      cpu: Cpu::Arm64,
    },
  );
  let want = RunMethod::ThisApp {
    install_methods: vec![
      Method::DownloadArchive {
        url: "https://github.com/dominikh/go-tools/releases/download/3.7.0/staticcheck_darwin_arm64.tar.gz".into(),
        bin_folder: BinFolder::Subfolder { path: "staticcheck".into() },
      },
      Method::CompileGoSource {
        import_path: S("honnef.co/go/tools/cmd/staticcheck@3.7.0"),
      },
    ],
  };
  assert_eq!(have, want);
}

#[test]
fn staticcheck_windows_intel() {
  let have = (StaticCheck {}).run_method(
    &Version::from("3.7.0"),
    Platform {
      os: Os::Windows,
      cpu: Cpu::Intel64,
    },
  );
  let want = RunMethod::ThisApp {
    install_methods: vec![
      Method::DownloadArchive {
        url: "https://github.com/dominikh/go-tools/releases/download/3.7.0/staticcheck_windows_amd64.tar.gz".into(),
        bin_folder: BinFolder::Subfolder { path: "staticcheck".into() },
      },
      Method::CompileGoSource {
        import_path: S("honnef.co/go/tools/cmd/staticcheck@3.7.0"),
      },
    ],
  };
  assert_eq!(have, want);
}
