use big_s::S;
use run_that_app::applications::ghokin::Ghokin;
use run_that_app::configuration::Version;
use run_that_app::executables::RunMethod;
use run_that_app::installation::BinFolder;
use run_that_app::installation::Method;
use run_that_app::platform::Cpu;
use run_that_app::platform::Os;
use run_that_app::platform::Platform;

#[test]
fn ghokin_linux_arm() {
  let have = (Ghokin {}).run_method(
    &Version::from("3.4.1"),
    Platform {
      os: Os::MacOS,
      cpu: Cpu::Intel64,
    },
  );
  let want = RunMethod::ThisApp {
    install_methods: vec![
      Method::DownloadArchive {
        url: S("https://github.com/antham/ghokin/releases/download/v3.4.1/ghokin_3.4.1_darwin_amd64.tar.gz"),
        bin_folder: BinFolder::Root,
      },
      Method::CompileGoSource {
        import_path: S("github.com/antham/ghokin/v3@v3.4.1"),
      },
    ],
  };
  assert_eq!(have, want);
}

#[test]
fn ghokin_windows_intel() {
  let have = (Ghokin {}).run_method(
    &Version::from("3.7.0"),
    Platform {
      os: Os::Windows,
      cpu: Cpu::Intel64,
    },
  );
  let want = RunMethod::ThisApp {
    install_methods: vec![
      Method::DownloadArchive {
        url: S("https://github.com/antham/ghokin/releases/download/v3.7.0/ghokin_3.7.0_windows_amd64.tar.gz"),
        bin_folder: BinFolder::Root,
      },
      Method::CompileGoSource {
        import_path: S("github.com/antham/ghokin/v3@v3.7.0"),
      },
    ],
  };
  assert_eq!(have, want);
}
