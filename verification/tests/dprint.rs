use big_s::S;
use run_that_app::applications::dprint::Dprint;
use run_that_app::configuration::Version;
use run_that_app::executables::RunMethod;
use run_that_app::installation::BinFolder;
use run_that_app::installation::Method;
use run_that_app::platform::Cpu;
use run_that_app::platform::Os;
use run_that_app::platform::Platform;

#[test]
fn dprint_macos_arm() {
  let have = (Dprint {}).run_method(
    &Version::from("0.48.0"),
    Platform {
      os: Os::MacOS,
      cpu: Cpu::Arm64,
    },
  );
  let want = RunMethod::ThisApp {
    install_methods: vec![
      Method::DownloadArchive {
        url: S("https://github.com/dprint/dprint/releases/download/0.48.0/dprint-aarch64-apple-darwin.zip"),
        bin_folder: BinFolder::Subfolders { options: vec![] },
      },
      Method::CompileRustSource {
        crate_name: "dprint",
        bin_folder: BinFolder::Subfolder { path: S("bin") },
      },
    ],
  };
  assert_eq!(have, want);
}

#[test]
fn dprint_linux_arm() {
  let have = (Dprint {}).run_method(
    &Version::from("0.48.0"),
    Platform {
      os: Os::Linux,
      cpu: Cpu::Arm64,
    },
  );
  let want = RunMethod::ThisApp {
    install_methods: vec![
      Method::DownloadArchive {
        url: S("https://github.com/dprint/dprint/releases/download/0.48.0/dprint-aarch64-unknown-linux-gnu.zip"),
        bin_folder: BinFolder::Subfolders { options: vec![] },
      },
      Method::CompileRustSource {
        crate_name: "dprint",
        bin_folder: BinFolder::Subfolder { path: S("bin") },
      },
    ],
  };
  assert_eq!(have, want);
}
