use big_s::S;
use run_that_app::applications::tikibase::{Tikibase, extract_version};
use run_that_app::configuration::Version;
use run_that_app::error::UserError;
use run_that_app::executables::RunMethod;
use run_that_app::installation::BinFolder;
use run_that_app::installation::Method;
use run_that_app::platform::Cpu;
use run_that_app::platform::Os;
use run_that_app::platform::Platform;

#[test]
fn tikibase_linux_arm() {
  let have = (Tikibase {}).run_method(
    &Version::from("0.6.2"),
    Platform {
      os: Os::MacOS,
      cpu: Cpu::Arm64,
    },
  );
  let want = RunMethod::ThisApp {
    install_methods: vec![Method::DownloadArchive {
      url: S("https://github.com/kevgo/tikibase/releases/download/v0.6.2/tikibase_macos_arm64.tar.gz"),
      bin_folder: BinFolder::Root,
    }],
  };
  assert_eq!(have, want);
}

#[test]
fn tikibase_windows_intel() {
  let have = (Tikibase {}).run_method(
    &Version::from("0.6.2"),
    Platform {
      os: Os::Windows,
      cpu: Cpu::Intel64,
    },
  );
  let want = RunMethod::ThisApp {
    install_methods: vec![Method::DownloadArchive {
      url: S("https://github.com/kevgo/tikibase/releases/download/v0.6.2/tikibase_windows_intel64.zip"),
      bin_folder: BinFolder::Root,
    }],
  };
  assert_eq!(have, want);
}

#[test]
fn tikibase_extract_version() {
  assert_eq!(extract_version("tikibase 0.6.2"), Ok("0.6.2"));
  assert_eq!(extract_version("other"), Err(UserError::RegexDoesntMatch));
}
