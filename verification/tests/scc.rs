use big_s::S;
use run_that_app::applications::scc::{Scc, extract_version};
use run_that_app::configuration::Version;
use run_that_app::error::UserError;
use run_that_app::installation::Method;
use run_that_app::platform::Cpu;
use run_that_app::platform::Os;
use run_that_app::platform::Platform;

#[test]
fn scc_linux_arm() {
  let have = (Scc {}).install_methods(
    &Version::from("3.2.0"),
    Platform {
      os: Os::MacOS,
      cpu: Cpu::Arm64,
    },
  );
  let want = vec![
    Method::DownloadArchiveFile {
      url: S("https://github.com/boyter/scc/releases/download/v3.2.0/scc_Darwin_arm64.tar.gz"),
      path_in_archive: S("scc"),
    },
    Method::CompileGoSource {
      import_path: S("github.com/boyter/scc/v3@v3.2.0"),
    },
  ];
  assert_eq!(have, want);
}

#[test]
fn scc_windows_intel() {
  let have = (Scc {}).install_methods(
    &Version::from("3.2.0"),
    Platform {
      os: Os::Windows,
      cpu: Cpu::Intel64,
    },
  );
  let want = vec![
    Method::DownloadArchiveFile {
      url: S("https://github.com/boyter/scc/releases/download/v3.2.0/scc_Windows_x86_64.tar.gz"),
      path_in_archive: S("scc.exe"),
    },
    Method::CompileGoSource {
      import_path: S("github.com/boyter/scc/v3@v3.2.0"),
    },
  ];
  assert_eq!(have, want);
}

#[test]
fn scc_extract_version() {
  assert_eq!(extract_version("scc version 3.2.0"), Ok("3.2.0"));
  assert_eq!(extract_version("other"), Err(UserError::RegexDoesntMatch));
}
