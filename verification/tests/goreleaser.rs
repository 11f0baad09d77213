use big_s::S;
use run_that_app::applications::goreleaser::{Goreleaser, extract_version};
use run_that_app::configuration::Version;
use run_that_app::error::UserError;
use run_that_app::executables::RunMethod;
use run_that_app::installation::BinFolder;
use run_that_app::installation::Method;
use run_that_app::platform::Cpu;
use run_that_app::platform::Os;
use run_that_app::platform::Platform;

#[test]
fn goreleaser_linux_arm() {

  let have = (Goreleaser {}).run_method(
    &Version::from("1.22.1"),
    Platform {
      os: Os::MacOS,
      cpu: Cpu::Arm64,
    },
  );
  let want = RunMethod::ThisApp {
    install_methods: vec![Method::DownloadArchive {
      url: S("https://github.com/goreleaser/goreleaser/releases/download/v1.22.1/goreleaser_Darwin_arm64.tar.gz"),
      bin_folder: BinFolder::Subfolders { options: vec![] },
    }],
  };
  assert_eq!(have, want);
}

#[test]
fn goreleaser_windows_intel() {

  let have = (Goreleaser {}).install_methods(
    &Version::from("1.22.1"),
    Platform {
      os: Os::Windows,
      cpu: Cpu::Intel64,
    },
  );
  let want = vec![Method::DownloadArchive {
    url: S("https://github.com/goreleaser/goreleaser/releases/download/v1.22.1/goreleaser_Windows_x86_64.zip"),
    bin_folder: BinFolder::Subfolders { options: vec![] },
  }];
  assert_eq!(have, want);
}

#[test]
fn version_1() {
  let output = r"
____       ____      _
/ ___| ___ |  _ \ ___| | ___  __ _ ___  ___ _ __
| |  _ / _ \| |_) / _ \ |/ _ \/ _` / __|/ _ \ '__|
| |_| | (_) |  _ <  __/ |  __/ (_| \__ \  __/ |
\____|\___/|_| \_\___|_|\___|\__,_|___/\___|_|
goreleaser: Deliver Go Binaries as fast and easily as possible
https://goreleaser.com

GitVersion:    1.24.0
GitCommit:     00c2ff733758f63201811c337f8d043e8fcc9d58
GitTreeState:  false
BuildDate:     2024-02-05T12:18:01Z
BuiltBy:       goreleaser
GoVersion:     go1.21.6
Compiler:      gc
ModuleSum:     h1:jsoS5T2CvPKOyECPATAo8hCvUaX8ok4iAq9m5Zyl1L0=
Platform:      linux/arm64
";
  assert_eq!(extract_version(output), Ok("1.24.0"));
}

#[test]
fn goreleaser_other() {
  assert_eq!(extract_version("other"), Err(UserError::RegexDoesntMatch));
}
