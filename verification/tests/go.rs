use big_s::S;
use run_that_app::applications::go::{Go, extract_version, parse_go_mod};
use run_that_app::configuration::Version;
use run_that_app::error::UserError;
use run_that_app::executables::RunMethod;
use run_that_app::installation::BinFolder;
use run_that_app::installation::Method;
use run_that_app::platform::Cpu;
use run_that_app::platform::Os;
use run_that_app::platform::Platform;

#[test]
fn go_linux_arm() {

  let have = (Go {}).run_method(
    &Version::from("1.21.5"),
    Platform {
      os: Os::MacOS,
      cpu: Cpu::Arm64,
    },
  );
  let sep = std::path::MAIN_SEPARATOR;
  let want = RunMethod::ThisApp {
    install_methods: vec![Method::DownloadArchive {
      url: S("https://go.dev/dl/go1.21.5.darwin-arm64.tar.gz"),
      bin_folder: BinFolder::Subfolder {
        path: format!("go{sep}bin"),
      },
    }],
  };
  assert_eq!(have, want);
}

#[test]
fn go_windows_intel() {
  let have = (Go {}).run_method_with_separator(
    &Version::from("1.21.5"),
    Platform {
      os: Os::Windows,
      cpu: Cpu::Intel64,
    },
    "\\",
  );
  let want = RunMethod::ThisApp {
    install_methods: vec![Method::DownloadArchive {
      url: S("https://go.dev/dl/go1.21.5.windows-amd64.zip"),
      bin_folder: BinFolder::Subfolder { path: S("go\\bin") },
    }],
  };
  assert_eq!(have, want);
}

#[test]
fn go_extract_version() {
  let give = "go version go1.21.7 linux/arm64";
  let have = extract_version(give);
  let want = Ok("1.21.7");
  assert_eq!(have, want);
}

#[test]
fn with_version() {
  let go_mod = "
module github.com/git-town/git-town/v12

go 1.21

require (
code.gitea.io/sdk/gitea v0.17.1
github.com/BurntSushi/toml v1.3.2
github.com/acarl005/stripansi v0.0.0-20180116102854-5a71ef0e047d
github.com/charmbracelet/bubbles v0.18.0
github.com/charmbracelet/bubbletea v0.25.0
)";
  assert_eq!(parse_go_mod(go_mod), Ok("1.21"));
}

#[test]
fn without_version() {
  let go_mod = "
module github.com/git-town/git-town/v12

require (
code.gitea.io/sdk/gitea v0.17.1
github.com/BurntSushi/toml v1.3.2
github.com/acarl005/stripansi v0.0.0-20180116102854-5a71ef0e047d
github.com/charmbracelet/bubbles v0.18.0
github.com/charmbracelet/bubbletea v0.25.0
)";
  assert_eq!(parse_go_mod(go_mod), Err(UserError::RegexDoesntMatch));
}

#[test]
fn unrelated_file() {
  let go_mod = "content from file coincidentally also named go.mod";
  assert_eq!(parse_go_mod(go_mod), Err(UserError::RegexDoesntMatch));
}
