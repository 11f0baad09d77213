use big_s::S;
use run_that_app::applications::mdbook::{MdBook, extract_version};
use run_that_app::configuration::Version;
use run_that_app::error::UserError;
use run_that_app::executables::RunMethod;
use run_that_app::installation::BinFolder;
use run_that_app::installation::Method;
use run_that_app::platform::Cpu;
use run_that_app::platform::Os;
use run_that_app::platform::Platform;

#[test]
fn mdbook_linux_arm() {
  let have = (MdBook {}).run_method(
    &Version::from("0.4.37"),
    Platform {
      os: Os::Linux,
      cpu: Cpu::Intel64,
    },
  );
  let want = RunMethod::ThisApp {
    install_methods: vec![
      Method::DownloadArchive {
        url: S("https://github.com/rust-lang/mdBook/releases/download/v0.4.37/mdbook-v0.4.37-x86_64-unknown-linux-gnu.tar.gz"),
        bin_folder: BinFolder::Root,
      },
      Method::CompileRustSource {
        crate_name: "mdbook",
        bin_folder: BinFolder::Subfolder { path: "bin".into() },
      },
    ],
  };
  assert_eq!(have, want);
}

#[test]
fn mdbook_windows_intel() {
  let have = (MdBook {}).run_method(
    &Version::from("0.4.37"),
    Platform {
      os: Os::Windows,
      cpu: Cpu::Intel64,
    },
  );
  let want = RunMethod::ThisApp {
    install_methods: vec![
      Method::DownloadArchive {
        url: S("https://github.com/rust-lang/mdBook/releases/download/v0.4.37/mdbook-v0.4.37-x86_64-pc-windows-msvc.zip"),
        bin_folder: BinFolder::Root,
      },
      Method::CompileRustSource {
        crate_name: "mdbook",
        bin_folder: BinFolder::Subfolder { path: "bin".into() },
      },
    ],
  };
  assert_eq!(have, want);
}

#[test]
fn mdbook_extract_version() {
  assert_eq!(extract_version("mdbook v0.4.37"), Ok("0.4.37"));
  assert_eq!(extract_version("other"), Err(UserError::RegexDoesntMatch));
}
