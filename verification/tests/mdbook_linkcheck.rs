use big_s::S;
use run_that_app::applications::mdbook_linkcheck::{MdBookLinkCheck, extract_version};
use run_that_app::configuration::Version;
use run_that_app::error::UserError;
use run_that_app::executables::RunMethod;
use run_that_app::installation::BinFolder;
use run_that_app::installation::Method;
use run_that_app::platform::Cpu;
use run_that_app::platform::Os;
use run_that_app::platform::Platform;

#[test]
fn mdbook_linkcheck_linux_arm() {
  let have = (MdBookLinkCheck {}).run_method(
    &Version::from("0.7.8"),
    Platform {
      os: Os::MacOS,
      cpu: Cpu::Intel64,
    },
  );
  let want = RunMethod::ThisApp {
    install_methods: vec![
      Method::DownloadArchive {
        url: S("https://github.com/Michael-F-Bryan/mdbook-linkcheck/releases/download/v0.7.8/mdbook-linkcheck.x86_64-apple-darwin.zip"),
        bin_folder: BinFolder::Root,
      },
      Method::CompileRustSource {
        crate_name: "mdbook-linkcheck",
        bin_folder: BinFolder::Subfolder { path: S("bin") },
      },
    ],
  };
  assert_eq!(have, want);
}

#[test]
fn mdbook_linkcheck_windows_intel() {
  let have = (MdBookLinkCheck {}).run_method(
    &Version::from("0.7.8"),
    Platform {
      os: Os::Windows,
      cpu: Cpu::Intel64,
    },
  );
  let want = RunMethod::ThisApp {
    install_methods: vec![
      Method::DownloadArchive {
        url: S("https://github.com/Michael-F-Bryan/mdbook-linkcheck/releases/download/v0.7.8/mdbook-linkcheck.x86_64-pc-windows-msvc.zip"),
        bin_folder: BinFolder::Root,
      },
      Method::CompileRustSource {
        crate_name: "mdbook-linkcheck",
        bin_folder: BinFolder::Subfolder { path: S("bin") },
      },
    ],
  };
  assert_eq!(have, want);
}

#[test]
fn mdbook_linkcheck_extract_version() {
  assert_eq!(extract_version("mdbook-linkcheck 0.7.7"), Ok("0.7.7"));
  assert_eq!(extract_version("other"), Err(UserError::RegexDoesntMatch));
}
