use run_that_app::applications::actionlint::{archive_url, extract_version};
use run_that_app::configuration::Version;
use run_that_app::error::UserError;
use run_that_app::platform::Cpu;
use run_that_app::platform::Os;
use run_that_app::platform::Platform;

#[test]
fn download_url() {
  let platform = Platform {
    os: Os::Linux,
    cpu: Cpu::Arm64,
  };
  let have = archive_url(&Version::from("1.6.26"), platform);
  let want = "https://github.com/rhysd/actionlint/releases/download/v1.6.26/actionlint_1.6.26_linux_arm64.tar.gz";
  assert_eq!(have, want);
}

#[test]
fn actionlint_extract_version() {
  assert_eq!(extract_version("1.6.27"), Ok("1.6.27"));
  assert_eq!(extract_version("other"), Err(UserError::RegexDoesntMatch));
}
