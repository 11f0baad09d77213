use run_that_app::applications::shfmt::{download_url, extract_version};
use run_that_app::configuration::Version;
use run_that_app::error::UserError;
use run_that_app::platform::Cpu;
use run_that_app::platform::Os;
use run_that_app::platform::Platform;

#[test]
fn artifact_url() {
  let platform = Platform { os: Os::MacOS, cpu: Cpu::Arm64 };
  let have = download_url(&Version::from("3.7.0"), platform);
  let want = "https://github.com/mvdan/sh/releases/download/v3.7.0/shfmt_v3.7.0_darwin_arm64";
  assert_eq!(have, want);
}

#[test]
fn shfmt_extract_version() {
  assert_eq!(extract_version("v3.7.0"), Ok("3.7.0"));
  assert_eq!(extract_version("3.7.0"), Err(UserError::RegexDoesntMatch));
  assert_eq!(extract_version("other"), Err(UserError::RegexDoesntMatch));
}
