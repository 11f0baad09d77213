use big_s::S;
use run_that_app::applications::govulnchec::Govulncheck;
use run_that_app::configuration::Version;
use run_that_app::installation::Method;
use run_that_app::platform::Cpu;
use run_that_app::platform::Os;
use run_that_app::platform::Platform;

#[test]
fn govulnchec_install_methods() {

  let have = (Govulncheck {}).run_methods(
    &Version::from("1.1.4"),
    Platform {
      os: Os::MacOS,
      cpu: Cpu::Arm64,
    },
  );
  let want = vec![Method::CompileGoSource {
    import_path: S("golang.org/x/vuln/cmd/govulncheck@v1.1.4"),
  }];
  assert_eq!(have, want);
}
