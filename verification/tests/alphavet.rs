use big_s::S;
use run_that_app::applications::alphavet::Alphavet;
use run_that_app::configuration::Version;
use run_that_app::executables::RunMethod;
use run_that_app::installation::Method;
use run_that_app::platform::Cpu;
use run_that_app::platform::Os;
use run_that_app::platform::Platform;

#[test]
fn alphavet_install_methods() {

  let have = (Alphavet {}).run_method(
    &Version::from("0.1.0"),
    Platform {
      os: Os::Linux,
      cpu: Cpu::Arm64,
    },
  );
  let want = RunMethod::ThisApp {
    install_methods: vec![Method::CompileGoSource {
      import_path: S("github.com/skx/alphavet/cmd/alphavet@v0.1.0"),
    }],
  };
  assert_eq!(have, want);
}
