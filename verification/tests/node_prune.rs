use big_s::S;
use run_that_app::applications::node_prune::NodePrune;
use run_that_app::configuration::Version;
use run_that_app::executables::RunMethod;
use run_that_app::installation::Method;
use run_that_app::platform::Cpu;
use run_that_app::platform::Os;
use run_that_app::platform::Platform;

#[test]
fn node_prune_linux_arm() {
  let have = (NodePrune {}).run_method(
    &Version::from("1.0.1"),
    Platform {
      os: Os::Linux,
      cpu: Cpu::Intel64,
    },
  );
  let want = RunMethod::ThisApp {
    install_methods: vec![
      Method::DownloadExecutable {
        url: S("https://github.com/tj/node-prune/releases/download/v1.0.1/node-prune_1.0.1_linux_amd64.tar.gz"),
      },
      Method::CompileGoSource {
        import_path: S("github.com/tj/node-prune@v1.0.1"),
      },
    ],
  };
  assert_eq!(have, want);
}

#[test]
fn node_prune_windows_intel() {
  let have = (NodePrune {}).run_method(
    &Version::from("1.0.1"),
    Platform {
      os: Os::Windows,
      cpu: Cpu::Intel64,
    },
  );
  let want = RunMethod::ThisApp {
    install_methods: vec![
      Method::DownloadExecutable {
        url: S("https://github.com/tj/node-prune/releases/download/v1.0.1/node-prune_1.0.1_windows_amd64.tar.gz"),
      },
      Method::CompileGoSource {
        import_path: S("github.com/tj/node-prune@v1.0.1"),
      },
    ],
  };
  assert_eq!(have, want);
}
