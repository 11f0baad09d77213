use big_s::S;
use run_that_app::applications::ireturn::Ireturn;
use run_that_app::configuration::Version;
use run_that_app::installation::Method;
use run_that_app::platform::Cpu;
use run_that_app::platform::Os;
use run_that_app::platform::Platform;

#[test]
fn ireturn_linux_arm() {
  let have = (Ireturn {}).run_methods(
    &Version::from("0.3.0"),
    Platform {
      os: Os::Linux,
      cpu: Cpu::Intel64,
    },
  );
  let want = vec![
    Method::DownloadArchiveFile {
      url: S("https://github.com/butuzov/ireturn/releases/download/v0.3.0/ireturn_linux_x86_64.tar.gz"),
      path_in_archive: S("ireturn"),
    },
    Method::CompileGoSource {
      import_path: S("github.com/butuzov/ireturn/cmd/ireturn@v0.3.0"),
    },
  ];
  assert_eq!(have, want);
}

#[test]
fn ireturn_windows_intel() {
  let have = (Ireturn {}).run_methods(
    &Version::from("0.3.0"),
    Platform {
      os: Os::Windows,
      cpu: Cpu::Intel64,
    },
  );
  let want = vec![
    Method::DownloadArchiveFile {
      url: S("https://github.com/butuzov/ireturn/releases/download/v0.3.0/ireturn_windows_x86_64.zip"),
      path_in_archive: S("ireturn.exe"),
    },
    Method::CompileGoSource {
      import_path: S("github.com/butuzov/ireturn/cmd/ireturn@v0.3.0"),
    },
  ];
  assert_eq!(have, want);
}
