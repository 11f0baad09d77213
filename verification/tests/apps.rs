use big_s::S;
use run_that_app::applications::{Application, Apps};
use run_that_app::error::UserError;

#[test]
fn longest_name_length() {
  let apps = Apps::new(vec![Application::Dprint, Application::ActionLint, Application::ShellCheck]);
  let have = apps.longest_name_length();
  assert_eq!(have, 10);
}

#[test]
fn known_app() {
  let apps = Apps::new(vec![Application::Dprint, Application::ShellCheck]);
  let have = apps.lookup("shellcheck").unwrap();
  assert_eq!(have.name().as_str(), "shellcheck");
}

#[test]
fn unknown_app() {
  let apps = Apps::new(vec![Application::Dprint, Application::ShellCheck]);
  let Err(err) = apps.lookup("zonk") else {
    panic!("expected an error here");
  };
  assert_eq!(err, UserError::UnknownApp(S("zonk")));
}
