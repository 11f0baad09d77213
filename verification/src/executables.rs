//! Executables of applications and the ways to run them.

use crate::applications::Application;
use crate::installation::{methods_view, texts, Method, MethodView};
use crate::text::chars_of;
use vstd::prelude::*;
use vstd::string::*;

verus! {

/// The name of an executable file without the `.exe` that Windows adds.
#[derive(Debug, Clone, PartialEq, Eq)]
pub struct ExecutableNameUnix(String);

impl View for ExecutableNameUnix {
    type V = Seq<char>;

    closed spec fn view(&self) -> Seq<char> {
        self.0@
    }
}

/// The file name of an executable called `name` on the given operating system.
pub open spec fn platform_file_name(name: Seq<char>, windows: bool) -> Seq<char> {
    if windows {
        name + seq!['.', 'e', 'x', 'e']
    } else {
        name
    }
}

impl ExecutableNameUnix {
    /// Creates an executable name.
    pub fn from(name: &str) -> (r: ExecutableNameUnix)
        ensures
            r@ == name@,
    {
        ExecutableNameUnix(String::from_str(name))
    }

    /// The executable name as text.
    pub fn as_str(&self) -> (r: &str)
        ensures
            r@ == self@,
    {
        self.0.as_str()
    }

    /// The file name of this executable on the given operating system.
    pub fn platform_path(&self, os: crate::platform::Os) -> (r: String)
        ensures
            r@ == platform_file_name(self@, os == crate::platform::Os::Windows),
    {
        let mut r = String::from_str(self.0.as_str());
        match os {
            crate::platform::Os::Windows => {
                let ext = ".exe";
                proof {
                    reveal_strlit(".exe");
                }
                r.append(ext);
            },
            _ => {},
        }
        r
    }
}

/// Arguments to call an executable with.
#[derive(Debug, PartialEq, Eq)]
pub enum ExecutableArgs {
    /// no arguments
    NoArgs,
    /// the given arguments
    Args(Vec<String>),
}

/// How to run an application.
#[derive(Debug, PartialEq, Eq)]
pub enum RunMethod {
    /// install the application itself with one of the given methods and run its executable
    ThisApp { install_methods: Vec<Method> },
    /// run the given executable that another application provides
    OtherAppOtherExecutable { app_definition: Application, executable_name: ExecutableNameUnix },
    /// run the default executable of another application with the given arguments
    OtherAppDefaultExecutable { app_definition: Application, args: ExecutableArgs },
    /// run a shell script that another application provides
    OtherAppShellScript { carrier: Application, script_name: &'static str },
    /// run the executable of an npm package through Node.js
    NodeJS { package: &'static str },
    /// install an npm package through Node.js and run the executable at the given path
    NodeJSExecutable { package_name: String, executable_path: String },
}

/// The mathematical form of [`ExecutableArgs`].
pub enum ExecutableArgsView {
    NoArgs,
    Args(Seq<Seq<char>>),
}

/// The mathematical form of a [`RunMethod`].
pub enum RunMethodView {
    ThisApp { install_methods: Seq<MethodView> },
    OtherAppOtherExecutable { app_definition: Application, executable_name: Seq<char> },
    OtherAppDefaultExecutable { app_definition: Application, args: ExecutableArgsView },
    OtherAppShellScript { carrier: Application, script_name: Seq<char> },
    NodeJS { package: Seq<char> },
    NodeJSExecutable { package_name: Seq<char>, executable_path: Seq<char> },
}

impl View for ExecutableArgs {
    type V = ExecutableArgsView;

    open spec fn view(&self) -> ExecutableArgsView {
        match self {
            ExecutableArgs::NoArgs => ExecutableArgsView::NoArgs,
            ExecutableArgs::Args(args) => ExecutableArgsView::Args(texts(args@)),
        }
    }
}

impl View for RunMethod {
    type V = RunMethodView;

    open spec fn view(&self) -> RunMethodView {
        match self {
            RunMethod::ThisApp { install_methods } => RunMethodView::ThisApp {
                install_methods: methods_view(install_methods@),
            },
            RunMethod::OtherAppOtherExecutable { app_definition, executable_name } =>
                RunMethodView::OtherAppOtherExecutable {
                    app_definition: *app_definition,
                    executable_name: executable_name@,
                },
            RunMethod::OtherAppDefaultExecutable { app_definition, args } =>
                RunMethodView::OtherAppDefaultExecutable { app_definition: *app_definition, args: args@ },
            RunMethod::OtherAppShellScript { carrier, script_name } => RunMethodView::OtherAppShellScript {
                carrier: *carrier,
                script_name: script_name@,
            },
            RunMethod::NodeJS { package } => RunMethodView::NodeJS { package: package@ },
            RunMethod::NodeJSExecutable { package_name, executable_path } => RunMethodView::NodeJSExecutable {
                package_name: package_name@,
                executable_path: executable_path@,
            },
        }
    }
}

} // verus!
