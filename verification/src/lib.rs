//! Definitions of the command-line applications that run-that-app knows how to
//! install and run, together with the text processing they rely on.

pub mod text;

pub mod error;
pub mod regexp;
pub mod platform;
pub mod configuration;
pub mod installation;
pub mod outside;
pub mod executables;
pub mod hosting;
pub mod applications;
