[package]
name = "run_that_app"
version = "0.1.0"
edition = "2021"
publish = false

[dependencies]
big_s = "1"
human-sort = "0.2"
semver = "1"
urlencoding = "2"
