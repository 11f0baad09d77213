# run_that_app

The application definitions of _run-that-app_, a cross-platform runner for
developer tools, as a library verified with Verus: for each application it
knows where its releases live, how to install them on every platform, how to
recognize an installed executable and read its version, and which versions a
project allows.

- `src/` is the verified library. `src/applications/` holds one module per
  application and, in `mod.rs`, the `Application` enum, the list of offered
  applications, lookup by name, and the laws that hold across all of them.
  `src/regexp.rs` finds version numbers in program output, `src/outside.rs`
  holds the calls into other crates, each with the contract that Verus trusts.
- `tests/` holds the tests of the library.
- `app/` is the unverified glue that runs executables, reads project files and
  talks to hosting services, asking the library what to do at each step.
