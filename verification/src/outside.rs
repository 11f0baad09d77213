//! The calls into other crates and into parts of std that have no specification
//! in vstd. Each item here is trusted: Verus believes its contract.

use crate::regexp::fitting_digit_runs;
use std::cmp::Ordering;
use vstd::prelude::*;
use vstd::string::*;

verus! {

/// The outcome of parsing `text` as a semver version requirement with
/// `semver::VersionReq::parse`: `Ok(())` when it parses, otherwise the text of
/// the parse error.
pub uninterp spec fn version_req_parse(text: Seq<char>) -> Result<(), Seq<char>>;

/// Checks that `text` is a semver version requirement like `>=1.2, <2` with
/// `semver::VersionReq::parse`. Trusted to succeed exactly when
/// `version_req_parse(text)` is `Ok`, and to describe a failure by the text of
/// the parse error.
#[verifier::external_body]
pub(crate) fn parse_version_req(text: &str) -> (r: Result<(), String>)
    ensures
        match r {
            Ok(_) => version_req_parse(text@) is Ok,
            Err(reason) => version_req_parse(text@) == Err::<(), Seq<char>>(reason@),
        },
{
    match semver::VersionReq::parse(text) {
        Ok(_) => Ok(()),
        Err(err) => Err(err.to_string()),
    }
}

/// Whether the semver requirement written as `requirement` matches the version
/// written as `version`: both texts parsed with `semver::VersionReq::parse` and
/// `semver::Version::parse`, then compared with `semver::VersionReq::matches`,
/// and `false` when either text does not parse.
pub uninterp spec fn version_req_allows(requirement: Seq<char>, version: Seq<char>) -> bool;

/// Whether the version `version` satisfies the semver requirement `requirement`:
/// parses both with `semver::VersionReq::parse` and `semver::Version::parse` and
/// asks `semver::VersionReq::matches`. Trusted to give
/// `version_req_allows(requirement, version)`, and to give `false` for a
/// requirement that does not parse, as the parse fails before any comparison.
/// Which versions a requirement matches is not stated here.
#[verifier::external_body]
pub(crate) fn requirement_allows(requirement: &str, version: &str) -> (r: bool)
    ensures
        r == version_req_allows(requirement@, version@),
        version_req_parse(requirement@) is Err ==> !r,
{
    match (semver::VersionReq::parse(requirement), semver::Version::parse(version)) {
        (Ok(requirement), Ok(version)) => requirement.matches(&version),
        _ => false,
    }
}

/// The order in which `human_sort::compare` puts `a` and `b`: negative for
/// less, zero for equal, positive for greater.
pub uninterp spec fn human_order(a: Seq<char>, b: Seq<char>) -> int;

/// Compares two strings in human-friendly order (numbers inside the strings
/// compare by their value) with `human_sort::compare`. Returns -1, 0 or 1 for
/// less, equal and greater. Trusted to be a function of the two texts, and to be
/// antisymmetric: the source compares both strings step by step in the same way
/// and reverses every character and number comparison when they are swapped.
/// `human_sort` accumulates a run of ASCII digits, from the digit where the two
/// texts first differ on, in a `u32`, which overflows (a panic in debug builds)
/// when its value passes `u32::MAX`. The value of such a partial run is at most
/// that of the digits from the same start to the end of the run, so texts whose
/// runs, from any digit on, fit into a `u32` are safe. Texts with a larger run
/// are left out, also where the comparison would not reach that run.
#[verifier::external_body]
pub(crate) fn human_compare(a: &str, b: &str) -> (r: i8)
    requires
        fitting_digit_runs(a@),
        fitting_digit_runs(b@),
    ensures
        r == human_order(a@, b@),
        -1 <= r <= 1,
        r == -human_order(b@, a@),
{
    match human_sort::compare(a, b) {
        Ordering::Less => -1,
        Ordering::Equal => 0,
        Ordering::Greater => 1,
    }
}

/// The hexadecimal digit, upper case, for a value below 16.
pub open spec fn hex_digit(n: int) -> char {
    if n < 10 {
        (48 + n) as char
    } else {
        (55 + n) as char
    }
}

/// The bytes that URL encoding leaves as they are: ASCII letters and digits and `-`, `.`, `_`, `~`.
pub open spec fn url_safe(b: u8) -> bool {
    ||| 48 <= b <= 57
    ||| 65 <= b <= 90
    ||| 97 <= b <= 122
    ||| b == 45 || b == 46 || b == 95 || b == 126
}

/// Percent-encoding of a byte sequence: every byte that is not URL-safe
/// becomes `%` followed by two upper-case hexadecimal digits.
pub open spec fn percent_encoded(bytes: Seq<u8>) -> Seq<char>
    decreases bytes.len(),
{
    if bytes.len() == 0 {
        Seq::empty()
    } else {
        let b = bytes[0];
        let head = if url_safe(b) {
            seq![b as char]
        } else {
            seq!['%', hex_digit((b / 16) as int), hex_digit((b % 16) as int)]
        };
        head + percent_encoded(bytes.skip(1))
    }
}

/// URL-encodes `text` with `urlencoding::encode`, which percent-encodes every
/// byte of the UTF-8 form of `text` except ASCII letters, digits and `-`, `.`,
/// `_`, `~`, using upper-case hexadecimal digits.
#[verifier::external_body]
pub(crate) fn url_encode(text: &str) -> (r: String)
    ensures
        r@ == percent_encoded(text.spec_bytes()),
{
    urlencoding::encode(text).into_owned()
}

/// Turns a static string into an owned `String` with `big_s::S`, which
/// returns a string with the same characters.
#[verifier::external_body]
pub(crate) fn owned(text: &'static str) -> (r: String)
    ensures
        r@ == text@,
{
    big_s::S(text)
}

/// The separator of path components on this platform,
/// `std::path::MAIN_SEPARATOR_STR`: `/` on Unix and `\` on Windows.
#[verifier::external_body]
pub(crate) fn main_separator() -> (s: &'static str)
    ensures
        s@ == seq!['/'] || s@ == seq!['\\'],
{
    std::path::MAIN_SEPARATOR_STR
}

} // verus!
