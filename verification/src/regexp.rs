//! Finding version numbers in the output of applications.
//!
//! A [`VersionPattern`] describes the simple regular expressions that the
//! application definitions use to find version numbers, for example
//! `GitVersion:\s*(\d+\.\d+\.\d+)` or `(?m)^go\s+(\d+\.\d+)\s*$`:
//! an optional anchor, a literal prefix, optional whitespace, a version made of
//! dot-separated runs of ASCII digits (the captured part), a literal suffix, and
//! an optional end anchor; `\s` is Unicode whitespace. Matching follows
//! regular-expression semantics: the leftmost match wins, and every run of
//! digits and whitespace is greedy.

use crate::error::UserError;
use crate::text::{chars_of, contains_seq, occurs_at, occurs_at_vec};
use vstd::prelude::*;
use vstd::string::*;

verus! {

/// Where a match may begin.
#[derive(Debug, Clone, Copy, PartialEq, Eq)]
pub enum Start {
    /// anywhere in the text
    Anywhere,
    /// only at the start of the text (`^`)
    TextStart,
    /// at the start of the text or right after a line feed (`(?m)^`)
    LineStart,
}

/// Whitespace between the prefix and the version.
#[derive(Debug, Clone, Copy, PartialEq, Eq)]
pub enum Gap {
    /// no whitespace
    Nothing,
    /// any amount of whitespace (`\s*`)
    Optional,
    /// at least one whitespace character (`\s+`)
    Required,
}

/// What must follow the suffix.
#[derive(Debug, Clone, Copy, PartialEq, Eq)]
pub enum End {
    /// anything
    Anywhere,
    /// the end of the text (`$`)
    TextEnd,
    /// optional whitespace, then the end of a line or of the text (`\s*$` in multi-line mode)
    LineEndAfterSpaces,
}

/// A pattern that captures a version number.
#[derive(Debug, Clone, Copy)]
pub struct VersionPattern {
    pub start: Start,
    pub prefix: &'static str,
    pub gap: Gap,
    /// number of dot-separated digit runs in the version
    pub parts: usize,
    pub suffix: &'static str,
    pub end: End,
}

/// An ASCII decimal digit.
pub open spec fn is_digit(c: char) -> bool {
    '0' <= c && c <= '9'
}

/// A character with the Unicode `White_Space` property (what `\s` matches).
pub open spec fn is_white_space(c: char) -> bool {
    ||| c == '\t' || c == '\n' || c == '\u{0B}' || c == '\u{0C}' || c == '\r' || c == ' '
    ||| c == '\u{85}' || c == '\u{A0}' || c == '\u{1680}'
    ||| '\u{2000}' <= c && c <= '\u{200A}'
    ||| c == '\u{2028}' || c == '\u{2029}' || c == '\u{202F}' || c == '\u{205F}' || c == '\u{3000}'
}

/// The end of the run of digits that starts at `i`.
pub open spec fn digits_end(t: Seq<char>, i: int) -> int
    decreases t.len() - i,
{
    if 0 <= i < t.len() && is_digit(t[i]) {
        digits_end(t, i + 1)
    } else {
        i
    }
}

/// The end of the run of whitespace that starts at `i`.
pub open spec fn spaces_end(t: Seq<char>, i: int) -> int
    decreases t.len() - i,
{
    if 0 <= i < t.len() && is_white_space(t[i]) {
        spaces_end(t, i + 1)
    } else {
        i
    }
}

/// The end of a version with `parts` dot-separated digit runs starting at `i`, if there is one.
pub open spec fn version_end(t: Seq<char>, i: int, parts: nat) -> Option<int>
    decreases parts,
{
    let e = digits_end(t, i);
    if e <= i {
        None
    } else if parts <= 1 {
        Some(e)
    } else if e < t.len() && t[e] == '.' {
        version_end(t, e + 1, (parts - 1) as nat)
    } else {
        None
    }
}

/// Starting at `i`, optional whitespace leads to the end of a line or of the text.
pub open spec fn line_end_after_spaces(t: Seq<char>, i: int) -> bool
    decreases t.len() - i,
{
    if i < 0 || i >= t.len() {
        i == t.len()
    } else if t[i] == '\n' {
        true
    } else if is_white_space(t[i]) {
        line_end_after_spaces(t, i + 1)
    } else {
        false
    }
}

/// A match may begin at `s`.
pub open spec fn start_ok(start: Start, t: Seq<char>, s: int) -> bool {
    match start {
        Start::Anywhere => true,
        Start::TextStart => s == 0,
        Start::LineStart => s == 0 || (0 < s <= t.len() && t[s - 1] == '\n'),
    }
}

/// A match may end at `i`.
pub open spec fn end_ok(end: End, t: Seq<char>, i: int) -> bool {
    match end {
        End::Anywhere => true,
        End::TextEnd => i == t.len(),
        End::LineEndAfterSpaces => line_end_after_spaces(t, i),
    }
}

/// Where the whitespace gap that starts at `i` ends, if the gap is acceptable.
pub open spec fn gap_end(gap: Gap, t: Seq<char>, i: int) -> Option<int> {
    match gap {
        Gap::Nothing => Some(i),
        Gap::Optional => Some(spaces_end(t, i)),
        Gap::Required => if spaces_end(t, i) > i { Some(spaces_end(t, i)) } else { None },
    }
}

/// The bounds of the captured version if the pattern matches at position `s`.
pub open spec fn capture_at(p: VersionPattern, t: Seq<char>, s: int) -> Option<(int, int)> {
    if !(start_ok(p.start, t, s) && occurs_at(t, p.prefix@, s)) {
        None
    } else {
        match gap_end(p.gap, t, s + p.prefix@.len()) {
            None => None,
            Some(g) => match version_end(t, g, p.parts as nat) {
                None => None,
                Some(e) => if occurs_at(t, p.suffix@, e) && end_ok(p.end, t, e + p.suffix@.len()) {
                    Some((g, e))
                } else {
                    None
                },
            },
        }
    }
}

/// The bounds of the captured version of the leftmost match at or after position `s`.
pub open spec fn first_capture_from(p: VersionPattern, t: Seq<char>, s: int) -> Option<(int, int)>
    decreases t.len() + 1 - s,
{
    if s < 0 || s > t.len() {
        None
    } else {
        match capture_at(p, t, s) {
            Some(c) => Some(c),
            None => first_capture_from(p, t, s + 1),
        }
    }
}

/// The bounds of the captured version of the leftmost match in `t`.
pub open spec fn first_capture_bounds(p: VersionPattern, t: Seq<char>) -> Option<(int, int)> {
    first_capture_from(p, t, 0)
}

/// What finding the version with pattern `p` in `text` yields.
pub open spec fn spec_first_capture(p: VersionPattern, text: Seq<char>) -> Result<Seq<char>, UserError> {
    match first_capture_bounds(p, text) {
        Some((a, b)) => Ok(text.subrange(a, b)),
        None => Err(UserError::RegexDoesntMatch),
    }
}

/// The pattern `(\d+\.\d+\.\d+)`: the first three-part version anywhere in the text.
pub open spec fn any_version_pattern() -> VersionPattern {
    VersionPattern { start: Start::Anywhere, prefix: "", gap: Gap::Nothing, parts: 3, suffix: "", end: End::Anywhere }
}

/// Whether `c` has the Unicode `White_Space` property.
pub fn white_space(c: char) -> (r: bool)
    ensures
        r == is_white_space(c),
{
    match c {
        '\t' | '\n' | '\u{0B}' | '\u{0C}' | '\r' | ' ' | '\u{85}' | '\u{A0}' | '\u{1680}' | '\u{2028}'
        | '\u{2029}' | '\u{202F}' | '\u{205F}' | '\u{3000}' => true,
        _ => '\u{2000}' <= c && c <= '\u{200A}',
    }
}

pub(crate) fn digits_end_vec(t: &Vec<char>, i: usize) -> (r: usize)
    requires
        i <= t@.len(),
    ensures
        r == digits_end(t@, i as int),
        i <= r <= t@.len(),
{
    let mut j = i;
    while j < t.len() && '0' <= t[j] && t[j] <= '9'
        invariant
            i <= j <= t@.len(),
            digits_end(t@, i as int) == digits_end(t@, j as int),
        decreases t@.len() - j,
    {
        j = j + 1;
    }
    j
}

fn spaces_end_vec(t: &Vec<char>, i: usize) -> (r: usize)
    requires
        i <= t@.len(),
    ensures
        r == spaces_end(t@, i as int),
        i <= r <= t@.len(),
{
    let mut j = i;
    while j < t.len() && white_space(t[j])
        invariant
            i <= j <= t@.len(),
            spaces_end(t@, i as int) == spaces_end(t@, j as int),
        decreases t@.len() - j,
    {
        j = j + 1;
    }
    j
}

fn version_end_vec(t: &Vec<char>, i: usize, parts: usize) -> (r: Option<usize>)
    requires
        i <= t@.len(),
    ensures
        r matches Some(e) ==> version_end(t@, i as int, parts as nat) == Some(e as int) && i <= e <= t@.len(),
        r is None ==> version_end(t@, i as int, parts as nat) is None,
{
    let mut pos = i;
    let mut left = parts;
    loop
        invariant
            i <= pos <= t@.len(),
            left <= parts,
            version_end(t@, i as int, parts as nat) == version_end(t@, pos as int, left as nat),
        decreases left,
    {
        let e = digits_end_vec(t, pos);
        if e <= pos {
            return None;
        }
        if left <= 1 {
            return Some(e);
        }
        if e < t.len() && t[e] == '.' {
            pos = e + 1;
            left = left - 1;
        } else {
            return None;
        }
    }
}

fn line_end_after_spaces_vec(t: &Vec<char>, i: usize) -> (r: bool)
    requires
        i <= t@.len(),
    ensures
        r == line_end_after_spaces(t@, i as int),
{
    let mut j = i;
    loop
        invariant
            i <= j <= t@.len(),
            line_end_after_spaces(t@, i as int) == line_end_after_spaces(t@, j as int),
        decreases t@.len() - j,
    {
        if j == t.len() {
            return true;
        }
        if t[j] == '\n' {
            return true;
        }
        if !white_space(t[j]) {
            return false;
        }
        j = j + 1;
    }
}

fn capture_at_vec(p: &VersionPattern, t: &Vec<char>, pre: &Vec<char>, suf: &Vec<char>, s: usize) -> (r: Option<(usize, usize)>)
    requires
        s <= t@.len(),
        pre@ == p.prefix@,
        suf@ == p.suffix@,
    ensures
        r matches Some((a, b)) ==> capture_at(*p, t@, s as int) == Some((a as int, b as int)) && a <= b <= t@.len(),
        r is None ==> capture_at(*p, t@, s as int) is None,
{
    let tlen = t.len();
    let start_fits = match p.start {
        Start::Anywhere => true,
        Start::TextStart => s == 0,
        Start::LineStart => s == 0 || t[s - 1] == '\n',
    };
    if !start_fits || !occurs_at_vec(t, pre, s) {
        return None;
    }
    let g0 = s + pre.len();
    let g = match p.gap {
        Gap::Nothing => g0,
        Gap::Optional => spaces_end_vec(t, g0),
        Gap::Required => {
            let g = spaces_end_vec(t, g0);
            if g == g0 {
                return None;
            }
            g
        },
    };
    let e = match version_end_vec(t, g, p.parts) {
        Some(e) => e,
        None => return None,
    };
    if !occurs_at_vec(t, suf, e) {
        return None;
    }
    let after = e + suf.len();
    let end_fits = match p.end {
        End::Anywhere => true,
        End::TextEnd => after == t.len(),
        End::LineEndAfterSpaces => line_end_after_spaces_vec(t, after),
    };
    if end_fits {
        Some((g, e))
    } else {
        None
    }
}

/// The pattern `(\d+\.\d+\.\d+)`.
pub fn any_version() -> (p: VersionPattern)
    ensures
        p == any_version_pattern(),
{
    VersionPattern { start: Start::Anywhere, prefix: "", gap: Gap::Nothing, parts: 3, suffix: "", end: End::Anywhere }
}

/// Finds the first three-part version number anywhere in `text`.
pub fn first_version<'a>(text: &'a str) -> (r: Result<&'a str, UserError>)
    ensures
        match spec_first_capture(any_version_pattern(), text@) {
            Ok(v) => r matches Ok(found) && found@ == v,
            Err(e) => r == Err::<&str, UserError>(e),
        },
{
    first_capture(text, &any_version())
}

/// Finds the version that pattern `p` captures at its leftmost match in `text`.
pub fn first_capture<'a>(text: &'a str, p: &VersionPattern) -> (r: Result<&'a str, UserError>)
    ensures
        match spec_first_capture(*p, text@) {
            Ok(v) => r matches Ok(found) && found@ == v,
            Err(e) => r == Err::<&str, UserError>(e),
        },
{
    let t = chars_of(text);
    let pre = chars_of(p.prefix);
    let suf = chars_of(p.suffix);
    let mut s: usize = 0;
    loop
        invariant
            s <= t@.len(),
            t@ == text@,
            pre@ == p.prefix@,
            suf@ == p.suffix@,
            first_capture_bounds(*p, t@) == first_capture_from(*p, t@, s as int),
        decreases t@.len() - s,
    {
        match capture_at_vec(p, &t, &pre, &suf, s) {
            Some((a, b)) => {
                return Ok(text.substring_char(a, b));
            },
            None => {},
        }
        if s == t.len() {
            assert(first_capture_from(*p, t@, s + 1) is None);
            return Err(UserError::RegexDoesntMatch);
        }
        s = s + 1;
    }
}

/// The value of the ASCII digits `t[i..e]` read as a decimal number.
pub open spec fn digits_value(t: Seq<char>, i: int, e: int) -> nat
    decreases e - i,
{
    if e <= i {
        0
    } else {
        digits_value(t, i, e - 1) * 10 + ((t[e - 1] as int) - 48) as nat
    }
}

/// Every run of ASCII digits in `t`, from any of its digits on, has a value that
/// fits into a `u32`.
pub open spec fn fitting_digit_runs(t: Seq<char>) -> bool {
    forall|i: int| 0 <= i < t.len() ==> #[trigger] digits_value(t, i, digits_end(t, i)) <= u32::MAX
}

proof fn lemma_digits_in_run(t: Seq<char>, i: int, j: int)
    requires
        0 <= i <= j < digits_end(t, i),
    ensures
        is_digit(t[j]),
        j < t.len(),
    decreases j - i,
{
    lemma_digits_end_bounds(t, i);
    if 0 <= i < t.len() && is_digit(t[i]) {
        if j > i {
            lemma_digits_in_run(t, i + 1, j);
        }
    }
}

proof fn lemma_digits_value_grows(t: Seq<char>, i: int, k: int, e: int)
    requires
        i <= k <= e,
        forall|j: int| i <= j < e ==> #[trigger] is_digit(t[j]),
    ensures
        digits_value(t, i, k) <= digits_value(t, i, e),
    decreases e - k,
{
    if k < e {
        lemma_digits_value_grows(t, i, k, e - 1);
        assert(is_digit(t[e - 1]));
    }
}

fn run_fits(t: &Vec<char>, i: usize) -> (r: bool)
    requires
        i < t@.len(),
    ensures
        r == (digits_value(t@, i as int, digits_end(t@, i as int)) <= u32::MAX),
{
    let e = digits_end_vec(t, i);
    proof {
        assert forall|j: int| i <= j < e implies #[trigger] is_digit(t@[j]) by {
            lemma_digits_in_run(t@, i as int, j);
        }
    }
    let mut value: u64 = 0;
    let mut j = i;
    while j < e
        invariant
            i <= j <= e <= t@.len(),
            e == digits_end(t@, i as int),
            forall|k: int| i <= k < e ==> #[trigger] is_digit(t@[k]),
            value == digits_value(t@, i as int, j as int),
            value <= u32::MAX,
        decreases e - j,
    {
        assert(is_digit(t@[j as int]));
        let d = (t[j] as u32 - 48) as u64;
        let next = value * 10 + d;
        assert(digits_value(t@, i as int, j + 1) == next);
        if next > u32::MAX as u64 {
            proof {
                lemma_digits_value_grows(t@, i as int, j + 1, e as int);
            }
            return false;
        }
        value = next;
        j = j + 1;
    }
    true
}

/// Whether every run of ASCII digits in `text`, from any of its digits on, has a
/// value that fits into a `u32`.
pub fn has_fitting_digit_runs(text: &str) -> (r: bool)
    ensures
        r == fitting_digit_runs(text@),
{
    let t = chars_of(text);
    let mut i: usize = 0;
    while i < t.len()
        invariant
            i <= t@.len(),
            t@ == text@,
            forall|k: int| 0 <= k < i ==> #[trigger] digits_value(t@, k, digits_end(t@, k)) <= u32::MAX,
        decreases t@.len() - i,
    {
        if !run_fits(&t, i) {
            return false;
        }
        i = i + 1;
    }
    true
}

pub proof fn lemma_digits_end_bounds(t: Seq<char>, i: int)
    requires
        0 <= i,
    ensures
        i <= digits_end(t, i),
        i <= t.len() ==> digits_end(t, i) <= t.len(),
    decreases t.len() - i,
{
    if 0 <= i < t.len() && is_digit(t[i]) {
        lemma_digits_end_bounds(t, i + 1);
    }
}

proof fn lemma_spaces_end_bounds(t: Seq<char>, i: int)
    requires
        0 <= i,
    ensures
        i <= spaces_end(t, i),
        i <= t.len() ==> spaces_end(t, i) <= t.len(),
    decreases t.len() - i,
{
    if 0 <= i < t.len() && is_white_space(t[i]) {
        lemma_spaces_end_bounds(t, i + 1);
    }
}

proof fn lemma_version_end_bounds(t: Seq<char>, i: int, parts: nat)
    requires
        0 <= i <= t.len(),
        version_end(t, i, parts) is Some,
    ensures
        i < version_end(t, i, parts)->Some_0 <= t.len(),
    decreases parts,
{
    let d = digits_end(t, i);
    lemma_digits_end_bounds(t, i);
    if parts > 1 {
        lemma_version_end_bounds(t, d + 1, (parts - 1) as nat);
    }
}

proof fn lemma_digits_end_in_part(t: Seq<char>, a: int, i: int, e: int)
    requires
        0 <= a <= i,
        digits_end(t, i) <= e <= t.len(),
    ensures
        digits_end(t.subrange(a, e), i - a) == digits_end(t, i) - a,
    decreases t.len() - i,
{
    lemma_digits_end_bounds(t, i);
    let sub = t.subrange(a, e);
    if 0 <= i < t.len() && is_digit(t[i]) {
        lemma_digits_end_bounds(t, i + 1);
        assert(sub[i - a] == t[i]);
        lemma_digits_end_in_part(t, a, i + 1, e);
        assert(i + 1 - a == (i - a) + 1);
    } else if i < e {
        assert(sub[i - a] == t[i]);
    }
}

proof fn lemma_version_end_in_part(t: Seq<char>, a: int, i: int, parts: nat, e: int)
    requires
        0 <= a <= i <= t.len(),
        version_end(t, i, parts) == Some(e),
    ensures
        version_end(t.subrange(a, e), i - a, parts) == Some(e - a),
    decreases parts,
{
    let d = digits_end(t, i);
    lemma_version_end_bounds(t, i, parts);
    lemma_digits_end_bounds(t, i);
    let sub = t.subrange(a, e);
    if parts <= 1 {
        lemma_digits_end_in_part(t, a, i, e);
    } else {
        lemma_version_end_bounds(t, d + 1, (parts - 1) as nat);
        lemma_digits_end_in_part(t, a, i, e);
        assert(sub[d - a] == t[d]);
        lemma_version_end_in_part(t, a, d + 1, (parts - 1) as nat, e);
        assert(d + 1 - a == (d - a) + 1);
    }
}

proof fn lemma_capture_origin(p: VersionPattern, t: Seq<char>, s: int) -> (k: int)
    requires
        first_capture_from(p, t, s) is Some,
    ensures
        0 <= s <= k <= t.len(),
        capture_at(p, t, k) == first_capture_from(p, t, s),
    decreases t.len() + 1 - s,
{
    if capture_at(p, t, s) is Some {
        s
    } else {
        lemma_capture_origin(p, t, s + 1)
    }
}

/// A version that a pattern finds occurs in the text, and on its own it is a
/// version: as many runs of digits, joined by dots, as the pattern has parts.
pub proof fn found_version_is_a_version(p: VersionPattern, text: Seq<char>)
    ensures
        spec_first_capture(p, text) matches Ok(v) ==> contains_seq(text, v) && version_end(v, 0, p.parts as nat)
            == Some(v.len() as int),
{
    if first_capture_bounds(p, text) is Some {
        let k = lemma_capture_origin(p, text, 0);
        let (g, e) = first_capture_bounds(p, text)->Some_0;
        let g0 = k + p.prefix@.len();
        lemma_spaces_end_bounds(text, g0);
        lemma_version_end_bounds(text, g, p.parts as nat);
        lemma_version_end_in_part(text, g, g, p.parts as nat, e);
        let v = text.subrange(g, e);
        assert(occurs_at(text, v, g));
    }
}

proof fn lemma_digits_end_in_context(a: Seq<char>, v: Seq<char>, b: Seq<char>, i: int)
    requires
        0 <= i <= v.len(),
        b.len() == 0 || !is_digit(b[0]),
    ensures
        digits_end(a + v + b, a.len() + i) == a.len() + digits_end(v, i),
    decreases v.len() - i,
{
    let t = a + v + b;
    if i < v.len() {
        assert(t[a.len() + i] == v[i]);
        if is_digit(v[i]) {
            lemma_digits_end_in_context(a, v, b, i + 1);
            assert(a.len() + i + 1 == a.len() + (i + 1));
        }
    } else if b.len() > 0 {
        assert(t[a.len() + i] == b[0]);
    }
}

/// A version with `parts` parts inside a text, followed by something other than a
/// digit, ends where it ends on its own.
pub proof fn version_end_in_context(a: Seq<char>, v: Seq<char>, b: Seq<char>, i: int, parts: nat)
    requires
        0 <= i <= v.len(),
        b.len() == 0 || !is_digit(b[0]),
        version_end(v, i, parts) == Some(v.len() as int),
    ensures
        version_end(a + v + b, a.len() + i, parts) == Some((a.len() + v.len()) as int),
    decreases parts,
{
    let t = a + v + b;
    let e = digits_end(v, i);
    lemma_digits_end_in_context(a, v, b, i);
    lemma_digits_end_bounds(v, i);
    if parts > 1 {
        lemma_version_end_bounds(v, e + 1, (parts - 1) as nat);
        assert(t[a.len() + e] == v[e]);
        version_end_in_context(a, v, b, e + 1, (parts - 1) as nat);
        assert(a.len() + e + 1 == a.len() + (e + 1));
    }
}

/// A pattern without anchors, gap or suffix finds a version that directly follows
/// its prefix at the start of a text, when no digit follows the version.
pub proof fn version_after_prefix_is_found(p: VersionPattern, v: Seq<char>, rest: Seq<char>)
    requires
        p.start == Start::Anywhere,
        p.gap == Gap::Nothing,
        p.suffix@.len() == 0,
        p.end == End::Anywhere,
        version_end(v, 0, p.parts as nat) == Some(v.len() as int),
        rest.len() == 0 || !is_digit(rest[0]),
    ensures
        spec_first_capture(p, p.prefix@ + v + rest) == Ok::<Seq<char>, UserError>(v),
{
    let pre = p.prefix@;
    let t = pre + v + rest;
    version_end_in_context(pre, v, rest, 0, p.parts as nat);
    assert(t.subrange(0, pre.len() as int) =~= pre);
    assert(t.subrange((pre.len() + v.len()) as int, (pre.len() + v.len()) as int) =~= p.suffix@);
    assert(capture_at(p, t, 0) == Some((pre.len() as int, (pre.len() + v.len()) as int)));
    assert(t.subrange(pre.len() as int, (pre.len() + v.len()) as int) =~= v);
}

/// Every character of `t` from `i` up to `k` is white space.
pub open spec fn white_between(t: Seq<char>, i: int, k: int) -> bool {
    forall|j: int| i <= j < k ==> #[trigger] is_white_space(t[j])
}

/// Position `k` of `t` is the end of a line: a line feed or the end of the text.
pub open spec fn line_ends_at(t: Seq<char>, k: int) -> bool {
    k == t.len() || (0 <= k < t.len() && t[k] == '\n')
}

/// The end anchor `\s*$` of multi-line mode: from position `i`, white space, of any
/// kind, leads to a line feed or to the end of the text.
pub proof fn line_end_after_spaces_meaning(t: Seq<char>, i: int)
    requires
        0 <= i <= t.len(),
    ensures
        line_end_after_spaces(t, i) <==> exists|k: int|
            i <= k <= t.len() && line_ends_at(t, k) && #[trigger] white_between(t, i, k),
    decreases t.len() - i,
{
    if i == t.len() || t[i] == '\n' {
        assert(line_ends_at(t, i) && white_between(t, i, i));
    } else {
        line_end_after_spaces_meaning(t, i + 1);
        if line_end_after_spaces(t, i) {
            let k = choose|k: int| i + 1 <= k <= t.len() && line_ends_at(t, k) && #[trigger] white_between(t, i + 1, k);
            assert(white_between(t, i, k));
        }
        if exists|k: int| i <= k <= t.len() && line_ends_at(t, k) && #[trigger] white_between(t, i, k) {
            let k = choose|k: int| i <= k <= t.len() && line_ends_at(t, k) && #[trigger] white_between(t, i, k);
            assert(k > i);
            assert(is_white_space(t[i]));
            assert(white_between(t, i + 1, k));
        }
    }
}

} // verus!
