//! Versions of applications and the way they appear in release tags.

use crate::outside::{requirement_allows, version_req_allows};
use crate::text::{chars_of};
use vstd::prelude::*;
use vstd::string::*;

verus! {

/// The version of an application, e.g. `1.6.26`.
#[derive(Debug, Clone, PartialEq, Eq)]
pub struct Version(String);

impl View for Version {
    type V = Seq<char>;

    closed spec fn view(&self) -> Seq<char> {
        self.0@
    }
}

impl Version {
    /// Creates a version from its textual form.
    pub fn from(text: &str) -> (v: Version)
        ensures
            v@ == text@,
    {
        Version(String::from_str(text))
    }

    /// The textual form of this version.
    pub fn as_str(&self) -> (s: &str)
        ensures
            s@ == self@,
    {
        self.0.as_str()
    }

    /// The number before the first dot, if it is a valid `u32`.
    pub fn major_version(&self) -> (r: Option<u32>)
        ensures
            r == major_number(self@),
    {
        let chars = chars_of(self.0.as_str());
        let len = chars.len();
        let mut k: usize = 0;
        while k < len && chars[k] != '.'
            invariant
                k <= len == chars@.len(),
                first_dot_from(chars@, 0) == first_dot_from(chars@, k as int),
            decreases len - k,
        {
            k = k + 1;
        }
        assert(first_dot_from(chars@, k as int) == k);
        let mut value: u32 = 0;
        let mut ok = true;
        let mut j: usize = 0;
        while j < k
            invariant
                k <= len == chars@.len(),
                j <= k,
                j == 0 ==> ok && value == 0,
                j > 0 ==> (ok <==> decimal_value(chars@.take(j as int)) is Some),
                j > 0 && ok ==> decimal_value(chars@.take(j as int)) == Some(value),
            decreases k - j,
        {
            let c = chars[j];
            assert(chars@.take(j + 1).drop_last() =~= chars@.take(j as int));
            assert(chars@.take(j + 1).last() == c);
            if ok && '0' <= c && c <= '9' {
                let digit = (c as u32) - ('0' as u32);
                if (value as u64) * 10 + (digit as u64) <= u32::MAX as u64 {
                    value = value * 10 + digit;
                } else {
                    ok = false;
                }
            } else {
                ok = false;
            }
            j = j + 1;
        }
        assert(self@.take(k as int) =~= chars@.take(k as int));
        if k > 0 && ok {
            Some(value)
        } else {
            None
        }
    }
}

/// The index of the first dot in `s` at or after `i`, or the length of `s`.
pub open spec fn first_dot_from(s: Seq<char>, i: int) -> int
    decreases s.len() - i,
{
    if i < 0 || i >= s.len() {
        s.len() as int
    } else if s[i] == '.' {
        i
    } else {
        first_dot_from(s, i + 1)
    }
}

/// The value of `s` read as a decimal number that fits into a `u32`.
pub open spec fn decimal_value(s: Seq<char>) -> Option<u32>
    decreases s.len(),
{
    if s.len() == 0 {
        None
    } else {
        let last = s.last();
        let rest = if s.len() == 1 { Some(0u32) } else { decimal_value(s.drop_last()) };
        if !('0' <= last && last <= '9') {
            None
        } else {
            match rest {
                None => None,
                Some(n) => {
                    let v = n * 10 + (last as int - '0' as int);
                    if v <= u32::MAX { Some(v as u32) } else { None }
                },
            }
        }
    }
}

/// The major version number of a version text: the decimal number before its first dot.
pub open spec fn major_number(v: Seq<char>) -> Option<u32> {
    decimal_value(v.take(first_dot_from(v, 0)))
}

/// How the tags of an application's releases spell its versions.
#[derive(Debug, Clone, Copy, PartialEq, Eq, Structural)]
pub enum TagFormat {
    /// the tag is the version itself, e.g. `1.2.3`
    Plain,
    /// the tag is the version prefixed with `v`, e.g. `v1.2.3`
    PrefixV,
}

/// The tag under which the given version is released.
pub open spec fn tag_of(format: TagFormat, version: Seq<char>) -> Seq<char> {
    match format {
        TagFormat::Plain => version,
        TagFormat::PrefixV => seq!['v'] + version,
    }
}

impl TagFormat {
    /// The tag under which the given version is released.
    pub fn format_version(&self, version: &Version) -> (tag: String)
        ensures
            tag@ == tag_of(*self, version@),
    {
        match self {
            TagFormat::Plain => String::from_str(version.as_str()),
            TagFormat::PrefixV => {
                let mut tag = String::from_str("v");
                proof {
                    reveal_strlit("v");
                }
                tag.append(version.as_str());
                tag
            },
        }
    }
}

} // verus!

verus! {

/// The texts of a sequence of versions.
pub open spec fn version_texts(s: Seq<Version>) -> Seq<Seq<char>> {
    s.map_values(|v: Version| v@)
}

/// The versions of an application that a project allows.
#[derive(Debug, Clone, PartialEq, Eq)]
pub enum AllowedVersions {
    /// every version, as the semver requirement `*` allows them
    Any,
    /// the versions that match the semver requirement that the project wrote
    /// as `expression`
    Matching { expression: String },
}

/// The mathematical form of [`AllowedVersions`].
pub enum AllowedVersionsView {
    Any,
    Matching { expression: Seq<char> },
}

impl View for AllowedVersions {
    type V = AllowedVersionsView;

    open spec fn view(&self) -> AllowedVersionsView {
        match self {
            AllowedVersions::Any => AllowedVersionsView::Any,
            AllowedVersions::Matching { expression } => AllowedVersionsView::Matching { expression: expression@ },
        }
    }
}

/// The semver requirement of the allowed versions `allowed`.
pub open spec fn requirement_text(allowed: AllowedVersionsView) -> Seq<char> {
    match allowed {
        AllowedVersionsView::Any => "*"@,
        AllowedVersionsView::Matching { expression } => expression,
    }
}

impl AllowedVersions {
    /// Whether `version` is one of these allowed versions: whether it matches their
    /// semver requirement, which is `*` for any version.
    pub fn allows(&self, version: &Version) -> (r: bool)
        ensures
            r == version_req_allows(requirement_text(self@), version@),
    {
        match self {
            AllowedVersions::Any => requirement_allows("*", version.as_str()),
            AllowedVersions::Matching { expression } => requirement_allows(expression.as_str(), version.as_str()),
        }
    }
}

} // verus!

verus! {

/// Different versions are released under different tags, whatever the tag format.
pub proof fn different_versions_have_different_tags(format: TagFormat, a: Seq<char>, b: Seq<char>)
    requires
        a != b,
    ensures
        tag_of(format, a) != tag_of(format, b),
{
    if format == TagFormat::PrefixV {
        assert(tag_of(format, a).skip(1) =~= a);
        assert(tag_of(format, b).skip(1) =~= b);
    }
}

} // verus!
