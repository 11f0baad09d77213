//! Go, the programming language, with its `go` tool.

use crate::applications::{
    AnalyzeAction, AnalyzeActionView, AnalyzeResult, AnalyzeResultView, ApplicationName, args1, captured, copy_text,
    is_separator,
};
use crate::configuration::{AllowedVersions, AllowedVersionsView, Version, requirement_text, version_texts};
use crate::error::UserError;
use crate::executables::{ExecutableNameUnix, RunMethod, RunMethodView};
use crate::hosting::{VersionSource, VersionSourceView};
use crate::installation::{BinFolder, BinFolderView, Method, MethodView, methods_view, one_method, texts};
use crate::outside::{human_compare, human_order, main_separator, parse_version_req, version_req_allows, version_req_parse};
use crate::platform::{Cpu, Os, Platform};
use crate::regexp::{
    End, Gap, Start, VersionPattern, capture_at, digits_end, first_capture, first_capture_from, fitting_digit_runs,
    is_digit, is_white_space, line_end_after_spaces_meaning, spaces_end, spec_first_capture, version_end,
    lemma_digits_end_bounds, version_end_in_context, white_between,
};
use crate::text::{contains, contains_seq, occurs_at, starts_with, trim_start_all, trim_start_matches};
use vstd::prelude::*;
use vstd::string::*;

verus! {

broadcast use vstd::seq_lib::group_to_multiset_ensures;

/// The Go application.
#[derive(Debug, Clone, Copy, PartialEq, Eq)]
pub struct Go {}

/// The name of Go.
pub open spec fn name_text() -> Seq<char> {
    "go"@
}

/// The name of the Go executable.
pub open spec fn executable_text() -> Seq<char> {
    name_text()
}

/// The homepage of Go.
pub open spec fn homepage_text() -> Seq<char> {
    "https://go.dev"@
}

/// The ways to install Go `version` on `platform` with path separator `sep`.
/// Versions may be given with or without the `go` that starts the tags of Go releases.
pub open spec fn install_methods_spec(version: Seq<char>, platform: Platform, sep: Seq<char>) -> Seq<MethodView> {
    let os = match platform.os {
        Os::Linux => "linux"@,
        Os::MacOS => "darwin"@,
        Os::Windows => "windows"@,
    };
    let cpu = match platform.cpu {
        Cpu::Arm64 => "arm64"@,
        Cpu::Intel64 => "amd64"@,
    };
    let ext = match platform.os {
        Os::Linux | Os::MacOS => "tar.gz"@,
        Os::Windows => "zip"@,
    };
    seq![
        MethodView::DownloadArchive {
            url: "https://go.dev/dl/go"@ + trim_start_all(version, "go"@) + "."@ + os + "-"@ + cpu + "."@ + ext,
            bin_folder: BinFolderView::Subfolder { path: "go"@ + sep + "bin"@ },
        },
    ]
}

/// How to run Go `version` on `platform` with path separator `sep`.
pub open spec fn run_method_spec(version: Seq<char>, platform: Platform, sep: Seq<char>) -> RunMethodView {
    RunMethodView::ThisApp { install_methods: install_methods_spec(version, platform, sep) }
}

/// The pattern `go version go(\d+\.\d+\.\d+)` that finds the version in the output of `go version`.
pub open spec fn version_pattern() -> VersionPattern {
    VersionPattern { start: Start::Anywhere, prefix: "go version go", gap: Gap::Nothing, parts: 3, suffix: "", end: End::Anywhere }
}

/// The pattern `(?m)^go\s+(\d+\.\d+)\s*$` that finds the Go version that a `go.mod` file asks for.
pub open spec fn go_mod_pattern() -> VersionPattern {
    VersionPattern {
        start: Start::LineStart,
        prefix: "go",
        gap: Gap::Required,
        parts: 2,
        suffix: "",
        end: End::LineEndAfterSpaces,
    }
}

/// The text in the help output of the Go tool.
pub open spec fn help_marker() -> Seq<char> {
    "Go is a tool for managing Go source code"@
}

/// The next step in analyzing an executable as Go, given the outputs of the runs so far:
/// first `go version`, whose output names the version; if it does not, `go -h`,
/// whose output identifies the Go tool.
pub open spec fn analyze_spec(outputs: Seq<Seq<char>>) -> AnalyzeActionView {
    if outputs.len() == 0 {
        AnalyzeActionView::Run { args: seq!["version"@] }
    } else if spec_first_capture(version_pattern(), outputs[0]) is Ok {
        AnalyzeActionView::Done(
            AnalyzeResultView::IdentifiedWithVersion(spec_first_capture(version_pattern(), outputs[0])->Ok_0),
        )
    } else if outputs.len() == 1 {
        AnalyzeActionView::Run { args: seq!["-h"@] }
    } else if contains_seq(outputs[1], help_marker()) {
        AnalyzeActionView::Done(AnalyzeResultView::IdentifiedButUnknownVersion)
    } else {
        AnalyzeActionView::Done(AnalyzeResultView::NotIdentified { output: outputs[1] })
    }
}

/// Where the versions of Go come from: the newest 400 tags of its repository.
pub open spec fn version_source_spec() -> VersionSourceView {
    VersionSourceView::GithubTags { org: "golang"@, repo: "go"@, count: Some(400) }
}

/// A tag of the Go repository that marks a release: it starts with `go` and is no release candidate.
pub open spec fn is_release_tag(tag: Seq<char>) -> bool {
    occurs_at(tag, "go"@, 0) && !contains_seq(tag, "rc"@)
}

/// The versions of the Go releases among `tags`, in the order of the tags:
/// the release tags without their leading `go`.
pub open spec fn release_versions(tags: Seq<Seq<char>>) -> Seq<Seq<char>>
    decreases tags.len(),
{
    if tags.len() == 0 {
        Seq::empty()
    } else {
        let rest = release_versions(tags.drop_last());
        if is_release_tag(tags.last()) {
            rest.push(trim_start_all(tags.last(), "go"@))
        } else {
            rest
        }
    }
}

/// Each of `versions` has only short runs of digits, which `human_sort` can compare.
pub open spec fn comparable(versions: Seq<Seq<char>>) -> bool {
    forall|i: int| 0 <= i < versions.len() ==> fitting_digit_runs(#[trigger] versions[i])
}

/// Each version comes no earlier, in human order, than the one after it.
pub open spec fn newest_first(s: Seq<Seq<char>>) -> bool {
    forall|i: int, j: int| 0 <= i && j == i + 1 && j < s.len() ==> #[trigger] human_order(s[i], s[j]) >= 0
}

/// `sorted` holds the same versions as `versions`, newest first.
pub open spec fn arranged_newest_first(sorted: Seq<Seq<char>>, versions: Seq<Seq<char>>) -> bool {
    sorted.to_multiset() == versions.to_multiset() && newest_first(sorted)
}

/// Where `x` goes among `sorted`, looking from position `k` on: before the first
/// version that `x` is newer than in the order of `human_sort::compare`, or at the end.
pub open spec fn insert_position(sorted: Seq<Seq<char>>, x: Seq<char>, k: int) -> int
    decreases sorted.len() - k,
{
    if k < 0 || k >= sorted.len() {
        sorted.len() as int
    } else if human_order(x, sorted[k]) > 0 {
        k
    } else {
        insert_position(sorted, x, k + 1)
    }
}

/// `versions` newest first: the order that inserting them one by one gives, each
/// before the first version that it is newer than. Of versions that compare as
/// equal, the one that comes first in `versions` stays first.
pub open spec fn newest_first_order(versions: Seq<Seq<char>>) -> Seq<Seq<char>>
    decreases versions.len(),
{
    if versions.len() == 0 {
        Seq::empty()
    } else {
        let sorted = newest_first_order(versions.drop_last());
        sorted.insert(insert_position(sorted, versions.last(), 0), versions.last())
    }
}

/// The Go versions among `tags`, newest first.
pub open spec fn go_versions(tags: Seq<Seq<char>>) -> Seq<Seq<char>> {
    newest_first_order(release_versions(tags))
}

/// The smaller of two numbers.
pub open spec fn at_most(a: int, b: int) -> int {
    if a <= b { a } else { b }
}

/// What `go.mod` content allows: any version when there is no `go.mod` or it names no Go
/// version, otherwise the versions that match the named version as a semver requirement,
/// or an error when that is no valid requirement.
pub open spec fn allowed_versions_spec(go_mod: Option<Seq<char>>, r: Result<AllowedVersions, UserError>) -> bool {
    match go_mod {
        None => r == Ok::<AllowedVersions, UserError>(AllowedVersions::Any),
        Some(content) => match spec_first_capture(go_mod_pattern(), content) {
            Err(_) => r == Ok::<AllowedVersions, UserError>(AllowedVersions::Any),
            Ok(expression) => parsed_requirement(expression, version_req_parse(expression), r),
        },
    }
}

/// What a version requirement `expression` allows, given the outcome of parsing it.
pub open spec fn parsed_requirement(
    expression: Seq<char>,
    parsed: Result<(), Seq<char>>,
    r: Result<AllowedVersions, UserError>,
) -> bool {
    match parsed {
        Ok(_) => r matches Ok(allowed) && allowed@ == (AllowedVersionsView::Matching { expression }),
        Err(reason) => r matches Err(UserError::CannotParseSemverRange { expression: e, reason: why })
            && e@ == expression && why@ == reason,
    }
}

fn pattern() -> (p: VersionPattern)
    ensures
        p == version_pattern(),
{
    VersionPattern { start: Start::Anywhere, prefix: "go version go", gap: Gap::Nothing, parts: 3, suffix: "", end: End::Anywhere }
}

fn go_mod_version() -> (p: VersionPattern)
    ensures
        p == go_mod_pattern(),
{
    VersionPattern {
        start: Start::LineStart,
        prefix: "go",
        gap: Gap::Required,
        parts: 2,
        suffix: "",
        end: End::LineEndAfterSpaces,
    }
}

/// Finds the version of Go in the output of `go version`.
pub fn extract_version(output: &str) -> (r: Result<&str, UserError>)
    ensures
        captured(r, spec_first_capture(version_pattern(), output@)),
{
    first_capture(output, &pattern())
}

/// Finds the Go version that the given `go.mod` content asks for.
pub fn parse_go_mod(text: &str) -> (r: Result<&str, UserError>)
    ensures
        captured(r, spec_first_capture(go_mod_pattern(), text@)),
{
    first_capture(text, &go_mod_version())
}

/// What a version requirement `expression` allows, given the outcome of checking
/// it as a semver requirement: the versions that match it, or an error that names
/// the expression and the reason.
pub fn allowed_from_parse(expression: &str, parsed: Result<(), String>) -> (r: Result<AllowedVersions, UserError>)
    ensures
        match parsed {
            Ok(_) => r matches Ok(allowed) && allowed@ == (AllowedVersionsView::Matching { expression: expression@ }),
            Err(reason) => r matches Err(UserError::CannotParseSemverRange { expression: e, reason: why })
                && e@ == expression@ && why@ == reason@,
        },
{
    match parsed {
        Ok(_) => Ok(AllowedVersions::Matching { expression: String::from_str(expression) }),
        Err(reason) => Err(UserError::CannotParseSemverRange { expression: String::from_str(expression), reason }),
    }
}

/// The versions of the Go releases among the given tags, in the order of the tags.
pub fn release_versions_of(tags: &Vec<String>) -> (r: Vec<String>)
    ensures
        texts(r@) == release_versions(texts(tags@)),
{
    let mut found: Vec<String> = Vec::new();
    let mut i: usize = 0;
    while i < tags.len()
        invariant
            i <= tags@.len(),
            texts(found@) == release_versions(texts(tags@).take(i as int)),
        decreases tags@.len() - i,
    {
        let tag = tags[i].as_str();
        let ghost before = found@;
        assert(texts(tags@).take(i + 1).drop_last() =~= texts(tags@).take(i as int));
        assert(texts(tags@).take(i + 1).last() == tag@);
        proof {
            reveal_strlit("go");
            reveal_strlit("rc");
        }
        if starts_with(tag, "go") && !contains(tag, "rc") {
            found.push(String::from_str(trim_start_matches(tag, "go")));
            assert(texts(found@) =~= texts(before).push(found@.last()@));
        }
        i = i + 1;
    }
    assert(texts(tags@).take(tags@.len() as int) =~= texts(tags@));
    found
}

proof fn lemma_insert_to_multiset(s: Seq<Seq<char>>, k: int, x: Seq<char>)
    requires
        0 <= k <= s.len(),
    ensures
        s.insert(k, x).to_multiset() =~= s.to_multiset().insert(x),
{
    let t = s.insert(k, x);
    assert(t.remove(k) =~= s);
    assert(t.remove(k).to_multiset() == t.to_multiset().remove(t[k]));
    assert(t.contains(x)) by {
        assert(t[k] == x);
    }
    assert(t.to_multiset().count(x) > 0);
}

proof fn lemma_insert_newest_first(s: Seq<Seq<char>>, k: int, x: Seq<char>)
    requires
        0 <= k <= s.len(),
        newest_first(s),
        k > 0 ==> human_order(s[k - 1], x) >= 0,
        k < s.len() ==> human_order(x, s[k]) >= 0,
    ensures
        newest_first(s.insert(k, x)),
{
    let t = s.insert(k, x);
    assert forall|i: int, j: int| 0 <= i && j == i + 1 && j < t.len() implies #[trigger] human_order(t[i], t[j]) >= 0 by {
        if j < k {
            assert(t[i] == s[i] && t[j] == s[j]);
            assert(human_order(s[i], s[j]) >= 0);
        } else if j == k {
            assert(t[i] == s[k - 1] && t[j] == x);
        } else if i == k {
            assert(t[i] == x && t[j] == s[k]);
        } else {
            assert(t[i] == s[i - 1] && t[j] == s[j - 1]);
            assert(human_order(s[i - 1], s[j - 1]) >= 0);
        }
    }
}

/// Sorts the given versions newest first, in the order of `human_sort::compare`.
pub fn sort_newest_first(versions: &Vec<String>) -> (r: Vec<String>)
    requires
        comparable(texts(versions@)),
    ensures
        texts(r@) == newest_first_order(texts(versions@)),
        arranged_newest_first(texts(r@), texts(versions@)),
{
    let mut sorted: Vec<String> = Vec::new();
    let mut i: usize = 0;
    while i < versions.len()
        invariant
            i <= versions@.len(),
            comparable(texts(versions@)),
            comparable(texts(sorted@)),
            newest_first(texts(sorted@)),
            texts(sorted@).to_multiset() == texts(versions@).take(i as int).to_multiset(),
            texts(sorted@) == newest_first_order(texts(versions@).take(i as int)),
        decreases versions@.len() - i,
    {
        let x = copy_text(&versions[i]);
        assert(fitting_digit_runs(texts(versions@)[i as int]));
        let mut k: usize = 0;
        loop
            invariant
                k <= sorted@.len(),
                fitting_digit_runs(x@),
                comparable(texts(sorted@)),
                k > 0 ==> human_order(texts(sorted@)[k - 1], x@) >= 0,
                insert_position(texts(sorted@), x@, 0) == insert_position(texts(sorted@), x@, k as int),
            ensures
                k <= sorted@.len(),
                k > 0 ==> human_order(texts(sorted@)[k - 1], x@) >= 0,
                k < sorted@.len() ==> human_order(x@, texts(sorted@)[k as int]) >= 0,
                insert_position(texts(sorted@), x@, 0) == k,
            decreases sorted@.len() - k,
        {
            if k == sorted.len() {
                break;
            }
            assert(fitting_digit_runs(texts(sorted@)[k as int]));
            let c = human_compare(x.as_str(), sorted[k].as_str());
            if c > 0 {
                break;
            }
            k = k + 1;
        }
        let ghost old_texts = texts(sorted@);
        let ghost xt = x@;
        proof {
            lemma_insert_newest_first(old_texts, k as int, xt);
            lemma_insert_to_multiset(old_texts, k as int, xt);
            assert(texts(versions@).take(i + 1) =~= texts(versions@).take(i as int).push(xt));
            assert(texts(versions@).take(i + 1).drop_last() =~= texts(versions@).take(i as int));
        }
        sorted.insert(k, x);
        assert(texts(sorted@) =~= old_texts.insert(k as int, xt));
        i = i + 1;
    }
    assert(texts(versions@).take(versions@.len() as int) =~= texts(versions@));
    sorted
}

/// The first `amount` of the given versions.
fn first_versions(sorted: &Vec<String>, amount: usize) -> (r: Vec<Version>)
    ensures
        version_texts(r@) == texts(sorted@).take(at_most(amount as int, sorted@.len() as int)),
{
    let mut r: Vec<Version> = Vec::new();
    let mut i: usize = 0;
    while i < sorted.len() && i < amount
        invariant
            i <= sorted@.len(),
            i <= amount,
            version_texts(r@) == texts(sorted@).take(i as int),
        decreases sorted@.len() - i,
    {
        let ghost before = r@;
        r.push(Version::from(sorted[i].as_str()));
        assert(version_texts(r@) =~= version_texts(before).push(sorted@[i as int]@));
        assert(texts(sorted@).take(i + 1) =~= texts(sorted@).take(i as int).push(sorted@[i as int]@));
        i = i + 1;
    }
    r
}

proof fn lemma_skip_keeps_out(t: Seq<char>, n: int, x: Seq<char>)
    requires
        0 <= n <= t.len(),
        contains_seq(t.skip(n), x),
    ensures
        contains_seq(t, x),
{
    let i = choose|i: int| occurs_at(t.skip(n), x, i);
    assert(t.skip(n).subrange(i, i + x.len()) =~= t.subrange(i + n, i + n + x.len()));
    assert(occurs_at(t, x, i + n));
}

proof fn lemma_trimmed_keeps_out(t: Seq<char>, prefix: Seq<char>, x: Seq<char>)
    requires
        contains_seq(trim_start_all(t, prefix), x),
    ensures
        contains_seq(t, x),
    decreases t.len(),
{
    if prefix.len() > 0 && occurs_at(t, prefix, 0) {
        lemma_trimmed_keeps_out(t.skip(prefix.len() as int), prefix, x);
        lemma_skip_keeps_out(t, prefix.len() as int, x);
    }
}

/// `v` is the version of one of `tags` that marks a Go release.
pub open spec fn released_in(v: Seq<char>, tags: Seq<Seq<char>>) -> bool {
    exists|j: int| 0 <= j < tags.len() && is_release_tag(tags[j]) && v == trim_start_all(#[trigger] tags[j], "go"@)
}

proof fn lemma_release_versions_origin(tags: Seq<Seq<char>>)
    ensures
        forall|i: int| 0 <= i < release_versions(tags).len() ==> released_in(#[trigger] release_versions(tags)[i], tags),
    decreases tags.len(),
{
    if tags.len() > 0 {
        let rest = tags.drop_last();
        let rv = release_versions(rest);
        lemma_release_versions_origin(rest);
        assert(release_versions(tags) == if is_release_tag(tags.last()) {
            rv.push(trim_start_all(tags.last(), "go"@))
        } else {
            rv
        });
        assert forall|i: int| 0 <= i < release_versions(tags).len() implies released_in(
            #[trigger] release_versions(tags)[i],
            tags,
        ) by {
            if i < rv.len() {
                assert(release_versions(tags)[i] == rv[i]);
                assert(released_in(rv[i], rest));
                let j = choose|j: int|
                    0 <= j < rest.len() && is_release_tag(rest[j]) && rv[i] == trim_start_all(#[trigger] rest[j], "go"@);
                assert(tags[j] == rest[j]);
            } else {
                assert(tags[tags.len() - 1] == tags.last());
            }
        }
    }
}

/// Go versions are versions of Go releases: each of them is the version of a tag of the
/// Go repository that starts with `go`, and none of them is a release candidate.
pub proof fn go_versions_are_releases(tags: Seq<Seq<char>>, sorted: Seq<Seq<char>>)
    requires
        arranged_newest_first(sorted, release_versions(tags)),
    ensures
        forall|i: int|
            0 <= i < sorted.len() ==> !contains_seq(#[trigger] sorted[i], "rc"@) && released_in(sorted[i], tags),
{
    let releases = release_versions(tags);
    lemma_release_versions_origin(tags);
    assert forall|i: int| 0 <= i < sorted.len() implies !contains_seq(#[trigger] sorted[i], "rc"@) && released_in(
        sorted[i],
        tags,
    ) by {
        let v = sorted[i];
        assert(sorted.contains(v));
        assert(sorted.to_multiset().count(v) > 0);
        assert(releases.to_multiset().count(v) > 0);
        assert(releases.contains(v));
        let k = choose|k: int| 0 <= k < releases.len() && releases[k] == v;
        assert(released_in(releases[k], tags));
        let j = choose|j: int|
            0 <= j < tags.len() && is_release_tag(tags[j]) && releases[k] == trim_start_all(#[trigger] tags[j], "go"@);
        if contains_seq(v, "rc"@) {
            lemma_trimmed_keeps_out(tags[j], "go"@, "rc"@);
        }
    }
}

proof fn lemma_insert_position_bounds(sorted: Seq<Seq<char>>, x: Seq<char>, k: int)
    requires
        0 <= k,
    ensures
        k <= sorted.len() ==> k <= insert_position(sorted, x, k) <= sorted.len(),
    decreases sorted.len() - k,
{
    if k < sorted.len() && human_order(x, sorted[k]) <= 0 {
        lemma_insert_position_bounds(sorted, x, k + 1);
    }
}

proof fn lemma_newest_first_order_len(versions: Seq<Seq<char>>)
    ensures
        newest_first_order(versions).len() == versions.len(),
    decreases versions.len(),
{
    if versions.len() > 0 {
        let sorted = newest_first_order(versions.drop_last());
        lemma_newest_first_order_len(versions.drop_last());
        lemma_insert_position_bounds(sorted, versions.last(), 0);
    }
}

/// The latest Go version leads every list of the newest Go versions: there are as many
/// Go versions as release tags, and when there is one, the first of the newest
/// `amount` versions, for any positive `amount`, is the first of all.
pub proof fn latest_go_version_leads_the_list(tags: Seq<Seq<char>>, amount: int)
    requires
        amount >= 1,
    ensures
        go_versions(tags).len() == release_versions(tags).len(),
        release_versions(tags).len() > 0 ==> go_versions(tags).take(at_most(amount, go_versions(tags).len() as int))[0]
            == go_versions(tags)[0],
{
    lemma_newest_first_order_len(release_versions(tags));
}

/// The versions that a project's `go.mod` allows are those that match the Go version
/// it names, read as a semver requirement; without a `go.mod`, or without a Go version
/// in it, they are those that `*` matches.
pub proof fn go_mod_decides_the_allowed_versions(
    go_mod: Option<Seq<char>>,
    r: Result<AllowedVersions, UserError>,
    version: Seq<char>,
)
    requires
        allowed_versions_spec(go_mod, r),
        r is Ok,
    ensures
        version_req_allows(requirement_text(r->Ok_0@), version) == match go_mod {
            Some(content) => match spec_first_capture(go_mod_pattern(), content) {
                Ok(expression) => version_req_allows(expression, version),
                Err(_) => version_req_allows("*"@, version),
            },
            None => version_req_allows("*"@, version),
        },
{
}

/// The Go download names the CPU by its architecture alone, whatever the operating
/// system: `amd64` for Intel64 and `arm64` for Arm64. It is the archive of the Go
/// version (without a leading `go`) for the operating system (`linux`, `darwin`,
/// `windows`) and CPU, a zip file on Windows and a gzipped tar file elsewhere, with
/// the executables in `go/bin`.
pub proof fn go_download_names_the_architecture(version: Seq<char>, platform: Platform, sep: Seq<char>)
    ensures
        run_method_spec(version, platform, sep) matches RunMethodView::ThisApp { install_methods }
            && install_methods.len() == 1
            && install_methods[0] == (MethodView::DownloadArchive {
                url: "https://go.dev/dl/go"@ + trim_start_all(version, "go"@) + "."@ + (if platform.os == Os::Linux {
                    "linux"@
                } else if platform.os == Os::MacOS {
                    "darwin"@
                } else {
                    "windows"@
                }) + "-"@ + (if platform.cpu == Cpu::Intel64 {
                    "amd64"@
                } else {
                    "arm64"@
                }) + "."@ + (if platform.os == Os::Windows {
                    "zip"@
                } else {
                    "tar.gz"@
                }),
                bin_folder: BinFolderView::Subfolder { path: "go"@ + sep + "bin"@ },
            }),
{
}

proof fn lemma_no_capture_before(p: VersionPattern, t: Seq<char>, s: int, n: int)
    requires
        0 <= s <= n <= t.len(),
        forall|k: int| s <= k < n ==> #[trigger] capture_at(p, t, k) is None,
    ensures
        first_capture_from(p, t, s) == first_capture_from(p, t, n),
    decreases n - s,
{
    if s < n {
        lemma_no_capture_before(p, t, s + 1, n);
    }
}

/// A `go` directive is found whatever white space ends its line, carriage returns
/// included: when the lines before it do not contain `go`, the Go version in
/// `go <version>`, followed by white space up to a line feed, is what the `go.mod`
/// asks for.
pub proof fn go_directive_is_found(before: Seq<char>, version: Seq<char>, trailing: Seq<char>, after: Seq<char>)
    requires
        before.len() == 0 || before.last() == '\n',
        !contains_seq(before, "go"@),
        version_end(version, 0, 2) == Some(version.len() as int),
        white_between(trailing, 0, trailing.len() as int),
    ensures
        spec_first_capture(go_mod_pattern(), before + "go "@ + version + trailing + "\n"@ + after)
            == Ok::<Seq<char>, UserError>(version),
{
    reveal_strlit("go");
    reveal_strlit("go ");
    reveal_strlit("\n");
    reveal_strlit("");
    let p = go_mod_pattern();
    let t = before + "go "@ + version + trailing + "\n"@ + after;
    let n = before.len() as int;
    let e = n + 3 + version.len();
    let rest = trailing + "\n"@ + after;
    assert(t =~= (before + "go "@) + version + rest);
    assert forall|k: int| 0 <= k < n implies #[trigger] capture_at(p, t, k) is None by {
        if occurs_at(t, "go"@, k) {
            if k + 2 <= n {
                assert(t.subrange(k, k + 2) =~= before.subrange(k, k + 2));
                assert(occurs_at(before, "go"@, k));
            } else {
                assert(t[k] == before.last());
                assert(t.subrange(k, k + 2)[0] == t[k]);
            }
        }
    }
    lemma_no_capture_before(p, t, 0, n);
    assert(t.subrange(n, n + 2) =~= "go"@);
    assert(n == 0 || t[n - 1] == before.last());
    lemma_digits_end_bounds(version, 0);
    assert(is_digit(version[0]));
    assert(t[n + 2] == ' ');
    assert(t[n + 3] == version[0]);
    assert(spaces_end(t, n + 3) == n + 3);
    assert(spaces_end(t, n + 2) == n + 3);
    if trailing.len() > 0 {
        assert(rest[0] == trailing[0]);
        assert(is_white_space(trailing[0]));
    } else {
        assert(rest[0] == '\n');
    }
    assert(!is_digit(rest[0]));
    version_end_in_context(before + "go "@, version, rest, 0, 2);
    let k = e + trailing.len();
    assert(t[k] == '\n');
    assert forall|j: int| e <= j < k implies #[trigger] is_white_space(t[j]) by {
        assert(t[j] == trailing[j - e]);
        assert(is_white_space(trailing[j - e]));
    }
    assert(white_between(t, e, k));
    line_end_after_spaces_meaning(t, e);
    assert(t.subrange(e, e) =~= ""@);
    assert(capture_at(p, t, n) == Some((n + 3, e)));
    assert(t.subrange(n + 3, e) =~= version);
}

impl Go {
    /// The name by which the user selects Go.
    pub fn name(&self) -> (r: ApplicationName)
        ensures
            r@ == name_text(),
    {
        ApplicationName::from("go")
    }

    /// The name of the Go executable.
    pub fn executable_filename(&self) -> (r: ExecutableNameUnix)
        ensures
            r@ == executable_text(),
    {
        ExecutableNameUnix::from("go")
    }

    /// The homepage of Go.
    pub fn homepage(&self) -> (r: &'static str)
        ensures
            r@ == homepage_text(),
    {
        "https://go.dev"
    }

    /// The ways to install Go `version` on `platform`.
    fn install_methods(&self, version: &Version, platform: Platform, sep: &str) -> (r: Vec<Method>)
        ensures
            methods_view(r@) == install_methods_spec(version@, platform, sep@),
    {
        let os = match platform.os {
            Os::Linux => "linux",
            Os::MacOS => "darwin",
            Os::Windows => "windows",
        };
        let cpu = match platform.cpu {
            Cpu::Arm64 => "arm64",
            Cpu::Intel64 => "amd64",
        };
        let ext = match platform.os {
            Os::Linux | Os::MacOS => "tar.gz",
            Os::Windows => "zip",
        };
        let number = trim_start_matches(version.as_str(), "go");
        let mut url = String::from_str("https://go.dev/dl/go");
        url.append(number);
        url.append(".");
        url.append(os);
        url.append("-");
        url.append(cpu);
        url.append(".");
        url.append(ext);
        let mut path = String::from_str("go");
        path.append(sep);
        path.append("bin");
        one_method(Method::DownloadArchive { url, bin_folder: BinFolder::Subfolder { path } })
    }

    /// How to run Go `version` on `platform` with path separator `sep`.
    pub fn run_method_with_separator(&self, version: &Version, platform: Platform, sep: &str) -> (r: RunMethod)
        ensures
            r@ == run_method_spec(version@, platform, sep@),
    {
        RunMethod::ThisApp { install_methods: self.install_methods(version, platform, sep) }
    }

    /// How to run Go `version` on `platform`.
    pub fn run_method(&self, version: &Version, platform: Platform) -> (r: RunMethod)
        ensures
            exists|sep: Seq<char>| is_separator(sep) && r@ == run_method_spec(version@, platform, sep),
    {
        let sep = main_separator();
        let r = self.run_method_with_separator(version, platform, sep);
        assert(is_separator(sep@) && r@ == run_method_spec(version@, platform, sep@));
        r
    }

    /// Where the versions of Go come from.
    pub fn version_source(&self) -> (r: VersionSource)
        ensures
            r@ == version_source_spec(),
    {
        VersionSource::GithubTags { org: "golang", repo: "go", count: Some(400) }
    }

    /// The next step in analyzing an executable as Go, given the outputs of the runs so far.
    pub fn analyze_step(&self, outputs: &Vec<String>) -> (r: AnalyzeAction)
        ensures
            r@ == analyze_spec(texts(outputs@)),
    {
        if outputs.len() == 0 {
            return AnalyzeAction::Run { args: args1("version") };
        }
        match extract_version(outputs[0].as_str()) {
            Ok(version) => {
                return AnalyzeAction::Done(AnalyzeResult::IdentifiedWithVersion(Version::from(version)));
            },
            Err(_) => {},
        }
        if outputs.len() == 1 {
            return AnalyzeAction::Run { args: args1("-h") };
        }
        if contains(outputs[1].as_str(), "Go is a tool for managing Go source code") {
            AnalyzeAction::Done(AnalyzeResult::IdentifiedButUnknownVersion)
        } else {
            AnalyzeAction::Done(AnalyzeResult::NotIdentified { output: copy_text(&outputs[1]) })
        }
    }

    /// The newest `amount` Go versions, given the tags of the Go repository:
    /// the release versions among the tags, newest first.
    pub fn versions_from_tags(&self, tags: &Vec<String>, amount: usize) -> (r: Vec<Version>)
        requires
            comparable(release_versions(texts(tags@))),
        ensures
            version_texts(r@) == go_versions(texts(tags@)).take(
                at_most(amount as int, go_versions(texts(tags@)).len() as int),
            ),
            arranged_newest_first(go_versions(texts(tags@)), release_versions(texts(tags@))),
    {
        let found = release_versions_of(tags);
        let sorted = sort_newest_first(&found);
        first_versions(&sorted, amount)
    }

    /// The newest Go version, given the tags of the Go repository.
    pub fn latest_from_tags(&self, tags: &Vec<String>) -> (r: Result<Version, UserError>)
        requires
            comparable(release_versions(texts(tags@))),
        ensures
            match r {
                Ok(version) => go_versions(texts(tags@)).len() > 0 && version@ == go_versions(texts(tags@))[0],
                Err(e) => release_versions(texts(tags@)).len() == 0
                    && (e matches UserError::NoVersionsFound { app } && app@ == name_text()),
            },
    {
        let mut versions = self.versions_from_tags(tags, 1);
        proof {
            lemma_newest_first_order_len(release_versions(texts(tags@)));
            assert(version_texts(versions@).len() == versions@.len());
        }
        if versions.len() == 0 {
            return Err(UserError::NoVersionsFound { app: String::from_str(self.name().as_str()) });
        }
        let ghost before = versions@;
        let version = versions.remove(0);
        assert(version_texts(before)[0] == version@);
        Ok(version)
    }

    /// The versions of Go that the project allows, given the content of its
    /// `go.mod` file if it has one.
    pub fn allowed_versions(&self, go_mod: Option<&str>) -> (r: Result<AllowedVersions, UserError>)
        ensures
            allowed_versions_spec(
                match go_mod {
                    Some(content) => Some(content@),
                    None => None,
                },
                r,
            ),
    {
        let content = match go_mod {
            Some(content) => content,
            None => return Ok(AllowedVersions::Any),
        };
        let expression = match parse_go_mod(content) {
            Ok(expression) => expression,
            Err(_) => return Ok(AllowedVersions::Any),
        };
        allowed_from_parse(expression, parse_version_req(expression))
    }
}

} // verus!
