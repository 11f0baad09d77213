//! Where the available versions of an application come from.

use crate::applications::Application;
use crate::configuration::TagFormat;
use vstd::prelude::*;

verus! {

/// The place that lists the versions of an application.
#[derive(Debug, Clone, Copy, PartialEq, Eq)]
pub enum VersionSource {
    /// the releases of a GitHub repository; the version of a release is its tag
    /// without the given prefix (the hosting default when there is none)
    GithubReleases { org: &'static str, repo: &'static str, tag_prefix: Option<&'static str> },
    /// the tags of a GitHub repository, newest first; `count` is how many to
    /// fetch (as many as needed when there is none)
    GithubTags { org: &'static str, repo: &'static str, count: Option<usize> },
    /// the versions of a Go package on pkg.go.dev
    PkgGoDev { package: &'static str, tag_format: TagFormat },
    /// a fixed list of versions that the application definition knows itself
    Fixed,
    /// the versions of the given other application
    SameAs(Application),
}

/// The mathematical form of a [`VersionSource`].
pub enum VersionSourceView {
    GithubReleases { org: Seq<char>, repo: Seq<char>, tag_prefix: Option<Seq<char>> },
    GithubTags { org: Seq<char>, repo: Seq<char>, count: Option<usize> },
    PkgGoDev { package: Seq<char>, tag_format: TagFormat },
    Fixed,
    SameAs(Application),
}

impl View for VersionSource {
    type V = VersionSourceView;

    open spec fn view(&self) -> VersionSourceView {
        match self {
            VersionSource::GithubReleases { org, repo, tag_prefix } => VersionSourceView::GithubReleases {
                org: org@,
                repo: repo@,
                tag_prefix: match tag_prefix {
                    Some(p) => Some(p@),
                    None => None,
                },
            },
            VersionSource::GithubTags { org, repo, count } => VersionSourceView::GithubTags {
                org: org@,
                repo: repo@,
                count: *count,
            },
            VersionSource::PkgGoDev { package, tag_format } => VersionSourceView::PkgGoDev {
                package: package@,
                tag_format: *tag_format,
            },
            VersionSource::Fixed => VersionSourceView::Fixed,
            VersionSource::SameAs(app) => VersionSourceView::SameAs(*app),
        }
    }
}

/// The releases of `org/repo` on GitHub, with the given tag prefix.
pub open spec fn releases(org: &str, repo: &str, tag_prefix: Option<&str>) -> VersionSourceView {
    VersionSourceView::GithubReleases {
        org: org@,
        repo: repo@,
        tag_prefix: match tag_prefix {
            Some(p) => Some(p@),
            None => None,
        },
    }
}

} // verus!
