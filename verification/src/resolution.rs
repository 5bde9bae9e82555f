//! What a resolution yields: an object of the store, borrowed from it, or the
//! boundary of an embedded repository.

use vstd::prelude::*;
use crate::object::{entries_view, EntryView, ObjectView, StoredEntry};
use crate::store::{Commit, CommitView};

verus! {

/// The object found at a path: a tree or a blob, borrowed from the store.
#[derive(Clone, Debug, PartialEq, Eq)]
pub enum ResolvedObject<'a> {
    Tree(&'a [StoredEntry]),
    Blob(&'a [u8]),
}

/// The outcome of a successful resolution.
#[allow(inconsistent_fields)]
#[derive(Clone, Debug, PartialEq, Eq)]
pub enum PathResolution<'a> {
    /// The path names an object of this store. `commit` is `None` only in a
    /// repository without commits.
    Object { commit: Option<&'a Commit>, object: ResolvedObject<'a> },
    /// The path leaves this store at an embedded repository: where that
    /// repository is, the commit of it that is embedded, and the rest of the
    /// path inside it.
    SubRepoBoundary { location: String, commit: String, path: String },
}

/// The view of a `ResolvedObject`.
pub enum ResolvedView {
    Tree(Seq<EntryView>),
    Blob(Seq<u8>),
}

/// The view of a `PathResolution`.
#[allow(inconsistent_fields)]
pub enum ResolutionView {
    Object { commit: Option<CommitView>, object: ResolvedView },
    SubRepoBoundary { location: Seq<char>, commit: Seq<char>, path: Seq<char> },
}

impl ResolvedView {
    /// The same object, as an object of the store.
    pub open spec fn as_object(self) -> ObjectView {
        match self {
            ResolvedView::Tree(entries) => ObjectView::Tree(entries),
            ResolvedView::Blob(content) => ObjectView::Blob(content),
        }
    }
}

impl<'a> View for ResolvedObject<'a> {
    type V = ResolvedView;

    open spec fn view(&self) -> ResolvedView {
        match *self {
            ResolvedObject::Tree(entries) => ResolvedView::Tree(entries_view(entries@)),
            ResolvedObject::Blob(content) => ResolvedView::Blob(content@),
        }
    }
}

/// The view of an optional commit.
pub open spec fn commit_view(commit: Option<&Commit>) -> Option<CommitView> {
    match commit {
        Some(c) => Some(c@),
        None => None,
    }
}

impl<'a> View for PathResolution<'a> {
    type V = ResolutionView;

    open spec fn view(&self) -> ResolutionView {
        match *self {
            PathResolution::Object { commit, object } => ResolutionView::Object {
                commit: commit_view(commit),
                object: object@,
            },
            PathResolution::SubRepoBoundary { location, commit, path } => {
                ResolutionView::SubRepoBoundary {
                    location: location@,
                    commit: commit@,
                    path: path@,
                }
            },
        }
    }
}

} // verus!
