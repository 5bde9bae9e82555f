//! Git objects as the resolver reads them, their mathematical views, and the
//! classifier that tells a tree from a blob from anything else.

use vstd::prelude::*;

verus! {

/// What a stored object is, as far as paths are concerned.
#[derive(Clone, Copy, Debug, PartialEq, Eq, Structural)]
pub enum ObjectKind {
    Tree,
    Blob,
    Other,
}

/// What an entry of a tree names.
#[derive(Clone, Copy, Debug, PartialEq, Eq, Structural)]
pub enum EntryKind {
    Tree,
    Blob,
    CommitLink,
    Other,
}

/// Where an entry of a tree points.
#[derive(Clone, Debug, PartialEq, Eq)]
pub enum EntryTarget {
    /// An object of the same store, by its position there.
    Object(usize),
    /// A commit of another repository, embedded at this place.
    CommitLink { location: String, commit: String },
}

/// One entry of a tree.
#[derive(Clone, Debug, PartialEq, Eq)]
pub struct StoredEntry {
    pub name: String,
    pub target: EntryTarget,
}

/// One object of a store.
#[derive(Clone, Debug, PartialEq, Eq)]
pub enum GitObject {
    Tree(Vec<StoredEntry>),
    Blob(Vec<u8>),
    /// A tag, or any other object that no path can name.
    Other,
}

/// The view of an `EntryTarget`.
pub enum TargetView {
    Object(nat),
    CommitLink { location: Seq<char>, commit: Seq<char> },
}

/// The view of a `StoredEntry`.
pub struct EntryView {
    pub name: Seq<char>,
    pub target: TargetView,
}

/// The view of a `GitObject`.
pub enum ObjectView {
    Tree(Seq<EntryView>),
    Blob(Seq<u8>),
    Other,
}

impl View for EntryTarget {
    type V = TargetView;

    open spec fn view(&self) -> TargetView {
        match *self {
            EntryTarget::Object(id) => TargetView::Object(id as nat),
            EntryTarget::CommitLink { location, commit } => TargetView::CommitLink {
                location: location@,
                commit: commit@,
            },
        }
    }
}

impl View for StoredEntry {
    type V = EntryView;

    open spec fn view(&self) -> EntryView {
        EntryView { name: self.name@, target: self.target@ }
    }
}

/// The views of the entries of a tree, in order.
pub open spec fn entries_view(entries: Seq<StoredEntry>) -> Seq<EntryView> {
    Seq::new(entries.len(), |i: int| entries[i]@)
}

impl View for GitObject {
    type V = ObjectView;

    open spec fn view(&self) -> ObjectView {
        match *self {
            GitObject::Tree(entries) => ObjectView::Tree(entries_view(entries@)),
            GitObject::Blob(content) => ObjectView::Blob(content@),
            GitObject::Other => ObjectView::Other,
        }
    }
}

impl ObjectView {
    /// The kind of the object.
    pub open spec fn kind(self) -> ObjectKind {
        match self {
            ObjectView::Tree(_) => ObjectKind::Tree,
            ObjectView::Blob(_) => ObjectKind::Blob,
            ObjectView::Other => ObjectKind::Other,
        }
    }
}

/// The kind of `object`. Reads the tag only: no content is copied.
pub fn classify(object: &GitObject) -> (kind: ObjectKind)
    ensures
        kind == object@.kind(),
{
    match object {
        GitObject::Tree(_) => ObjectKind::Tree,
        GitObject::Blob(_) => ObjectKind::Blob,
        GitObject::Other => ObjectKind::Other,
    }
}

/// The entries of `object` if it is a tree, borrowed from it.
pub fn as_tree(object: &GitObject) -> (entries: Option<&[StoredEntry]>)
    ensures
        match object@ {
            ObjectView::Tree(listing) => entries matches Some(found) && entries_view(found@)
                == listing,
            _ => entries is None,
        },
{
    match object {
        GitObject::Tree(entries) => Some(entries.as_slice()),
        _ => None,
    }
}

/// The content of `object` if it is a blob, borrowed from it.
pub fn as_blob_bytes(object: &GitObject) -> (content: Option<&[u8]>)
    ensures
        match object@ {
            ObjectView::Blob(bytes) => content matches Some(found) && found@ == bytes,
            _ => content is None,
        },
{
    match object {
        GitObject::Blob(content) => Some(content.as_slice()),
        _ => None,
    }
}

} // verus!
