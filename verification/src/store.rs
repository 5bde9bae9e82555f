//! The object store of one workspace, held as plain values: its objects, its
//! commits, its named references and its head. A store is read, never changed.

use vstd::prelude::*;
use crate::error::ResolveError;
use crate::object::{entries_view, EntryTarget, EntryView, GitObject, ObjectView, StoredEntry, TargetView};
use crate::path::is_segment;

verus! {

/// A registered repository: the row that the metadata store keeps of it.
#[derive(Clone, Debug, PartialEq, Eq)]
pub struct Workspace {
    pub id: i64,
    pub url: String,
    pub description: Option<String>,
}

/// The view of a `Workspace`.
pub struct WorkspaceView {
    pub id: int,
    pub url: Seq<char>,
    pub description: Option<Seq<char>>,
}

/// The view of an optional text.
pub open spec fn text_view(text: Option<String>) -> Option<Seq<char>> {
    match text {
        Some(t) => Some(t@),
        None => None,
    }
}

impl View for Workspace {
    type V = WorkspaceView;

    open spec fn view(&self) -> WorkspaceView {
        WorkspaceView {
            id: self.id as int,
            url: self.url@,
            description: text_view(self.description),
        }
    }
}

/// The registered workspaces, in the order of the metadata store.
#[derive(Clone, Debug, PartialEq, Eq)]
pub struct WorkspaceRecords {
    pub workspaces: Vec<Workspace>,
}

impl View for WorkspaceRecords {
    type V = Seq<WorkspaceView>;

    open spec fn view(&self) -> Seq<WorkspaceView> {
        Seq::new(self.workspaces@.len(), |i: int| self.workspaces@[i]@)
    }
}

/// A commit: its identifier and the position of its root tree among the objects.
#[derive(Clone, Debug, PartialEq, Eq)]
pub struct Commit {
    pub id: String,
    pub tree: usize,
}

/// The view of a `Commit`.
pub struct CommitView {
    pub id: Seq<char>,
    pub tree: nat,
}

impl View for Commit {
    type V = CommitView;

    open spec fn view(&self) -> CommitView {
        CommitView { id: self.id@, tree: self.tree as nat }
    }
}

/// A symbolic reference: a name for the commit at a position among the commits.
#[derive(Clone, Debug, PartialEq, Eq)]
pub struct Reference {
    pub name: String,
    pub commit: usize,
}

/// The view of a `Reference`.
pub struct ReferenceView {
    pub name: Seq<char>,
    pub commit: nat,
}

impl View for Reference {
    type V = ReferenceView;

    open spec fn view(&self) -> ReferenceView {
        ReferenceView { name: self.name@, commit: self.commit as nat }
    }
}

/// The object store of one workspace.
#[derive(Clone, Debug, PartialEq, Eq)]
pub struct ObjectStore {
    pub objects: Vec<GitObject>,
    pub commits: Vec<Commit>,
    pub references: Vec<Reference>,
    /// The position of the head commit of the default branch; `None` in a
    /// repository without commits.
    pub head: Option<usize>,
}

/// The view of an `ObjectStore`.
pub struct StoreView {
    pub objects: Seq<ObjectView>,
    pub commits: Seq<CommitView>,
    pub references: Seq<ReferenceView>,
    pub head: Option<nat>,
}

impl View for ObjectStore {
    type V = StoreView;

    open spec fn view(&self) -> StoreView {
        StoreView {
            objects: Seq::new(self.objects@.len(), |i: int| self.objects@[i]@),
            commits: Seq::new(self.commits@.len(), |i: int| self.commits@[i]@),
            references: Seq::new(self.references@.len(), |i: int| self.references@[i]@),
            head: match self.head {
                Some(h) => Some(h as nat),
                None => None,
            },
        }
    }
}

/// No two entries bear the same name.
pub open spec fn unique_names(entries: Seq<EntryView>) -> bool {
    forall|i: int, j: int|
        0 <= i < j < entries.len() ==> (#[trigger] entries[i]).name != (#[trigger] entries[j]).name
}

/// The name of the entry is a segment, and what it points to is there.
pub open spec fn valid_entry(entry: EntryView, object_count: nat) -> bool {
    &&& is_segment(entry.name)
    &&& entry.target matches TargetView::Object(id) ==> id < object_count
}

/// Every entry is valid, and no two bear the same name.
pub open spec fn valid_entries(entries: Seq<EntryView>, object_count: nat) -> bool {
    &&& unique_names(entries)
    &&& forall|i: int| 0 <= i < entries.len() ==> valid_entry(#[trigger] entries[i], object_count)
}

/// A tree holds valid entries; any other object is valid as it is.
pub open spec fn valid_object(object: ObjectView, object_count: nat) -> bool {
    object matches ObjectView::Tree(entries) ==> valid_entries(entries, object_count)
}

impl StoreView {
    /// The root of a commit is a tree of the store.
    pub open spec fn valid_commit(self, commit: CommitView) -> bool {
        &&& commit.tree < self.objects.len()
        &&& self.objects[commit.tree as int] is Tree
    }

    /// No two commits bear the same identifier.
    pub open spec fn unique_commits(self) -> bool {
        forall|i: int, j: int|
            0 <= i < j < self.commits.len() ==> (#[trigger] self.commits[i]).id != (
            #[trigger] self.commits[j]).id
    }

    /// What makes these values a valid object store: every tree holds valid
    /// entries with distinct names, every commit is rooted in a tree and has an
    /// identifier of its own, every reference names a commit, and there is a
    /// head exactly when there is a commit.
    pub open spec fn valid(self) -> bool {
        &&& forall|i: int|
            0 <= i < self.objects.len() ==> valid_object(
                #[trigger] self.objects[i],
                self.objects.len(),
            )
        &&& forall|i: int|
            0 <= i < self.commits.len() ==> self.valid_commit(#[trigger] self.commits[i])
        &&& self.unique_commits()
        &&& forall|i: int|
            0 <= i < self.references.len() ==> (#[trigger] self.references[i]).commit
                < self.commits.len()
        &&& match self.head {
            Some(h) => h < self.commits.len(),
            None => self.commits.len() == 0,
        }
    }
}

/// Whether `name` can be the name of an entry.
pub fn name_is_segment(name: &str) -> (ok: bool)
    ensures
        ok == is_segment(name@),
{
    let mut some = false;
    let mut plain = true;
    for c in it: name.chars()
        invariant
            it.seq() == name@,
            some == (it.index() > 0),
            plain == (forall|i: int| 0 <= i < it.index() ==> name@[i] != '/'),
    {
        some = true;
        if c == '/' {
            plain = false;
        }
    }
    some && plain
}

/// Whether `entry` is valid in a store of `object_count` objects.
pub fn entry_is_valid(entry: &StoredEntry, object_count: usize) -> (ok: bool)
    ensures
        ok == valid_entry(entry@, object_count as nat),
{
    let named = name_is_segment(entry.name.as_str());
    match &entry.target {
        EntryTarget::Object(id) => named && *id < object_count,
        EntryTarget::CommitLink { .. } => named,
    }
}

/// Whether `entries` can be the entries of a tree in a store of
/// `object_count` objects.
pub fn entries_are_valid(entries: &[StoredEntry], object_count: usize) -> (ok: bool)
    ensures
        ok == valid_entries(entries_view(entries@), object_count as nat),
{
    let ghost listing = entries_view(entries@);
    let mut i: usize = 0;
    while i < entries.len()
        invariant
            i <= entries@.len(),
            listing == entries_view(entries@),
            forall|k: int| 0 <= k < i ==> valid_entry(#[trigger] listing[k], object_count as nat),
            forall|k: int, l: int|
                0 <= k < l < entries@.len() && k < i ==> (#[trigger] listing[k]).name != (
                #[trigger] listing[l]).name,
        decreases entries@.len() - i,
    {
        if !entry_is_valid(&entries[i], object_count) {
            assert(!valid_entry(listing[i as int], object_count as nat));
            return false;
        }
        let mut j: usize = i + 1;
        while j < entries.len()
            invariant
                i < j <= entries@.len(),
                listing == entries_view(entries@),
                forall|l: int| i < l < j ==> listing[i as int].name != (#[trigger] listing[l]).name,
            decreases entries@.len() - j,
        {
            if entries[i].name == entries[j].name {
                assert(listing[i as int].name == listing[j as int].name);
                return false;
            }
            j += 1;
        }
        i += 1;
    }
    true
}

/// Whether the values of `store` make a valid object store.
pub fn store_is_valid(store: &ObjectStore) -> (ok: bool)
    ensures
        ok == store@.valid(),
{
    let ghost view = store@;
    let object_count = store.objects.len();
    let commit_count = store.commits.len();
    let mut i: usize = 0;
    while i < store.objects.len()
        invariant
            i <= store.objects@.len(),
            view == store@,
            object_count == store.objects@.len(),
            forall|k: int| 0 <= k < i ==> valid_object(#[trigger] view.objects[k], object_count as nat),
        decreases store.objects@.len() - i,
    {
        match &store.objects[i] {
            GitObject::Tree(entries) => {
                if !entries_are_valid(entries.as_slice(), object_count) {
                    assert(!valid_object(view.objects[i as int], object_count as nat));
                    return false;
                }
            },
            _ => {},
        }
        i += 1;
    }
    let mut c: usize = 0;
    while c < store.commits.len()
        invariant
            c <= store.commits@.len(),
            view == store@,
            object_count == store.objects@.len(),
            forall|k: int| 0 <= k < c ==> view.valid_commit(#[trigger] view.commits[k]),
            forall|k: int, l: int|
                0 <= k < l < view.commits.len() && k < c ==> (#[trigger] view.commits[k]).id != (
                #[trigger] view.commits[l]).id,
        decreases store.commits@.len() - c,
    {
        let commit = &store.commits[c];
        if commit.tree >= object_count {
            assert(!view.valid_commit(view.commits[c as int]));
            return false;
        }
        match &store.objects[commit.tree] {
            GitObject::Tree(_) => {},
            _ => {
                assert(!view.valid_commit(view.commits[c as int]));
                return false;
            },
        }
        let mut d: usize = c + 1;
        while d < store.commits.len()
            invariant
                c < d <= store.commits@.len(),
                view == store@,
                forall|l: int| c < l < d ==> view.commits[c as int].id != (#[trigger] view.commits[l]).id,
            decreases store.commits@.len() - d,
        {
            if store.commits[c].id == store.commits[d].id {
                assert(view.commits[c as int].id == view.commits[d as int].id);
                return false;
            }
            d += 1;
        }
        c += 1;
    }
    let mut r: usize = 0;
    while r < store.references.len()
        invariant
            r <= store.references@.len(),
            view == store@,
            commit_count == store.commits@.len(),
            forall|k: int| 0 <= k < r ==> (#[trigger] view.references[k]).commit < commit_count,
        decreases store.references@.len() - r,
    {
        if store.references[r].commit >= commit_count {
            assert(!(view.references[r as int].commit < view.commits.len()));
            return false;
        }
        r += 1;
    }
    match store.head {
        Some(h) => h < commit_count,
        None => commit_count == 0,
    }
}

/// An opened workspace: its row, which is only read, and its store, known to
/// be valid.
pub struct Handle<'a> {
    workspace: &'a Workspace,
    store: ObjectStore,
}

impl<'a> Handle<'a> {
    #[verifier::type_invariant]
    spec fn well_formed(&self) -> bool {
        self.store@.valid()
    }

    /// The workspace that was opened.
    pub closed spec fn workspace_view(&self) -> WorkspaceView {
        self.workspace@
    }

    /// The store that was opened.
    pub closed spec fn store_view(&self) -> StoreView {
        self.store@
    }

    /// The row of the workspace.
    pub fn workspace(&self) -> (workspace: &'a Workspace)
        ensures
            workspace@ == self.workspace_view(),
    {
        self.workspace
    }

    /// The store of the workspace. It is valid.
    pub fn store(&self) -> (store: &ObjectStore)
        ensures
            store@ == self.store_view(),
            store@.valid(),
    {
        proof {
            use_type_invariant(self);
        }
        &self.store
    }
}

/// Opens a workspace on what was found at its location. Fails with
/// `RepositoryUnavailable` where nothing was found there, or where what was
/// found is not a valid object store; succeeds in every other case.
pub fn open<'a>(workspace: &'a Workspace, found: Option<ObjectStore>) -> (opened: Result<
    Handle<'a>,
    ResolveError,
>)
    ensures
        match opened {
            Ok(handle) => found matches Some(store) && store@.valid() && handle.store_view()
                == store@ && handle.workspace_view() == workspace@,
            Err(e) => e == ResolveError::RepositoryUnavailable && !(found matches Some(store)
                && store@.valid()),
        },
{
    match found {
        Some(store) => {
            if store_is_valid(&store) {
                Ok(Handle { workspace, store })
            } else {
                Err(ResolveError::RepositoryUnavailable)
            }
        },
        None => Err(ResolveError::RepositoryUnavailable),
    }
}

} // verus!
