//! The commit resolver and the entry point of path resolution.

use vstd::prelude::*;
use crate::error::ResolveError;
use crate::object::{as_tree, entries_view, EntryKind, EntryView, ObjectView, StoredEntry, TargetView};
use crate::path::{all_segments, is_segment, join, separator, split};
use crate::resolution::{commit_view, PathResolution, ResolutionView, ResolvedView};
use crate::store::{
    unique_names, valid_entries, Commit, CommitView, Handle, ObjectStore, ReferenceView, StoreView,
};
use crate::walker::{
    lemma_child_path_resolves, lemma_missing_in_path, lemma_path_crossing_link,
    lemma_path_through_blob, lemma_walk_through, lookup, outcome_view, walk, walk_spec,
};

verus! {

/// The view of an optional string slice.
pub open spec fn option_text(text: Option<&str>) -> Option<Seq<char>> {
    match text {
        Some(t) => Some(t@),
        None => None,
    }
}

/// `commits[i]` is the first commit whose identifier is `id`.
pub open spec fn is_first_commit(commits: Seq<CommitView>, id: Seq<char>, i: int) -> bool {
    &&& 0 <= i < commits.len()
    &&& commits[i].id == id
    &&& forall|j: int| 0 <= j < i ==> (#[trigger] commits[j]).id != id
}

/// `references[i]` is the first reference whose name is `name`.
pub open spec fn is_first_reference(
    references: Seq<ReferenceView>,
    name: Seq<char>,
    i: int,
) -> bool {
    &&& 0 <= i < references.len()
    &&& references[i].name == name
    &&& forall|j: int| 0 <= j < i ==> (#[trigger] references[j]).name != name
}

impl StoreView {
    /// The head commit of the default branch, if the store has one.
    pub open spec fn head_commit(self) -> Option<CommitView> {
        match self.head {
            Some(h) => if h < self.commits.len() {
                Some(self.commits[h as int])
            } else {
                None
            },
            None => None,
        }
    }

    /// The commit whose identifier is `id`, if there is one.
    pub open spec fn commit_by_id(self, id: Seq<char>) -> Option<CommitView> {
        if exists|i: int| is_first_commit(self.commits, id, i) {
            Some(self.commits[choose|i: int| is_first_commit(self.commits, id, i)])
        } else {
            None
        }
    }

    /// The commit that the reference named `name` stands for, if there is such
    /// a reference and its commit is there.
    pub open spec fn commit_by_name(self, name: Seq<char>) -> Option<CommitView> {
        if exists|i: int| is_first_reference(self.references, name, i) {
            let r = self.references[choose|i: int| is_first_reference(self.references, name, i)];
            if r.commit < self.commits.len() {
                Some(self.commits[r.commit as int])
            } else {
                None
            }
        } else {
            None
        }
    }

    /// The commit that a commit reference stands for.
    ///
    /// An absent or empty reference stands for the head of the default branch,
    /// which a repository without commits does not have: that is `Ok(None)`,
    /// not an error. A reference that is given stands for the commit of that
    /// identifier or, failing that, for the commit of the symbolic reference
    /// of that name; where there is neither, the commit is not found.
    pub open spec fn resolve_commit(self, reference: Option<Seq<char>>) -> Result<
        Option<CommitView>,
        ResolveError,
    > {
        match reference {
            None => Ok(self.head_commit()),
            Some(r) => if r.len() == 0 {
                Ok(self.head_commit())
            } else {
                match self.commit_by_id(r) {
                    Some(c) => Ok(Some(c)),
                    None => match self.commit_by_name(r) {
                        Some(c) => Ok(Some(c)),
                        None => Err(ResolveError::CommitNotFound),
                    },
                }
            },
        }
    }

    /// The entries of the root tree of `commit`; none where its root is no tree
    /// of the store.
    pub open spec fn root_entries(self, commit: CommitView) -> Seq<EntryView> {
        if commit.tree < self.objects.len() {
            match self.objects[commit.tree as int] {
                ObjectView::Tree(entries) => entries,
                _ => Seq::empty(),
            }
        } else {
            Seq::empty()
        }
    }

    /// What resolving `path` at `reference` yields in this store.
    ///
    /// The reference fixes the commit, and the path is walked from the root
    /// tree of that commit. An absent path is the empty path. In a repository
    /// without commits the walk starts from an empty tree, with no commit.
    pub open spec fn resolve(self, reference: Option<Seq<char>>, path: Option<Seq<char>>) -> Result<
        ResolutionView,
        ResolveError,
    > {
        let segments = match path {
            Some(p) => split(p),
            None => Seq::empty(),
        };
        match self.resolve_commit(reference) {
            Err(e) => Err(e),
            Ok(None) => walk_spec(self, None, ObjectView::Tree(Seq::empty()), segments),
            Ok(Some(c)) => walk_spec(self, Some(c), ObjectView::Tree(self.root_entries(c)), segments),
        }
    }
}

/// The first commit that bears `id` is what `commit_by_id` finds.
proof fn lemma_commit_by_id(store: StoreView, id: Seq<char>, i: int)
    requires
        is_first_commit(store.commits, id, i),
    ensures
        store.commit_by_id(id) == Some(store.commits[i]),
{
    let chosen = choose|k: int| is_first_commit(store.commits, id, k);
    if chosen < i {
        assert(store.commits[chosen].id != id);
    }
    if i < chosen {
        assert(store.commits[i].id != id);
    }
}

/// The first reference that bears `name` decides what `commit_by_name` finds.
proof fn lemma_commit_by_name(store: StoreView, name: Seq<char>, i: int)
    requires
        is_first_reference(store.references, name, i),
    ensures
        store.commit_by_name(name) == if store.references[i].commit < store.commits.len() {
            Some(store.commits[store.references[i].commit as int])
        } else {
            None
        },
{
    let chosen = choose|k: int| is_first_reference(store.references, name, k);
    if chosen < i {
        assert(store.references[chosen].name != name);
    }
    if i < chosen {
        assert(store.references[i].name != name);
    }
}

/// The view of an optional commit of a store.
pub open spec fn found_view(found: Result<Option<&Commit>, ResolveError>) -> Result<
    Option<CommitView>,
    ResolveError,
> {
    match found {
        Ok(commit) => Ok(commit_view(commit)),
        Err(e) => Err(e),
    }
}

/// The commit that `commit_ref` stands for in `store`.
pub fn resolve_commit<'a>(store: &'a ObjectStore, commit_ref: Option<&str>) -> (found: Result<
    Option<&'a Commit>,
    ResolveError,
>)
    ensures
        found_view(found) == store@.resolve_commit(option_text(commit_ref)),
{
    let wanted: String = match commit_ref {
        Some(r) => {
            if r.is_empty() {
                return Ok(head_of(store));
            }
            r.to_owned()
        },
        None => {
            return Ok(head_of(store));
        },
    };
    let ghost view = store@;
    let mut i: usize = 0;
    while i < store.commits.len()
        invariant
            i <= store.commits@.len(),
            view == store@,
            option_text(commit_ref) == Some(wanted@),
            wanted@.len() > 0,
            forall|j: int| 0 <= j < i ==> (#[trigger] view.commits[j]).id != wanted@,
        decreases store.commits@.len() - i,
    {
        if store.commits[i].id == wanted {
            proof {
                lemma_commit_by_id(view, wanted@, i as int);
            }
            return Ok(Some(&store.commits[i]));
        }
        i += 1;
    }
    assert(view.commit_by_id(wanted@) is None) by {
        assert forall|k: int| !is_first_commit(view.commits, wanted@, k) by {
            if 0 <= k < view.commits.len() {
                assert(view.commits[k].id != wanted@);
            }
        }
    }
    let mut r: usize = 0;
    while r < store.references.len()
        invariant
            r <= store.references@.len(),
            view == store@,
            option_text(commit_ref) == Some(wanted@),
            wanted@.len() > 0,
            view.commit_by_id(wanted@) is None,
            forall|j: int| 0 <= j < r ==> (#[trigger] view.references[j]).name != wanted@,
        decreases store.references@.len() - r,
    {
        if store.references[r].name == wanted {
            proof {
                lemma_commit_by_name(view, wanted@, r as int);
            }
            let at = store.references[r].commit;
            if at < store.commits.len() {
                return Ok(Some(&store.commits[at]));
            }
            return Err(ResolveError::CommitNotFound);
        }
        r += 1;
    }
    assert(view.commit_by_name(wanted@) is None) by {
        assert forall|k: int| !is_first_reference(view.references, wanted@, k) by {
            if 0 <= k < view.references.len() {
                assert(view.references[k].name != wanted@);
            }
        }
    }
    Err(ResolveError::CommitNotFound)
}

/// The head commit of the default branch of `store`, if it has one.
pub fn head_of<'a>(store: &'a ObjectStore) -> (head: Option<&'a Commit>)
    ensures
        commit_view(head) == store@.head_commit(),
{
    match store.head {
        Some(h) => {
            if h < store.commits.len() {
                Some(&store.commits[h])
            } else {
                None
            }
        },
        None => None,
    }
}

/// The entries of the root tree of `commit` in `store`.
pub fn root_of<'a>(store: &'a ObjectStore, commit: &Commit) -> (root: &'a [StoredEntry])
    ensures
        entries_view(root@) == store@.root_entries(commit@),
{
    let none: &'a [StoredEntry] = &[];
    if commit.tree < store.objects.len() {
        match as_tree(&store.objects[commit.tree]) {
            Some(entries) => entries,
            None => none,
        }
    } else {
        none
    }
}

/// Resolves `path` at `commit_ref` in the store of `handle`.
///
/// The result is what `StoreView::resolve` yields: the commit not found, the
/// path not found, the boundary of an embedded repository, or the tree or blob
/// that the path names in the commit that the reference stands for. A
/// repository without commits resolves, at an absent reference and an empty
/// path, to an empty listing with no commit.
pub fn resolve_path<'a>(handle: &'a Handle<'_>, commit_ref: Option<&str>, path: Option<&str>) -> (outcome:
    Result<PathResolution<'a>, ResolveError>)
    ensures
        outcome_view(outcome) == handle.store_view().resolve(
            option_text(commit_ref),
            option_text(path),
        ),
{
    let store = handle.store();
    let commit = match resolve_commit(store, commit_ref) {
        Ok(commit) => commit,
        Err(e) => {
            return Err(e);
        },
    };
    let root: &'a [StoredEntry] = match commit {
        Some(c) => root_of(store, c),
        None => {
            let none: &'a [StoredEntry] = &[];
            assert(entries_view(none@) =~= Seq::empty());
            none
        },
    };
    match path {
        Some(p) => walk(store, commit, root, p),
        None => {
            proof {
                reveal_strlit("");
                crate::path::lemma_split_empty();
            }
            walk(store, commit, root, "")
        },
    }
}

/// With at least one commit in a valid store, resolving with no reference and
/// no path yields the root tree of the head commit of the default branch.
pub proof fn lemma_default_is_head_root(store: StoreView)
    requires
        store.valid(),
        store.commits.len() > 0,
    ensures
        store.head matches Some(h) && h < store.commits.len() && store.resolve(None, None) == Ok::<
            ResolutionView,
            ResolveError,
        >(
            ResolutionView::Object {
                commit: Some(store.commits[h as int]),
                object: ResolvedView::Tree(store.root_entries(store.commits[h as int])),
            },
        ) && store.objects[store.commits[h as int].tree as int] == ObjectView::Tree(
            store.root_entries(store.commits[h as int]),
        ),
{
    let h = store.head->0;
    assert(store.valid_commit(store.commits[h as int]));
}

/// A repository without commits resolves, with no reference and no path, to an
/// empty listing with no commit.
pub proof fn lemma_empty_repository(store: StoreView)
    requires
        store.valid(),
        store.commits.len() == 0,
    ensures
        store.resolve(None, None) == Ok::<ResolutionView, ResolveError>(
            ResolutionView::Object { commit: None, object: ResolvedView::Tree(Seq::empty()) },
        ),
{
}

/// Resolution is a function of the store, the reference and the path: two
/// resolutions of the same three yield the same result.
pub proof fn lemma_resolution_is_determined(
    store: StoreView,
    reference: Option<Seq<char>>,
    path: Option<Seq<char>>,
    first: Result<ResolutionView, ResolveError>,
    second: Result<ResolutionView, ResolveError>,
)
    requires
        first == store.resolve(reference, path),
        second == store.resolve(reference, path),
    ensures
        first == second,
{
}

/// A resolved object stands on a commit of the store, except in a repository
/// without commits: in a valid store, the commit of a resolution is absent
/// exactly when the store has no commit, and is one of its commits otherwise.
pub proof fn lemma_commit_is_resolved(
    store: StoreView,
    reference: Option<Seq<char>>,
    path: Option<Seq<char>>,
)
    requires
        store.valid(),
        store.resolve(reference, path) matches Ok(ResolutionView::Object { .. }),
    ensures
        store.resolve(reference, path) matches Ok(ResolutionView::Object { commit, .. }) && match commit {
            None => store.commits.len() == 0,
            Some(c) => exists|i: int| 0 <= i < store.commits.len() && store.commits[i] == c,
        },
{
    let segments = match path {
        Some(p) => split(p),
        None => Seq::empty(),
    };
    match store.resolve_commit(reference) {
        Ok(None) => {
            lemma_walk_through(
                store,
                None,
                ObjectView::Tree(Seq::empty()),
                segments,
                Seq::empty(),
            );
        },
        Ok(Some(c)) => {
            lemma_walk_through(
                store,
                Some(c),
                ObjectView::Tree(store.root_entries(c)),
                segments,
                Seq::empty(),
            );
            lemma_resolved_commit_is_stored(store, reference);
        },
        Err(_) => {},
    }
}

/// The commit that a reference stands for is a commit of the store.
pub proof fn lemma_resolved_commit_is_stored(store: StoreView, reference: Option<Seq<char>>)
    requires
        store.resolve_commit(reference) matches Ok(Some(_)),
    ensures
        store.resolve_commit(reference) matches Ok(Some(c)) && exists|i: int|
            0 <= i < store.commits.len() && store.commits[i] == c,
{
    let c = store.resolve_commit(reference)->Ok_0->0;
    let by_head = reference is None || reference->0.len() == 0;
    if by_head {
        let h = store.head->0;
        assert(store.commits[h as int] == c);
    } else {
        let r = reference->0;
        if store.commit_by_id(r) is Some {
            let i = choose|i: int| is_first_commit(store.commits, r, i);
            assert(store.commits[i] == c);
        } else {
            let k = choose|k: int| is_first_reference(store.references, r, k);
            let at = store.references[k].commit;
            assert(store.commits[at as int] == c);
        }
    }
}

impl StoreView {
    /// The tree that the walk starts from at `reference`: the root tree of
    /// the commit that the reference stands for, and an empty tree where
    /// there is no commit.
    pub open spec fn start(self, reference: Option<Seq<char>>) -> Seq<EntryView> {
        match self.resolve_commit(reference) {
            Ok(Some(c)) => self.root_entries(c),
            _ => Seq::empty(),
        }
    }
}

/// In a valid store, the tree that a walk starts from holds valid entries.
pub proof fn lemma_start_is_valid(store: StoreView, reference: Option<Seq<char>>)
    requires
        store.valid(),
    ensures
        valid_entries(store.start(reference), store.objects.len()),
{
    match store.resolve_commit(reference) {
        Ok(Some(c)) => {
            lemma_resolved_commit_is_stored(store, reference);
            let i = choose|i: int| 0 <= i < store.commits.len() && store.commits[i] == c;
            assert(store.valid_commit(store.commits[i]));
            assert(crate::store::valid_object(
                store.objects[c.tree as int],
                store.objects.len(),
            ));
        },
        _ => {},
    }
}

/// Where a path resolves to a tree, the names of the tree are distinct, and
/// the path, a slash and the name of any of its entries resolve too, unless
/// the entry points to an object that is neither a tree nor a blob.
pub proof fn lemma_entries_of_resolved_tree_resolve(
    store: StoreView,
    reference: Option<Seq<char>>,
    path: Seq<char>,
    commit: Option<CommitView>,
    entries: Seq<EntryView>,
    i: int,
)
    requires
        store.valid(),
        store.resolve(reference, Some(path)) == Ok::<ResolutionView, ResolveError>(
            ResolutionView::Object { commit, object: ResolvedView::Tree(entries) },
        ),
        0 <= i < entries.len(),
        store.entry_kind(entries[i]) != EntryKind::Other,
    ensures
        unique_names(entries),
        store.resolve(reference, Some(path + seq![separator()] + entries[i].name)) is Ok,
{
    lemma_start_is_valid(store, reference);
    let found = store.resolve_commit(reference)->Ok_0;
    lemma_walk_through(
        store,
        found,
        ObjectView::Tree(store.start(reference)),
        split(path),
        Seq::empty(),
    );
    lemma_child_path_resolves(store, found, store.start(reference), path, entries, i);
}

/// Where a path resolves to a tree that holds no entry of the name `missing`,
/// the path followed by `missing`, and by anything behind it, is not found.
pub proof fn lemma_missing_is_not_found(
    store: StoreView,
    reference: Option<Seq<char>>,
    path: Seq<char>,
    missing: Seq<char>,
    rest: Seq<char>,
    commit: Option<CommitView>,
    entries: Seq<EntryView>,
)
    requires
        store.resolve(reference, Some(path)) == Ok::<ResolutionView, ResolveError>(
            ResolutionView::Object { commit, object: ResolvedView::Tree(entries) },
        ),
        is_segment(missing),
        forall|j: int| 0 <= j < entries.len() ==> (#[trigger] entries[j]).name != missing,
    ensures
        store.resolve(reference, Some(path + seq![separator()] + missing)) == Err::<
            ResolutionView,
            ResolveError,
        >(ResolveError::PathNotFound),
        store.resolve(
            reference,
            Some(path + seq![separator()] + missing + seq![separator()] + rest),
        ) == Err::<ResolutionView, ResolveError>(ResolveError::PathNotFound),
{
    let found = store.resolve_commit(reference)->Ok_0;
    lemma_walk_through(
        store,
        found,
        ObjectView::Tree(store.start(reference)),
        split(path),
        Seq::empty(),
    );
    lemma_missing_in_path(store, found, store.start(reference), path, missing, rest, entries);
}

/// Where a path resolves to a blob, the path followed by a slash and anything
/// that has a segment is not found.
pub proof fn lemma_blob_is_a_dead_end(
    store: StoreView,
    reference: Option<Seq<char>>,
    path: Seq<char>,
    rest: Seq<char>,
    commit: Option<CommitView>,
    content: Seq<u8>,
)
    requires
        store.resolve(reference, Some(path)) == Ok::<ResolutionView, ResolveError>(
            ResolutionView::Object { commit, object: ResolvedView::Blob(content) },
        ),
        split(rest).len() > 0,
    ensures
        store.resolve(reference, Some(path + seq![separator()] + rest)) == Err::<
            ResolutionView,
            ResolveError,
        >(ResolveError::PathNotFound),
{
    let found = store.resolve_commit(reference)->Ok_0;
    lemma_walk_through(
        store,
        found,
        ObjectView::Tree(store.start(reference)),
        split(path),
        Seq::empty(),
    );
    lemma_path_through_blob(store, found, store.start(reference), path, rest, content);
}

/// Where a path resolves to a tree whose entry `name` is a commit link, the
/// path followed by `name` and by `rest` resolves to the boundary of that
/// link, with `rest` as the path that remains, character for character, for
/// every `rest` written as segments with one slash between each two.
pub proof fn lemma_link_is_a_boundary(
    store: StoreView,
    reference: Option<Seq<char>>,
    path: Seq<char>,
    name: Seq<char>,
    rest: Seq<Seq<char>>,
    commit: Option<CommitView>,
    entries: Seq<EntryView>,
    location: Seq<char>,
    linked: Seq<char>,
)
    requires
        store.resolve(reference, Some(path)) == Ok::<ResolutionView, ResolveError>(
            ResolutionView::Object { commit, object: ResolvedView::Tree(entries) },
        ),
        is_segment(name),
        all_segments(rest),
        lookup(entries, name) == Some(
            EntryView { name, target: TargetView::CommitLink { location, commit: linked } },
        ),
    ensures
        store.resolve(
            reference,
            Some(path + seq![separator()] + name + seq![separator()] + join(rest)),
        ) == Ok::<ResolutionView, ResolveError>(
            ResolutionView::SubRepoBoundary { location, commit: linked, path: join(rest) },
        ),
{
    let found = store.resolve_commit(reference)->Ok_0;
    lemma_walk_through(
        store,
        found,
        ObjectView::Tree(store.start(reference)),
        split(path),
        Seq::empty(),
    );
    lemma_path_crossing_link(
        store,
        found,
        store.start(reference),
        path,
        name,
        rest,
        entries,
        location,
        linked,
    );
}

} // verus!
