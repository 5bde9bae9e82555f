//! The path walker: from a root tree, one segment at a time, down to the object
//! that a path names, or to the boundary of an embedded repository.

use vstd::prelude::*;
use crate::error::ResolveError;
use crate::object::{entries_view, EntryKind, EntryTarget, EntryView, GitObject, ObjectView, StoredEntry, TargetView};
use crate::path::{
    all_segments, is_segment, join, join_from, lemma_split_child, lemma_split_concat,
    lemma_split_join, separator, split, split_path,
};
use crate::resolution::{commit_view, PathResolution, ResolutionView, ResolvedObject, ResolvedView};
use crate::store::{unique_names, valid_entries, valid_object, Commit, CommitView, ObjectStore, StoreView};

verus! {

/// `entries[i]` is the first entry that bears `name`.
pub open spec fn is_first(entries: Seq<EntryView>, name: Seq<char>, i: int) -> bool {
    &&& 0 <= i < entries.len()
    &&& entries[i].name == name
    &&& forall|j: int| 0 <= j < i ==> (#[trigger] entries[j]).name != name
}

/// The first entry that bears exactly `name`, if there is one.
pub open spec fn lookup(entries: Seq<EntryView>, name: Seq<char>) -> Option<EntryView> {
    if exists|i: int| is_first(entries, name, i) {
        Some(entries[choose|i: int| is_first(entries, name, i)])
    } else {
        None
    }
}

/// The first entry that bears `name` is what `lookup` finds.
pub proof fn lemma_lookup_first(entries: Seq<EntryView>, name: Seq<char>, i: int)
    requires
        is_first(entries, name, i),
    ensures
        lookup(entries, name) == Some(entries[i]),
{
    let chosen = choose|k: int| is_first(entries, name, k);
    assert(is_first(entries, name, chosen));
    if chosen < i {
        assert(entries[chosen].name != name);
    }
    if i < chosen {
        assert(entries[i].name != name);
    }
}

/// Where no entry bears `name`, `lookup` finds nothing; and the other way round.
pub proof fn lemma_lookup_none(entries: Seq<EntryView>, name: Seq<char>)
    ensures
        lookup(entries, name) is None <==> forall|j: int|
            0 <= j < entries.len() ==> (#[trigger] entries[j]).name != name,
{
    if forall|j: int| 0 <= j < entries.len() ==> (#[trigger] entries[j]).name != name {
        assert forall|i: int| !is_first(entries, name, i) by {
            if 0 <= i < entries.len() {
                assert(entries[i].name != name);
            }
        }
    } else {
        let j = choose|j: int| 0 <= j < entries.len() && (#[trigger] entries[j]).name == name;
        lemma_first_exists(entries, name, j);
    }
}

/// Where some entry bears `name`, there is a first one.
proof fn lemma_first_exists(entries: Seq<EntryView>, name: Seq<char>, j: int)
    requires
        0 <= j < entries.len(),
        entries[j].name == name,
    ensures
        exists|i: int| is_first(entries, name, i),
    decreases j,
{
    if forall|k: int| 0 <= k < j ==> (#[trigger] entries[k]).name != name {
        assert(is_first(entries, name, j));
    } else {
        let k = choose|k: int| 0 <= k < j && (#[trigger] entries[k]).name == name;
        lemma_first_exists(entries, name, k);
    }
}

/// In a tree whose names are distinct, `lookup` finds each entry by its name.
pub proof fn lemma_lookup_unique(entries: Seq<EntryView>, i: int)
    requires
        unique_names(entries),
        0 <= i < entries.len(),
    ensures
        lookup(entries, entries[i].name) == Some(entries[i]),
{
    assert forall|j: int| 0 <= j < i implies (#[trigger] entries[j]).name != entries[i].name by {
        assert(entries[j].name != entries[i].name);
    }
    lemma_lookup_first(entries, entries[i].name, i);
}

impl StoreView {
    /// What `entry` names: a commit link, or the kind of the object it points
    /// to. An entry that points to no object of the store names nothing a
    /// path can reach.
    pub open spec fn entry_kind(self, entry: EntryView) -> EntryKind {
        match entry.target {
            TargetView::CommitLink { .. } => EntryKind::CommitLink,
            TargetView::Object(id) => if id < self.objects.len() {
                match self.objects[id as int] {
                    ObjectView::Tree(_) => EntryKind::Tree,
                    ObjectView::Blob(_) => EntryKind::Blob,
                    ObjectView::Other => EntryKind::Other,
                }
            } else {
                EntryKind::Other
            },
        }
    }
}

/// What walking `segments` from `object` yields.
///
/// With no segment left, a tree or a blob is the result, and anything else is
/// not found. With a segment left, the object must be a tree that has an entry
/// of exactly that name. An entry that is a commit link ends the walk at the
/// boundary, with the segments not yet walked joined as the path that remains;
/// any other entry leads to the object it points to, from which the walk goes
/// on. An entry that points to no object of the store leads nowhere: such a
/// path is not found.
pub open spec fn walk_spec(
    store: StoreView,
    commit: Option<CommitView>,
    object: ObjectView,
    segments: Seq<Seq<char>>,
) -> Result<ResolutionView, ResolveError>
    decreases segments.len(),
{
    if segments.len() == 0 {
        match object {
            ObjectView::Tree(entries) => Ok(
                ResolutionView::Object { commit, object: ResolvedView::Tree(entries) },
            ),
            ObjectView::Blob(content) => Ok(
                ResolutionView::Object { commit, object: ResolvedView::Blob(content) },
            ),
            ObjectView::Other => Err(ResolveError::PathNotFound),
        }
    } else {
        match object {
            ObjectView::Tree(entries) => match lookup(entries, segments[0]) {
                None => Err(ResolveError::PathNotFound),
                Some(entry) => match entry.target {
                    TargetView::CommitLink { location, commit: linked } => Ok(
                        ResolutionView::SubRepoBoundary {
                            location,
                            commit: linked,
                            path: join(segments.drop_first()),
                        },
                    ),
                    TargetView::Object(id) => if id < store.objects.len() {
                        walk_spec(store, commit, store.objects[id as int], segments.drop_first())
                    } else {
                        Err(ResolveError::PathNotFound)
                    },
                },
            },
            _ => Err(ResolveError::PathNotFound),
        }
    }
}

/// The view of the outcome of a resolution.
pub open spec fn outcome_view(outcome: Result<PathResolution, ResolveError>) -> Result<
    ResolutionView,
    ResolveError,
> {
    match outcome {
        Ok(resolution) => Ok(resolution@),
        Err(e) => Err(e),
    }
}

/// The first entry of `entries` that bears `name`.
pub fn find_entry<'a>(entries: &'a [StoredEntry], name: &String) -> (found: Option<
    &'a StoredEntry,
>)
    ensures
        match found {
            Some(entry) => lookup(entries_view(entries@), name@) == Some(entry@),
            None => lookup(entries_view(entries@), name@) is None,
        },
{
    let ghost listing = entries_view(entries@);
    let mut i: usize = 0;
    while i < entries.len()
        invariant
            i <= entries@.len(),
            listing == entries_view(entries@),
            forall|j: int| 0 <= j < i ==> (#[trigger] listing[j]).name != name@,
        decreases entries@.len() - i,
    {
        if entries[i].name == *name {
            proof {
                lemma_lookup_first(listing, name@, i as int);
            }
            return Some(&entries[i]);
        }
        i += 1;
    }
    proof {
        lemma_lookup_none(listing, name@);
    }
    None
}

/// Walks `path` from the tree `root` of `commit` in `store`.
///
/// `path` is split on `/`; empty segments are dropped, so a leading, trailing
/// or doubled slash and the empty path are all accepted. The result is what
/// `walk_spec` yields for those segments: the object at the end of the path,
/// the boundary of the first embedded repository on the way, or
/// `PathNotFound`.
pub fn walk<'a>(
    store: &'a ObjectStore,
    commit: Option<&'a Commit>,
    root: &'a [StoredEntry],
    path: &str,
) -> (outcome: Result<PathResolution<'a>, ResolveError>)
    ensures
        outcome_view(outcome) == walk_spec(
            store@,
            commit_view(commit),
            ObjectView::Tree(entries_view(root@)),
            split(path@),
        ),
{
    let segments = split_path(path);
    let ghost names = segments.deep_view();
    let ghost whole = walk_spec(
        store@,
        commit_view(commit),
        ObjectView::Tree(entries_view(root@)),
        names,
    );
    let mut tree: &'a [StoredEntry] = root;
    let mut i: usize = 0;
    proof {
        assert(names.skip(0) =~= names);
    }
    while i < segments.len()
        invariant
            i <= segments.len(),
            names == segments.deep_view(),
            names == split(path@),
            whole == walk_spec(
                store@,
                commit_view(commit),
                ObjectView::Tree(entries_view(root@)),
                names,
            ),
            whole == walk_spec(
                store@,
                commit_view(commit),
                ObjectView::Tree(entries_view(tree@)),
                names.skip(i as int),
            ),
        decreases segments.len() - i,
    {
        let ghost rest = names.skip(i as int);
        proof {
            assert(rest[0] == segments[i as int]@);
            assert(rest.drop_first() =~= names.skip(i + 1));
        }
        match find_entry(tree, &segments[i]) {
            None => {
                return Err(ResolveError::PathNotFound);
            },
            Some(entry) => match &entry.target {
                EntryTarget::CommitLink { location, commit: linked } => {
                    let remaining = join_from(&segments, i + 1);
                    return Ok(
                        PathResolution::SubRepoBoundary {
                            location: location.clone(),
                            commit: linked.clone(),
                            path: remaining,
                        },
                    );
                },
                EntryTarget::Object(id) => {
                    if *id >= store.objects.len() {
                        return Err(ResolveError::PathNotFound);
                    }
                    let ghost next = walk_spec(
                        store@,
                        commit_view(commit),
                        store@.objects[*id as int],
                        names.skip(i + 1),
                    );
                    assert(whole == next);
                    match &store.objects[*id] {
                        GitObject::Tree(entries) => {
                            tree = entries.as_slice();
                        },
                        GitObject::Blob(content) => {
                            if i + 1 < segments.len() {
                                assert(names.skip(i + 1).len() > 0);
                                return Err(ResolveError::PathNotFound);
                            }
                            assert(names.skip(i + 1).len() == 0);
                            return Ok(
                                PathResolution::Object {
                                    commit,
                                    object: ResolvedObject::Blob(content.as_slice()),
                                },
                            );
                        },
                        GitObject::Other => {
                            return Err(ResolveError::PathNotFound);
                        },
                    }
                },
            },
        }
        i += 1;
    }
    Ok(PathResolution::Object { commit, object: ResolvedObject::Tree(tree) })
}

/// A walk that reaches an object goes on from there: walking `first` and then
/// `rest` is walking `rest` from the object that `first` reaches.
pub proof fn lemma_walk_through(
    store: StoreView,
    commit: Option<CommitView>,
    start: ObjectView,
    first: Seq<Seq<char>>,
    rest: Seq<Seq<char>>,
)
    requires
        walk_spec(store, commit, start, first) matches Ok(ResolutionView::Object { .. }),
    ensures
        walk_spec(store, commit, start, first) matches Ok(
            ResolutionView::Object { commit: same, object },
        ) && same == commit && walk_spec(store, commit, start, first + rest) == walk_spec(
            store,
            commit,
            object.as_object(),
            rest,
        ),
    decreases first.len(),
{
    if first.len() == 0 {
        assert(first + rest =~= rest);
    } else {
        let whole = first + rest;
        assert(whole[0] == first[0]);
        assert(whole.drop_first() =~= first.drop_first() + rest);
        match start {
            ObjectView::Tree(entries) => {
                let entry = lookup(entries, first[0])->0;
                match entry.target {
                    TargetView::Object(id) => {
                        lemma_walk_through(
                            store,
                            commit,
                            store.objects[id as int],
                            first.drop_first(),
                            rest,
                        );
                    },
                    _ => {},
                }
            },
            _ => {},
        }
    }
}

/// In a valid store, a walk that starts at a valid object ends at a valid one:
/// the tree it reaches has entries with distinct names that are segments.
pub proof fn lemma_walk_reaches_valid(
    store: StoreView,
    commit: Option<CommitView>,
    start: ObjectView,
    segments: Seq<Seq<char>>,
)
    requires
        store.valid(),
        valid_object(start, store.objects.len()),
        walk_spec(store, commit, start, segments) matches Ok(ResolutionView::Object { .. }),
    ensures
        walk_spec(store, commit, start, segments) matches Ok(
            ResolutionView::Object { object, .. },
        ) && valid_object(object.as_object(), store.objects.len()),
    decreases segments.len(),
{
    if segments.len() > 0 {
        match start {
            ObjectView::Tree(entries) => {
                let entry = lookup(entries, segments[0])->0;
                match entry.target {
                    TargetView::Object(id) => {
                        lemma_walk_reaches_valid(
                            store,
                            commit,
                            store.objects[id as int],
                            segments.drop_first(),
                        );
                    },
                    _ => {},
                }
            },
            _ => {},
        }
    }
}

/// Every entry of a tree that a walk reaches can itself be walked to.
///
/// In a valid store, where walking `segments` from `root` reaches a tree, the
/// names of that tree are distinct, and walking on by the name of any of its
/// entries succeeds, unless the entry points to an object that is neither a
/// tree nor a blob.
pub proof fn lemma_entries_resolve(
    store: StoreView,
    commit: Option<CommitView>,
    root: Seq<EntryView>,
    segments: Seq<Seq<char>>,
    entries: Seq<EntryView>,
    i: int,
)
    requires
        store.valid(),
        valid_entries(root, store.objects.len()),
        walk_spec(store, commit, ObjectView::Tree(root), segments) == Ok::<
            ResolutionView,
            ResolveError,
        >(ResolutionView::Object { commit, object: ResolvedView::Tree(entries) }),
        0 <= i < entries.len(),
        store.entry_kind(entries[i]) != EntryKind::Other,
    ensures
        unique_names(entries),
        is_segment(entries[i].name),
        walk_spec(store, commit, ObjectView::Tree(root), segments.push(entries[i].name)) is Ok,
{
    let start = ObjectView::Tree(root);
    lemma_walk_reaches_valid(store, commit, start, segments);
    let name = entries[i].name;
    lemma_walk_through(store, commit, start, segments, seq![name]);
    assert(segments + seq![name] =~= segments.push(name));
    lemma_lookup_unique(entries, i);
    let last = seq![name];
    assert(last[0] == name);
    assert(last.drop_first().len() == 0);
    let from_tree = walk_spec(store, commit, ObjectView::Tree(entries), last);
    match entries[i].target {
        TargetView::Object(id) => {
            assert(from_tree == walk_spec(
                store,
                commit,
                store.objects[id as int],
                last.drop_first(),
            ));
        },
        _ => {},
    }
}

/// The same, said of paths: where `path` resolves to a tree, `path`, a slash
/// and the name of an entry of that tree resolve too.
pub proof fn lemma_child_path_resolves(
    store: StoreView,
    commit: Option<CommitView>,
    root: Seq<EntryView>,
    path: Seq<char>,
    entries: Seq<EntryView>,
    i: int,
)
    requires
        store.valid(),
        valid_entries(root, store.objects.len()),
        walk_spec(store, commit, ObjectView::Tree(root), split(path)) == Ok::<
            ResolutionView,
            ResolveError,
        >(ResolutionView::Object { commit, object: ResolvedView::Tree(entries) }),
        0 <= i < entries.len(),
        store.entry_kind(entries[i]) != EntryKind::Other,
    ensures
        unique_names(entries),
        walk_spec(
            store,
            commit,
            ObjectView::Tree(root),
            split(path + seq![separator()] + entries[i].name),
        ) is Ok,
{
    lemma_entries_resolve(store, commit, root, split(path), entries, i);
    lemma_split_child(path, entries[i].name);
}

/// A segment that the tree reached so far does not hold makes the whole path
/// not found, wherever in the path it stands and whatever follows it.
pub proof fn lemma_missing_segment(
    store: StoreView,
    commit: Option<CommitView>,
    root: Seq<EntryView>,
    before: Seq<Seq<char>>,
    missing: Seq<char>,
    after: Seq<Seq<char>>,
    entries: Seq<EntryView>,
)
    requires
        walk_spec(store, commit, ObjectView::Tree(root), before) == Ok::<
            ResolutionView,
            ResolveError,
        >(ResolutionView::Object { commit, object: ResolvedView::Tree(entries) }),
        forall|j: int| 0 <= j < entries.len() ==> (#[trigger] entries[j]).name != missing,
    ensures
        walk_spec(store, commit, ObjectView::Tree(root), before + seq![missing] + after) == Err::<
            ResolutionView,
            ResolveError,
        >(ResolveError::PathNotFound),
{
    let rest = seq![missing] + after;
    lemma_walk_through(store, commit, ObjectView::Tree(root), before, rest);
    assert(before + rest =~= before + seq![missing] + after);
    assert(rest[0] == missing);
    lemma_lookup_none(entries, missing);
}

/// A path that goes on after a blob is not found: there is no descending
/// through a file.
pub proof fn lemma_through_blob(
    store: StoreView,
    commit: Option<CommitView>,
    root: Seq<EntryView>,
    before: Seq<Seq<char>>,
    after: Seq<Seq<char>>,
    content: Seq<u8>,
)
    requires
        walk_spec(store, commit, ObjectView::Tree(root), before) == Ok::<
            ResolutionView,
            ResolveError,
        >(ResolutionView::Object { commit, object: ResolvedView::Blob(content) }),
        after.len() > 0,
    ensures
        walk_spec(store, commit, ObjectView::Tree(root), before + after) == Err::<
            ResolutionView,
            ResolveError,
        >(ResolveError::PathNotFound),
{
    lemma_walk_through(store, commit, ObjectView::Tree(root), before, after);
}

/// A path that crosses a commit link ends at the boundary: the result names
/// the location and the commit of the link, and the segments behind the link,
/// joined, exactly as they were.
pub proof fn lemma_crossing_link(
    store: StoreView,
    commit: Option<CommitView>,
    root: Seq<EntryView>,
    before: Seq<Seq<char>>,
    name: Seq<char>,
    after: Seq<Seq<char>>,
    entries: Seq<EntryView>,
    location: Seq<char>,
    linked: Seq<char>,
)
    requires
        walk_spec(store, commit, ObjectView::Tree(root), before) == Ok::<
            ResolutionView,
            ResolveError,
        >(ResolutionView::Object { commit, object: ResolvedView::Tree(entries) }),
        lookup(entries, name) == Some(
            EntryView { name, target: TargetView::CommitLink { location, commit: linked } },
        ),
    ensures
        walk_spec(store, commit, ObjectView::Tree(root), before + seq![name] + after) == Ok::<
            ResolutionView,
            ResolveError,
        >(ResolutionView::SubRepoBoundary { location, commit: linked, path: join(after) }),
{
    let rest = seq![name] + after;
    lemma_walk_through(store, commit, ObjectView::Tree(root), before, rest);
    assert(before + rest =~= before + seq![name] + after);
    assert(rest[0] == name);
    assert(rest.drop_first() =~= after);
}

/// The same, said of paths: where `path` resolves to a tree that holds no
/// entry of the name `missing`, then `path/missing`, and `path/missing/rest`
/// for any `rest`, are not found.
pub proof fn lemma_missing_in_path(
    store: StoreView,
    commit: Option<CommitView>,
    root: Seq<EntryView>,
    path: Seq<char>,
    missing: Seq<char>,
    rest: Seq<char>,
    entries: Seq<EntryView>,
)
    requires
        walk_spec(store, commit, ObjectView::Tree(root), split(path)) == Ok::<
            ResolutionView,
            ResolveError,
        >(ResolutionView::Object { commit, object: ResolvedView::Tree(entries) }),
        is_segment(missing),
        forall|j: int| 0 <= j < entries.len() ==> (#[trigger] entries[j]).name != missing,
    ensures
        walk_spec(
            store,
            commit,
            ObjectView::Tree(root),
            split(path + seq![separator()] + missing + seq![separator()] + rest),
        ) == Err::<ResolutionView, ResolveError>(ResolveError::PathNotFound),
        walk_spec(
            store,
            commit,
            ObjectView::Tree(root),
            split(path + seq![separator()] + missing),
        ) == Err::<ResolutionView, ResolveError>(ResolveError::PathNotFound),
{
    lemma_split_child(path, missing);
    lemma_split_concat(path + seq![separator()] + missing, rest);
    lemma_missing_segment(store, commit, root, split(path), missing, split(rest), entries);
    lemma_missing_segment(store, commit, root, split(path), missing, Seq::empty(), entries);
    assert(split(path).push(missing) =~= split(path) + seq![missing]);
    assert(split(path) + seq![missing] + Seq::<Seq<char>>::empty() =~= split(path) + seq![
        missing,
    ]);
}

/// The same, said of paths: where `path` resolves to a blob and `rest` has a
/// segment, `path/rest` is not found.
pub proof fn lemma_path_through_blob(
    store: StoreView,
    commit: Option<CommitView>,
    root: Seq<EntryView>,
    path: Seq<char>,
    rest: Seq<char>,
    content: Seq<u8>,
)
    requires
        walk_spec(store, commit, ObjectView::Tree(root), split(path)) == Ok::<
            ResolutionView,
            ResolveError,
        >(ResolutionView::Object { commit, object: ResolvedView::Blob(content) }),
        split(rest).len() > 0,
    ensures
        walk_spec(
            store,
            commit,
            ObjectView::Tree(root),
            split(path + seq![separator()] + rest),
        ) == Err::<ResolutionView, ResolveError>(ResolveError::PathNotFound),
{
    lemma_split_concat(path, rest);
    lemma_through_blob(store, commit, root, split(path), split(rest), content);
}

/// The same, said of paths: where `path` resolves to a tree whose entry `name`
/// is a commit link, `path/name/rest` resolves to the boundary of that link
/// with `rest` as the path that remains, character for character, for every
/// `rest` that is written as segments with one separator between each two.
pub proof fn lemma_path_crossing_link(
    store: StoreView,
    commit: Option<CommitView>,
    root: Seq<EntryView>,
    path: Seq<char>,
    name: Seq<char>,
    rest: Seq<Seq<char>>,
    entries: Seq<EntryView>,
    location: Seq<char>,
    linked: Seq<char>,
)
    requires
        walk_spec(store, commit, ObjectView::Tree(root), split(path)) == Ok::<
            ResolutionView,
            ResolveError,
        >(ResolutionView::Object { commit, object: ResolvedView::Tree(entries) }),
        is_segment(name),
        all_segments(rest),
        lookup(entries, name) == Some(
            EntryView { name, target: TargetView::CommitLink { location, commit: linked } },
        ),
    ensures
        walk_spec(
            store,
            commit,
            ObjectView::Tree(root),
            split(path + seq![separator()] + name + seq![separator()] + join(rest)),
        ) == Ok::<ResolutionView, ResolveError>(
            ResolutionView::SubRepoBoundary { location, commit: linked, path: join(rest) },
        ),
{
    lemma_split_child(path, name);
    lemma_split_concat(path + seq![separator()] + name, join(rest));
    lemma_split_join(rest);
    assert(split(path).push(name) + rest =~= split(path) + seq![name] + rest);
    lemma_crossing_link(store, commit, root, split(path), name, rest, entries, location, linked);
}

} // verus!
