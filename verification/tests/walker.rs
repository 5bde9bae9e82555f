use pmrapp::error::ResolveError;
use pmrapp::object::{EntryKind, EntryTarget, GitObject, StoredEntry};
use pmrapp::projector::{entry_kind, list_entries};
use pmrapp::resolution::{PathResolution, ResolvedObject};
use pmrapp::resolver::{head_of, resolve_commit, root_of};
use pmrapp::store::{entry_is_valid, Commit, ObjectStore, Reference};
use pmrapp::text::{push_chars, push_decimal, push_digits};
use pmrapp::walker::{find_entry, walk};

fn entry(name: &str, id: usize) -> StoredEntry {
    StoredEntry { name: name.to_string(), target: EntryTarget::Object(id) }
}

fn link(name: &str) -> StoredEntry {
    StoredEntry {
        name: name.to_string(),
        target: EntryTarget::CommitLink { location: "other/repo".to_string(), commit: "def456".to_string() },
    }
}

fn store() -> ObjectStore {
    ObjectStore {
        objects: vec![
            GitObject::Tree(vec![entry("a", 1), entry("f", 2), link("lib"), entry("gone", 9), entry("tag", 3)]),
            GitObject::Tree(vec![entry("b", 2)]),
            GitObject::Blob(vec![7, 7, 7]),
            GitObject::Other,
            GitObject::Tree(vec![]),
        ],
        commits: vec![Commit { id: "c1".to_string(), tree: 0 }, Commit { id: "c2".to_string(), tree: 4 }],
        references: vec![
            Reference { name: "main".to_string(), commit: 1 },
            Reference { name: "c1".to_string(), commit: 1 },
            Reference { name: "lost".to_string(), commit: 5 },
        ],
        head: Some(1),
    }
}

fn root(store: &ObjectStore) -> &[StoredEntry] {
    match &store.objects[0] {
        GitObject::Tree(entries) => entries,
        _ => panic!("the first object is the root"),
    }
}

#[test]
fn the_first_entry_of_a_name_is_found() {
    let entries = vec![entry("a", 1), entry("b", 2), entry("a", 3)];
    assert_eq!(find_entry(&entries, &"a".to_string()), Some(&entries[0]));
    assert_eq!(find_entry(&entries, &"b".to_string()), Some(&entries[1]));
    assert_eq!(find_entry(&entries, &"c".to_string()), None);
    assert_eq!(find_entry(&entries, &"".to_string()), None);
    assert_eq!(find_entry(&[], &"a".to_string()), None);
}

#[test]
fn a_walk_ends_at_a_tree_a_blob_or_a_boundary() {
    let store = store();
    let commit = &store.commits[0];
    match walk(&store, Some(commit), root(&store), "a") {
        Ok(PathResolution::Object { commit: Some(c), object: ResolvedObject::Tree(entries) }) => {
            assert_eq!(c.id, "c1");
            assert_eq!(entries.len(), 1);
        }
        other => panic!("{:?}", other),
    }
    match walk(&store, None, root(&store), "a/b") {
        Ok(PathResolution::Object { commit: None, object: ResolvedObject::Blob(content) }) => {
            assert_eq!(content, &[7u8, 7, 7][..]);
        }
        other => panic!("{:?}", other),
    }
    assert_eq!(
        walk(&store, None, root(&store), "lib/x/y"),
        Ok(PathResolution::SubRepoBoundary {
            location: "other/repo".to_string(),
            commit: "def456".to_string(),
            path: "x/y".to_string(),
        })
    );
}

#[test]
fn a_walk_that_leads_nowhere_is_not_found() {
    let store = store();
    for path in ["x", "a/x", "f/x", "a/b/x", "gone", "gone/x", "tag", "tag/x"] {
        assert_eq!(walk(&store, None, root(&store), path), Err(ResolveError::PathNotFound), "{:?}", path);
    }
    assert_eq!(walk(&store, None, &[], "x"), Err(ResolveError::PathNotFound));
    assert_eq!(
        walk(&store, None, &[], ""),
        Ok(PathResolution::Object { commit: None, object: ResolvedObject::Tree(&[]) })
    );
}

#[test]
fn a_reference_resolves_by_identifier_first() {
    let store = store();
    assert_eq!(resolve_commit(&store, None), Ok(Some(&store.commits[1])));
    assert_eq!(resolve_commit(&store, Some("")), Ok(Some(&store.commits[1])));
    assert_eq!(resolve_commit(&store, Some("c1")), Ok(Some(&store.commits[0])));
    assert_eq!(resolve_commit(&store, Some("c2")), Ok(Some(&store.commits[1])));
    assert_eq!(resolve_commit(&store, Some("main")), Ok(Some(&store.commits[1])));
    assert_eq!(resolve_commit(&store, Some("lost")), Err(ResolveError::CommitNotFound));
    assert_eq!(resolve_commit(&store, Some("c")), Err(ResolveError::CommitNotFound));
    assert_eq!(resolve_commit(&store, Some("C1")), Err(ResolveError::CommitNotFound));
}

#[test]
fn the_head_and_the_roots() {
    let mut store = store();
    assert_eq!(head_of(&store), Some(&store.commits[1]));
    assert_eq!(root_of(&store, &store.commits[0]).len(), 5);
    assert_eq!(root_of(&store, &store.commits[1]).len(), 0);
    assert_eq!(root_of(&store, &Commit { id: "x".to_string(), tree: 2 }).len(), 0);
    assert_eq!(root_of(&store, &Commit { id: "x".to_string(), tree: 50 }).len(), 0);
    store.head = None;
    assert_eq!(head_of(&store), None);
    assert_eq!(resolve_commit(&store, None), Ok(None));
    store.head = Some(2);
    assert_eq!(head_of(&store), None);
}

#[test]
fn entries_are_named_by_what_they_point_to() {
    let store = store();
    let kinds: Vec<EntryKind> = root(&store).iter().map(|e| entry_kind(&store, e)).collect();
    assert_eq!(kinds, vec![EntryKind::Tree, EntryKind::Blob, EntryKind::CommitLink, EntryKind::Other, EntryKind::Other]);
    let listing = list_entries(&store, root(&store));
    assert_eq!(listing.entries.len(), 5);
    assert_eq!(listing.entries[2].name, "lib");
    assert_eq!(listing.entries[2].kind, EntryKind::CommitLink);
    assert!(list_entries(&store, &[]).entries.is_empty());
}

#[test]
fn an_entry_is_valid_by_its_name_and_its_target() {
    assert!(entry_is_valid(&entry("a", 0), 1));
    assert!(!entry_is_valid(&entry("a", 1), 1));
    assert!(!entry_is_valid(&entry("a/b", 0), 1));
    assert!(!entry_is_valid(&entry("", 0), 1));
    assert!(entry_is_valid(&link("lib"), 0));
    assert!(!entry_is_valid(&link("li/b"), 0));
}

#[test]
fn texts_are_appended() {
    let mut out = String::from("n=");
    push_digits(&mut out, 0);
    push_chars(&mut out, &[',', ' ']);
    push_digits(&mut out, u64::MAX);
    push_chars(&mut out, &[]);
    push_decimal(&mut out, -7);
    assert_eq!(out, "n=0, 18446744073709551615-7");
}
