use pmrapp::error::ResolveError;
use pmrapp::object::{as_blob_bytes, as_tree, classify, EntryTarget, GitObject, ObjectKind, StoredEntry};
use pmrapp::store::{entries_are_valid, name_is_segment, open, store_is_valid, Commit, ObjectStore, Reference, Workspace};

fn row() -> Workspace {
    Workspace { id: 7, url: "https://models.example.org/w7".to_string(), description: None }
}

fn entry(name: &str, id: usize) -> StoredEntry {
    StoredEntry { name: name.to_string(), target: EntryTarget::Object(id) }
}

fn sound() -> ObjectStore {
    ObjectStore {
        objects: vec![GitObject::Tree(vec![entry("a", 1), entry("b", 1)]), GitObject::Blob(vec![1, 2, 3])],
        commits: vec![Commit { id: "c1".to_string(), tree: 0 }],
        references: vec![Reference { name: "main".to_string(), commit: 0 }],
        head: Some(0),
    }
}

fn refused(store: Option<ObjectStore>) {
    let row = row();
    match open(&row, store) {
        Err(e) => assert_eq!(e, ResolveError::RepositoryUnavailable),
        Ok(_) => panic!("this is no valid store"),
    };
}

#[test]
fn a_sound_store_opens() {
    let row = row();
    assert!(store_is_valid(&sound()));
    let handle = open(&row, Some(sound())).unwrap_or_else(|e| panic!("{:?}", e));
    assert_eq!(handle.workspace().id, 7);
    assert_eq!(handle.store(), &sound());
}

#[test]
fn a_missing_store_is_unavailable() {
    refused(None);
}

#[test]
fn a_dangling_entry_is_unavailable() {
    let mut store = sound();
    store.objects[0] = GitObject::Tree(vec![entry("a", 2)]);
    assert!(!store_is_valid(&store));
    refused(Some(store));
}

#[test]
fn a_repeated_name_is_unavailable() {
    let mut store = sound();
    store.objects[0] = GitObject::Tree(vec![entry("a", 1), entry("b", 1), entry("a", 1)]);
    refused(Some(store));
}

#[test]
fn a_name_that_is_no_segment_is_unavailable() {
    for name in ["", "a/b", "/", "a/"] {
        let mut store = sound();
        store.objects[0] = GitObject::Tree(vec![entry(name, 1)]);
        refused(Some(store));
        assert!(!name_is_segment(name));
    }
    for name in ["a", "..", ".", "a b", "ä💾"] {
        assert!(name_is_segment(name));
    }
}

#[test]
fn a_commit_without_a_tree_is_unavailable() {
    let mut store = sound();
    store.commits[0].tree = 1;
    refused(Some(store));
    let mut store = sound();
    store.commits[0].tree = 2;
    refused(Some(store));
}

#[test]
fn a_repeated_commit_is_unavailable() {
    let mut store = sound();
    store.commits.push(Commit { id: "c1".to_string(), tree: 0 });
    refused(Some(store));
}

#[test]
fn a_reference_to_no_commit_is_unavailable() {
    let mut store = sound();
    store.references.push(Reference { name: "gone".to_string(), commit: 1 });
    refused(Some(store));
}

#[test]
fn a_head_needs_a_commit_and_commits_need_a_head() {
    let mut store = sound();
    store.head = None;
    refused(Some(store));
    let mut store = sound();
    store.head = Some(1);
    refused(Some(store));
    let empty = ObjectStore { objects: vec![], commits: vec![], references: vec![], head: None };
    assert!(store_is_valid(&empty));
}

#[test]
fn entries_with_commit_links_are_valid() {
    let link = StoredEntry {
        name: "lib".to_string(),
        target: EntryTarget::CommitLink { location: "other/repo".to_string(), commit: "def456".to_string() },
    };
    assert!(entries_are_valid(&[link.clone(), entry("src", 0)], 1));
    assert!(!entries_are_valid(&[link.clone(), entry("src", 1)], 1));
    assert!(!entries_are_valid(&[link.clone(), link], 1));
    assert!(entries_are_valid(&[], 0));
}

#[test]
fn objects_are_classified_by_their_tag() {
    let tree = GitObject::Tree(vec![entry("a", 0)]);
    let blob = GitObject::Blob(vec![9, 8]);
    assert_eq!(classify(&tree), ObjectKind::Tree);
    assert_eq!(classify(&blob), ObjectKind::Blob);
    assert_eq!(classify(&GitObject::Other), ObjectKind::Other);
    assert_eq!(as_tree(&tree), Some(&[entry("a", 0)][..]));
    assert_eq!(as_tree(&blob), None);
    assert_eq!(as_tree(&GitObject::Other), None);
    assert_eq!(as_blob_bytes(&blob), Some(&[9u8, 8][..]));
    assert_eq!(as_blob_bytes(&tree), None);
    assert_eq!(as_blob_bytes(&GitObject::Other), None);
}
