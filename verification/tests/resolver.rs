use pmrapp::error::ResolveError;
use pmrapp::object::{EntryKind, EntryTarget, GitObject, StoredEntry};
use pmrapp::projector::{stream, to_object_info, to_workspace_path_info, PathObject};
use pmrapp::resolution::{PathResolution, ResolvedObject};
use pmrapp::resolver::resolve_path;
use pmrapp::store::{open, Commit, Handle, ObjectStore, Reference, Workspace};

fn workspace(id: i64) -> Workspace {
    Workspace {
        id,
        url: format!("https://models.example.org/w{}", id),
        description: Some(format!("Workspace number {}", id)),
    }
}

fn entry(name: &str, id: usize) -> StoredEntry {
    StoredEntry { name: name.to_string(), target: EntryTarget::Object(id) }
}

/// Commit `abc123`: `models/ODE.cellml`, and `README` at the root.
fn store_w1() -> ObjectStore {
    ObjectStore {
        objects: vec![
            GitObject::Tree(vec![entry("models", 1), entry("README", 3)]),
            GitObject::Tree(vec![entry("ODE.cellml", 2)]),
            GitObject::Blob(b"<model/>".to_vec()),
            GitObject::Blob(b"read me".to_vec()),
        ],
        commits: vec![Commit { id: "abc123".to_string(), tree: 0 }],
        references: vec![Reference { name: "main".to_string(), commit: 0 }],
        head: Some(0),
    }
}

/// An embedded repository `lib` at the root, beside a directory `src`.
fn store_w2() -> ObjectStore {
    ObjectStore {
        objects: vec![
            GitObject::Tree(vec![
                StoredEntry {
                    name: "lib".to_string(),
                    target: EntryTarget::CommitLink {
                        location: "other/repo".to_string(),
                        commit: "def456".to_string(),
                    },
                },
                entry("src", 1),
            ]),
            GitObject::Tree(vec![]),
        ],
        commits: vec![Commit { id: "0a1b2c".to_string(), tree: 0 }],
        references: vec![],
        head: Some(0),
    }
}

fn opened(row: &Workspace, store: ObjectStore) -> Handle<'_> {
    match open(row, Some(store)) {
        Ok(handle) => handle,
        Err(e) => panic!("the store is valid, yet: {:?}", e),
    }
}

#[test]
fn scenario_directory_lists_its_file() {
    let row = workspace(1);
    let handle = opened(&row, store_w1());
    let resolution = resolve_path(&handle, Some("abc123"), Some("models/")).unwrap_or_else(|e| panic!("{:?}", e));
    match to_object_info(handle.store(), &resolution) {
        Some(PathObject::TreeInfo(tree)) => {
            assert_eq!(tree.entries.len(), 1);
            assert_eq!(tree.entries[0].name, "ODE.cellml");
            assert_eq!(tree.entries[0].kind, EntryKind::Blob);
        }
        _ => panic!("a directory was expected"),
    }
    let info = to_workspace_path_info(handle.workspace(), handle.store(), &resolution, "models/");
    assert_eq!(info.path, "models/");
    assert_eq!(info.commit_id, Some("abc123".to_string()));
    assert_eq!(info.workspace_id, 1);
}

#[test]
fn scenario_file_has_its_size() {
    let row = workspace(1);
    let handle = opened(&row, store_w1());
    let resolution = resolve_path(&handle, Some("abc123"), Some("models/ODE.cellml")).unwrap_or_else(|e| panic!("{:?}", e));
    match to_object_info(handle.store(), &resolution) {
        Some(PathObject::FileInfo(file)) => assert_eq!(file.size, 8),
        _ => panic!("a file was expected"),
    }
    assert_eq!(stream(&resolution), Ok(b"<model/>".to_vec()));
    let info = to_workspace_path_info(handle.workspace(), handle.store(), &resolution, "/models//ODE.cellml");
    assert_eq!(info.path, "models/ODE.cellml");
}

#[test]
fn scenario_missing_file_is_not_found() {
    let row = workspace(1);
    let handle = opened(&row, store_w1());
    match resolve_path(&handle, Some("abc123"), Some("models/missing.txt")) {
        Err(e) => assert_eq!(e, ResolveError::PathNotFound),
        Ok(_) => panic!("nothing is there"),
    }
}

#[test]
fn scenario_embedded_repository_is_a_boundary() {
    let row = workspace(2);
    let handle = opened(&row, store_w2());
    match resolve_path(&handle, None, Some("lib/src/a.c")) {
        Ok(PathResolution::SubRepoBoundary { location, commit, path }) => {
            assert_eq!(location, "other/repo");
            assert_eq!(commit, "def456");
            assert_eq!(path, "src/a.c");
        }
        _ => panic!("a boundary was expected"),
    }
}

#[test]
fn scenario_empty_workspace_resolves_to_empty_listing() {
    let store = ObjectStore { objects: vec![], commits: vec![], references: vec![], head: None };
    let row = workspace(3);
    let handle = opened(&row, store);
    match resolve_path(&handle, None, None) {
        Ok(PathResolution::Object { commit, object: ResolvedObject::Tree(entries) }) => {
            assert!(commit.is_none());
            assert!(entries.is_empty());
        }
        _ => panic!("an empty listing was expected"),
    }
}

#[test]
fn default_reference_and_no_path_give_the_root_of_the_head() {
    let row = workspace(1);
    let mut store = store_w1();
    store.objects.push(GitObject::Tree(vec![entry("later", 3)]));
    store.commits.push(Commit { id: "fff999".to_string(), tree: 4 });
    store.head = Some(1);
    let handle = opened(&row, store);
    for reference in [None, Some("")] {
        match resolve_path(&handle, reference, None) {
            Ok(PathResolution::Object { commit: Some(commit), object: ResolvedObject::Tree(entries) }) => {
                assert_eq!(commit.id, "fff999");
                assert_eq!(entries.len(), 1);
                assert_eq!(entries[0].name, "later");
            }
            other => panic!("the root of the head was expected, not {:?}", other),
        }
    }
}

#[test]
fn a_reference_is_a_commit_identifier_or_a_symbolic_name() {
    let row = workspace(1);
    let handle = opened(&row, store_w1());
    for reference in ["abc123", "main"] {
        match resolve_path(&handle, Some(reference), Some("README")) {
            Ok(PathResolution::Object { commit: Some(commit), object: ResolvedObject::Blob(content) }) => {
                assert_eq!(commit.id, "abc123");
                assert_eq!(content, b"read me");
            }
            other => panic!("a file was expected, not {:?}", other),
        }
    }
}

#[test]
fn an_unknown_reference_is_commit_not_found() {
    let row = workspace(1);
    let handle = opened(&row, store_w1());
    assert_eq!(resolve_path(&handle, Some("abc12"), None), Err(ResolveError::CommitNotFound));
    assert_eq!(resolve_path(&handle, Some("develop"), Some("README")), Err(ResolveError::CommitNotFound));
    let empty = ObjectStore { objects: vec![], commits: vec![], references: vec![], head: None };
    let handle = opened(&row, empty);
    assert_eq!(resolve_path(&handle, Some("abc123"), None), Err(ResolveError::CommitNotFound));
}

#[test]
fn slashes_around_and_between_segments_are_tolerated() {
    let row = workspace(1);
    let handle = opened(&row, store_w1());
    for path in ["models/ODE.cellml", "/models/ODE.cellml", "models//ODE.cellml", "models/ODE.cellml/", "//models///ODE.cellml//"] {
        match resolve_path(&handle, None, Some(path)) {
            Ok(PathResolution::Object { object: ResolvedObject::Blob(content), .. }) => assert_eq!(content, b"<model/>"),
            other => panic!("{:?} should name the file, not {:?}", path, other),
        }
    }
    for path in ["", "/", "//"] {
        match resolve_path(&handle, None, Some(path)) {
            Ok(PathResolution::Object { object: ResolvedObject::Tree(entries), .. }) => assert_eq!(entries.len(), 2),
            other => panic!("{:?} should name the root, not {:?}", path, other),
        }
    }
}

#[test]
fn a_missing_segment_is_not_found_wherever_it_stands() {
    let row = workspace(1);
    let handle = opened(&row, store_w1());
    for path in ["missing", "missing/ODE.cellml", "models/missing", "models/missing/deeper", "..", "models/.."] {
        assert_eq!(resolve_path(&handle, None, Some(path)), Err(ResolveError::PathNotFound), "{:?}", path);
    }
}

#[test]
fn there_is_no_descending_through_a_file() {
    let row = workspace(1);
    let handle = opened(&row, store_w1());
    assert_eq!(resolve_path(&handle, None, Some("README/more")), Err(ResolveError::PathNotFound));
    assert_eq!(resolve_path(&handle, None, Some("models/ODE.cellml/x/y")), Err(ResolveError::PathNotFound));
}

#[test]
fn a_boundary_keeps_the_rest_of_the_path() {
    let row = workspace(2);
    let handle = opened(&row, store_w2());
    for (path, rest) in [("lib", ""), ("lib/", ""), ("lib/a", "a"), ("/lib//src///a.c/", "src/a.c"), ("lib/../x", "../x")] {
        match resolve_path(&handle, None, Some(path)) {
            Ok(PathResolution::SubRepoBoundary { location, commit, path: remaining }) => {
                assert_eq!(location, "other/repo");
                assert_eq!(commit, "def456");
                assert_eq!(remaining, rest);
            }
            other => panic!("a boundary was expected at {:?}, not {:?}", path, other),
        }
    }
}

#[test]
fn a_boundary_is_neither_listed_nor_streamed() {
    let row = workspace(2);
    let handle = opened(&row, store_w2());
    let resolution = resolve_path(&handle, None, Some("lib/src")).unwrap_or_else(|e| panic!("{:?}", e));
    assert_eq!(to_object_info(handle.store(), &resolution), None);
    assert_eq!(stream(&resolution), Err(ResolveError::NotABlob));
    let info = to_workspace_path_info(handle.workspace(), handle.store(), &resolution, "lib/src");
    assert_eq!(info.object, None);
    assert_eq!(info.commit_id, None);
    assert_eq!(info.path, "lib/src");
}

#[test]
fn a_directory_is_not_a_blob() {
    let row = workspace(1);
    let handle = opened(&row, store_w1());
    let resolution = resolve_path(&handle, None, Some("models")).unwrap_or_else(|e| panic!("{:?}", e));
    assert_eq!(stream(&resolution), Err(ResolveError::NotABlob));
}

#[test]
fn an_object_that_is_neither_tree_nor_blob_is_not_found() {
    let row = workspace(4);
    let store = ObjectStore {
        objects: vec![GitObject::Tree(vec![entry("tag", 1), entry("file", 2)]), GitObject::Other, GitObject::Blob(vec![])],
        commits: vec![Commit { id: "c0".to_string(), tree: 0 }],
        references: vec![],
        head: Some(0),
    };
    let handle = opened(&row, store);
    assert_eq!(resolve_path(&handle, None, Some("tag")), Err(ResolveError::PathNotFound));
    assert_eq!(resolve_path(&handle, None, Some("tag/x")), Err(ResolveError::PathNotFound));
    let root = resolve_path(&handle, None, None).unwrap_or_else(|e| panic!("{:?}", e));
    match to_object_info(handle.store(), &root) {
        Some(PathObject::TreeInfo(tree)) => {
            assert_eq!(tree.entries[0].kind, EntryKind::Other);
            assert_eq!(tree.entries[1].kind, EntryKind::Blob);
        }
        other => panic!("a directory was expected, not {:?}", other),
    }
    match to_object_info(handle.store(), &resolve_path(&handle, None, Some("file")).unwrap_or_else(|e| panic!("{:?}", e))) {
        Some(PathObject::FileInfo(file)) => assert_eq!(file.size, 0),
        other => panic!("a file was expected, not {:?}", other),
    }
}

#[test]
fn every_entry_of_a_resolved_directory_resolves() {
    let row = workspace(1);
    let handle = opened(&row, store_w1());
    for directory in ["", "models"] {
        let names: Vec<String> = match resolve_path(&handle, None, Some(directory)) {
            Ok(PathResolution::Object { object: ResolvedObject::Tree(entries), .. }) => entries.iter().map(|e| e.name.clone()).collect(),
            other => panic!("a directory was expected, not {:?}", other),
        };
        assert!(!names.is_empty());
        for (i, name) in names.iter().enumerate() {
            assert!(!names[..i].contains(name));
            assert!(resolve_path(&handle, None, Some(&format!("{}/{}", directory, name))).is_ok());
        }
    }
}

#[test]
fn resolving_twice_gives_the_same_shape() {
    let row = workspace(1);
    let handle = opened(&row, store_w1());
    for path in ["", "models/", "models/ODE.cellml"] {
        let first = resolve_path(&handle, Some("abc123"), Some(path)).unwrap_or_else(|e| panic!("{:?}", e));
        let second = resolve_path(&handle, Some("abc123"), Some(path)).unwrap_or_else(|e| panic!("{:?}", e));
        assert_eq!(
            to_workspace_path_info(handle.workspace(), handle.store(), &first, path),
            to_workspace_path_info(handle.workspace(), handle.store(), &second, path)
        );
    }
}

#[test]
fn the_path_of_a_shape_is_in_normal_form() {
    let row = workspace(1);
    let handle = opened(&row, store_w1());
    for (requested, shown) in [("", ""), ("/", ""), ("models", "models/"), ("/models//", "models/"), ("models/ODE.cellml/", "models/ODE.cellml")] {
        let resolution = resolve_path(&handle, None, Some(requested)).unwrap_or_else(|e| panic!("{:?}", e));
        let info = to_workspace_path_info(handle.workspace(), handle.store(), &resolution, requested);
        assert_eq!(info.path, shown);
        assert_eq!(info.workspace_url, "https://models.example.org/w1");
        assert_eq!(info.workspace_description, Some("Workspace number 1".to_string()));
    }
}

#[test]
fn the_empty_workspace_has_an_empty_shape() {
    let row = workspace(3);
    let store = ObjectStore { objects: vec![], commits: vec![], references: vec![], head: None };
    let handle = opened(&row, store);
    let resolution = resolve_path(&handle, None, None).unwrap_or_else(|e| panic!("{:?}", e));
    let info = to_workspace_path_info(handle.workspace(), handle.store(), &resolution, "");
    assert_eq!(info.commit_id, None);
    assert_eq!(info.path, "");
    match info.object {
        Some(PathObject::TreeInfo(tree)) => assert!(tree.entries.is_empty()),
        other => panic!("an empty listing was expected, not {:?}", other),
    }
    assert_eq!(resolve_path(&handle, None, Some("anything")), Err(ResolveError::PathNotFound));
}
