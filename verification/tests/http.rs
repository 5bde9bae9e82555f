use pmrapp::config::Config;
use pmrapp::error::ResolveError;
use pmrapp::http::api::{
    api_workspace, api_workspace_pathinfo, api_workspace_pathinfo_workspace_id,
    api_workspace_pathinfo_workspace_id_commit_id,
    api_workspace_pathinfo_workspace_id_commit_id_path, api_workspace_top, api_workspace_top_ssr,
};
use pmrapp::http::error::Error;
use pmrapp::http::page::{index, style};
use pmrapp::http::workspace::{
    raw_content, raw_workspace_pathinfo_workspace_id_commit_id_path, redirect_to, RawContent,
};
use pmrapp::object::{EntryKind, EntryTarget, GitObject, StoredEntry};
use pmrapp::projector::PathObject;
use pmrapp::store::{Commit, ObjectStore, Reference, Workspace};
use sauron::prelude::jss::json::JsonValue;

fn row() -> Workspace {
    Workspace { id: 12, url: "https://models.example.org/w12".to_string(), description: Some("Twelve".to_string()) }
}

fn entry(name: &str, id: usize) -> StoredEntry {
    StoredEntry { name: name.to_string(), target: EntryTarget::Object(id) }
}

fn store() -> ObjectStore {
    ObjectStore {
        objects: vec![
            GitObject::Tree(vec![
                entry("models", 1),
                StoredEntry {
                    name: "lib".to_string(),
                    target: EntryTarget::CommitLink { location: "other/repo".to_string(), commit: "def456".to_string() },
                },
            ]),
            GitObject::Tree(vec![entry("ODE.cellml", 2)]),
            GitObject::Blob(b"<model/>".to_vec()),
        ],
        commits: vec![Commit { id: "abc123".to_string(), tree: 0 }],
        references: vec![Reference { name: "main".to_string(), commit: 0 }],
        head: Some(0),
    }
}

fn empty() -> ObjectStore {
    ObjectStore { objects: vec![], commits: vec![], references: vec![], head: None }
}

fn broken() -> ObjectStore {
    let mut store = store();
    store.head = Some(5);
    store
}

#[test]
fn status_codes() {
    assert_eq!(Error::Unauthorized.status_code(), 401);
    assert_eq!(Error::Forbidden.status_code(), 403);
    assert_eq!(Error::NotFound.status_code(), 404);
    for e in [Error::BadRequest, Error::Error, Error::SerdeJson, Error::Sqlx, Error::Anyhow] {
        assert_eq!(e.status_code(), 500);
    }
}

#[test]
fn error_lines() {
    assert_eq!(Error::BadRequest.to_string(), "400 Bad Request");
    assert_eq!(Error::Unauthorized.to_string(), "401 Unauthorized");
    assert_eq!(Error::Forbidden.to_string(), "403 Forbidden");
    assert_eq!(Error::NotFound.to_string(), "404 Not Found");
    for e in [Error::Error, Error::SerdeJson, Error::Sqlx, Error::Anyhow] {
        assert_eq!(e.to_string(), "500 Internal Server Error");
    }
}

#[test]
fn every_failed_resolution_is_answered_with_404() {
    for e in [
        ResolveError::RepositoryUnavailable,
        ResolveError::CommitNotFound,
        ResolveError::PathNotFound,
        ResolveError::NotABlob,
    ] {
        assert_eq!(Error::from(e), Error::NotFound);
        assert_eq!(Error::from(e).status_code(), 404);
    }
}

#[test]
fn the_listing_keeps_the_rows() {
    let listing = api_workspace(vec![row(), row()]);
    assert_eq!(listing.workspaces, vec![row(), row()]);
    assert!(api_workspace(vec![]).workspaces.is_empty());
}

#[test]
fn the_top_of_a_workspace_names_its_head() {
    let record = api_workspace_top(Some(row()), Some(store())).unwrap_or_else(|e| panic!("{:?}", e));
    assert_eq!(record.workspace, row());
    assert_eq!(record.head_commit, Some("abc123".to_string()));
}

#[test]
fn the_top_of_a_workspace_without_head() {
    for repository in [None, Some(empty()), Some(broken())] {
        let record = api_workspace_top(Some(row()), repository).unwrap_or_else(|e| panic!("{:?}", e));
        assert_eq!(record.workspace, row());
        assert_eq!(record.head_commit, None);
    }
}

#[test]
fn the_top_of_an_unknown_workspace_is_not_found() {
    assert_eq!(api_workspace_top(None, Some(store())), Err(Error::NotFound));
    assert_eq!(api_workspace_top_ssr(None, Some(store())), Err(Error::NotFound));
}

#[test]
fn the_rendered_top_starts_from_the_root() {
    let (record, info) = api_workspace_top_ssr(Some(row()), Some(store())).unwrap_or_else(|e| panic!("{:?}", e));
    assert_eq!(record.head_commit, Some("abc123".to_string()));
    let info = info.unwrap_or_else(|| panic!("the root resolves"));
    assert_eq!(info.workspace_id, 12);
    assert_eq!(info.commit_id, Some("abc123".to_string()));
    assert_eq!(info.path, "");
    match info.object {
        Some(PathObject::TreeInfo(tree)) => {
            assert_eq!(tree.entries.len(), 2);
            assert_eq!(tree.entries[0].kind, EntryKind::Tree);
            assert_eq!(tree.entries[1].name, "lib");
            assert_eq!(tree.entries[1].kind, EntryKind::CommitLink);
        }
        other => panic!("a directory was expected, not {:?}", other),
    }
}

#[test]
fn the_rendered_top_of_an_empty_workspace() {
    let (record, info) = api_workspace_top_ssr(Some(row()), Some(empty())).unwrap_or_else(|e| panic!("{:?}", e));
    assert_eq!(record.head_commit, None);
    let info = info.unwrap_or_else(|| panic!("an empty workspace resolves"));
    assert_eq!(info.commit_id, None);
    match info.object {
        Some(PathObject::TreeInfo(tree)) => assert!(tree.entries.is_empty()),
        other => panic!("an empty listing was expected, not {:?}", other),
    }
}

#[test]
fn the_rendered_top_without_a_repository_is_not_found() {
    assert_eq!(api_workspace_top_ssr(Some(row()), None), Err(Error::NotFound));
    assert_eq!(api_workspace_top_ssr(Some(row()), Some(broken())), Err(Error::NotFound));
}

#[test]
fn path_info_at_the_three_arities() {
    let root = api_workspace_pathinfo_workspace_id(Some(row()), Some(store())).unwrap_or_else(|e| panic!("{:?}", e));
    assert_eq!(root.path, "");
    assert_eq!(root.commit_id, Some("abc123".to_string()));
    let at_commit = api_workspace_pathinfo_workspace_id_commit_id(Some(row()), Some(store()), "main")
        .unwrap_or_else(|e| panic!("{:?}", e));
    assert_eq!(at_commit, root);
    let file = api_workspace_pathinfo_workspace_id_commit_id_path(Some(row()), Some(store()), "abc123", "models/ODE.cellml")
        .unwrap_or_else(|e| panic!("{:?}", e));
    assert_eq!(file.path, "models/ODE.cellml");
    match file.object {
        Some(PathObject::FileInfo(info)) => assert_eq!(info.size, 8),
        other => panic!("a file was expected, not {:?}", other),
    }
    assert_eq!(
        api_workspace_pathinfo(Some(row()), Some(store()), Some("abc123"), Some("models/ODE.cellml")).map(|i| i.path),
        Ok("models/ODE.cellml".to_string())
    );
}

#[test]
fn path_info_that_does_not_resolve_is_not_found() {
    assert_eq!(api_workspace_pathinfo(None, Some(store()), None, None), Err(Error::NotFound));
    assert_eq!(api_workspace_pathinfo(Some(row()), None, None, None), Err(Error::NotFound));
    assert_eq!(api_workspace_pathinfo(Some(row()), Some(broken()), None, None), Err(Error::NotFound));
    assert_eq!(api_workspace_pathinfo(Some(row()), Some(store()), Some("nope"), None), Err(Error::NotFound));
    assert_eq!(
        api_workspace_pathinfo(Some(row()), Some(store()), Some("abc123"), Some("models/missing.txt")),
        Err(Error::NotFound)
    );
    assert_eq!(
        api_workspace_pathinfo_workspace_id_commit_id_path(Some(row()), Some(store()), "abc123", "models/missing.txt")
            .map_err(|e| e.status_code()),
        Err(404)
    );
}

#[test]
fn raw_content_of_a_file() {
    let answer = raw_workspace_pathinfo_workspace_id_commit_id_path(Some(row()), Some(store()), "abc123", "models/ODE.cellml");
    assert_eq!(answer, Ok(RawContent::Bytes(b"<model/>".to_vec())));
    assert_eq!(answer.map(|content| content.into_body()), Ok(b"<model/>".to_vec()));
}

#[test]
fn raw_content_of_a_directory_is_not_found() {
    for path in ["", "models", "models/"] {
        assert_eq!(
            raw_workspace_pathinfo_workspace_id_commit_id_path(Some(row()), Some(store()), "abc123", path),
            Err(Error::NotFound)
        );
    }
}

#[test]
fn raw_content_behind_a_boundary_is_a_redirect() {
    let answer = raw_workspace_pathinfo_workspace_id_commit_id_path(Some(row()), Some(store()), "abc123", "lib/src/a.c")
        .unwrap_or_else(|e| panic!("{:?}", e));
    assert_eq!(
        answer,
        RawContent::Redirect {
            location: "other/repo".to_string(),
            commit: "def456".to_string(),
            path: "src/a.c".to_string(),
        }
    );
    assert_eq!(answer.target(), Some("other/repo/raw/def456/src/a.c".to_string()));
    assert_eq!(answer.into_body(), b"other/repo/raw/def456/src/a.c".to_vec());
    assert_eq!(RawContent::Bytes(vec![1]).target(), None);
    assert_eq!(redirect_to("ä", "c", ""), "ä/raw/c/");
}

#[test]
fn raw_content_that_does_not_resolve_is_not_found() {
    assert_eq!(raw_workspace_pathinfo_workspace_id_commit_id_path(None, Some(store()), "abc123", "x"), Err(Error::NotFound));
    assert_eq!(raw_workspace_pathinfo_workspace_id_commit_id_path(Some(row()), None, "abc123", "x"), Err(Error::NotFound));
    assert_eq!(raw_workspace_pathinfo_workspace_id_commit_id_path(Some(row()), Some(store()), "zzz", "models"), Err(Error::NotFound));
    assert_eq!(raw_workspace_pathinfo_workspace_id_commit_id_path(Some(row()), Some(store()), "abc123", "nope"), Err(Error::NotFound));
    for e in [ResolveError::CommitNotFound, ResolveError::PathNotFound, ResolveError::RepositoryUnavailable, ResolveError::NotABlob] {
        assert_eq!(raw_content(Err(e)), Err(Error::NotFound));
    }
}

#[test]
fn the_bare_page() {
    let page = pmrapp::page::index();
    assert_eq!(page.lang, "en");
    assert_eq!(page.title, "Example app");
    assert_eq!(page.script, None);
    assert_eq!(page.stylesheet, None);
}

#[test]
fn the_page_hands_the_state_to_the_client() {
    let page = index("{\"content\":\"Idle\"}");
    assert_eq!(page.lang, "en");
    assert_eq!(page.title, "Example app");
    assert_eq!(page.stylesheet, Some("/style/main.css".to_string()));
    assert_eq!(
        page.script,
        Some(
            "\nimport init, { main } from '/pkg/client.js';\nasync function start() {\n  await init();\n  let app_state = String.raw`{\"content\":\"Idle\"}`;\n  await main(app_state);\n}\nstart();"
                .to_string()
        )
    );
    assert_eq!(
        index("").script,
        Some("\nimport init, { main } from '/pkg/client.js';\nasync function start() {\n  await init();\n  let app_state = String.raw``;\n  await main(app_state);\n}\nstart();".to_string())
    );
}

#[test]
fn the_stylesheet_as_css() {
    let expected = concat_all(&[
        "body{font-family:'Arial', sans-serif;margin:0 auto;max-width:90rem;}",
        "header{display:flex;background-color:#333;color:#fff;}",
        "header a{color:#fff;padding:0.5em 2em;text-decoration:none;}",
        "header a.active{background-color:#c00;}",
        "table.file-listing{width:100%;}",
        "table.file-listing td.gitobj-tree span::before{content:'\\1f4c1 ';}",
        "table.file-listing td.gitobj-blob span::before{content:'\\1f4c4 ';}",
        "#indicator, #indicator div{height:10px;}",
        "#indicator div.loading{background:repeating-linear-gradient(-45deg, #c00 0, #c00 33%, #333 0, #333 66%);background-size:20px;animation:loading_indicator 1s infinite linear;}",
        "@keyframes loading_indicator{from{background-position:0px 0px;}to{background-position:-40px 0px;}from{background-position:0px 0px;}to{background-position:-40px 0px;}}",
    ]);
    assert_eq!(style(), expected);
}

fn concat_all(parts: &[&str]) -> String {
    parts.iter().map(|p| p.to_string()).collect::<Vec<String>>().join("")
}

fn object(entries: Vec<(&str, JsonValue)>) -> JsonValue {
    let mut value = JsonValue::new_object();
    for (key, entry) in entries {
        value.insert(key, entry).unwrap_or_else(|e| panic!("{:?}", e));
    }
    value
}

#[test]
fn the_stylesheet_is_what_the_css_writer_gives_for_its_rules() {
    let sheet = object(vec![
        ("body", object(vec![
            ("font_family", "'Arial', sans-serif".into()),
            ("margin", "0 auto".into()),
            ("max_width", "90rem".into()),
        ])),
        ("header", object(vec![
            ("display", "flex".into()),
            ("background_color", "#333".into()),
            ("color", "#fff".into()),
        ])),
        ("header a", object(vec![
            ("color", "#fff".into()),
            ("padding", "0.5em 2em".into()),
            ("text_decoration", "none".into()),
        ])),
        ("header a.active", object(vec![("background_color", "#c00".into())])),
        ("table.file-listing", object(vec![("width", "100%".into())])),
        ("table.file-listing td.gitobj-tree span::before", object(vec![("content", "'\\1f4c1 '".into())])),
        ("table.file-listing td.gitobj-blob span::before", object(vec![("content", "'\\1f4c4 '".into())])),
        ("#indicator, #indicator div", object(vec![("height", "10px".into())])),
        ("#indicator div.loading", object(vec![
            ("background", "repeating-linear-gradient(-45deg, #c00 0, #c00 33%, #333 0, #333 66%)".into()),
            ("background_size", "20px".into()),
            ("animation", "loading_indicator 1s infinite linear".into()),
        ])),
        ("@keyframes loading_indicator", object(vec![
            ("from", object(vec![("background_position", "0px 0px".into())])),
            ("to", object(vec![("background_position", "-40px 0px".into())])),
        ])),
    ]);
    assert_eq!(style(), sauron::prelude::jss::process_css(None, &sheet, false));
}

#[test]
fn the_settings_of_the_server() {
    let config = Config {
        database_url: "sqlite:pmr.db".to_string(),
        pmr_git_root: "/srv/git".to_string(),
        http_port: 8000,
    };
    assert_eq!(config.clone(), config);
    assert_eq!(config.http_port, 8000);
}
