//! The addresses that the client asks the JSON API at.

use vstd::prelude::*;
use crate::text::{decimal, push_decimal};

verus! {

/// The address of the listing of all workspaces.
pub open spec fn workspace_listing_url(origin: Seq<char>) -> Seq<char> {
    origin + "/api/workspace/"@
}

/// The address of the top of a workspace.
pub open spec fn workspace_top_url(origin: Seq<char>, workspace_id: int) -> Seq<char> {
    origin + "/api/workspace/"@ + decimal(workspace_id) + "/"@
}

/// The address of a path of a workspace at a commit. An absent path is the
/// empty path: the root.
pub open spec fn workspace_pathinfo_url(
    origin: Seq<char>,
    workspace_id: int,
    commit_id: Seq<char>,
    path: Option<Seq<char>>,
) -> Seq<char> {
    origin + "/api/workspace/"@ + decimal(workspace_id) + "/file/"@ + commit_id + "/"@ + match path {
        Some(p) => p,
        None => Seq::empty(),
    }
}

/// The address of the listing of all workspaces, at `origin`.
pub fn get_workspace_listing(origin: &str) -> (url: String)
    ensures
        url@ == workspace_listing_url(origin@),
{
    let mut url = String::from_str(origin);
    url.append("/api/workspace/");
    url
}

/// The address of the top of the workspace `workspace_id`, at `origin`.
pub fn get_workspace_top(origin: &str, workspace_id: i64) -> (url: String)
    ensures
        url@ == workspace_top_url(origin@, workspace_id as int),
{
    let mut url = String::from_str(origin);
    url.append("/api/workspace/");
    push_decimal(&mut url, workspace_id);
    url.append("/");
    url
}

/// The address of `path` at `commit_id` in the workspace `workspace_id`, at
/// `origin`.
pub fn get_workspace_pathinfo(
    origin: &str,
    workspace_id: i64,
    commit_id: &str,
    path: Option<&str>,
) -> (url: String)
    ensures
        url@ == workspace_pathinfo_url(
            origin@,
            workspace_id as int,
            commit_id@,
            crate::resolver::option_text(path),
        ),
{
    let mut url = String::from_str(origin);
    url.append("/api/workspace/");
    push_decimal(&mut url, workspace_id);
    url.append("/file/");
    url.append(commit_id);
    url.append("/");
    match path {
        Some(p) => {
            url.append(p);
        },
        None => {
            assert(url@ + Seq::<char>::empty() =~= url@);
        },
    }
    url
}

} // verus!
