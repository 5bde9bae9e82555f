//! The JSON API of the workspaces: what each endpoint answers, given the row
//! that the metadata store holds of the workspace and what was found at the
//! location of its repository.

use vstd::prelude::*;
use crate::client::model::{JsonWorkspaceRecord, JsonWorkspaceRecordView};
use crate::error::ResolveError;
use crate::http::error::Error;
use crate::projector::{
    shape_view, to_workspace_path_info, WorkspacePathInfo, WorkspacePathInfoView,
};
use crate::resolution::{PathResolution, ResolutionView};
use crate::resolver::{option_text, resolve_path};
use crate::store::{open, text_view, ObjectStore, StoreView, Workspace, WorkspaceRecords, WorkspaceView};

verus! {

/// The view of an optional workspace.
pub open spec fn workspace_view(found: Option<Workspace>) -> Option<WorkspaceView> {
    match found {
        Some(w) => Some(w@),
        None => None,
    }
}

/// The view of an optional store.
pub open spec fn store_view(found: Option<ObjectStore>) -> Option<StoreView> {
    match found {
        Some(s) => Some(s@),
        None => None,
    }
}

/// The identifier of the commit that a resolution stands on.
pub open spec fn commit_id_of(outcome: Result<ResolutionView, ResolveError>) -> Option<Seq<char>> {
    match outcome {
        Ok(ResolutionView::Object { commit: Some(c), .. }) => Some(c.id),
        _ => None,
    }
}

/// The identifier of the head commit of a repository: that of the commit that
/// resolving with no reference and no path stands on; none where the
/// repository cannot be opened or has no commit.
pub open spec fn head_commit_id(repository: Option<StoreView>) -> Option<Seq<char>> {
    match repository {
        Some(store) => if store.valid() {
            commit_id_of(store.resolve(None, None))
        } else {
            None
        },
        None => None,
    }
}

/// What the top of a workspace answers: not found without a row, else the row
/// with the head commit of its repository.
pub open spec fn top_spec(row: Option<WorkspaceView>, repository: Option<StoreView>) -> Result<
    JsonWorkspaceRecordView,
    Error,
> {
    match row {
        None => Err(Error::NotFound),
        Some(workspace) => Ok(
            JsonWorkspaceRecordView { workspace, head_commit: head_commit_id(repository) },
        ),
    }
}

/// What resolving in a workspace answers: not found without a row, without a
/// repository that opens, or where the resolution fails; else the merged shape
/// of the resolution. An absent path is requested as the empty path.
pub open spec fn pathinfo_spec(
    row: Option<WorkspaceView>,
    repository: Option<StoreView>,
    reference: Option<Seq<char>>,
    path: Option<Seq<char>>,
) -> Result<WorkspacePathInfoView, Error> {
    match (row, repository) {
        (Some(workspace), Some(store)) => if store.valid() {
            match store.resolve(reference, path) {
                Ok(resolution) => Ok(
                    store.workspace_path_info(
                        workspace,
                        resolution,
                        match path {
                            Some(p) => p,
                            None => Seq::empty(),
                        },
                    ),
                ),
                Err(_) => Err(Error::NotFound),
            }
        } else {
            Err(Error::NotFound)
        },
        _ => Err(Error::NotFound),
    }
}

/// What the rendered top of a workspace starts from: the row with its head
/// commit and, where the root resolves, the merged shape of the root.
pub open spec fn top_ssr_spec(row: Option<WorkspaceView>, repository: Option<StoreView>) -> Result<
    (JsonWorkspaceRecordView, Option<WorkspacePathInfoView>),
    Error,
> {
    match (row, repository) {
        (Some(workspace), Some(store)) => if store.valid() {
            Ok(
                (
                    JsonWorkspaceRecordView {
                        workspace,
                        head_commit: commit_id_of(store.resolve(None, None)),
                    },
                    match store.resolve(None, None) {
                        Ok(resolution) => Some(
                            store.workspace_path_info(workspace, resolution, Seq::empty()),
                        ),
                        Err(_) => None,
                    },
                ),
            )
        } else {
            Err(Error::NotFound)
        },
        _ => Err(Error::NotFound),
    }
}

/// The view of what an endpoint answers with a record.
pub open spec fn record_view(answer: Result<JsonWorkspaceRecord, Error>) -> Result<
    JsonWorkspaceRecordView,
    Error,
> {
    match answer {
        Ok(record) => Ok(record@),
        Err(e) => Err(e),
    }
}

/// The view of what an endpoint answers with a merged shape.
pub open spec fn info_view(answer: Result<WorkspacePathInfo, Error>) -> Result<
    WorkspacePathInfoView,
    Error,
> {
    match answer {
        Ok(info) => Ok(info@),
        Err(e) => Err(e),
    }
}

/// The view of what the rendered top of a workspace starts from.
pub open spec fn ssr_view(
    answer: Result<(JsonWorkspaceRecord, Option<WorkspacePathInfo>), Error>,
) -> Result<(JsonWorkspaceRecordView, Option<WorkspacePathInfoView>), Error> {
    match answer {
        Ok((record, info)) => Ok((record@, shape_view(info))),
        Err(e) => Err(e),
    }
}

/// The listing of all workspaces.
pub fn api_workspace(records: Vec<Workspace>) -> (listing: WorkspaceRecords)
    ensures
        listing.workspaces == records,
{
    WorkspaceRecords { workspaces: records }
}

fn commit_id(outcome: &Result<PathResolution, ResolveError>) -> (id: Option<String>)
    ensures
        text_view(id) == commit_id_of(crate::walker::outcome_view(*outcome)),
{
    match outcome {
        Ok(PathResolution::Object { commit: Some(c), .. }) => Some(c.id.clone()),
        _ => None,
    }
}

/// The top of a workspace: its row and the head commit of its repository.
pub fn api_workspace_top(found: Option<Workspace>, repository: Option<ObjectStore>) -> (answer:
    Result<JsonWorkspaceRecord, Error>)
    ensures
        record_view(answer) == top_spec(workspace_view(found), store_view(repository)),
{
    let workspace = match found {
        Some(workspace) => workspace,
        None => {
            return Err(Error::NotFound);
        },
    };
    let head_commit = match open(&workspace, repository) {
        Ok(handle) => commit_id(&resolve_path(&handle, None, None)),
        Err(_) => None,
    };
    Ok(JsonWorkspaceRecord { workspace, head_commit })
}

/// What the rendered top of a workspace starts from: its row with the head
/// commit and the merged shape of its root.
pub fn api_workspace_top_ssr(found: Option<Workspace>, repository: Option<ObjectStore>) -> (answer:
    Result<(JsonWorkspaceRecord, Option<WorkspacePathInfo>), Error>)
    ensures
        ssr_view(answer) == top_ssr_spec(workspace_view(found), store_view(repository)),
{
    let workspace = match found {
        Some(workspace) => workspace,
        None => {
            return Err(Error::NotFound);
        },
    };
    let (head_commit, path_info) = match open(&workspace, repository) {
        Ok(handle) => {
            let outcome = resolve_path(&handle, None, None);
            let head_commit = commit_id(&outcome);
            proof {
                reveal_strlit("");
            }
            match outcome {
                Ok(resolution) => (
                    head_commit,
                    Some(to_workspace_path_info(&workspace, handle.store(), &resolution, "")),
                ),
                Err(_) => (None, None),
            }
        },
        Err(_) => {
            return Err(Error::NotFound);
        },
    };
    Ok((JsonWorkspaceRecord { workspace, head_commit }, path_info))
}

/// Resolves `path` at `commit_id` in a workspace and answers with the merged
/// shape of what is there.
pub fn api_workspace_pathinfo(
    found: Option<Workspace>,
    repository: Option<ObjectStore>,
    commit_id: Option<&str>,
    path: Option<&str>,
) -> (answer: Result<WorkspacePathInfo, Error>)
    ensures
        info_view(answer) == pathinfo_spec(
            workspace_view(found),
            store_view(repository),
            option_text(commit_id),
            option_text(path),
        ),
{
    let workspace = match found {
        Some(workspace) => workspace,
        None => {
            return Err(Error::NotFound);
        },
    };
    let handle = match open(&workspace, repository) {
        Ok(handle) => handle,
        Err(_) => {
            return Err(Error::NotFound);
        },
    };
    match resolve_path(&handle, commit_id, path) {
        Ok(resolution) => {
            let requested = match path {
                Some(p) => p,
                None => "",
            };
            proof {
                reveal_strlit("");
            }
            Ok(to_workspace_path_info(&workspace, handle.store(), &resolution, requested))
        },
        Err(_) => Err(Error::NotFound),
    }
}

/// The root of a workspace at the head of its default branch.
pub fn api_workspace_pathinfo_workspace_id(
    found: Option<Workspace>,
    repository: Option<ObjectStore>,
) -> (answer: Result<WorkspacePathInfo, Error>)
    ensures
        info_view(answer) == pathinfo_spec(
            workspace_view(found),
            store_view(repository),
            None,
            None,
        ),
{
    api_workspace_pathinfo(found, repository, None, None)
}

/// The root of a workspace at a commit.
pub fn api_workspace_pathinfo_workspace_id_commit_id(
    found: Option<Workspace>,
    repository: Option<ObjectStore>,
    commit_id: &str,
) -> (answer: Result<WorkspacePathInfo, Error>)
    ensures
        info_view(answer) == pathinfo_spec(
            workspace_view(found),
            store_view(repository),
            Some(commit_id@),
            None,
        ),
{
    api_workspace_pathinfo(found, repository, Some(commit_id), None)
}

/// A path of a workspace at a commit.
pub fn api_workspace_pathinfo_workspace_id_commit_id_path(
    found: Option<Workspace>,
    repository: Option<ObjectStore>,
    commit_id: &str,
    path: &str,
) -> (answer: Result<WorkspacePathInfo, Error>)
    ensures
        info_view(answer) == pathinfo_spec(
            workspace_view(found),
            store_view(repository),
            Some(commit_id@),
            Some(path@),
        ),
{
    api_workspace_pathinfo(found, repository, Some(commit_id), Some(path))
}

/// Asking twice for the same path at the same reference in the same workspace,
/// with its repository unchanged, is answered twice with the same shape.
pub proof fn lemma_answers_are_determined(
    row: Option<WorkspaceView>,
    repository: Option<StoreView>,
    reference: Option<Seq<char>>,
    path: Option<Seq<char>>,
    first: Result<WorkspacePathInfoView, Error>,
    second: Result<WorkspacePathInfoView, Error>,
)
    requires
        first == pathinfo_spec(row, repository, reference, path),
        second == pathinfo_spec(row, repository, reference, path),
    ensures
        first == second,
{
}

} // verus!
