//! The raw content of a file of a workspace.

use vstd::prelude::*;
use vstd::utf8::encode_utf8;
use crate::error::ResolveError;
use crate::http::api::{store_view, workspace_view};
use crate::http::error::Error;
use crate::projector::stream;
use crate::resolution::{PathResolution, ResolutionView, ResolvedView};
use crate::resolver::resolve_path;
use crate::store::{open, ObjectStore, StoreView, Workspace, WorkspaceView};
use crate::walker::outcome_view;

verus! {

/// What the raw endpoint answers with: the bytes of a file, or where to ask
/// again when the path leaves the workspace at an embedded repository.
#[derive(Clone, Debug, PartialEq, Eq)]
pub enum RawContent {
    Bytes(Vec<u8>),
    Redirect { location: String, commit: String, path: String },
}

/// The view of a `RawContent`.
pub enum RawContentView {
    Bytes(Seq<u8>),
    Redirect { location: Seq<char>, commit: Seq<char>, path: Seq<char> },
}

impl View for RawContent {
    type V = RawContentView;

    open spec fn view(&self) -> RawContentView {
        match *self {
            RawContent::Bytes(bytes) => RawContentView::Bytes(bytes@),
            RawContent::Redirect { location, commit, path } => RawContentView::Redirect {
                location: location@,
                commit: commit@,
                path: path@,
            },
        }
    }
}

/// Where the raw content of `path` at `commit` is asked of the workspace at
/// `location`.
pub open spec fn redirect_target(location: Seq<char>, commit: Seq<char>, path: Seq<char>) -> Seq<
    char,
> {
    location + "/raw/"@ + commit + "/"@ + path
}

impl RawContentView {
    /// The body of the answer: the bytes of the file, or the target of the
    /// redirect as UTF-8.
    pub open spec fn body(self) -> Seq<u8> {
        match self {
            RawContentView::Bytes(bytes) => bytes,
            RawContentView::Redirect { location, commit, path } => encode_utf8(
                redirect_target(location, commit, path),
            ),
        }
    }
}

/// The raw content of a resolution: the bytes of a blob, a redirect at the
/// boundary of an embedded repository, and not found for a directory or for a
/// resolution that failed.
pub open spec fn raw_of(outcome: Result<ResolutionView, ResolveError>) -> Result<
    RawContentView,
    Error,
> {
    match outcome {
        Ok(ResolutionView::Object { object: ResolvedView::Blob(content), .. }) => Ok(
            RawContentView::Bytes(content),
        ),
        Ok(ResolutionView::SubRepoBoundary { location, commit, path }) => Ok(
            RawContentView::Redirect { location, commit, path },
        ),
        _ => Err(Error::NotFound),
    }
}

/// What the raw endpoint answers for `path` at `reference` in a workspace: not
/// found without a row or without a repository that opens, else the raw content
/// of the resolution.
pub open spec fn raw_spec(
    row: Option<WorkspaceView>,
    repository: Option<StoreView>,
    reference: Seq<char>,
    path: Seq<char>,
) -> Result<RawContentView, Error> {
    match (row, repository) {
        (Some(_), Some(store)) => if store.valid() {
            raw_of(store.resolve(Some(reference), Some(path)))
        } else {
            Err(Error::NotFound)
        },
        _ => Err(Error::NotFound),
    }
}

/// The view of what the raw endpoint answers.
pub open spec fn raw_view(answer: Result<RawContent, Error>) -> Result<RawContentView, Error> {
    match answer {
        Ok(content) => Ok(content@),
        Err(e) => Err(e),
    }
}

/// Where the raw content of `path` at `commit` is asked of the workspace at
/// `location`.
pub fn redirect_to(location: &str, commit: &str, path: &str) -> (target: String)
    ensures
        target@ == redirect_target(location@, commit@, path@),
{
    let mut target = String::from_str(location);
    target.append("/raw/");
    target.append(commit);
    target.append("/");
    target.append(path);
    target
}

impl RawContent {
    /// Where to ask again, for a redirect.
    pub fn target(&self) -> (target: Option<String>)
        ensures
            match self@ {
                RawContentView::Bytes(_) => target is None,
                RawContentView::Redirect { location, commit, path } => target matches Some(t)
                    && t@ == redirect_target(location, commit, path),
            },
    {
        match self {
            RawContent::Bytes(_) => None,
            RawContent::Redirect { location, commit, path } => Some(
                redirect_to(location.as_str(), commit.as_str(), path.as_str()),
            ),
        }
    }

    /// The body of the answer.
    pub fn into_body(self) -> (body: Vec<u8>)
        ensures
            body@ == self@.body(),
    {
        match self {
            RawContent::Bytes(bytes) => bytes,
            RawContent::Redirect { location, commit, path } => redirect_to(
                location.as_str(),
                commit.as_str(),
                path.as_str(),
            ).as_str().as_bytes_vec(),
        }
    }
}

/// The raw content of the outcome of a resolution.
pub fn raw_content(outcome: Result<PathResolution, ResolveError>) -> (answer: Result<
    RawContent,
    Error,
>)
    ensures
        raw_view(answer) == raw_of(outcome_view(outcome)),
{
    match outcome {
        Ok(PathResolution::SubRepoBoundary { location, commit, path }) => Ok(
            RawContent::Redirect { location, commit, path },
        ),
        Ok(resolution) => match stream(&resolution) {
            Ok(bytes) => Ok(RawContent::Bytes(bytes)),
            Err(_) => Err(Error::NotFound),
        },
        Err(_) => Err(Error::NotFound),
    }
}

/// The raw content of `filepath` at `commit_id` in a workspace.
pub fn raw_workspace_pathinfo_workspace_id_commit_id_path(
    found: Option<Workspace>,
    repository: Option<ObjectStore>,
    commit_id: &str,
    filepath: &str,
) -> (answer: Result<RawContent, Error>)
    ensures
        raw_view(answer) == raw_spec(
            workspace_view(found),
            store_view(repository),
            commit_id@,
            filepath@,
        ),
{
    let workspace = match found {
        Some(workspace) => workspace,
        None => {
            return Err(Error::NotFound);
        },
    };
    let handle = match open(&workspace, repository) {
        Ok(handle) => handle,
        Err(_) => {
            return Err(Error::NotFound);
        },
    };
    raw_content(resolve_path(&handle, Some(commit_id), Some(filepath)))
}

/// Bytes are never streamed for the boundary of an embedded repository: the
/// raw content of such a resolution is a redirect that names the location,
/// the commit and the path.
pub proof fn lemma_boundary_is_redirected(location: Seq<char>, commit: Seq<char>, path: Seq<char>)
    ensures
        raw_of(Ok(ResolutionView::SubRepoBoundary { location, commit, path })) == Ok::<
            RawContentView,
            Error,
        >(RawContentView::Redirect { location, commit, path }),
{
}

} // verus!
