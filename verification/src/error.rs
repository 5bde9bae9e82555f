//! The ways a resolution can fail.

use vstd::prelude::*;

verus! {

/// Why a workspace, a commit, a path or a content could not be had. Each of
/// them is a reference that does not resolve: none is an internal fault.
#[derive(Clone, Copy, Debug, PartialEq, Eq, Structural)]
pub enum ResolveError {
    /// The store of the workspace is missing or is not a valid object store.
    RepositoryUnavailable,
    /// The commit reference names no commit of the store.
    CommitNotFound,
    /// No entry at some segment of the path, or the end of the path is not
    /// something a path can name.
    PathNotFound,
    /// Content was asked of something that is not a file.
    NotABlob,
}

} // verus!
