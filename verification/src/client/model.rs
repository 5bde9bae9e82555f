//! The record of one workspace as the API gives it.

use vstd::prelude::*;
use crate::store::{text_view, Workspace, WorkspaceView};

verus! {

/// A workspace together with the identifier of the head commit of its default
/// branch, where it has one.
#[derive(Clone, Debug, PartialEq, Eq)]
pub struct JsonWorkspaceRecord {
    pub workspace: Workspace,
    pub head_commit: Option<String>,
}

/// The view of a `JsonWorkspaceRecord`.
pub struct JsonWorkspaceRecordView {
    pub workspace: WorkspaceView,
    pub head_commit: Option<Seq<char>>,
}

impl View for JsonWorkspaceRecord {
    type V = JsonWorkspaceRecordView;

    open spec fn view(&self) -> JsonWorkspaceRecordView {
        JsonWorkspaceRecordView {
            workspace: self.workspace@,
            head_commit: text_view(self.head_commit),
        }
    }
}

} // verus!
