//! The result projector: from a resolution to the shapes that leave the
//! library, and the blob streamer.

use vstd::prelude::*;
use vstd::slice::slice_to_vec;
use crate::error::ResolveError;
use crate::object::{classify, EntryKind, EntryTarget, EntryView, ObjectKind, StoredEntry};
use crate::path::{lemma_normal_forms, normalize, normalize_dir, normalize_path, separator};
use crate::resolution::{PathResolution, ResolutionView, ResolvedObject, ResolvedView};
use crate::store::{text_view, ObjectStore, StoreView, Workspace, WorkspaceView};

verus! {

/// One line of a directory listing.
#[derive(Clone, Debug, PartialEq, Eq)]
pub struct TreeEntry {
    pub name: String,
    pub kind: EntryKind,
}

/// A directory: its entries, in the order of the tree.
#[derive(Clone, Debug, PartialEq, Eq)]
pub struct TreeInfo {
    pub entries: Vec<TreeEntry>,
}

/// A file: its size in bytes. The content is not part of it.
#[derive(Clone, Debug, PartialEq, Eq)]
pub struct FileInfo {
    pub size: u64,
}

/// What a path names, as the views show it: a directory or a file, never both.
#[derive(Clone, Debug, PartialEq, Eq)]
pub enum PathObject {
    TreeInfo(TreeInfo),
    FileInfo(FileInfo),
}

/// A resolved path together with the workspace, the commit and the normal form
/// of the path that led to it.
#[derive(Clone, Debug, PartialEq, Eq)]
pub struct WorkspacePathInfo {
    pub workspace_id: i64,
    pub workspace_description: Option<String>,
    pub workspace_url: String,
    pub commit_id: Option<String>,
    pub path: String,
    pub object: Option<PathObject>,
}

/// The view of a `TreeEntry`.
pub struct TreeEntryView {
    pub name: Seq<char>,
    pub kind: EntryKind,
}

/// The view of a `PathObject`.
pub enum PathObjectView {
    TreeInfo(Seq<TreeEntryView>),
    FileInfo { size: nat },
}

/// The view of a `WorkspacePathInfo`.
pub struct WorkspacePathInfoView {
    pub workspace_id: int,
    pub workspace_description: Option<Seq<char>>,
    pub workspace_url: Seq<char>,
    pub commit_id: Option<Seq<char>>,
    pub path: Seq<char>,
    pub object: Option<PathObjectView>,
}

impl View for TreeEntry {
    type V = TreeEntryView;

    open spec fn view(&self) -> TreeEntryView {
        TreeEntryView { name: self.name@, kind: self.kind }
    }
}

impl View for TreeInfo {
    type V = Seq<TreeEntryView>;

    open spec fn view(&self) -> Seq<TreeEntryView> {
        Seq::new(self.entries@.len(), |i: int| self.entries@[i]@)
    }
}

impl View for PathObject {
    type V = PathObjectView;

    open spec fn view(&self) -> PathObjectView {
        match *self {
            PathObject::TreeInfo(tree) => PathObjectView::TreeInfo(tree@),
            PathObject::FileInfo(file) => PathObjectView::FileInfo { size: file.size as nat },
        }
    }
}

/// The view of an optional `PathObject`.
pub open spec fn object_view(object: Option<PathObject>) -> Option<PathObjectView> {
    match object {
        Some(o) => Some(o@),
        None => None,
    }
}

impl View for WorkspacePathInfo {
    type V = WorkspacePathInfoView;

    open spec fn view(&self) -> WorkspacePathInfoView {
        WorkspacePathInfoView {
            workspace_id: self.workspace_id as int,
            workspace_description: text_view(self.workspace_description),
            workspace_url: self.workspace_url@,
            commit_id: text_view(self.commit_id),
            path: self.path@,
            object: object_view(self.object),
        }
    }
}

/// The view of an optional merged shape.
pub open spec fn shape_view(info: Option<WorkspacePathInfo>) -> Option<WorkspacePathInfoView> {
    match info {
        Some(i) => Some(i@),
        None => None,
    }
}

impl StoreView {
    /// The listing of a tree: each entry by its name and by what it names.
    pub open spec fn listing(self, entries: Seq<EntryView>) -> Seq<TreeEntryView> {
        Seq::new(
            entries.len(),
            |i: int| TreeEntryView { name: entries[i].name, kind: self.entry_kind(entries[i]) },
        )
    }

    /// The bare shape of a resolution: a directory with its listing, a file
    /// with its size, and nothing for the boundary of an embedded repository.
    pub open spec fn object_info(self, resolution: ResolutionView) -> Option<PathObjectView> {
        match resolution {
            ResolutionView::Object { object: ResolvedView::Tree(entries), .. } => Some(
                PathObjectView::TreeInfo(self.listing(entries)),
            ),
            ResolutionView::Object { object: ResolvedView::Blob(content), .. } => Some(
                PathObjectView::FileInfo { size: content.len() },
            ),
            ResolutionView::SubRepoBoundary { .. } => None,
        }
    }

    /// The merged shape of a resolution: the workspace, the identifier of the
    /// commit, the normal form of the requested path (with a slash at its end
    /// where it names a directory and is not empty), and the bare shape.
    pub open spec fn workspace_path_info(
        self,
        workspace: WorkspaceView,
        resolution: ResolutionView,
        requested: Seq<char>,
    ) -> WorkspacePathInfoView {
        WorkspacePathInfoView {
            workspace_id: workspace.id,
            workspace_description: workspace.description,
            workspace_url: workspace.url,
            commit_id: match resolution {
                ResolutionView::Object { commit: Some(c), .. } => Some(c.id),
                _ => None,
            },
            path: match resolution {
                ResolutionView::Object { object: ResolvedView::Tree(_), .. } => normalize_dir(
                    requested,
                ),
                _ => normalize(requested),
            },
            object: self.object_info(resolution),
        }
    }
}

/// The content of what was resolved, where it is a blob.
pub open spec fn content_of(resolution: ResolutionView) -> Result<Seq<u8>, ResolveError> {
    match resolution {
        ResolutionView::Object { object: ResolvedView::Blob(content), .. } => Ok(content),
        _ => Err(ResolveError::NotABlob),
    }
}

/// What `entry` names in `store`.
pub fn entry_kind(store: &ObjectStore, entry: &StoredEntry) -> (kind: EntryKind)
    ensures
        kind == store@.entry_kind(entry@),
{
    match &entry.target {
        EntryTarget::CommitLink { .. } => EntryKind::CommitLink,
        EntryTarget::Object(id) => {
            if *id < store.objects.len() {
                match classify(&store.objects[*id]) {
                    ObjectKind::Tree => EntryKind::Tree,
                    ObjectKind::Blob => EntryKind::Blob,
                    ObjectKind::Other => EntryKind::Other,
                }
            } else {
                EntryKind::Other
            }
        },
    }
}

/// The listing of the tree `entries` of `store`.
pub fn list_entries(store: &ObjectStore, entries: &[StoredEntry]) -> (tree: TreeInfo)
    ensures
        tree@ == store@.listing(crate::object::entries_view(entries@)),
{
    let mut listed: Vec<TreeEntry> = Vec::new();
    let mut i: usize = 0;
    while i < entries.len()
        invariant
            i <= entries@.len(),
            listed@.len() == i,
            forall|k: int|
                0 <= k < i ==> (#[trigger] listed@[k])@ == (TreeEntryView {
                    name: entries@[k].name@,
                    kind: store@.entry_kind(entries@[k]@),
                }),
        decreases entries@.len() - i,
    {
        let kind = entry_kind(store, &entries[i]);
        listed.push(TreeEntry { name: entries[i].name.clone(), kind });
        i += 1;
    }
    let tree = TreeInfo { entries: listed };
    assert(tree@ =~= store@.listing(crate::object::entries_view(entries@)));
    tree
}

/// The bare shape of `resolution`, whose entries are named in `store`.
pub fn to_object_info(store: &ObjectStore, resolution: &PathResolution) -> (info: Option<
    PathObject,
>)
    ensures
        object_view(info) == store@.object_info(resolution@),
{
    match resolution {
        PathResolution::Object { object: ResolvedObject::Tree(entries), .. } => Some(
            PathObject::TreeInfo(list_entries(store, entries)),
        ),
        PathResolution::Object { object: ResolvedObject::Blob(content), .. } => Some(
            PathObject::FileInfo(FileInfo { size: content.len() as u64 }),
        ),
        PathResolution::SubRepoBoundary { .. } => None,
    }
}

/// The merged shape of `resolution`, reached by `requested_path` in
/// `workspace`.
pub fn to_workspace_path_info(
    workspace: &Workspace,
    store: &ObjectStore,
    resolution: &PathResolution,
    requested_path: &str,
) -> (info: WorkspacePathInfo)
    ensures
        info@ == store@.workspace_path_info(workspace@, resolution@, requested_path@),
{
    let commit_id = match resolution {
        PathResolution::Object { commit: Some(c), .. } => Some(c.id.clone()),
        _ => None,
    };
    let directory = match resolution {
        PathResolution::Object { object: ResolvedObject::Tree(_), .. } => true,
        _ => false,
    };
    let description = match &workspace.description {
        Some(d) => Some(d.clone()),
        None => None,
    };
    WorkspacePathInfo {
        workspace_id: workspace.id,
        workspace_description: description,
        workspace_url: workspace.url.clone(),
        commit_id,
        path: normalize_path(requested_path, directory),
        object: to_object_info(store, resolution),
    }
}

/// The bytes of a resolved blob, copied out of the store. Anything that is not
/// a blob, a tree or the boundary of an embedded repository, is `NotABlob`.
pub fn stream(resolution: &PathResolution) -> (content: Result<Vec<u8>, ResolveError>)
    ensures
        match content {
            Ok(bytes) => content_of(resolution@) == Ok::<Seq<u8>, ResolveError>(bytes@),
            Err(e) => content_of(resolution@) == Err::<Seq<u8>, ResolveError>(e),
        },
{
    match resolution {
        PathResolution::Object { object: ResolvedObject::Blob(content), .. } => Ok(
            slice_to_vec(content),
        ),
        _ => Err(ResolveError::NotABlob),
    }
}

/// The boundary of an embedded repository has no content to stream, and shows
/// neither as a directory nor as a file.
pub proof fn lemma_boundary_has_no_content(
    store: StoreView,
    location: Seq<char>,
    commit: Seq<char>,
    path: Seq<char>,
)
    ensures
        content_of(ResolutionView::SubRepoBoundary { location, commit, path }) == Err::<
            Seq<u8>,
            ResolveError,
        >(ResolveError::NotABlob),
        store.object_info(ResolutionView::SubRepoBoundary { location, commit, path }) is None,
{
}

/// The path of a merged shape is in normal form: it never starts with a
/// separator; where it is not empty, it ends with one if the shape is a
/// directory, and does not if the shape is a file.
pub proof fn lemma_shape_path_is_normal(
    store: StoreView,
    workspace: WorkspaceView,
    resolution: ResolutionView,
    requested: Seq<char>,
)
    ensures
        ({
            let info = store.workspace_path_info(workspace, resolution, requested);
            info.path.len() > 0 ==> {
                &&& info.path[0] != separator()
                &&& info.object matches Some(PathObjectView::TreeInfo(_)) ==> info.path.last()
                    == separator()
                &&& info.object matches Some(PathObjectView::FileInfo { .. }) ==> info.path.last()
                    != separator()
            }
        }),
{
    lemma_normal_forms(requested);
}

} // verus!
