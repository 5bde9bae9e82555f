//! What the application shows, and how it is laid out.

use vstd::prelude::*;
use crate::client::app::{Resource, ResourceView};
use crate::client::model::{JsonWorkspaceRecord, JsonWorkspaceRecordView};
use crate::object::EntryKind;
use crate::path::{all_segments, is_segment, join, separator};
use crate::projector::{
    shape_view, PathObject, PathObjectView, TreeEntry, TreeEntryView, WorkspacePathInfo,
    WorkspacePathInfoView,
};
use crate::store::{text_view, Workspace, WorkspaceRecords, WorkspaceView};
use crate::text::{decimal, push_chars, push_decimal, same_text, to_chars};

verus! {

/// What the application shows.
#[derive(Clone, Debug, PartialEq, Eq)]
pub enum Content {
    Homepage,
    WorkspaceListing(WorkspaceRecords),
    WorkspaceTop(JsonWorkspaceRecord, Option<WorkspacePathInfo>),
    WorkspacePathInfo(WorkspacePathInfo),
}

/// The view of a `Content`.
pub enum ContentView {
    Homepage,
    WorkspaceListing(Seq<WorkspaceView>),
    WorkspaceTop(JsonWorkspaceRecordView, Option<WorkspacePathInfoView>),
    WorkspacePathInfo(WorkspacePathInfoView),
}

impl Content {
    /// What the content is, as a mathematical value. (`view` is the layout.)
    pub open spec fn shown(&self) -> ContentView {
        match *self {
            Content::Homepage => ContentView::Homepage,
            Content::WorkspaceListing(records) => ContentView::WorkspaceListing(records@),
            Content::WorkspaceTop(record, info) => ContentView::WorkspaceTop(
                record@,
                shape_view(info),
            ),
            Content::WorkspacePathInfo(info) => ContentView::WorkspacePathInfo(info@),
        }
    }
}

/// A link. With a resource, a click on it asks for that resource at the
/// address of the link; without one, the link is followed as it is.
#[derive(Clone, Debug, PartialEq, Eq)]
pub struct Anchor {
    pub href: String,
    pub label: String,
    pub resource: Option<Resource>,
}

/// The view of an `Anchor`.
pub struct AnchorView {
    pub href: Seq<char>,
    pub label: Seq<char>,
    pub resource: Option<ResourceView>,
}

impl View for Anchor {
    type V = AnchorView;

    open spec fn view(&self) -> AnchorView {
        AnchorView {
            href: self.href@,
            label: self.label@,
            resource: match self.resource {
                Some(r) => Some(r@),
                None => None,
            },
        }
    }
}

/// One row of a file listing: the key that tells it from the other rows, the
/// class of its cell, and its link.
#[derive(Clone, Debug, PartialEq, Eq)]
pub struct FileRow {
    pub key: String,
    pub class: String,
    pub link: Anchor,
}

/// The view of a `FileRow`.
pub struct FileRowView {
    pub key: Seq<char>,
    pub class: Seq<char>,
    pub link: AnchorView,
}

impl View for FileRow {
    type V = FileRowView;

    open spec fn view(&self) -> FileRowView {
        FileRowView { key: self.key@, class: self.class@, link: self.link@ }
    }
}

/// The address of the top of a workspace.
pub open spec fn workspace_href(workspace_id: int) -> Seq<char> {
    "/workspace/"@ + decimal(workspace_id) + "/"@
}

/// The address of a path of a workspace at a commit.
pub open spec fn file_href(workspace_id: int, commit_id: Seq<char>, path: Seq<char>) -> Seq<char> {
    "/workspace/"@ + decimal(workspace_id) + "/file/"@ + commit_id + "/"@ + path
}

/// The address of the raw content of a path of a workspace at a commit.
pub open spec fn raw_href(workspace_id: int, commit_id: Seq<char>, path: Seq<char>) -> Seq<char> {
    "/workspace/"@ + decimal(workspace_id) + "/raw/"@ + commit_id + "/"@ + path
}

/// The position of the last separator of `text`, or 0 where it has none.
pub open spec fn last_separator(text: Seq<char>) -> int
    decreases text.len(),
{
    if text.len() == 0 {
        0
    } else if text.last() == separator() {
        text.len() - 1
    } else {
        last_separator(text.drop_last())
    }
}

/// The directory above the directory `path`: `path` without its last
/// character, cut behind the last separator that is left; empty where none is
/// left behind the first character.
pub open spec fn parent_path(path: Seq<char>) -> Seq<char> {
    if path.len() == 0 {
        Seq::empty()
    } else {
        let cut = last_separator(path.drop_last());
        if cut == 0 {
            Seq::empty()
        } else {
            path.take(cut).push(separator())
        }
    }
}

/// The path of the entry `name` of the directory `path`: a directory ends in a
/// separator, anything else does not.
pub open spec fn child_path(path: Seq<char>, kind: Seq<char>, name: Seq<char>) -> Seq<char> {
    if kind == "tree"@ {
        path + name + "/"@
    } else {
        path + name
    }
}

/// Where a row of the listing of `path` leads: up for the name `..`, down to
/// the entry for any other name.
pub open spec fn row_path(path: Seq<char>, kind: Seq<char>, name: Seq<char>) -> Seq<char> {
    if name == ".."@ {
        parent_path(path)
    } else {
        child_path(path, kind, name)
    }
}

/// The row of the entry `name` of kind `kind` in the listing of `path` at
/// `commit_id` in a workspace.
pub open spec fn file_row(
    workspace_id: int,
    commit_id: Seq<char>,
    path: Seq<char>,
    kind: Seq<char>,
    name: Seq<char>,
) -> FileRowView {
    let target = row_path(path, kind, name);
    FileRowView {
        key: target,
        class: "gitobj-"@ + kind,
        link: AnchorView {
            href: file_href(workspace_id, commit_id, target),
            label: name,
            resource: Some(ResourceView::WorkspacePathInfo(workspace_id, commit_id, target)),
        },
    }
}

/// The position of the last separator of a text that ends in a separator-free
/// run behind a separator is the position of that separator.
pub proof fn lemma_last_separator(before: Seq<char>, after: Seq<char>)
    requires
        forall|i: int| 0 <= i < after.len() ==> after[i] != separator(),
    ensures
        last_separator(before + seq![separator()] + after) == before.len(),
    decreases after.len(),
{
    let whole = before + seq![separator()] + after;
    if after.len() == 0 {
        assert(whole.last() == separator());
    } else {
        assert(whole.last() == after.last());
        assert(whole.drop_last() =~= before + seq![separator()] + after.drop_last());
        lemma_last_separator(before, after.drop_last());
    }
}

/// A text without separator has no last separator.
pub proof fn lemma_no_separator(text: Seq<char>)
    requires
        forall|i: int| 0 <= i < text.len() ==> text[i] != separator(),
    ensures
        last_separator(text) == 0,
    decreases text.len(),
{
    if text.len() > 0 {
        lemma_no_separator(text.drop_last());
    }
}

/// Going up from a directory in normal form drops its last segment: the parent
/// of the directory of `segments` is the directory of all but the last of
/// them, and the root where only one is left.
pub proof fn lemma_parent_of_directory(segments: Seq<Seq<char>>)
    requires
        all_segments(segments),
        segments.len() > 0,
    ensures
        parent_path(join(segments).push(separator())) == if segments.len() == 1 {
            Seq::<char>::empty()
        } else {
            join(segments.drop_last()).push(separator())
        },
{
    let directory = join(segments).push(separator());
    assert(directory.drop_last() =~= join(segments));
    if segments.len() == 1 {
        lemma_no_separator(segments[0]);
    } else {
        let above = join(segments.drop_last());
        assert(all_segments(segments.drop_last()));
        crate::path::lemma_join_first(segments.drop_last());
        lemma_last_separator(above, segments.last());
        assert(directory.take(above.len() as int) =~= above);
    }
}

/// Going down into a directory and up again leads back: the parent of the
/// entry `name` of a directory in normal form is that directory.
pub proof fn lemma_up_after_down(segments: Seq<Seq<char>>, name: Seq<char>)
    requires
        all_segments(segments),
        is_segment(name),
    ensures
        parent_path(
            child_path(
                if segments.len() == 0 {
                    Seq::<char>::empty()
                } else {
                    join(segments).push(separator())
                },
                "tree"@,
                name,
            ),
        ) == if segments.len() == 0 {
            Seq::<char>::empty()
        } else {
            join(segments).push(separator())
        },
{
    reveal_strlit("/");
    let longer = segments.push(name);
    assert(longer.drop_last() =~= segments);
    assert(longer.last() == name);
    assert(all_segments(longer));
    lemma_parent_of_directory(longer);
    if segments.len() == 0 {
        assert(Seq::<char>::empty() + name + "/"@ =~= join(longer).push(separator()));
    } else {
        assert(join(segments).push(separator()) + name + "/"@ =~= join(longer).push(separator()));
    }
}

/// The directory above the directory `path`.
pub fn parent_of(path: &str) -> (parent: String)
    ensures
        parent@ == parent_path(path@),
{
    let chars = to_chars(path);
    let mut parent = String::new();
    if chars.len() == 0 {
        return parent;
    }
    let ghost trimmed = chars@.drop_last();
    let mut i: usize = chars.len() - 1;
    proof {
        assert(trimmed.take(i as int) =~= trimmed);
    }
    while i > 0
        invariant
            i <= trimmed.len(),
            trimmed == chars@.drop_last(),
            chars@ == path@,
            chars@.len() > 0,
            parent@.len() == 0,
            last_separator(trimmed) == last_separator(trimmed.take(i as int)),
        decreases i,
    {
        i -= 1;
        let ghost longer = trimmed.take(i + 1);
        proof {
            assert(longer.last() == chars@[i as int]);
            assert(longer.drop_last() =~= trimmed.take(i as int));
        }
        if chars[i] == '/' {
            if i > 0 {
                let prefix = vstd::slice::slice_subrange(chars.as_slice(), 0, i);
                push_chars(&mut parent, prefix);
                parent.push('/');
                proof {
                    assert(chars@.subrange(0, i as int) =~= path@.take(i as int));
                }
            }
            return parent;
        }
    }
    proof {
        assert(trimmed.take(0).len() == 0);
    }
    parent
}

/// The row of the entry `name` of kind `kind` in the listing of `path` at
/// `commit_id` in the workspace `workspace_id`. The name `..` leads up.
pub fn show_workspace_file_row(
    workspace_id: i64,
    commit_id: &str,
    path: &str,
    kind: &str,
    name: &str,
) -> (row: FileRow)
    ensures
        row@ == file_row(workspace_id as int, commit_id@, path@, kind@, name@),
{
    let path_name = if same_text(name, "..") {
        parent_of(path)
    } else {
        let mut child = String::from_str(path);
        child.append(name);
        if same_text(kind, "tree") {
            child.append("/");
        }
        child
    };
    let mut href = String::from_str("/workspace/");
    push_decimal(&mut href, workspace_id);
    href.append("/file/");
    href.append(commit_id);
    href.append("/");
    href.append(path_name.as_str());
    let mut class = String::from_str("gitobj-");
    class.append(kind);
    FileRow {
        key: path_name.clone(),
        class,
        link: Anchor {
            href,
            label: String::from_str(name),
            resource: Some(
                Resource::WorkspacePathInfo(workspace_id, String::from_str(commit_id), path_name),
            ),
        },
    }
}

/// One row of the listing of the workspaces.
#[derive(Clone, Debug, PartialEq, Eq)]
pub struct RecordRow {
    pub link: Anchor,
    pub url: String,
    pub description: String,
}

/// The view of a `RecordRow`.
pub struct RecordRowView {
    pub link: AnchorView,
    pub url: Seq<char>,
    pub description: Seq<char>,
}

impl View for RecordRow {
    type V = RecordRowView;

    open spec fn view(&self) -> RecordRowView {
        RecordRowView { link: self.link@, url: self.url@, description: self.description@ }
    }
}

/// What stands under the title of a path of a workspace.
#[derive(Clone, Debug, PartialEq, Eq)]
pub enum PathBody {
    /// The listing of a directory.
    Listing(Vec<FileRow>),
    /// A file: its size, and where its content is downloaded from.
    File { size: u64, download: String },
    /// Nothing: the path names neither.
    Nothing,
}

/// How a content is laid out.
#[allow(inconsistent_fields)]
#[derive(Clone, Debug, PartialEq, Eq)]
pub enum Layout {
    Homepage { listing: Anchor },
    WorkspaceListing { rows: Vec<RecordRow> },
    /// The top of a workspace: its title, the address of its repository, and
    /// the body of its file table, if it has one.
    WorkspaceTop { title: String, url: String, rows: Option<Vec<FileRow>> },
    /// A path of a workspace: the link back to its top, and its body.
    WorkspacePathInfo { title: Anchor, body: PathBody },
}

/// The view of a `PathBody`.
pub enum PathBodyView {
    Listing(Seq<FileRowView>),
    File { size: nat, download: Seq<char> },
    Nothing,
}

/// The view of a `Layout`.
#[allow(inconsistent_fields)]
pub enum LayoutView {
    Homepage { listing: AnchorView },
    WorkspaceListing { rows: Seq<RecordRowView> },
    WorkspaceTop { title: Seq<char>, url: Seq<char>, rows: Option<Seq<FileRowView>> },
    WorkspacePathInfo { title: AnchorView, body: PathBodyView },
}

/// The views of some rows of a file listing, in order.
pub open spec fn rows_view(rows: Seq<FileRow>) -> Seq<FileRowView> {
    Seq::new(rows.len(), |i: int| rows[i]@)
}

/// The view of an optional body of a file table.
pub open spec fn table_view(rows: Option<Vec<FileRow>>) -> Option<Seq<FileRowView>> {
    match rows {
        Some(r) => Some(rows_view(r@)),
        None => None,
    }
}

impl View for PathBody {
    type V = PathBodyView;

    open spec fn view(&self) -> PathBodyView {
        match *self {
            PathBody::Listing(rows) => PathBodyView::Listing(rows_view(rows@)),
            PathBody::File { size, download } => PathBodyView::File {
                size: size as nat,
                download: download@,
            },
            PathBody::Nothing => PathBodyView::Nothing,
        }
    }
}

impl View for Layout {
    type V = LayoutView;

    open spec fn view(&self) -> LayoutView {
        match *self {
            Layout::Homepage { listing } => LayoutView::Homepage { listing: listing@ },
            Layout::WorkspaceListing { rows } => LayoutView::WorkspaceListing {
                rows: Seq::new(rows@.len(), |i: int| rows@[i]@),
            },
            Layout::WorkspaceTop { title, url, rows } => LayoutView::WorkspaceTop {
                title: title@,
                url: url@,
                rows: table_view(rows),
            },
            Layout::WorkspacePathInfo { title, body } => LayoutView::WorkspacePathInfo {
                title: title@,
                body: body@,
            },
        }
    }
}

/// The name of a kind of entry, as the classes of the listing spell it.
pub open spec fn kind_name(kind: EntryKind) -> Seq<char> {
    match kind {
        EntryKind::Tree => "tree"@,
        EntryKind::Blob => "blob"@,
        EntryKind::CommitLink => "commit-link"@,
        EntryKind::Other => "other"@,
    }
}

/// The identifier of a commit as the addresses spell it: empty where there is
/// no commit.
pub open spec fn commit_text(commit_id: Option<Seq<char>>) -> Seq<char> {
    match commit_id {
        Some(id) => id,
        None => Seq::empty(),
    }
}

/// The title of a workspace: its description, or its number where it has none.
pub open spec fn title_of(description: Option<Seq<char>>, workspace_id: int) -> Seq<char> {
    match description {
        Some(d) => d,
        None => "Workspace "@ + decimal(workspace_id),
    }
}

/// The link to the top of a workspace, under `label`.
pub open spec fn top_link(workspace_id: int, label: Seq<char>) -> AnchorView {
    AnchorView {
        href: workspace_href(workspace_id),
        label,
        resource: Some(ResourceView::WorkspaceTop(workspace_id)),
    }
}

/// The row of a workspace in the listing of the workspaces.
pub open spec fn record_row(workspace: WorkspaceView) -> RecordRowView {
    RecordRowView {
        link: top_link(workspace.id, "Workspace: "@ + decimal(workspace.id)),
        url: workspace.url,
        description: match workspace.description {
            Some(d) => d,
            None => Seq::empty(),
        },
    }
}

/// The rows of a directory: the way up first, unless the directory is the
/// root, then one row for each entry, in the order of the tree.
pub open spec fn listing_rows(info: WorkspacePathInfoView, entries: Seq<TreeEntryView>) -> Seq<
    FileRowView,
> {
    let commit = commit_text(info.commit_id);
    let up = if info.path.len() > 0 {
        seq![file_row(info.workspace_id, commit, info.path, "pardir"@, ".."@)]
    } else {
        Seq::empty()
    };
    up + Seq::new(
        entries.len(),
        |i: int|
            file_row(
                info.workspace_id,
                commit,
                info.path,
                kind_name(entries[i].kind),
                entries[i].name,
            ),
    )
}

/// The body of the file table of a merged shape: the rows of its directory,
/// and no body where it is absent or names no directory.
pub open spec fn table_body(info: Option<WorkspacePathInfoView>) -> Option<Seq<FileRowView>> {
    match info {
        Some(i) => match i.object {
            Some(PathObjectView::TreeInfo(entries)) => Some(listing_rows(i, entries)),
            _ => None,
        },
        None => None,
    }
}

/// What stands under the title of a path of a workspace: the listing of a
/// directory, the size and the download address of a file, or nothing.
pub open spec fn path_body(info: WorkspacePathInfoView) -> PathBodyView {
    match info.object {
        Some(PathObjectView::TreeInfo(entries)) => PathBodyView::Listing(
            listing_rows(info, entries),
        ),
        Some(PathObjectView::FileInfo { size }) => PathBodyView::File {
            size,
            download: raw_href(info.workspace_id, commit_text(info.commit_id), info.path),
        },
        None => PathBodyView::Nothing,
    }
}

/// The layout of a content.
pub open spec fn layout_of(content: ContentView) -> LayoutView {
    match content {
        ContentView::Homepage => LayoutView::Homepage {
            listing: AnchorView {
                href: "/workspace/"@,
                label: "Workspace Listing"@,
                resource: Some(ResourceView::WorkspaceListing),
            },
        },
        ContentView::WorkspaceListing(records) => LayoutView::WorkspaceListing {
            rows: Seq::new(records.len(), |i: int| record_row(records[i])),
        },
        ContentView::WorkspaceTop(record, info) => LayoutView::WorkspaceTop {
            title: title_of(record.workspace.description, record.workspace.id),
            url: record.workspace.url,
            rows: table_body(info),
        },
        ContentView::WorkspacePathInfo(info) => LayoutView::WorkspacePathInfo {
            title: top_link(
                info.workspace_id,
                title_of(info.workspace_description, info.workspace_id),
            ),
            body: path_body(info),
        },
    }
}

/// The name of `kind`.
pub fn kind_str(kind: EntryKind) -> (name: &'static str)
    ensures
        name@ == kind_name(kind),
{
    match kind {
        EntryKind::Tree => "tree",
        EntryKind::Blob => "blob",
        EntryKind::CommitLink => "commit-link",
        EntryKind::Other => "other",
    }
}

fn href_of_top(workspace_id: i64) -> (href: String)
    ensures
        href@ == workspace_href(workspace_id as int),
{
    let mut href = String::from_str("/workspace/");
    push_decimal(&mut href, workspace_id);
    href.append("/");
    href
}

fn title(description: &Option<String>, workspace_id: i64) -> (title: String)
    ensures
        title@ == title_of(text_view(*description), workspace_id as int),
{
    match description {
        Some(d) => d.clone(),
        None => {
            let mut title = String::from_str("Workspace ");
            push_decimal(&mut title, workspace_id);
            title
        },
    }
}

fn commit_of(info: &WorkspacePathInfo) -> (commit: String)
    ensures
        commit@ == commit_text(info@.commit_id),
{
    match &info.commit_id {
        Some(id) => id.clone(),
        None => String::new(),
    }
}

/// The row of `workspace_record` in the listing of the workspaces.
pub fn show_workspace_record_row(workspace_record: &Workspace) -> (row: RecordRow)
    ensures
        row@ == record_row(workspace_record@),
{
    let mut label = String::from_str("Workspace: ");
    push_decimal(&mut label, workspace_record.id);
    let description = match &workspace_record.description {
        Some(d) => d.clone(),
        None => String::new(),
    };
    RecordRow {
        link: Anchor {
            href: href_of_top(workspace_record.id),
            label,
            resource: Some(Resource::WorkspaceTop(workspace_record.id)),
        },
        url: workspace_record.url.clone(),
        description,
    }
}

fn rows_of(info: &WorkspacePathInfo, entries: &Vec<TreeEntry>) -> (rows: Vec<FileRow>)
    ensures
        rows_view(rows@) == listing_rows(
            info@,
            Seq::new(entries@.len(), |i: int| entries@[i]@),
        ),
{
    let commit = commit_of(info);
    let ghost listed = Seq::new(entries@.len(), |i: int| entries@[i]@);
    let ghost up = if info@.path.len() > 0 {
        seq![file_row(info@.workspace_id, commit@, info@.path, "pardir"@, ".."@)]
    } else {
        Seq::<FileRowView>::empty()
    };
    let mut rows: Vec<FileRow> = Vec::new();
    if !info.path.as_str().is_empty() {
        rows.push(
            show_workspace_file_row(
                info.workspace_id,
                commit.as_str(),
                info.path.as_str(),
                "pardir",
                "..",
            ),
        );
    }
    assert(rows_view(rows@) =~= up);
    let mut i: usize = 0;
    while i < entries.len()
        invariant
            i <= entries@.len(),
            commit@ == commit_text(info@.commit_id),
            listed == Seq::new(entries@.len(), |i: int| entries@[i]@),
            up.len() <= 1,
            rows@.len() == up.len() + i,
            rows_view(rows@) == up + Seq::new(
                i as nat,
                |k: int|
                    file_row(
                        info@.workspace_id,
                        commit@,
                        info@.path,
                        kind_name(listed[k].kind),
                        listed[k].name,
                    ),
            ),
        decreases entries@.len() - i,
    {
        let ghost before = rows_view(rows@);
        let row = show_workspace_file_row(
            info.workspace_id,
            commit.as_str(),
            info.path.as_str(),
            kind_str(entries[i].kind),
            entries[i].name.as_str(),
        );
        rows.push(row);
        proof {
            assert(rows_view(rows@) =~= before.push(row@));
            assert(rows_view(rows@) =~= up + Seq::new(
                (i + 1) as nat,
                |k: int|
                    file_row(
                        info@.workspace_id,
                        commit@,
                        info@.path,
                        kind_name(listed[k].kind),
                        listed[k].name,
                    ),
            ));
        }
        i += 1;
    }
    rows
}

/// The body of the file table of `wks_path_info`.
pub fn show_workspace_file_table_body(wks_path_info: Option<&WorkspacePathInfo>) -> (rows: Option<
    Vec<FileRow>,
>)
    ensures
        table_view(rows) == table_body(
            match wks_path_info {
                Some(info) => Some(info@),
                None => None,
            },
        ),
{
    match wks_path_info {
        Some(info) => match &info.object {
            Some(PathObject::TreeInfo(tree)) => Some(rows_of(info, &tree.entries)),
            _ => None,
        },
        None => None,
    }
}

impl Content {
    /// The layout of the content.
    pub fn view(&self) -> (layout: Layout)
        ensures
            layout@ == layout_of(self.shown()),
    {
        match self {
            Content::Homepage => Layout::Homepage {
                listing: Anchor {
                    href: String::from_str("/workspace/"),
                    label: String::from_str("Workspace Listing"),
                    resource: Some(Resource::WorkspaceListing),
                },
            },
            Content::WorkspaceListing(records) => {
                let mut rows: Vec<RecordRow> = Vec::new();
                let mut i: usize = 0;
                while i < records.workspaces.len()
                    invariant
                        i <= records.workspaces@.len(),
                        rows@.len() == i,
                        forall|k: int|
                            0 <= k < i ==> (#[trigger] rows@[k])@ == record_row(
                                records.workspaces@[k]@,
                            ),
                    decreases records.workspaces@.len() - i,
                {
                    rows.push(show_workspace_record_row(&records.workspaces[i]));
                    i += 1;
                }
                assert(Seq::new(rows@.len(), |k: int| rows@[k]@) =~= Seq::new(
                    records@.len(),
                    |k: int| record_row(records@[k]),
                ));
                Layout::WorkspaceListing { rows }
            },
            Content::WorkspaceTop(workspace_record, wks_path_info) => Layout::WorkspaceTop {
                title: title(
                    &workspace_record.workspace.description,
                    workspace_record.workspace.id,
                ),
                url: workspace_record.workspace.url.clone(),
                rows: show_workspace_file_table_body(wks_path_info.as_ref()),
            },
            Content::WorkspacePathInfo(wks_path_info) => {
                let body = match &wks_path_info.object {
                    Some(PathObject::TreeInfo(tree)) => PathBody::Listing(
                        rows_of(wks_path_info, &tree.entries),
                    ),
                    Some(PathObject::FileInfo(file_info)) => {
                        let mut download = String::from_str("/workspace/");
                        push_decimal(&mut download, wks_path_info.workspace_id);
                        download.append("/raw/");
                        download.append(commit_of(wks_path_info).as_str());
                        download.append("/");
                        download.append(wks_path_info.path.as_str());
                        PathBody::File { size: file_info.size, download }
                    },
                    None => PathBody::Nothing,
                };
                Layout::WorkspacePathInfo {
                    title: Anchor {
                        href: href_of_top(wks_path_info.workspace_id),
                        label: title(
                            &wks_path_info.workspace_description,
                            wks_path_info.workspace_id,
                        ),
                        resource: Some(Resource::WorkspaceTop(wks_path_info.workspace_id)),
                    },
                    body,
                }
            },
        }
    }
}

} // verus!
