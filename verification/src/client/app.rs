//! The state of the client application and its transitions. The application
//! decides here; what it asks of the browser and of the network is handed out
//! as a command and comes back as a message.

use vstd::prelude::*;
use crate::client::content::{layout_of, Anchor, AnchorView, Content, Layout, LayoutView};
use crate::client::model::JsonWorkspaceRecord;
use crate::projector::WorkspacePathInfo;
use crate::store::WorkspaceRecords;

verus! {

/// How far a fetch has come.
#[derive(Clone, Debug, PartialEq, Eq)]
pub enum FetchStatus<T> {
    Idle,
    Complete(T),
    Error(String),
}

/// What a page of the application stands for.
#[derive(Clone, Debug, PartialEq, Eq)]
pub enum Resource {
    Unset,
    Homepage,
    WorkspaceListing,
    WorkspaceTop(i64),
    WorkspacePathInfo(i64, String, String),
}

/// The view of a `Resource`.
pub enum ResourceView {
    Unset,
    Homepage,
    WorkspaceListing,
    WorkspaceTop(int),
    WorkspacePathInfo(int, Seq<char>, Seq<char>),
}

impl View for Resource {
    type V = ResourceView;

    open spec fn view(&self) -> ResourceView {
        match *self {
            Resource::Unset => ResourceView::Unset,
            Resource::Homepage => ResourceView::Homepage,
            Resource::WorkspaceListing => ResourceView::WorkspaceListing,
            Resource::WorkspaceTop(id) => ResourceView::WorkspaceTop(id as int),
            Resource::WorkspacePathInfo(id, commit, path) => ResourceView::WorkspacePathInfo(
                id as int,
                commit@,
                path@,
            ),
        }
    }
}

impl Resource {
    /// A copy of the resource.
    pub fn duplicate(&self) -> (copy: Resource)
        ensures
            copy == *self,
    {
        match self {
            Resource::Unset => Resource::Unset,
            Resource::Homepage => Resource::Homepage,
            Resource::WorkspaceListing => Resource::WorkspaceListing,
            Resource::WorkspaceTop(id) => Resource::WorkspaceTop(*id),
            Resource::WorkspacePathInfo(id, commit, path) => Resource::WorkspacePathInfo(
                *id,
                commit.clone(),
                path.clone(),
            ),
        }
    }

    /// Whether two resources stand for the same page.
    pub fn same(&self, other: &Resource) -> (same: bool)
        ensures
            same == (self@ == other@),
    {
        match (self, other) {
            (Resource::Unset, Resource::Unset) => true,
            (Resource::Homepage, Resource::Homepage) => true,
            (Resource::WorkspaceListing, Resource::WorkspaceListing) => true,
            (Resource::WorkspaceTop(a), Resource::WorkspaceTop(b)) => *a == *b,
            (
                Resource::WorkspacePathInfo(a, commit_a, path_a),
                Resource::WorkspacePathInfo(b, commit_b, path_b),
            ) => *a == *b && *commit_a == *commit_b && *path_a == *path_b,
            _ => false,
        }
    }
}

/// What happens to the application.
#[derive(Clone, Debug, PartialEq, Eq)]
pub enum Msg {
    /// A page was asked for, by a click: the resource and its address.
    Retrieve(Resource, String),
    /// The content of a resource has come.
    ReceivedContent(Resource, Content),
    /// A request has failed, with this description.
    RequestError(String),
    /// The address has changed, by the history of the browser.
    UrlChanged(Resource, String),
}

/// What the application asks for after a transition.
#[derive(Clone, Debug, PartialEq, Eq)]
pub struct Command {
    /// The entry to add to the history of the browser: a resource and its
    /// address.
    pub push_state: Option<(Resource, String)>,
    /// The resource whose content is to be fetched.
    pub fetch: Option<Resource>,
    /// Whether the window is to be scrolled to its top.
    pub scroll_to_top: bool,
}

/// The state of the application.
#[derive(Clone, Debug, PartialEq, Eq)]
pub struct App {
    pub content: FetchStatus<Content>,
    pub is_loading: bool,
    pub resource: Resource,
}

/// The command that asks for nothing.
pub open spec fn no_command() -> Command {
    Command { push_state: None, fetch: None, scroll_to_top: false }
}

/// What is fetched for a resource: its content, unless the resource is unset.
pub open spec fn fetch_for(resource: Resource) -> Option<Resource> {
    if resource is Unset {
        None
    } else {
        Some(resource)
    }
}

/// The application turned to `resource`: it loads, and still shows what it
/// showed.
pub open spec fn turned_to(app: App, resource: Resource) -> App {
    App { content: app.content, is_loading: true, resource }
}

/// The transition of the application on a message: its next state, and what it
/// asks for.
///
/// A page asked for by a click is added to the history and fetched. A changed
/// address is fetched. Content that has come is shown, and the window
/// scrolled to its top, if it is the content of the resource that the
/// application is turned to; content of another resource is dropped. A failed
/// request ends the loading.
pub open spec fn update_spec(app: App, msg: Msg) -> (App, Command) {
    match msg {
        Msg::Retrieve(resource, url) => (
            turned_to(app, resource),
            Command {
                push_state: Some((resource, url)),
                fetch: fetch_for(resource),
                scroll_to_top: false,
            },
        ),
        Msg::ReceivedContent(resource, content) => if resource@ == app.resource@ {
            (
                App {
                    content: FetchStatus::Complete(content),
                    is_loading: false,
                    resource: app.resource,
                },
                Command { push_state: None, fetch: None, scroll_to_top: true },
            )
        } else {
            (app, no_command())
        },
        Msg::RequestError(_) => (
            App { content: app.content, is_loading: false, resource: app.resource },
            no_command(),
        ),
        Msg::UrlChanged(resource, _) => (
            turned_to(app, resource),
            Command { push_state: None, fetch: fetch_for(resource), scroll_to_top: false },
        ),
    }
}

impl Default for App {
    /// The application before anything is known: idle, loading, turned to no
    /// resource.
    fn default() -> (app: App)
        ensures
            app.content is Idle,
            app.is_loading,
            app.resource is Unset,
    {
        App { content: FetchStatus::Idle, is_loading: true, resource: Resource::Unset }
    }
}

impl App {
    /// The application on the homepage.
    pub fn with_homepage() -> (app: App)
        ensures
            app == (App {
                content: FetchStatus::Complete(Content::Homepage),
                is_loading: false,
                resource: Resource::Homepage,
            }),
    {
        App {
            content: FetchStatus::Complete(Content::Homepage),
            is_loading: false,
            resource: Resource::Homepage,
        }
    }

    /// The application on the listing of the workspaces.
    pub fn with_workspace_listing(workspace_listing: WorkspaceRecords) -> (app: App)
        ensures
            app == (App {
                content: FetchStatus::Complete(Content::WorkspaceListing(workspace_listing)),
                is_loading: false,
                resource: Resource::WorkspaceListing,
            }),
    {
        App {
            content: FetchStatus::Complete(Content::WorkspaceListing(workspace_listing)),
            is_loading: false,
            resource: Resource::WorkspaceListing,
        }
    }

    /// The application on the top of a workspace.
    pub fn with_workspace_top(
        workspace_id: i64,
        record: JsonWorkspaceRecord,
        object_info: Option<WorkspacePathInfo>,
    ) -> (app: App)
        ensures
            app == (App {
                content: FetchStatus::Complete(Content::WorkspaceTop(record, object_info)),
                is_loading: false,
                resource: Resource::WorkspaceTop(workspace_id),
            }),
    {
        App {
            content: FetchStatus::Complete(Content::WorkspaceTop(record, object_info)),
            is_loading: false,
            resource: Resource::WorkspaceTop(workspace_id),
        }
    }

    /// The application on a path of a workspace at a commit.
    pub fn with_workspace_pathinfo(
        workspace_id: i64,
        commit_id: String,
        filepath: String,
        object_info: WorkspacePathInfo,
    ) -> (app: App)
        ensures
            app == (App {
                content: FetchStatus::Complete(Content::WorkspacePathInfo(object_info)),
                is_loading: false,
                resource: Resource::WorkspacePathInfo(workspace_id, commit_id, filepath),
            }),
    {
        App {
            content: FetchStatus::Complete(Content::WorkspacePathInfo(object_info)),
            is_loading: false,
            resource: Resource::WorkspacePathInfo(workspace_id, commit_id, filepath),
        }
    }

    /// The entry that the history of the browser starts with: the resource
    /// that the application is turned to, or none where it is turned to none.
    pub fn init(&self) -> (state: Option<Resource>)
        ensures
            state == fetch_for(self.resource),
    {
        match &self.resource {
            Resource::Unset => None,
            resource => Some(resource.duplicate()),
        }
    }

    /// Takes `msg`: the state changes and a command is handed out, as
    /// `update_spec` says.
    pub fn update(&mut self, msg: Msg) -> (command: Command)
        ensures
            (*final(self), command) == update_spec(*old(self), msg),
    {
        match msg {
            Msg::Retrieve(resource, url) => {
                let fetch = self.turn_to(&resource);
                Command { push_state: Some((resource, url)), fetch, scroll_to_top: false }
            },
            Msg::ReceivedContent(resource, content) => {
                if resource.same(&self.resource) {
                    self.content = FetchStatus::Complete(content);
                    self.is_loading = false;
                    Command { push_state: None, fetch: None, scroll_to_top: true }
                } else {
                    Command { push_state: None, fetch: None, scroll_to_top: false }
                }
            },
            Msg::RequestError(_) => {
                self.is_loading = false;
                Command { push_state: None, fetch: None, scroll_to_top: false }
            },
            Msg::UrlChanged(resource, _) => {
                let fetch = self.turn_to(&resource);
                Command { push_state: None, fetch, scroll_to_top: false }
            },
        }
    }

    fn turn_to(&mut self, resource: &Resource) -> (fetch: Option<Resource>)
        ensures
            *final(self) == turned_to(*old(self), *resource),
            fetch == fetch_for(*resource),
    {
        self.is_loading = true;
        self.resource = resource.duplicate();
        match resource {
            Resource::Unset => None,
            other => Some(other.duplicate()),
        }
    }

    /// The style of the application itself: none, the page brings the
    /// stylesheet.
    pub fn style(&self) -> (css: String)
        ensures
            css@.len() == 0,
    {
        String::new()
    }
}

/// Where the fetch of the top of a workspace stands after its record has come.
#[derive(Clone, Debug, PartialEq, Eq)]
pub enum WorkspaceFetch {
    /// The fetch is over, with this message.
    Done(Msg),
    /// The root of the workspace at `commit_id` is to be asked for next.
    Root { resource: Resource, record: JsonWorkspaceRecord, commit_id: String },
}

/// The message that ends the fetch of the homepage: its content, which needs
/// no request.
pub fn fetch_homepage(resource: Resource) -> (msg: Msg)
    ensures
        msg == Msg::ReceivedContent(resource, Content::Homepage),
{
    Msg::ReceivedContent(resource, Content::Homepage)
}

/// The message that ends the fetch of the listing of the workspaces: the
/// listing that came, or the failure of the request.
pub fn fetch_workspace_listing(resource: Resource, answer: Result<WorkspaceRecords, String>) -> (msg:
    Msg)
    ensures
        msg == match answer {
            Ok(records) => Msg::ReceivedContent(resource, Content::WorkspaceListing(records)),
            Err(e) => Msg::RequestError(e),
        },
{
    match answer {
        Ok(records) => Msg::ReceivedContent(resource, Content::WorkspaceListing(records)),
        Err(e) => Msg::RequestError(e),
    }
}

/// The step that follows the record of a workspace: with a head commit, its
/// root is asked for next; without one, the top is shown without a listing; a
/// failed request ends the fetch.
pub fn fetch_workspace(resource: Resource, answer: Result<JsonWorkspaceRecord, String>) -> (step:
    WorkspaceFetch)
    ensures
        step == match answer {
            Ok(record) => match record.head_commit {
                Some(commit_id) => WorkspaceFetch::Root { resource, record, commit_id },
                None => WorkspaceFetch::Done(
                    Msg::ReceivedContent(resource, Content::WorkspaceTop(record, None)),
                ),
            },
            Err(e) => WorkspaceFetch::Done(Msg::RequestError(e)),
        },
{
    match answer {
        Ok(record) => {
            let head = match &record.head_commit {
                Some(commit_id) => Some(commit_id.clone()),
                None => None,
            };
            match head {
                Some(commit_id) => WorkspaceFetch::Root { resource, record, commit_id },
                None => WorkspaceFetch::Done(
                    Msg::ReceivedContent(resource, Content::WorkspaceTop(record, None)),
                ),
            }
        },
        Err(e) => WorkspaceFetch::Done(Msg::RequestError(e)),
    }
}

/// The message that ends the fetch of the top of a workspace: its record with
/// the listing of its root, or without one where that request failed.
pub fn fetch_workspace_root(
    resource: Resource,
    record: JsonWorkspaceRecord,
    answer: Result<WorkspacePathInfo, String>,
) -> (msg: Msg)
    ensures
        msg == Msg::ReceivedContent(
            resource,
            Content::WorkspaceTop(
                record,
                match answer {
                    Ok(info) => Some(info),
                    Err(_) => None,
                },
            ),
        ),
{
    let object_info = match answer {
        Ok(info) => Some(info),
        Err(_) => None,
    };
    Msg::ReceivedContent(resource, Content::WorkspaceTop(record, object_info))
}

/// The message that ends the fetch of a path of a workspace: what was found
/// there, or the failure of the request.
pub fn fetch_workspace_pathinfo(resource: Resource, answer: Result<WorkspacePathInfo, String>) -> (msg:
    Msg)
    ensures
        msg == match answer {
            Ok(info) => Msg::ReceivedContent(resource, Content::WorkspacePathInfo(info)),
            Err(e) => Msg::RequestError(e),
        },
{
    match answer {
        Ok(info) => Msg::ReceivedContent(resource, Content::WorkspacePathInfo(info)),
        Err(e) => Msg::RequestError(e),
    }
}

/// A link of the header, with the class that marks it when its pages are shown.
#[derive(Clone, Debug, PartialEq, Eq)]
pub struct NavLink {
    pub link: Anchor,
    pub class: String,
}

/// What stands in the main part of the page.
#[derive(Clone, Debug, PartialEq, Eq)]
pub enum MainView {
    /// Nothing was fetched yet.
    Idle,
    /// A fetch failed, with this description.
    Error(String),
    /// The content that was fetched, laid out.
    Content(Layout),
}

/// The page of the application: the two links of its header, the class of its
/// loading indicator, and its main part.
#[derive(Clone, Debug, PartialEq, Eq)]
pub struct Frame {
    pub home: NavLink,
    pub workspaces: NavLink,
    pub indicator: String,
    pub main: MainView,
}

/// The view of a `NavLink`.
pub struct NavLinkView {
    pub link: AnchorView,
    pub class: Seq<char>,
}

/// The view of a `MainView`.
pub enum MainPart {
    Idle,
    Error(Seq<char>),
    Content(LayoutView),
}

/// The view of a `Frame`.
pub struct FrameView {
    pub home: NavLinkView,
    pub workspaces: NavLinkView,
    pub indicator: Seq<char>,
    pub main: MainPart,
}

impl View for NavLink {
    type V = NavLinkView;

    open spec fn view(&self) -> NavLinkView {
        NavLinkView { link: self.link@, class: self.class@ }
    }
}

impl View for MainView {
    type V = MainPart;

    open spec fn view(&self) -> MainPart {
        match *self {
            MainView::Idle => MainPart::Idle,
            MainView::Error(e) => MainPart::Error(e@),
            MainView::Content(layout) => MainPart::Content(layout@),
        }
    }
}

impl View for Frame {
    type V = FrameView;

    open spec fn view(&self) -> FrameView {
        FrameView {
            home: self.home@,
            workspaces: self.workspaces@,
            indicator: self.indicator@,
            main: self.main@,
        }
    }
}

/// The class of a link of the header: marked when one of its pages is shown.
pub open spec fn nav_class(active: bool) -> Seq<char> {
    if active {
        "active"@
    } else {
        Seq::empty()
    }
}

/// The class of the loading indicator.
pub open spec fn indicator_class(is_loading: bool) -> Seq<char> {
    if is_loading {
        "loading"@
    } else {
        "loaded"@
    }
}

/// The main part of the page for what was fetched.
pub open spec fn main_part(content: FetchStatus<Content>) -> MainPart {
    match content {
        FetchStatus::Idle => MainPart::Idle,
        FetchStatus::Error(e) => MainPart::Error(e@),
        FetchStatus::Complete(content) => MainPart::Content(layout_of(content.shown())),
    }
}

/// The page of the application in a state. The link to the homepage is marked
/// on the homepage, the link to the workspaces on every page of a workspace
/// and on their listing.
pub open spec fn frame_of(app: App) -> FrameView {
    FrameView {
        home: NavLinkView {
            link: AnchorView {
                href: "/"@,
                label: "Home"@,
                resource: Some(ResourceView::Homepage),
            },
            class: nav_class(app.resource is Homepage),
        },
        workspaces: NavLinkView {
            link: AnchorView {
                href: "/workspace/"@,
                label: "Workspace Listing"@,
                resource: Some(ResourceView::WorkspaceListing),
            },
            class: nav_class(
                app.resource is WorkspaceListing || app.resource is WorkspaceTop
                    || app.resource is WorkspacePathInfo,
            ),
        },
        indicator: indicator_class(app.is_loading),
        main: main_part(app.content),
    }
}

fn class_of(active: bool) -> (class: String)
    ensures
        class@ == nav_class(active),
{
    if active {
        String::from_str("active")
    } else {
        String::new()
    }
}

impl App {
    /// The main part of the page.
    pub fn view_content(&self) -> (main: MainView)
        ensures
            main@ == main_part(self.content),
    {
        match &self.content {
            FetchStatus::Idle => MainView::Idle,
            FetchStatus::Error(e) => MainView::Error(e.clone()),
            FetchStatus::Complete(content) => MainView::Content(content.view()),
        }
    }

    /// The class of the loading indicator.
    pub fn loading_indicator(&self) -> (class: String)
        ensures
            class@ == indicator_class(self.is_loading),
    {
        if self.is_loading {
            String::from_str("loading")
        } else {
            String::from_str("loaded")
        }
    }

    /// The page of the application.
    pub fn view(&self) -> (frame: Frame)
        ensures
            frame@ == frame_of(*self),
    {
        let on_home = match &self.resource {
            Resource::Homepage => true,
            _ => false,
        };
        let on_workspaces = match &self.resource {
            Resource::WorkspaceListing
            | Resource::WorkspaceTop(..)
            | Resource::WorkspacePathInfo(..) => true,
            _ => false,
        };
        Frame {
            home: NavLink {
                link: Anchor {
                    href: String::from_str("/"),
                    label: String::from_str("Home"),
                    resource: Some(Resource::Homepage),
                },
                class: class_of(on_home),
            },
            workspaces: NavLink {
                link: Anchor {
                    href: String::from_str("/workspace/"),
                    label: String::from_str("Workspace Listing"),
                    resource: Some(Resource::WorkspaceListing),
                },
                class: class_of(on_workspaces),
            },
            indicator: self.loading_indicator(),
            main: self.view_content(),
        }
    }
}

} // verus!
