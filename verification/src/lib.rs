//! Browsing of version-controlled workspaces: path resolution over a git
//! object store, the shapes handed to the JSON API and to the rendered pages,
//! and the decisions of the server handlers and of the client application.

pub mod text;

pub mod path;
pub mod object;
pub mod error;
pub mod store;
pub mod resolution;
pub mod walker;
pub mod resolver;
pub mod projector;
pub mod config;
pub mod page;
pub mod http;
pub mod client;
