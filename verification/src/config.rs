//! What the server is started with.

use vstd::prelude::*;

verus! {

/// The settings of the server.
#[derive(Clone, Debug, PartialEq, Eq)]
pub struct Config {
    /// The database URL
    pub database_url: String,
    /// The root for the git repos
    pub pmr_git_root: String,
    /// The http port for the server
    pub http_port: u16,
}

} // verus!
