//! What the HTTP handlers decide, apart from the transport.

pub mod page;
pub mod error;
pub mod api;
pub mod workspace;
