//! What the client application holds and decides, apart from the browser.

pub mod model;
pub mod api;
pub mod content;
pub mod app;
