//! The documentation value model of a servant-rs API and its Markdown rendering.
pub mod markdown;
pub mod model;
pub mod schema;
