//! A terminal chat client core: an append-only message log with scrolling and
//! a line-input buffer, a pure projection of that state onto screen regions,
//! and a model of the JSON envelope a history service answers with.

pub mod text;
pub mod numfmt;
pub mod session;
pub mod render;
pub mod json;
pub mod history;
