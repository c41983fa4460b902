//! A request/response adapter for a launcher extension.
//!
//! The host process invokes the extension once per interaction and hands it a
//! single request: either fetch the list of display entries, or run an action
//! the user selected earlier.  The adapter decodes the request, resolves the
//! extension-scoped settings it needs, builds exactly one response (a result
//! list or a single side effect), and hands it back for the host to render or
//! perform.  All construction and dispatch logic is verified; the surrounding
//! process I/O lives outside this crate.

pub mod adapter;
pub mod codec;
pub mod dialog;
pub mod dispatch;
pub mod model;
pub mod results;
pub mod settings;
pub mod text;
