//! Interactive browsing engine for line-oriented structured log streams.
//!
//! The library keeps an in-memory store of parsed log records, a reusable
//! navigable list with a circular selection cursor, span-based filtering,
//! a styled detail rendering of the selected record, and the reconciliation
//! that preserves the user's place when the underlying file is reloaded.
//! Terminal drawing, file watching and clipboard access live outside of it.

pub mod app;
pub mod dispatch;
pub mod highlight;
pub mod json;
pub mod log_message;
pub mod pretty_print;
pub mod selected_log_message;
pub mod stateful_list;
pub mod store;
pub mod styled;
pub mod text;
