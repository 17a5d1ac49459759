//! Core state machine of an interactive terminal front-end for a
//! key-management engine: a filterable, scrollable record table, a
//! prompt/input line, an options overlay, and a command dispatcher
//! that keeps them consistent.
//!
//! All engine, subprocess and clipboard work is expressed as [`Action`]
//! values handed to the caller; the caller performs them and feeds the
//! outcome back through the `apply_*` methods.

pub mod app;
pub mod color;
pub mod command;
pub mod container;
pub mod prompt;
pub mod records;
pub mod rows;
pub mod strutil;
