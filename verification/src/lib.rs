//! Core library of the pcli task manager: models, parsers and the
//! decisions behind each command, with their contracts.

pub mod clock;
pub mod commands;
pub mod config;
pub mod dashboard;
pub mod duration;
pub mod error;
pub mod filter;
pub mod listing;
pub mod paths;
pub mod project;
pub mod reminder;
pub mod repl;
pub mod store;
pub mod table;
pub mod task;
pub mod tasks_cmd;
pub mod text;
pub mod time_log;
pub mod tui;

use vstd::prelude::*;

verus! {

/// Application name.
pub const APP_NAME: &'static str = "pcli";

} // verus!
