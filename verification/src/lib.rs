//! Decision, formatting and state-machine logic of the terminal-session
//! surface of the warp TUI: footer statusline, `/status` menu, Tab completion
//! bookkeeping, conversation restore, queued follow-ups and ctrl-c handling.
use vstd::prelude::*;

pub mod text;
pub mod footer_row;
pub mod datetime;
pub mod statusline;
pub mod hints;
pub mod footer;
pub mod completions;
pub mod status_menu;
pub mod restore;
pub mod follow_up;
pub mod interrupt;
pub mod session_io;
pub mod session_ui;
pub mod slash_commands;
pub mod row_checks;
pub mod session_events;
pub mod keymap;
pub mod laws;

verus! {
} // verus!
