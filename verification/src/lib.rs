//! Verified core of an interactive terminal front-end for a dotfile manager.
//!
//! The library owns the session model: the list of changed files with their
//! per-axis statuses and selections, the highlighted-index cursor, the popup
//! action menu, and the keyboard dispatcher that turns input into state
//! transitions and gateway requests. Process spawning, terminal handling and
//! painting live outside the library and talk to it through plain values.

pub mod app;
pub mod chezmoi;
pub mod status;
