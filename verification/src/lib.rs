//! A terminal dashboard library: a fixed set of user-configured shell
//! commands is organised into selectable tabs; selecting a tab re-runs its
//! command and shows the captured output in a bordered pane.
//!
//! This crate holds the verified core: the tab navigation state machine,
//! the colour-name mapping, the filtering of the configured tabs, the
//! key-to-action dispatch, and the pure parts of the per-frame render
//! (title splitting and pane text). Terminal I/O, process spawning and
//! config parsing live outside the library.

pub mod config;
pub mod dispatch;
pub mod render;
pub mod tabstate;
pub mod utils;
