//! Keeps track of where top-level windows sit on screen, and puts them back
//! after a display has gone away and returned.
//!
//! The library holds the decisions: when the system counts as asleep, what
//! window geometry to remember, and which windows to move on wake. The host
//! program performs the operating-system calls and hands the results in.
pub mod geometry;
pub mod restore;
pub mod cache;
pub mod poll;
pub mod sleep;
pub mod bridge;
pub mod watcher;
