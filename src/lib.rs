//! Scheduling of tasks and debug sessions for editor windows.
//!
//! A window either owns the capability to run a request (a terminal or a
//! debugger provider), or it is a secondary window that forwards an already
//! resolved request to the primary window of its project. The decisions are
//! pure functions of the window's state; the caller performs the effects that
//! they describe and hands back the outcomes.
pub mod connection;
pub mod outcome;
pub mod registry;
pub mod template;
pub mod workspace;
