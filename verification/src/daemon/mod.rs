//! The host daemon: which files it keeps, when it tells its clients about a new
//! state, and what it does about a button press.

pub mod action;
pub mod files;
pub mod session;
pub mod state;
pub mod watch;
