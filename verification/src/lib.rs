//! Verified core of the Pulse button bridge.
//!
//! Pulse joins a coding agent on the host with a physical button. Two programs
//! share this library: the daemon, which watches a state file and talks to the
//! button over WebSocket, and the firmware of the button itself. Everything
//! they decide stands here; sockets, files, clocks and pins stay outside.

pub mod daemon;
pub mod firmware;
pub mod json;
pub mod path;
pub mod text;
