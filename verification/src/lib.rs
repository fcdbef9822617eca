//! Core logic of a session-wide idle-inhibitor daemon.
//!
//! A single daemon instance owns an "idle inhibition" flag for the desktop
//! session and serves short-lived clients over a local control socket.  The
//! modules here hold everything that can be stated and proved about that
//! design: the one-byte wire protocol, the inhibition state machine, the
//! daemon's startup/shutdown lifecycle, and the client's interpretation of a
//! reply.  The surrounding process (socket, signal and Wayland plumbing) lives
//! outside the library and only feeds plain values into these functions.

pub mod client;
pub mod command;
pub mod lifecycle;
pub mod paths;
pub mod state;
