//! The control-channel command set and its one-byte wire encoding.
//!
//! A client sends exactly one command byte per connection and the daemon
//! replies with exactly one status byte (`0` = disabled, `1` = enabled).
//! `Daemon` is a launch mode of the binary; it is never sent over the wire,
//! and the daemon treats its code like any other no-op request.

use vstd::prelude::*;

verus! {

/// A requested operation, as chosen on the command line and (except for
/// `Daemon`) carried over the control socket as a single byte.
#[derive(Clone, Copy, Debug, PartialEq, Eq, Structural)]
pub enum Command {
    /// Run as the daemon; a launch mode, never sent over the wire.
    Daemon,
    /// Query the current inhibition state.
    Status,
    /// Switch inhibition on.
    Enable,
    /// Switch inhibition off.
    Disable,
    /// Flip the inhibition state.
    Toggle,
}

/// The wire code of each command.
pub open spec fn command_code(c: Command) -> u8 {
    match c {
        Command::Daemon => 0,
        Command::Status => 1,
        Command::Enable => 2,
        Command::Disable => 3,
        Command::Toggle => 4,
    }
}

/// The command a request byte stands for, or `None` for a byte outside the
/// recognized set.  Unrecognized bytes are tolerated by the daemon: it treats
/// them as a no-op and still answers with the current status.
pub open spec fn command_of_code(b: u8) -> Option<Command> {
    if b == 0 {
        Some(Command::Daemon)
    } else if b == 1 {
        Some(Command::Status)
    } else if b == 2 {
        Some(Command::Enable)
    } else if b == 3 {
        Some(Command::Disable)
    } else if b == 4 {
        Some(Command::Toggle)
    } else {
        None
    }
}

/// The status byte the daemon writes back for a given inhibition state.
pub open spec fn status_code(enabled: bool) -> u8 {
    if enabled {
        1
    } else {
        0
    }
}

impl Command {
    /// The byte this command is sent as.
    pub fn to_byte(&self) -> (b: u8)
        ensures
            b == command_code(*self),
    {
        match self {
            Command::Daemon => 0,
            Command::Status => 1,
            Command::Enable => 2,
            Command::Disable => 3,
            Command::Toggle => 4,
        }
    }

    /// Decode a request byte; `None` for a byte outside the recognized set.
    pub fn from_byte(b: u8) -> (c: Option<Command>)
        ensures
            c == command_of_code(b),
    {
        match b {
            0 => Some(Command::Daemon),
            1 => Some(Command::Status),
            2 => Some(Command::Enable),
            3 => Some(Command::Disable),
            4 => Some(Command::Toggle),
            _ => None,
        }
    }
}

} // verus!
