//! The one-byte wire protocol: command codes, reply bytes, and the client's
//! reading of them.

use wayland_idle_inhibitor::client::{interpret_reply, reply_message};
use wayland_idle_inhibitor::command::Command;

#[test]
fn command_bytes_are_fixed() {
    assert_eq!(Command::Daemon.to_byte(), 0);
    assert_eq!(Command::Status.to_byte(), 1);
    assert_eq!(Command::Enable.to_byte(), 2);
    assert_eq!(Command::Disable.to_byte(), 3);
    assert_eq!(Command::Toggle.to_byte(), 4);
}

#[test]
fn command_decoding_inverts_encoding() {
    for cmd in [
        Command::Daemon,
        Command::Status,
        Command::Enable,
        Command::Disable,
        Command::Toggle,
    ] {
        assert_eq!(Command::from_byte(cmd.to_byte()), Some(cmd));
    }
}

#[test]
fn unrecognized_command_bytes_decode_to_none() {
    assert_eq!(Command::from_byte(5), None);
    assert_eq!(Command::from_byte(42), None);
    assert_eq!(Command::from_byte(255), None);
}

#[test]
fn reply_zero_means_disabled() {
    assert_eq!(interpret_reply(0), Some(false));
}

#[test]
fn reply_one_means_enabled() {
    assert_eq!(interpret_reply(1), Some(true));
}

#[test]
fn reply_outside_protocol_is_rejected() {
    assert_eq!(interpret_reply(2), None);
    assert_eq!(interpret_reply(255), None);
}

#[test]
fn reply_messages_match_state() {
    assert_eq!(reply_message(true), "Enabled");
    assert_eq!(reply_message(false), "Disabled");
}
