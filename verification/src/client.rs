//! The client's half of one control-socket exchange.
//!
//! A client invocation writes one command byte, reads one reply byte, prints
//! the state the reply stands for, and exits with the reply byte itself, so
//! shell scripts can branch on the inhibition state without parsing output.
//! The connecting, writing and reading happen outside the library; these
//! functions fix what the bytes mean.

use vstd::prelude::*;

use crate::command::status_code;

verus! {

/// The inhibition state a reply byte stands for: `0` is disabled, `1` is
/// enabled, and anything else is a protocol violation the daemon never
/// sends — `None` here.
pub fn interpret_reply(reply: u8) -> (state: Option<bool>)
    ensures
        state == (if reply == 0 {
            Some(false)
        } else if reply == 1 {
            Some(true)
        } else {
            None::<bool>
        }),
        state matches Some(e) ==> reply == status_code(e),
{
    match reply {
        0 => Some(false),
        1 => Some(true),
        _ => None,
    }
}

/// The line the client prints for a reply: the state's name, capitalized.
pub fn reply_message(enabled: bool) -> (msg: &'static str)
    ensures
        enabled ==> msg@ == "Enabled"@,
        !enabled ==> msg@ == "Disabled"@,
{
    if enabled {
        "Enabled"
    } else {
        "Disabled"
    }
}

} // verus!
