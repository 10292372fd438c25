//! The decisions of the surrounding driver: which intent the command-line
//! flag encodes, which word names the mode in the status line, and which
//! exit code the process ends with. The driver itself — argument parsing,
//! printing, the blocking read that ends the session — lives outside the
//! library and only hands plain values in.

use crate::state::Intent;
use vstd::prelude::*;
use vstd::string::StringExecFns;

verus! {

/// The command-line surface: one boolean flag.
#[derive(Clone, Copy, PartialEq, Eq, Structural, Debug)]
pub struct Args {
    /// Keep the display on as well as the system awake.
    pub display: bool,
}

/// The intent the flag encodes: absent means keep the system awake alone,
/// present means keep the system and the display awake.
pub open spec fn intent_of_spec(display: bool) -> Intent {
    if display {
        Intent::KeepSystemAndDisplayAwake
    } else {
        Intent::KeepSystemAwake
    }
}

/// Map the parsed arguments to the caller's intent.
pub fn intent_of_args(args: &Args) -> (i: Intent)
    ensures
        i == intent_of_spec(args.display),
{
    if args.display {
        Intent::KeepSystemAndDisplayAwake
    } else {
        Intent::KeepSystemAwake
    }
}

/// The word naming the mode in the status line printed after installation.
pub open spec fn mode_label_spec(intent: Intent) -> Seq<char> {
    match intent {
        Intent::KeepSystemAwake => "System"@,
        Intent::KeepSystemAndDisplayAwake => "Display"@,
    }
}

/// Render the mode word for an intent.
pub fn mode_label(intent: Intent) -> (r: String)
    ensures
        r@ == mode_label_spec(intent),
{
    match intent {
        Intent::KeepSystemAwake => String::from_str("System"),
        Intent::KeepSystemAndDisplayAwake => String::from_str("Display"),
    }
}

/// The process exit code: zero on normal completion, one exactly when the
/// session-ending read failed.
pub fn exit_code(read_ok: bool) -> (c: i32)
    ensures
        read_ok ==> c == 0,
        !read_ok ==> c == 1,
{
    if read_ok {
        0
    } else {
        1
    }
}

} // verus!
