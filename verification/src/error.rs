//! The ways in which an invocation of the bridge can fail.

use crate::frame::FrameError;
use vstd::prelude::*;

verus! {

/// Why an invocation ended without a value for the host.
#[derive(Clone, Copy, Debug, PartialEq, Eq, Structural)]
pub enum BridgeError {
    /// The command line names no command.
    MissingCommand,
    /// The command is none of `connect`, `init`, `exec` and `terminate`.
    UnrecognizedCommand,
    /// The command lacks an argument that it cannot do without.
    MissingArgument,
    /// The companion could not be started.
    LaunchFailed,
    /// Every attempt to open the channel was refused and no retry is left.
    ConnectExhausted,
    /// Writing to or reading from the open channel failed, or the peer closed
    /// it in the middle of a frame.
    Transport,
    /// The peer sent a line longer than a frame may be.
    OversizedFrame,
    /// The peer sent a line that is not UTF-8.
    InvalidText,
    /// The driver reported something that the session was not waiting for.
    OutOfTurn,
}

/// The failure of an invocation whose reply was no frame.
pub open spec fn frame_failure(e: FrameError) -> BridgeError {
    match e {
        FrameError::Unterminated => BridgeError::Transport,
        FrameError::Oversized => BridgeError::OversizedFrame,
        FrameError::NotText => BridgeError::InvalidText,
    }
}

/// The exit status of a process that ended with `error`: zero without an
/// error, one with any.
pub open spec fn exit_status_of(error: Option<BridgeError>) -> int {
    if error is None {
        0
    } else {
        1
    }
}

impl BridgeError {
    /// The failure of an invocation whose reply was no frame.
    pub fn of_frame(e: FrameError) -> (error: BridgeError)
        ensures
            error == frame_failure(e),
    {
        match e {
            FrameError::Unterminated => BridgeError::Transport,
            FrameError::Oversized => BridgeError::OversizedFrame,
            FrameError::NotText => BridgeError::InvalidText,
        }
    }
}

/// The status with which the bridge exits: zero when the invocation went
/// through, non-zero when it failed.
pub fn exit_status(error: Option<BridgeError>) -> (status: i32)
    ensures
        status == exit_status_of(error),
        status == 0 <==> error is None,
{
    match error {
        None => 0,
        Some(_) => 1,
    }
}

} // verus!
