use vstd::prelude::*;

verus! {

/// What one read from a client connection gave.
#[derive(Clone, Copy, Debug, PartialEq, Eq, Structural)]
pub enum ReadOutcome {
    /// `n` bytes arrived in the buffer.
    Received(usize),
    Failed,
}

/// Why a connection is given up.
#[derive(Clone, Copy, Debug, PartialEq, Eq, Structural)]
pub enum CloseReason {
    PeerClosed,
    ReadFailed,
    WriteFailed,
}

/// What the echo loop does next.
#[derive(Clone, Copy, Debug, PartialEq, Eq, Structural)]
pub enum EchoAction {
    /// Read the next bytes from the client.
    Read,
    /// Write the first `n` bytes of the buffer back, then read again.
    WriteBack(usize),
    Close(CloseReason),
}

/// The step after a read into a buffer of `capacity` bytes: a read of zero
/// bytes means the peer closed, a failed read ends the connection, and every
/// other read is echoed back whole.
pub fn after_read(outcome: ReadOutcome, capacity: usize) -> (action: EchoAction)
    requires
        outcome matches ReadOutcome::Received(n) ==> n <= capacity,
    ensures
        action == match outcome {
            ReadOutcome::Received(n) => if n == 0 {
                EchoAction::Close(CloseReason::PeerClosed)
            } else {
                EchoAction::WriteBack(n)
            },
            ReadOutcome::Failed => EchoAction::Close(CloseReason::ReadFailed),
        },
        action matches EchoAction::WriteBack(n) ==> 0 < n <= capacity,
{
    match outcome {
        ReadOutcome::Received(n) => if n == 0 {
            EchoAction::Close(CloseReason::PeerClosed)
        } else {
            EchoAction::WriteBack(n)
        },
        ReadOutcome::Failed => EchoAction::Close(CloseReason::ReadFailed),
    }
}

/// The step after writing bytes back: read again on success, else close.
pub fn after_write(written: bool) -> (action: EchoAction)
    ensures
        action == if written {
            EchoAction::Read
        } else {
            EchoAction::Close(CloseReason::WriteFailed)
        },
{
    if written {
        EchoAction::Read
    } else {
        EchoAction::Close(CloseReason::WriteFailed)
    }
}

} // verus!
