//! Decisions of the event pump.
//!
//! The pump that feeds server events to the engine repeats three steps:
//! read from the connection, dispatch what was read, and finally flush
//! the responses. The I/O itself happens outside; this module fixes what
//! each outcome means for the pump.

use vstd::prelude::*;

verus! {

/// The split of an I/O failure the pump cares about.
#[derive(Copy, Clone, Debug, PartialEq, Eq, Structural)]
pub enum IoErrorKind {
    /// The operation would have had to wait.
    WouldBlock,
    /// Any other failure.
    Other,
}

/// What the pump does next.
#[derive(Copy, Clone, Debug, PartialEq, Eq, Structural)]
pub enum PumpAction {
    /// Read and dispatch once more.
    Again,
    /// Nothing left to dispatch: flush and return.
    Stop,
    /// Fail, forwarding the error.
    Fail,
}

/// Whether an I/O failure ends the pump. `WouldBlock` is tolerated in
/// both places it can occur: while reading it means another thread
/// already read the events, while flushing it means the server is slow
/// to drain its queue and the flush will be retried later.
pub fn error_is_fatal(kind: IoErrorKind) -> (r: bool)
    ensures
        r == (kind is Other),
{
    match kind {
        IoErrorKind::WouldBlock => false,
        IoErrorKind::Other => true,
    }
}

/// What one dispatch round means for the pump.
pub open spec fn spec_dispatch_decision(dispatched: Result<u32, IoErrorKind>) -> PumpAction {
    match dispatched {
        Result::Ok(count) => if count == 0 {
            PumpAction::Stop
        } else {
            PumpAction::Again
        },
        Result::Err(_) => PumpAction::Fail,
    }
}

/// Decide from a dispatch round's outcome: no events dispatched even
/// after reading the socket means the pump is done; any dispatched event
/// may have produced more work, so read again; an error is forwarded.
pub fn dispatch_decision(dispatched: Result<u32, IoErrorKind>) -> (action: PumpAction)
    ensures
        action == spec_dispatch_decision(dispatched),
{
    match dispatched {
        Result::Ok(count) => {
            if count == 0 {
                PumpAction::Stop
            } else {
                PumpAction::Again
            }
        },
        Result::Err(_) => PumpAction::Fail,
    }
}

} // verus!
