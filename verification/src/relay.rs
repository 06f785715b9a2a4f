//! One direction of a relayed connection and how its end is reported.

use vstd::prelude::*;
use crate::diagnostic::Diagnostic;

verus! {

/// One of the two byte streams of a forwarded connection.
///
/// Each direction pairs the read half of one socket with the write half
/// of the other and copies until its own end; it never waits for, nor
/// stops, the opposite direction.
#[derive(Clone, Copy, Debug, PartialEq, Eq, Structural)]
pub enum RelayDirection {
    /// Reads what the client sends and writes it to the destination.
    ClientToDestination,
    /// Reads what the destination sends and writes it to the client.
    DestinationToClient,
}

impl RelayDirection {
    /// The other direction of the same connection.
    pub open spec fn opposite(self) -> RelayDirection {
        match self {
            RelayDirection::ClientToDestination => RelayDirection::DestinationToClient,
            RelayDirection::DestinationToClient => RelayDirection::ClientToDestination,
        }
    }
}

/// How the copying of one direction came to its end.
#[derive(Debug, PartialEq, Eq)]
pub enum RelayOutcome {
    /// The read side reached end of stream after `bytes` bytes were copied.
    Finished { bytes: u64 },
    /// Reading or writing failed with the error that `reason` describes;
    /// nothing is retried.
    Failed { reason: String },
}

/// The diagnostic for the end of one direction: the byte count when the
/// stream ended cleanly, the error otherwise.
pub open spec fn relay_report_of(
    session: u64,
    direction: RelayDirection,
    outcome: RelayOutcome,
) -> Diagnostic {
    match outcome {
        RelayOutcome::Finished { bytes } => Diagnostic::RelayFinished { session, direction, bytes },
        RelayOutcome::Failed { reason } => Diagnostic::RelayFailed { session, direction, reason },
    }
}

/// Reports the end of one relay direction of session `session`.
pub fn relay_report(session: u64, direction: RelayDirection, outcome: RelayOutcome) -> (report:
    Diagnostic)
    ensures
        report == relay_report_of(session, direction, outcome),
{
    match outcome {
        RelayOutcome::Finished { bytes } => Diagnostic::RelayFinished { session, direction, bytes },
        RelayOutcome::Failed { reason } => Diagnostic::RelayFailed { session, direction, reason },
    }
}

} // verus!
