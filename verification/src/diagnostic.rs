//! The events that the proxy makes observable.

use vstd::prelude::*;
use crate::address::{Ipv4Address, SocketAddress};
use crate::filter::Admission;
use crate::relay::RelayDirection;

verus! {

/// One observable event of the proxy.
///
/// A diagnostic says what happened and to which session, and carries the
/// description of the I/O error where there was one. How it is worded and
/// at which severity it is written is left to the caller.
#[derive(Debug, PartialEq, Eq)]
pub enum Diagnostic {
    /// An inbound connection was accepted and given a session identifier.
    ConnectionAccepted { session: u64, source: SocketAddress },
    /// The address filter decided on an accepted connection.
    AdmissionDecided { session: u64, source: SocketAddress, admission: Admission },
    /// Accepting a connection failed; the listener keeps accepting.
    AcceptFailed { reason: String },
    /// The outbound connection for an admitted peer was opened.
    ConnectSucceeded { session: u64, peer: Ipv4Address },
    /// The outbound connection for an admitted peer could not be opened.
    ConnectFailed { session: u64, peer: Ipv4Address, reason: String },
    /// A relay direction reached end of stream after copying `bytes` bytes.
    RelayFinished { session: u64, direction: RelayDirection, bytes: u64 },
    /// A relay direction stopped on an I/O error.
    RelayFailed { session: u64, direction: RelayDirection, reason: String },
}

} // verus!
