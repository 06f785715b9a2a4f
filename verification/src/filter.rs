//! The admission decision for one candidate source address.

use vstd::prelude::*;
use crate::address::{Ipv4Address, SocketAddress};
use crate::allowlist::Allowlist;

verus! {

/// Why a connection is dropped without being forwarded.
#[derive(Clone, Copy, Debug, PartialEq, Eq, Structural)]
pub enum Rejection {
    /// The source is an IPv4 address that the allowlist does not hold.
    NotAllowed,
    /// The source is not an IPv4 address; the allowlist is not consulted.
    UnsupportedFamily,
}

/// The outcome of the address filter for one source address.
#[derive(Clone, Copy, Debug, PartialEq, Eq, Structural)]
pub enum Admission {
    /// The connection is forwarded; `peer` is the source's IPv4 address.
    Admit { peer: Ipv4Address },
    /// The connection is dropped.
    Reject { cause: Rejection },
}

/// The admission decision: an IPv4 source is admitted exactly when the
/// allowlist holds its address; any other source is rejected as an
/// unsupported family, whatever the allowlist holds.
pub open spec fn admission_of(allowlist: Set<Ipv4Address>, source: SocketAddress) -> Admission {
    match source {
        SocketAddress::V4 { ip, .. } => if allowlist.contains(ip) {
            Admission::Admit { peer: ip }
        } else {
            Admission::Reject { cause: Rejection::NotAllowed }
        },
        SocketAddress::V6 { .. } => Admission::Reject { cause: Rejection::UnsupportedFamily },
    }
}

/// Decides whether a connection from `source` is forwarded.
pub fn decide_admission(allowlist: &Allowlist, source: &SocketAddress) -> (decision: Admission)
    ensures
        decision == admission_of(allowlist@, *source),
{
    match source {
        SocketAddress::V4 { ip, .. } => {
            if allowlist.contains(*ip) {
                Admission::Admit { peer: *ip }
            } else {
                Admission::Reject { cause: Rejection::NotAllowed }
            }
        },
        SocketAddress::V6 { .. } => Admission::Reject { cause: Rejection::UnsupportedFamily },
    }
}

/// A source is admitted if and only if it is an IPv4 address that the
/// allowlist holds, and the admitted peer is then that address.
pub proof fn lemma_admitted_iff_listed(allowlist: Set<Ipv4Address>, source: SocketAddress)
    ensures
        admission_of(allowlist, source) is Admit <==> (source.ipv4_of() matches Some(ip)
            && allowlist.contains(ip)),
        admission_of(allowlist, source) matches Admission::Admit { peer } ==> source.ipv4_of()
            == Some(peer),
{
}

/// A source that is not an IPv4 address is rejected as an unsupported
/// family, whatever the allowlist holds.
pub proof fn lemma_other_family_rejected(allowlist: Set<Ipv4Address>, source: SocketAddress)
    requires
        source.ipv4_of() is None,
    ensures
        admission_of(allowlist, source) == (Admission::Reject {
            cause: Rejection::UnsupportedFamily,
        }),
{
}

/// An IPv4 source that the allowlist does not hold is rejected as not
/// allowed, which differs from the rejection of an unsupported family.
pub proof fn lemma_unlisted_rejected(allowlist: Set<Ipv4Address>, source: SocketAddress)
    requires
        source.ipv4_of() matches Some(ip) && !allowlist.contains(ip),
    ensures
        admission_of(allowlist, source) == (Admission::Reject { cause: Rejection::NotAllowed }),
{
}

/// With no address listed, no source is admitted: there is no implicit
/// trust, not even for loopback addresses.
pub proof fn lemma_empty_allowlist_admits_nothing(source: SocketAddress)
    ensures
        admission_of(Set::<Ipv4Address>::empty(), source) is Reject,
{
}

} // verus!
