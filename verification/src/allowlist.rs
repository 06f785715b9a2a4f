//! The set of IPv4 sources whose connections are forwarded.

use vstd::prelude::*;
use crate::address::Ipv4Address;

verus! {

/// The IPv4 addresses permitted to have their connections forwarded.
///
/// Membership is by exact equality of the address: there are no prefixes
/// and no implicitly trusted addresses. The list is fixed once built.
#[derive(Debug)]
pub struct Allowlist {
    entries: Vec<Ipv4Address>,
}

impl View for Allowlist {
    type V = Set<Ipv4Address>;

    /// The listed addresses as a set; order and repetition of the entries
    /// it was built from do not matter.
    closed spec fn view(&self) -> Set<Ipv4Address> {
        self.entries@.to_set()
    }
}

impl Allowlist {
    /// The allowlist that holds exactly the given addresses.
    pub fn new(entries: Vec<Ipv4Address>) -> (list: Allowlist)
        ensures
            list@ == entries@.to_set(),
    {
        Allowlist { entries }
    }

    /// The allowlist that holds no address.
    pub fn empty() -> (list: Allowlist)
        ensures
            list@ == Set::<Ipv4Address>::empty(),
    {
        let list = Allowlist { entries: Vec::new() };
        assert(list.entries@.to_set() =~= Set::<Ipv4Address>::empty());
        list
    }

    /// Whether `ip` is listed.
    pub fn contains(&self, ip: Ipv4Address) -> (found: bool)
        ensures
            found == self@.contains(ip),
    {
        let mut i: usize = 0;
        while i < self.entries.len()
            invariant
                i <= self.entries.len(),
                forall|j: int| 0 <= j < i ==> self.entries@[j] != ip,
            decreases self.entries.len() - i,
        {
            if self.entries[i] == ip {
                return true;
            }
            i += 1;
        }
        false
    }

    /// Whether no address is listed.
    pub fn is_empty(&self) -> (empty: bool)
        ensures
            empty == (self@ == Set::<Ipv4Address>::empty()),
    {
        let empty = self.entries.len() == 0;
        proof {
            if empty {
                assert(self.entries@.to_set() =~= Set::<Ipv4Address>::empty());
            } else {
                assert(self.entries@.to_set().contains(self.entries@[0]));
            }
        }
        empty
    }
}

} // verus!
