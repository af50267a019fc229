//! The configured target set: resolved remote addresses, fixed at
//! startup, shared read-only by the prober and the receiver. A target's
//! measurement record lives at the same index in the measurement store.

use vstd::prelude::*;

verus! {

/// A resolved remote address in plain form: the IP as a 128-bit value
/// (an IPv4 address occupies the low 32 bits, with `is_v6` false) and
/// the UDP port. Two endpoints match only when all fields agree, so a
/// v4 address never matches its v6-mapped form.
#[derive(Clone, Copy, PartialEq, Eq, Structural, Debug)]
pub struct Endpoint {
    pub is_v6: bool,
    pub ip: u128,
    pub port: u16,
}

/// Index of the first configured target whose address equals `src`,
/// or `None` when the sender is not a configured target — a reply from
/// an unknown address matches nothing and is discarded by the receiver.
pub fn find_target(targets: &Vec<Endpoint>, src: Endpoint) -> (r: Option<usize>)
    ensures
        match r {
            Some(i) => 0 <= i < targets@.len() && targets@[i as int] == src && (forall|j: int|
                0 <= j < i ==> targets@[j] != src),
            None => forall|j: int| 0 <= j < targets@.len() ==> targets@[j] != src,
        },
{
    let mut i: usize = 0;
    while i < targets.len()
        invariant
            0 <= i <= targets@.len(),
            forall|j: int| 0 <= j < i ==> targets@[j] != src,
        decreases targets@.len() - i,
    {
        if targets[i] == src {
            return Some(i);
        }
        i = i + 1;
    }
    None
}

} // verus!
