use vstd::prelude::*;

verus! {

/// A caller identity: a 256-bit public key held as four 64-bit limbs.
///
/// The core never inspects an identity beyond comparing it for equality;
/// the substrate that authenticates callers lives outside the library.
#[derive(Clone, Copy, PartialEq, Eq, Structural, Debug, Hash)]
pub struct Identity {
    pub k0: u64,
    pub k1: u64,
    pub k2: u64,
    pub k3: u64,
}

/// The address of a poll record: the creator together with the sequence
/// number the poll was assigned in that creator's namespace.
#[derive(Clone, Copy, PartialEq, Eq, Structural, Debug, Hash)]
pub struct PollKey {
    pub creator: Identity,
    pub poll_id: u64,
}

} // verus!
