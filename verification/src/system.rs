//! The system module: low-level chain metadata. It owns the current block
//! number and the per-account nonce counters.

use crate::storage::StorageMap;
use vstd::prelude::*;

verus! {

/// The nonce an account holds in the map `m`: zero until it is first
/// incremented (absence is zero, never materialized until written).
pub open spec fn nonce_of(m: Map<Seq<char>, u32>, who: Seq<char>) -> u32 {
    if m.dom().contains(who) {
        m[who]
    } else {
        0
    }
}

/// The system pallet: the current block number, and a map from an account
/// to the number of extrinsics it has signed.
#[derive(Debug)]
pub struct Pallet {
    block_number: u32,
    nonce: StorageMap<u32>,
}

impl Pallet {
    /// The current block number.
    pub closed spec fn spec_block_number(self) -> u32 {
        self.block_number
    }

    /// The per-account nonce counters.
    pub closed spec fn spec_nonces(self) -> Map<Seq<char>, u32> {
        self.nonce@
    }

    /// A fresh system pallet: height zero, no nonce recorded for anybody.
    pub fn new() -> (r: Self)
        ensures
            r.spec_block_number() == 0,
            r.spec_nonces() == Map::<Seq<char>, u32>::empty(),
    {
        Pallet { block_number: 0, nonce: StorageMap::new() }
    }

    /// Get the current block number.
    pub fn block_number(&self) -> (r: u32)
        ensures
            r == self.spec_block_number(),
    {
        self.block_number
    }

    /// Increment the block number by exactly one.
    pub fn inc_block_number(&mut self)
        requires
            old(self).spec_block_number() < u32::MAX,
        ensures
            final(self).spec_block_number() == old(self).spec_block_number() + 1,
            final(self).spec_nonces() == old(self).spec_nonces(),
    {
        self.block_number = self.block_number + 1;
    }

    /// Increment the nonce of `who` by exactly one, treating an absent
    /// nonce as zero before incrementing.
    pub fn inc_nonce(&mut self, who: &String)
        requires
            nonce_of(old(self).spec_nonces(), who@) < u32::MAX,
        ensures
            final(self).spec_nonces() == old(self).spec_nonces().insert(
                who@,
                (nonce_of(old(self).spec_nonces(), who@) + 1) as u32,
            ),
            final(self).spec_block_number() == old(self).spec_block_number(),
    {
        let current = match self.nonce.get(who) {
            Some(n) => *n,
            None => 0,
        };
        self.nonce.set(who, current + 1);
    }

    /// The nonce of `who`: zero if `who` has never signed an extrinsic.
    pub fn nonce(&self, who: &String) -> (r: u32)
        ensures
            r == nonce_of(self.spec_nonces(), who@),
    {
        match self.nonce.get(who) {
            Some(n) => *n,
            None => 0,
        }
    }
}

} // verus!
