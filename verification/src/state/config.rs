use crate::address::{zero_bytes, Address};
use vstd::prelude::*;

verus! {

/// The authority record: one per owning identity. Everything but the two
/// counters stays as it was written at set-up.
#[derive(Clone, Copy, Debug, PartialEq, Eq)]
pub struct Config {
    pub authority: Address,
    pub cnft_collection: Address,
    pub nft_collection: Address,
    pub merkle_tree: Address,
    pub total_cnft_minted: u32,
    pub total_nft_minted: u32,
    pub bump: u8,
}

impl Config {
    /// Every field is zero: what a freshly allocated slot holds.
    pub open spec fn is_zeroed(self) -> bool {
        &&& self.authority@ == zero_bytes()
        &&& self.cnft_collection@ == zero_bytes()
        &&& self.nft_collection@ == zero_bytes()
        &&& self.merkle_tree@ == zero_bytes()
        &&& self.total_cnft_minted == 0
        &&& self.total_nft_minted == 0
        &&& self.bump == 0
    }

    /// The record of a freshly allocated slot, before set-up writes to it.
    pub fn blank() -> (r: Config)
        ensures
            r.is_zeroed(),
    {
        Config {
            authority: Address::zero(),
            cnft_collection: Address::zero(),
            nft_collection: Address::zero(),
            merkle_tree: Address::zero(),
            total_cnft_minted: 0,
            total_nft_minted: 0,
            bump: 0,
        }
    }

    /// The fields that never change once the record is written.
    pub open spec fn same_identity(self, other: Config) -> bool {
        &&& self.authority == other.authority
        &&& self.cnft_collection == other.cnft_collection
        &&& self.nft_collection == other.nft_collection
        &&& self.merkle_tree == other.merkle_tree
        &&& self.bump == other.bump
    }
}

} // verus!
