use crate::address::{zero_bytes, Address};
use vstd::prelude::*;

verus! {

/// The number of burns that earns one reward asset.
pub const REWARD_THRESHOLD: u32 = 5;

/// The progress record: one per authority and player.
#[derive(Clone, Copy, Debug, PartialEq, Eq)]
pub struct PlayerProgress {
    pub player: Address,
    pub authority: Address,
    pub total_cnfts_burned: u32,
    pub total_nfts_minted: u32,
    pub bump: u8,
}

impl PlayerProgress {
    /// Every field is zero: what a freshly allocated slot holds.
    pub open spec fn is_zeroed(self) -> bool {
        &&& self.player@ == zero_bytes()
        &&& self.authority@ == zero_bytes()
        &&& self.total_cnfts_burned == 0
        &&& self.total_nfts_minted == 0
        &&& self.bump == 0
    }

    /// The record of a freshly allocated slot.
    pub fn blank() -> (r: PlayerProgress)
        ensures
            r.is_zeroed(),
    {
        PlayerProgress {
            player: Address::zero(),
            authority: Address::zero(),
            total_cnfts_burned: 0,
            total_nfts_minted: 0,
            bump: 0,
        }
    }

    /// A derived nonce is never zero, so a zero `bump` marks a record that
    /// nothing has written yet.
    pub open spec fn is_blank(self) -> bool {
        self.bump == 0
    }

    /// The record as it is first written for `player` under `authority`.
    pub open spec fn fresh(player: Address, authority: Address, bump: u8) -> PlayerProgress {
        PlayerProgress { player, authority, total_cnfts_burned: 0, total_nfts_minted: 0, bump }
    }

    /// The record after one more burn.
    pub open spec fn burned(self) -> PlayerProgress
        recommends
            self.total_cnfts_burned < u32::MAX,
    {
        PlayerProgress { total_cnfts_burned: (self.total_cnfts_burned + 1) as u32, ..self }
    }

    /// The record after a reward: the burn counter back at zero, one more reward.
    pub open spec fn rewarded(self) -> PlayerProgress
        recommends
            self.total_nfts_minted < u32::MAX,
    {
        PlayerProgress {
            total_cnfts_burned: 0,
            total_nfts_minted: (self.total_nfts_minted + 1) as u32,
            ..self
        }
    }
}

} // verus!
