use crate::address::{copy_addresses, Address};
use crate::authority::SignerSeeds;
use crate::error::ErrorCode;
use crate::service::{AccountSlot, BurnLeafCall};
use crate::state::config::Config;
use crate::state::player_progress::PlayerProgress;
use vstd::prelude::*;

verus! {

/// The nonce that the derivation found for the player's progress record.
#[derive(Clone, Copy, Debug)]
pub struct BurncNFTBumps {
    pub player_progress: u8,
}

/// The leaf to remove, as the caller proves it.
#[derive(Clone, Copy, Debug)]
pub struct LeafProof {
    pub root: [u8; 32],
    pub data_hash: [u8; 32],
    pub creator_hash: [u8; 32],
    pub nonce: u64,
    pub index: u32,
    pub asset_data_hash: [u8; 32],
    pub flags: u8,
}

/// What the burning of a compressed asset works on.
#[derive(Clone, Copy, Debug)]
pub struct BurncNFT {
    /// The player, who owns the leaf.
    pub player: Address,
    /// The owning identity of the authority record.
    pub authority: Address,
    pub config_key: Address,
    pub config: Config,
    /// The player's progress record; blank where the ledger held none.
    pub player_progress: PlayerProgress,
    pub cnft_collection: AccountSlot,
    pub tree_config: Address,
    pub merkle_tree: Address,
}

impl BurncNFT {
    /// Burning is refused exactly when the collection slot is empty.
    pub open spec fn refusal(&self) -> Option<ErrorCode> {
        if self.cnft_collection.data_is_empty {
            Some(ErrorCode::CollectionNotInitialized)
        } else {
            None
        }
    }

    pub fn check(&self) -> (r: Result<(), ErrorCode>)
        ensures
            r == (match self.refusal() {
                Some(e) => Err::<(), ErrorCode>(e),
                None => Ok(()),
            }),
    {
        if self.cnft_collection.data_is_empty {
            Err(ErrorCode::CollectionNotInitialized)
        } else {
            Ok(())
        }
    }

    /// The progress record once it is sure to exist: written afresh where the
    /// slot was blank, untouched where it was not.
    pub open spec fn ensured_progress(&self, bump: u8) -> PlayerProgress {
        if self.player_progress.is_blank() {
            PlayerProgress::fresh(self.player, self.authority, bump)
        } else {
            self.player_progress
        }
    }

    /// Creates the progress record if the slot is blank; does nothing otherwise.
    pub fn init_player_progress(&mut self, bumps: &BurncNFTBumps) -> (r: Result<(), ErrorCode>)
        ensures
            r is Ok,
            *final(self) == (BurncNFT {
                player_progress: old(self).ensured_progress(bumps.player_progress),
                ..*old(self)
            }),
    {
        if self.player_progress.bump == 0 {
            self.player_progress = PlayerProgress {
                player: self.player,
                authority: self.authority,
                total_cnfts_burned: 0,
                total_nfts_minted: 0,
                bump: bumps.player_progress,
            };
        }
        Ok(())
    }

    /// `call` removes the leaf that the proof names from the tree. The player
    /// is owner and delegate of the leaf; the authority record acts for the
    /// player and signs.
    pub open spec fn is_burn_call(
        &self,
        call: BurnLeafCall,
        proof_of_leaf: LeafProof,
        path: Seq<Address>,
    ) -> bool {
        &&& call.tree_config == self.tree_config
        &&& call.merkle_tree == self.merkle_tree
        &&& call.authority == self.config_key
        &&& call.leaf_owner == self.player
        &&& call.leaf_delegate == self.player
        &&& call.core_collection == self.cnft_collection.key
        &&& call.root == proof_of_leaf.root
        &&& call.data_hash == proof_of_leaf.data_hash
        &&& call.creator_hash == proof_of_leaf.creator_hash
        &&& call.asset_data_hash == proof_of_leaf.asset_data_hash
        &&& call.flags == proof_of_leaf.flags
        &&& call.nonce == proof_of_leaf.nonce
        &&& call.index == proof_of_leaf.index
        &&& call.proof_path@ == path
        &&& call.signer == SignerSeeds { owner: self.authority, bump: self.config.bump }
    }

    pub fn burn_cnft(
        &self,
        root: [u8; 32],
        data_hash: [u8; 32],
        creator_hash: [u8; 32],
        nonce: u64,
        index: u32,
        asset_data_hash: [u8; 32],
        flags: u8,
        remaining_accounts: &Vec<Address>,
    ) -> (r: Result<BurnLeafCall, ErrorCode>)
        ensures
            r matches Ok(call) && self.is_burn_call(
                call,
                (LeafProof { root, data_hash, creator_hash, nonce, index, asset_data_hash, flags }),
                remaining_accounts@,
            ),
    {
        Ok(
            BurnLeafCall {
                tree_config: self.tree_config,
                merkle_tree: self.merkle_tree,
                authority: self.config_key,
                leaf_owner: self.player,
                leaf_delegate: self.player,
                core_collection: self.cnft_collection.key,
                root,
                data_hash,
                creator_hash,
                asset_data_hash,
                flags,
                nonce,
                index,
                proof_path: copy_addresses(remaining_accounts),
                signer: SignerSeeds { owner: self.authority, bump: self.config.bump },
            },
        )
    }

    /// Counts one burn.
    pub fn record_burn(&mut self) -> (r: Result<(), ErrorCode>)
        requires
            old(self).player_progress.total_cnfts_burned < u32::MAX,
        ensures
            r is Ok,
            *final(self) == (BurncNFT {
                player_progress: old(self).player_progress.burned(),
                ..*old(self)
            }),
    {
        self.player_progress.total_cnfts_burned += 1;
        Ok(())
    }
}

/// Burning of a compressed asset. Refused with `CollectionNotInitialized`, and
/// the context left as it was, exactly when the collection slot is empty.
/// Otherwise the progress record is created if it was blank, its burn counter
/// goes up by one whatever it was, and the call that removes the leaf comes back.
pub fn handler(
    ctx: &mut BurncNFT,
    bumps: &BurncNFTBumps,
    root: [u8; 32],
    data_hash: [u8; 32],
    creator_hash: [u8; 32],
    nonce: u64,
    index: u32,
    asset_data_hash: [u8; 32],
    flags: u8,
    remaining_accounts: &Vec<Address>,
) -> (r: Result<BurnLeafCall, ErrorCode>)
    requires
        old(ctx).player_progress.total_cnfts_burned < u32::MAX,
    ensures
        match old(ctx).refusal() {
            Some(e) => r == Err::<BurnLeafCall, ErrorCode>(e) && *final(ctx) == *old(ctx),
            None => {
                &&& *final(ctx) == (BurncNFT {
                    player_progress: old(ctx).ensured_progress(bumps.player_progress).burned(),
                    ..*old(ctx)
                })
                &&& r matches Ok(call)
                &&& old(ctx).is_burn_call(
                    call,
                    (LeafProof { root, data_hash, creator_hash, nonce, index, asset_data_hash, flags }),
                    remaining_accounts@,
                )
            },
        },
{
    ctx.check()?;
    ctx.init_player_progress(bumps)?;
    let call = ctx.burn_cnft(
        root,
        data_hash,
        creator_hash,
        nonce,
        index,
        asset_data_hash,
        flags,
        remaining_accounts,
    )?;
    ctx.record_burn()?;
    Ok(call)
}

} // verus!
