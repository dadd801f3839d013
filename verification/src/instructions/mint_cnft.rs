use crate::address::Address;
use crate::authority::SignerSeeds;
use crate::error::ErrorCode;
use crate::service::{AccountSlot, MintLeafCall};
use crate::state::config::Config;
use crate::state::player_progress::PlayerProgress;
use vstd::prelude::*;

verus! {

/// The nonce that the derivation found for the player's progress record.
#[derive(Clone, Copy, Debug)]
pub struct MintcNFTBumps {
    pub player_progress: u8,
}

/// What the minting of a compressed asset works on.
#[derive(Clone, Copy, Debug)]
pub struct MintcNFT {
    /// The player, who pays and will own the leaf.
    pub player: Address,
    /// The owning identity of the authority record.
    pub authority: Address,
    pub config_key: Address,
    pub config: Config,
    /// The player's progress record; blank where the ledger held none.
    pub player_progress: PlayerProgress,
    pub cnft_collection: AccountSlot,
    pub tree_config: Address,
    pub merkle_tree: Address,
}

impl MintcNFT {
    /// Minting is refused exactly when the collection slot is empty.
    pub open spec fn refusal(&self) -> Option<ErrorCode> {
        if self.cnft_collection.data_is_empty {
            Some(ErrorCode::CollectionNotInitialized)
        } else {
            None
        }
    }

    pub fn check(&self) -> (r: Result<(), ErrorCode>)
        ensures
            r == (match self.refusal() {
                Some(e) => Err::<(), ErrorCode>(e),
                None => Ok(()),
            }),
    {
        if self.cnft_collection.data_is_empty {
            Err(ErrorCode::CollectionNotInitialized)
        } else {
            Ok(())
        }
    }

    /// The progress record once it is sure to exist: written afresh where the
    /// slot was blank, untouched where it was not.
    pub open spec fn ensured_progress(&self, bump: u8) -> PlayerProgress {
        if self.player_progress.is_blank() {
            PlayerProgress::fresh(self.player, self.authority, bump)
        } else {
            self.player_progress
        }
    }

    /// Creates the progress record if the slot is blank; does nothing otherwise.
    pub fn init_player_progress(&mut self, bumps: &MintcNFTBumps) -> (r: Result<(), ErrorCode>)
        ensures
            r is Ok,
            *final(self) == (MintcNFT {
                player_progress: old(self).ensured_progress(bumps.player_progress),
                ..*old(self)
            }),
    {
        if self.player_progress.bump == 0 {
            self.player_progress = PlayerProgress {
                player: self.player,
                authority: self.authority,
                total_cnfts_burned: 0,
                total_nfts_minted: 0,
                bump: bumps.player_progress,
            };
        }
        Ok(())
    }

    /// `call` adds a leaf for the player, who is owner, delegate and payer,
    /// under the collection of compressed assets; the authority record stands
    /// as tree delegate and collection authority and signs. The asset is fixed
    /// and carries no fee.
    pub open spec fn is_mint_call(
        &self,
        call: MintLeafCall,
        name: Seq<char>,
        uri: Seq<char>,
        symbol: Seq<char>,
    ) -> bool {
        &&& call.tree_config == self.tree_config
        &&& call.merkle_tree == self.merkle_tree
        &&& call.leaf_owner == self.player
        &&& call.leaf_delegate == self.player
        &&& call.payer == self.player
        &&& call.tree_creator_or_delegate == self.config_key
        &&& call.core_collection == self.cnft_collection.key
        &&& call.collection_authority == self.config_key
        &&& call.name@ == name
        &&& call.symbol@ == symbol
        &&& call.uri@ == uri
        &&& call.seller_fee_basis_points == 0
        &&& !call.primary_sale_happened
        &&& !call.is_mutable
        &&& call.collection == self.cnft_collection.key
        &&& call.signer == SignerSeeds { owner: self.authority, bump: self.config.bump }
    }

    pub fn mint_cnft(&mut self, name: String, uri: String, symbol: String) -> (r: Result<
        MintLeafCall,
        ErrorCode,
    >)
        ensures
            *final(self) == *old(self),
            r matches Ok(call) && old(self).is_mint_call(call, name@, uri@, symbol@),
    {
        Ok(
            MintLeafCall {
                tree_config: self.tree_config,
                merkle_tree: self.merkle_tree,
                leaf_owner: self.player,
                leaf_delegate: self.player,
                payer: self.player,
                tree_creator_or_delegate: self.config_key,
                core_collection: self.cnft_collection.key,
                collection_authority: self.config_key,
                name,
                symbol,
                uri,
                seller_fee_basis_points: 0,
                primary_sale_happened: false,
                is_mutable: false,
                collection: self.cnft_collection.key,
                signer: SignerSeeds { owner: self.authority, bump: self.config.bump },
            },
        )
    }
}

/// Minting of a compressed asset. Refused with `CollectionNotInitialized`, and
/// the context left as it was, exactly when the collection slot is empty.
/// Otherwise the progress record is created if it was blank, no counter moves,
/// and the call that adds the leaf comes back.
pub fn handler(
    ctx: &mut MintcNFT,
    bumps: &MintcNFTBumps,
    name: String,
    uri: String,
    symbol: String,
) -> (r: Result<MintLeafCall, ErrorCode>)
    ensures
        match old(ctx).refusal() {
            Some(e) => r == Err::<MintLeafCall, ErrorCode>(e) && *final(ctx) == *old(ctx),
            None => {
                &&& *final(ctx) == (MintcNFT {
                    player_progress: old(ctx).ensured_progress(bumps.player_progress),
                    ..*old(ctx)
                })
                &&& r matches Ok(call)
                &&& old(ctx).is_mint_call(call, name@, uri@, symbol@)
            },
        },
{
    ctx.check()?;
    ctx.init_player_progress(bumps)?;
    let call = ctx.mint_cnft(name, uri, symbol)?;
    Ok(call)
}

} // verus!
