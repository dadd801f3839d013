use crate::address::Address;
use crate::authority::{base58_text, to_base58, SignerSeeds};
use crate::error::ErrorCode;
use crate::service::{AccountSlot, Attribute, CreateAssetCall};
use crate::state::config::Config;
use crate::state::player_progress::{PlayerProgress, REWARD_THRESHOLD};
use vstd::prelude::*;

verus! {

/// What the minting of a reward asset works on.
#[derive(Clone, Copy, Debug)]
pub struct MintNFT {
    /// The player, who pays and will own the asset.
    pub player: Address,
    /// The owning identity of the authority record.
    pub authority: Address,
    pub config_key: Address,
    pub config: Config,
    pub player_progress: PlayerProgress,
    pub nft_collection: AccountSlot,
    /// The slot for the new asset.
    pub asset: AccountSlot,
}

impl MintNFT {
    /// The reward is refused when the burn counter is not at the threshold;
    /// else when the collection slot is empty; else when the asset slot is
    /// occupied. Otherwise it is not refused.
    pub open spec fn refusal(&self) -> Option<ErrorCode> {
        if self.player_progress.total_cnfts_burned != REWARD_THRESHOLD {
            Some(ErrorCode::NotEnoughBurns)
        } else if self.nft_collection.data_is_empty {
            Some(ErrorCode::CollectionNotInitialized)
        } else if !self.asset.data_is_empty {
            Some(ErrorCode::AssetAlreadyInitialized)
        } else {
            None
        }
    }

    pub fn check(&self) -> (r: Result<(), ErrorCode>)
        ensures
            r == (match self.refusal() {
                Some(e) => Err::<(), ErrorCode>(e),
                None => Ok(()),
            }),
    {
        if self.player_progress.total_cnfts_burned != REWARD_THRESHOLD {
            Err(ErrorCode::NotEnoughBurns)
        } else if self.nft_collection.data_is_empty {
            Err(ErrorCode::CollectionNotInitialized)
        } else if !self.asset.data_is_empty {
            Err(ErrorCode::AssetAlreadyInitialized)
        } else {
            Ok(())
        }
    }

    /// `call` creates the asset in its slot as a member of the collection of
    /// reward assets, owned and paid for by the player. The authority record
    /// authorises and signs, and alone may change the two attributes: the text
    /// of the player first, the text of the collection second.
    pub open spec fn is_asset_call(
        &self,
        call: CreateAssetCall,
        name: Seq<char>,
        uri: Seq<char>,
        player_text: Seq<char>,
        collection_text: Seq<char>,
    ) -> bool {
        &&& call.asset == self.asset.key
        &&& call.collection == self.nft_collection.key
        &&& call.authority == self.config_key
        &&& call.payer == self.player
        &&& call.owner == self.player
        &&& call.name@ == name
        &&& call.uri@ == uri
        &&& call.attributes@.len() == 2
        &&& call.attributes@[0].key@ == "Player"@
        &&& call.attributes@[0].value@ == player_text
        &&& call.attributes@[1].key@ == "Collection"@
        &&& call.attributes@[1].value@ == collection_text
        &&& call.attributes_authority == self.config_key
        &&& call.signer == SignerSeeds { owner: self.authority, bump: self.config.bump }
    }

    /// The request for the asset, given the texts of the player's address and
    /// of the collection's.
    pub fn asset_call(
        &self,
        name: String,
        uri: String,
        player_text: String,
        collection_text: String,
    ) -> (call: CreateAssetCall)
        ensures
            self.is_asset_call(call, name@, uri@, player_text@, collection_text@),
    {
        let mut attributes: Vec<Attribute> = Vec::new();
        attributes.push(Attribute { key: "Player".to_owned(), value: player_text });
        attributes.push(Attribute { key: "Collection".to_owned(), value: collection_text });
        CreateAssetCall {
            asset: self.asset.key,
            collection: self.nft_collection.key,
            authority: self.config_key,
            payer: self.player,
            owner: self.player,
            name,
            uri,
            attributes,
            attributes_authority: self.config_key,
            signer: SignerSeeds { owner: self.authority, bump: self.config.bump },
        }
    }

    pub fn mint_nft(&mut self, name: String, uri: String) -> (r: Result<CreateAssetCall, ErrorCode>)
        ensures
            *final(self) == *old(self),
            r matches Ok(call) && old(self).is_asset_call(
                call,
                name@,
                uri@,
                base58_text(old(self).player@),
                base58_text(old(self).nft_collection.key@),
            ),
    {
        let player_text = to_base58(&self.player);
        let collection_text = to_base58(&self.nft_collection.key);
        Ok(self.asset_call(name, uri, player_text, collection_text))
    }

    /// The authority record after a reward: one more reward asset minted.
    pub open spec fn counted_config(&self) -> Config {
        Config { total_nft_minted: (self.config.total_nft_minted + 1) as u32, ..self.config }
    }

    /// Counts the reward: one more on the authority record, the player's burn
    /// counter back at zero, one more reward on the player's record.
    pub fn record_mint(&mut self) -> (r: Result<(), ErrorCode>)
        requires
            old(self).config.total_nft_minted < u32::MAX,
            old(self).player_progress.total_nfts_minted < u32::MAX,
        ensures
            r is Ok,
            *final(self) == (MintNFT {
                config: old(self).counted_config(),
                player_progress: old(self).player_progress.rewarded(),
                ..*old(self)
            }),
    {
        self.config.total_nft_minted += 1;
        self.player_progress.total_cnfts_burned = 0;
        self.player_progress.total_nfts_minted += 1;
        Ok(())
    }
}

/// Minting of a reward asset. Refused, with the context left as it was, with
/// the error that `refusal` names. Otherwise the three counters move together
/// and the call that creates the asset comes back.
pub fn handler(ctx: &mut MintNFT, name: String, uri: String) -> (r: Result<
    CreateAssetCall,
    ErrorCode,
>)
    requires
        old(ctx).config.total_nft_minted < u32::MAX,
        old(ctx).player_progress.total_nfts_minted < u32::MAX,
    ensures
        match old(ctx).refusal() {
            Some(e) => r == Err::<CreateAssetCall, ErrorCode>(e) && *final(ctx) == *old(ctx),
            None => {
                &&& *final(ctx) == (MintNFT {
                    config: old(ctx).counted_config(),
                    player_progress: old(ctx).player_progress.rewarded(),
                    ..*old(ctx)
                })
                &&& r matches Ok(call)
                &&& old(ctx).is_asset_call(
                    call,
                    name@,
                    uri@,
                    base58_text(old(ctx).player@),
                    base58_text(old(ctx).nft_collection.key@),
                )
            },
        },
{
    ctx.check()?;
    let call = ctx.mint_nft(name, uri)?;
    ctx.record_mint()?;
    Ok(call)
}

} // verus!
