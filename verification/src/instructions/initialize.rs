use crate::address::Address;
use crate::authority::SignerSeeds;
use crate::error::ErrorCode;
use crate::service::{AccountSlot, CreateCollectionCall, CreateTreeCall};
use crate::state::config::Config;
use vstd::prelude::*;

verus! {

/// Name and location of the collection of compressed assets.
#[derive(Debug)]
pub struct CreateCnftCollectionArgs {
    pub name: String,
    pub uri: String,
}

/// Name and location of the collection of reward assets.
#[derive(Debug)]
pub struct CreateNftCollectionArgs {
    pub name: String,
    pub uri: String,
}

/// The nonce that the derivation found for the authority record.
#[derive(Clone, Copy, Debug)]
pub struct InitializeBumps {
    pub config: u8,
}

/// What set-up works on.
#[derive(Clone, Copy, Debug)]
pub struct Initialize {
    /// The owning identity, who pays.
    pub authority: Address,
    /// The derived address of the authority record.
    pub config_key: Address,
    /// The authority record, in a slot allocated for this request.
    pub config: Config,
    pub cnft_collection: AccountSlot,
    pub nft_collection: AccountSlot,
    pub tree_config: Address,
    pub merkle_tree: Address,
}

/// The calls of set-up, to be made in the order of the fields.
#[derive(Debug, PartialEq, Eq)]
pub struct InitializeCalls {
    pub tree: CreateTreeCall,
    pub cnft_collection: CreateCollectionCall,
    pub nft_collection: CreateCollectionCall,
}

impl Initialize {
    /// Set-up is refused exactly when one of the two collection slots is occupied.
    pub open spec fn refusal(&self) -> Option<ErrorCode> {
        if !self.cnft_collection.data_is_empty || !self.nft_collection.data_is_empty {
            Some(ErrorCode::CollectionAlreadyInitialized)
        } else {
            None
        }
    }

    pub fn check(&self) -> (r: Result<(), ErrorCode>)
        ensures
            r == (match self.refusal() {
                Some(e) => Err::<(), ErrorCode>(e),
                None => Ok(()),
            }),
    {
        if !self.cnft_collection.data_is_empty || !self.nft_collection.data_is_empty {
            Err(ErrorCode::CollectionAlreadyInitialized)
        } else {
            Ok(())
        }
    }

    /// The authority record as set-up writes it.
    pub open spec fn written_config(&self, bump: u8) -> Config {
        Config {
            authority: self.authority,
            cnft_collection: self.cnft_collection.key,
            nft_collection: self.nft_collection.key,
            merkle_tree: self.merkle_tree,
            total_cnft_minted: 0,
            total_nft_minted: 0,
            bump,
        }
    }

    /// Writes the authority record: owner, references, zeroed counters, nonce.
    pub fn initialize(&mut self, bumps: &InitializeBumps) -> (r: Result<(), ErrorCode>)
        ensures
            r is Ok,
            *final(self) == (Initialize {
                config: old(self).written_config(bumps.config),
                ..*old(self)
            }),
    {
        self.config = Config {
            authority: self.authority,
            cnft_collection: self.cnft_collection.key,
            nft_collection: self.nft_collection.key,
            merkle_tree: self.merkle_tree,
            total_cnft_minted: 0,
            total_nft_minted: 0,
            bump: bumps.config,
        };
        Ok(())
    }

    /// The request for the tree: never public, created and signed by the
    /// authority record under the nonce that the record holds.
    pub open spec fn tree_call(&self, max_depth: u32, max_buffer_size: u32) -> CreateTreeCall {
        CreateTreeCall {
            tree_config: self.tree_config,
            merkle_tree: self.merkle_tree,
            payer: self.authority,
            tree_creator: self.config_key,
            max_depth,
            max_buffer_size,
            public: false,
            signer: SignerSeeds { owner: self.authority, bump: self.config.bump },
        }
    }

    pub fn init_merkle_tree(&mut self, max_depth: u32, max_buffer_size: u32) -> (r: Result<
        CreateTreeCall,
        ErrorCode,
    >)
        ensures
            *final(self) == *old(self),
            r == Ok::<CreateTreeCall, ErrorCode>(old(self).tree_call(max_depth, max_buffer_size)),
    {
        Ok(
            CreateTreeCall {
                tree_config: self.tree_config,
                merkle_tree: self.merkle_tree,
                payer: self.authority,
                tree_creator: self.config_key,
                max_depth,
                max_buffer_size,
                public: false,
                signer: SignerSeeds { owner: self.authority, bump: self.config.bump },
            },
        )
    }

    /// `call` asks for a collection in `slot` with the given name and location,
    /// paid by the owner, with the authority record as update authority and signer.
    pub open spec fn is_collection_call(
        &self,
        call: CreateCollectionCall,
        slot: Address,
        compressed_members: bool,
        bump: u8,
        name: Seq<char>,
        uri: Seq<char>,
    ) -> bool {
        &&& call.collection == slot
        &&& call.update_authority == self.config_key
        &&& call.payer == self.authority
        &&& call.name@ == name
        &&& call.uri@ == uri
        &&& call.compressed_members == compressed_members
        &&& call.signer == SignerSeeds { owner: self.authority, bump }
    }

    /// The request for the collection of compressed assets. It carries the
    /// plugin that lets compressed assets join.
    pub fn create_cnft_collection(
        &mut self,
        bumps: &InitializeBumps,
        args: CreateCnftCollectionArgs,
    ) -> (r: Result<CreateCollectionCall, ErrorCode>)
        ensures
            *final(self) == *old(self),
            r matches Ok(call) && old(self).is_collection_call(
                call,
                old(self).cnft_collection.key,
                true,
                bumps.config,
                args.name@,
                args.uri@,
            ),
    {
        Ok(
            CreateCollectionCall {
                collection: self.cnft_collection.key,
                update_authority: self.config_key,
                payer: self.authority,
                name: args.name,
                uri: args.uri,
                compressed_members: true,
                signer: SignerSeeds { owner: self.authority, bump: bumps.config },
            },
        )
    }

    /// The request for the collection of reward assets, which has no plugin.
    pub fn create_nft_collection(
        &mut self,
        args: CreateNftCollectionArgs,
        bumps: &InitializeBumps,
    ) -> (r: Result<CreateCollectionCall, ErrorCode>)
        ensures
            *final(self) == *old(self),
            r matches Ok(call) && old(self).is_collection_call(
                call,
                old(self).nft_collection.key,
                false,
                bumps.config,
                args.name@,
                args.uri@,
            ),
    {
        Ok(
            CreateCollectionCall {
                collection: self.nft_collection.key,
                update_authority: self.config_key,
                payer: self.authority,
                name: args.name,
                uri: args.uri,
                compressed_members: false,
                signer: SignerSeeds { owner: self.authority, bump: bumps.config },
            },
        )
    }
}

/// Set-up. Refused with `CollectionAlreadyInitialized`, and the context left as
/// it was, exactly when a collection slot is occupied. Otherwise the authority
/// record is written first, and the three calls come back in the order in which
/// they must be made: tree, collection of compressed assets, collection of
/// reward assets, all signed under the nonce just written.
pub fn handler(
    ctx: &mut Initialize,
    bumps: &InitializeBumps,
    max_depth: u32,
    max_buffer_size: u32,
    cnft_args: CreateCnftCollectionArgs,
    nft_args: CreateNftCollectionArgs,
) -> (r: Result<InitializeCalls, ErrorCode>)
    ensures
        match old(ctx).refusal() {
            Some(e) => r == Err::<InitializeCalls, ErrorCode>(e) && *final(ctx) == *old(ctx),
            None => {
                &&& *final(ctx) == (Initialize {
                    config: old(ctx).written_config(bumps.config),
                    ..*old(ctx)
                })
                &&& r matches Ok(calls)
                &&& calls.tree == final(ctx).tree_call(max_depth, max_buffer_size)
                &&& final(ctx).is_collection_call(
                    calls.cnft_collection,
                    old(ctx).cnft_collection.key,
                    true,
                    bumps.config,
                    cnft_args.name@,
                    cnft_args.uri@,
                )
                &&& final(ctx).is_collection_call(
                    calls.nft_collection,
                    old(ctx).nft_collection.key,
                    false,
                    bumps.config,
                    nft_args.name@,
                    nft_args.uri@,
                )
            },
        },
{
    ctx.check()?;
    ctx.initialize(bumps)?;
    let tree = ctx.init_merkle_tree(max_depth, max_buffer_size)?;
    let cnft_collection = ctx.create_cnft_collection(bumps, cnft_args)?;
    let nft_collection = ctx.create_nft_collection(nft_args, bumps)?;
    Ok(InitializeCalls { tree, cnft_collection, nft_collection })
}

} // verus!
