//! Asset-progression rules for a ledger program: a per-owner authority record,
//! per-player progress records, and the four workflows that read and change them.
//!
//! The workflows decide; they do not talk to the ledger. Each one checks its
//! preconditions, changes the records it was handed and returns the calls that
//! the caller must make to the compression and collection services, in order.

pub mod address;
pub mod authority;
pub mod error;
pub mod instructions;
pub mod laws;
pub mod ledger;
pub mod registry;
pub mod service;
pub mod state;

pub use address::Address;
pub use error::ErrorCode;
pub use instructions::{
    BurncNFT, BurncNFTBumps, CreateCnftCollectionArgs, CreateNftCollectionArgs, Initialize,
    InitializeBumps, InitializeCalls, LeafProof, MintNFT, MintcNFT, MintcNFTBumps,
};
pub use ledger::{
    burn_cnft, initialize, mint_cnft, mint_nft, Failure, InitializeAccounts, Ledger,
    PlayerAccounts, RewardAccounts, ServiceFault, ServiceReply,
};
pub use state::{Config, PlayerProgress, REWARD_THRESHOLD};
