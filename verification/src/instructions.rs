//! The four workflows. Each works on a context: the records and slots that the
//! ledger loaded for one request.

pub mod burn_cnft;
pub mod initialize;
pub mod mint_cnft;
pub mod mint_nft;

pub use burn_cnft::{BurncNFT, BurncNFTBumps, LeafProof};
pub use initialize::{
    CreateCnftCollectionArgs, CreateNftCollectionArgs, Initialize, InitializeBumps, InitializeCalls,
};
pub use mint_cnft::{MintcNFT, MintcNFTBumps};
pub use mint_nft::MintNFT;
