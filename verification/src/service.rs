//! The calls that the workflows ask of the two outside services. A call is a
//! plain description: the caller carries it out on the ledger.

use crate::address::Address;
use crate::authority::SignerSeeds;
use vstd::prelude::*;

verus! {

/// Ask the compression service for a new tree.
#[derive(Clone, Copy, Debug, PartialEq, Eq)]
pub struct CreateTreeCall {
    pub tree_config: Address,
    pub merkle_tree: Address,
    pub payer: Address,
    pub tree_creator: Address,
    pub max_depth: u32,
    pub max_buffer_size: u32,
    pub public: bool,
    pub signer: SignerSeeds,
}

/// Ask the collection service for a new collection.
#[derive(Debug, PartialEq, Eq)]
pub struct CreateCollectionCall {
    pub collection: Address,
    pub update_authority: Address,
    pub payer: Address,
    pub name: String,
    pub uri: String,
    /// Whether the collection carries the plugin that lets compressed assets join it.
    pub compressed_members: bool,
    pub signer: SignerSeeds,
}

/// Ask the compression service to add a leaf.
#[derive(Debug, PartialEq, Eq)]
pub struct MintLeafCall {
    pub tree_config: Address,
    pub merkle_tree: Address,
    pub leaf_owner: Address,
    pub leaf_delegate: Address,
    pub payer: Address,
    pub tree_creator_or_delegate: Address,
    pub core_collection: Address,
    pub collection_authority: Address,
    pub name: String,
    pub symbol: String,
    pub uri: String,
    pub seller_fee_basis_points: u16,
    pub primary_sale_happened: bool,
    pub is_mutable: bool,
    pub collection: Address,
    pub signer: SignerSeeds,
}

/// Ask the compression service to remove the leaf that the proof names.
#[derive(Debug, PartialEq, Eq)]
pub struct BurnLeafCall {
    pub tree_config: Address,
    pub merkle_tree: Address,
    pub authority: Address,
    pub leaf_owner: Address,
    pub leaf_delegate: Address,
    pub core_collection: Address,
    pub root: [u8; 32],
    pub data_hash: [u8; 32],
    pub creator_hash: [u8; 32],
    pub asset_data_hash: [u8; 32],
    pub flags: u8,
    pub nonce: u64,
    pub index: u32,
    /// The nodes of the proof path, in the caller's order.
    pub proof_path: Vec<Address>,
    pub signer: SignerSeeds,
}

/// One attribute written on a reward asset.
#[derive(Debug, PartialEq, Eq)]
pub struct Attribute {
    pub key: String,
    pub value: String,
}

/// Ask the collection service for a new asset in a collection.
#[derive(Debug, PartialEq, Eq)]
pub struct CreateAssetCall {
    pub asset: Address,
    pub collection: Address,
    pub authority: Address,
    pub payer: Address,
    pub owner: Address,
    pub name: String,
    pub uri: String,
    pub attributes: Vec<Attribute>,
    /// Who alone may change the attributes.
    pub attributes_authority: Address,
    pub signer: SignerSeeds,
}

/// A ledger slot as a workflow sees it: its address, and whether anything has
/// been written there.
#[derive(Clone, Copy, Debug, PartialEq, Eq)]
pub struct AccountSlot {
    pub key: Address,
    pub data_is_empty: bool,
}

} // verus!
