use ovwigho::authority::SignerSeeds;
use ovwigho::instructions::{burn_cnft, initialize, mint_cnft, mint_nft};
use ovwigho::service::AccountSlot;
use ovwigho::{
    Address, BurncNFT, BurncNFTBumps, Config, CreateCnftCollectionArgs, CreateNftCollectionArgs,
    ErrorCode, Initialize, InitializeBumps, MintNFT, MintcNFT, MintcNFTBumps, PlayerProgress,
    REWARD_THRESHOLD,
};

fn key(n: u8) -> Address {
    Address::new([n; 32])
}

fn written_config() -> Config {
    Config {
        authority: key(1),
        cnft_collection: key(2),
        nft_collection: key(3),
        merkle_tree: key(4),
        total_cnft_minted: 0,
        total_nft_minted: 0,
        bump: 254,
    }
}

fn setup_context(cnft_empty: bool, nft_empty: bool) -> Initialize {
    Initialize {
        authority: key(1),
        config_key: key(9),
        config: Config::blank(),
        cnft_collection: AccountSlot { key: key(2), data_is_empty: cnft_empty },
        nft_collection: AccountSlot { key: key(3), data_is_empty: nft_empty },
        tree_config: key(5),
        merkle_tree: key(4),
    }
}

fn progress(burned: u32, minted: u32, bump: u8) -> PlayerProgress {
    PlayerProgress {
        player: key(7),
        authority: key(1),
        total_cnfts_burned: burned,
        total_nfts_minted: minted,
        bump,
    }
}

fn burn_context(record: PlayerProgress, collection_empty: bool) -> BurncNFT {
    BurncNFT {
        player: key(7),
        authority: key(1),
        config_key: key(9),
        config: written_config(),
        player_progress: record,
        cnft_collection: AccountSlot { key: key(2), data_is_empty: collection_empty },
        tree_config: key(5),
        merkle_tree: key(4),
    }
}

fn mint_context(record: PlayerProgress, collection_empty: bool) -> MintcNFT {
    MintcNFT {
        player: key(7),
        authority: key(1),
        config_key: key(9),
        config: written_config(),
        player_progress: record,
        cnft_collection: AccountSlot { key: key(2), data_is_empty: collection_empty },
        tree_config: key(5),
        merkle_tree: key(4),
    }
}

fn reward_context(burned: u32, collection_empty: bool, asset_empty: bool) -> MintNFT {
    MintNFT {
        player: key(7),
        authority: key(1),
        config_key: key(9),
        config: written_config(),
        player_progress: progress(burned, 0, 200),
        nft_collection: AccountSlot { key: key(3), data_is_empty: collection_empty },
        asset: AccountSlot { key: key(8), data_is_empty: asset_empty },
    }
}

fn cnft_args() -> CreateCnftCollectionArgs {
    CreateCnftCollectionArgs { name: "C".to_string(), uri: "u1".to_string() }
}

fn nft_args() -> CreateNftCollectionArgs {
    CreateNftCollectionArgs { name: "S".to_string(), uri: "u2".to_string() }
}

#[test]
fn threshold_is_five() {
    assert_eq!(REWARD_THRESHOLD, 5);
}

#[test]
fn error_messages() {
    assert_eq!(
        ErrorCode::CollectionAlreadyInitialized.message(),
        "The collection has already been initialized."
    );
    assert_eq!(
        ErrorCode::CollectionNotInitialized.message(),
        "The collection has not been initialized."
    );
    assert_eq!(
        ErrorCode::AssetAlreadyInitialized.message(),
        "The asset has already been initialized."
    );
    assert_eq!(ErrorCode::NotEnoughBurns.message(), "Not enough cNFTs burned");
}

#[test]
fn address_equality_is_bytewise() {
    let mut bytes = [3u8; 32];
    assert!(key(3).same(&Address::new(bytes)));
    assert_eq!(key(3), Address::new(bytes));
    bytes[31] = 4;
    assert!(!key(3).same(&Address::new(bytes)));
    assert_ne!(key(3), Address::new(bytes));
    assert_eq!(key(3).to_vec(), vec![3u8; 32]);
}

#[test]
fn signer_seeds_are_salt_owner_nonce() {
    let seeds = SignerSeeds { owner: key(1), bump: 254 }.to_seeds();
    assert_eq!(seeds, vec![b"config".to_vec(), vec![1u8; 32], vec![254u8]]);
}

#[test]
fn setup_writes_record_and_orders_calls() {
    let mut ctx = setup_context(true, true);
    let bumps = InitializeBumps { config: 254 };
    let calls = initialize::handler(&mut ctx, &bumps, 14, 64, cnft_args(), nft_args()).unwrap();
    assert_eq!(ctx.config, written_config());
    let signer = SignerSeeds { owner: key(1), bump: 254 };
    assert_eq!(calls.tree.max_depth, 14);
    assert_eq!(calls.tree.max_buffer_size, 64);
    assert!(!calls.tree.public);
    assert_eq!(calls.tree.tree_creator, key(9));
    assert_eq!(calls.tree.payer, key(1));
    assert_eq!(calls.tree.tree_config, key(5));
    assert_eq!(calls.tree.merkle_tree, key(4));
    assert_eq!(calls.tree.signer, signer);
    assert_eq!(calls.cnft_collection.collection, key(2));
    assert_eq!(calls.cnft_collection.name, "C");
    assert_eq!(calls.cnft_collection.uri, "u1");
    assert!(calls.cnft_collection.compressed_members);
    assert_eq!(calls.cnft_collection.update_authority, key(9));
    assert_eq!(calls.cnft_collection.signer, signer);
    assert_eq!(calls.nft_collection.collection, key(3));
    assert_eq!(calls.nft_collection.name, "S");
    assert_eq!(calls.nft_collection.uri, "u2");
    assert!(!calls.nft_collection.compressed_members);
    assert_eq!(calls.nft_collection.payer, key(1));
    assert_eq!(calls.nft_collection.signer, signer);
}

#[test]
fn setup_refused_when_a_collection_slot_is_occupied() {
    for (cnft_empty, nft_empty) in [(false, true), (true, false), (false, false)] {
        let mut ctx = setup_context(cnft_empty, nft_empty);
        let before = ctx.config;
        let r = initialize::handler(
            &mut ctx,
            &InitializeBumps { config: 254 },
            14,
            64,
            cnft_args(),
            nft_args(),
        );
        assert_eq!(r, Err(ErrorCode::CollectionAlreadyInitialized));
        assert_eq!(ctx.config, before);
        assert_eq!(ctx.check(), Err(ErrorCode::CollectionAlreadyInitialized));
    }
    assert_eq!(setup_context(true, true).check(), Ok(()));
}

#[test]
fn setup_tree_call_signs_with_the_stored_nonce() {
    let mut ctx = setup_context(true, true);
    ctx.initialize(&InitializeBumps { config: 17 }).unwrap();
    let call = ctx.init_merkle_tree(3, 8).unwrap();
    assert_eq!(call.signer, SignerSeeds { owner: key(1), bump: 17 });
    let c = ctx.create_cnft_collection(&InitializeBumps { config: 18 }, cnft_args()).unwrap();
    assert_eq!(c.signer.bump, 18);
    let n = ctx.create_nft_collection(nft_args(), &InitializeBumps { config: 19 }).unwrap();
    assert_eq!(n.signer.bump, 19);
    assert_eq!(ctx.config.bump, 17);
}

#[test]
fn mint_creates_progress_record_once_and_moves_no_counter() {
    let mut ctx = mint_context(PlayerProgress::blank(), false);
    let bumps = MintcNFTBumps { player_progress: 250 };
    let call = mint_cnft::handler(
        &mut ctx,
        &bumps,
        "a".to_string(),
        "u".to_string(),
        "SYM".to_string(),
    )
    .unwrap();
    assert_eq!(ctx.player_progress, progress(0, 0, 250));
    assert_eq!(ctx.config, written_config());
    assert_eq!(call.name, "a");
    assert_eq!(call.uri, "u");
    assert_eq!(call.symbol, "SYM");
    assert_eq!(call.leaf_owner, key(7));
    assert_eq!(call.leaf_delegate, key(7));
    assert_eq!(call.payer, key(7));
    assert_eq!(call.core_collection, key(2));
    assert_eq!(call.collection, key(2));
    assert_eq!(call.collection_authority, key(9));
    assert_eq!(call.tree_creator_or_delegate, key(9));
    assert_eq!(call.seller_fee_basis_points, 0);
    assert!(!call.primary_sale_happened);
    assert!(!call.is_mutable);
    assert_eq!(call.signer, SignerSeeds { owner: key(1), bump: 254 });

    ctx.player_progress.total_cnfts_burned = 3;
    ctx.player_progress.total_nfts_minted = 2;
    let other = MintcNFTBumps { player_progress: 99 };
    mint_cnft::handler(&mut ctx, &other, "b".to_string(), "v".to_string(), "S".to_string())
        .unwrap();
    assert_eq!(ctx.player_progress, progress(3, 2, 250));
}

#[test]
fn mint_refused_without_collection() {
    let mut ctx = mint_context(PlayerProgress::blank(), true);
    let r = mint_cnft::handler(
        &mut ctx,
        &MintcNFTBumps { player_progress: 250 },
        "a".to_string(),
        "u".to_string(),
        "SYM".to_string(),
    );
    assert_eq!(r, Err(ErrorCode::CollectionNotInitialized));
    assert_eq!(ctx.player_progress.bump, 0);
}

#[test]
fn burn_counts_one_and_carries_the_proof() {
    let mut ctx = burn_context(PlayerProgress::blank(), false);
    let path = vec![key(20), key(21)];
    let call = burn_cnft::handler(
        &mut ctx,
        &BurncNFTBumps { player_progress: 250 },
        [1; 32],
        [2; 32],
        [3; 32],
        11,
        12,
        [4; 32],
        5,
        &path,
    )
    .unwrap();
    assert_eq!(ctx.player_progress, progress(1, 0, 250));
    assert_eq!(call.root, [1; 32]);
    assert_eq!(call.data_hash, [2; 32]);
    assert_eq!(call.creator_hash, [3; 32]);
    assert_eq!(call.asset_data_hash, [4; 32]);
    assert_eq!(call.nonce, 11);
    assert_eq!(call.index, 12);
    assert_eq!(call.flags, 5);
    assert_eq!(call.proof_path, path);
    assert_eq!(call.authority, key(9));
    assert_eq!(call.leaf_owner, key(7));
    assert_eq!(call.leaf_delegate, key(7));
    assert_eq!(call.core_collection, key(2));
    assert_eq!(call.signer, SignerSeeds { owner: key(1), bump: 254 });
}

#[test]
fn burn_has_no_cap() {
    let mut ctx = burn_context(progress(5, 1, 250), false);
    for expected in [6u32, 7, 8] {
        burn_cnft::handler(
            &mut ctx,
            &BurncNFTBumps { player_progress: 1 },
            [0; 32],
            [0; 32],
            [0; 32],
            0,
            0,
            [0; 32],
            0,
            &Vec::new(),
        )
        .unwrap();
        assert_eq!(ctx.player_progress, progress(expected, 1, 250));
    }
}

#[test]
fn burn_refused_without_collection() {
    let mut ctx = burn_context(progress(2, 0, 250), true);
    let r = burn_cnft::handler(
        &mut ctx,
        &BurncNFTBumps { player_progress: 1 },
        [0; 32],
        [0; 32],
        [0; 32],
        0,
        0,
        [0; 32],
        0,
        &Vec::new(),
    );
    assert_eq!(r, Err(ErrorCode::CollectionNotInitialized));
    assert_eq!(ctx.player_progress, progress(2, 0, 250));
}

#[test]
fn record_burn_adds_one() {
    let mut ctx = burn_context(progress(4, 9, 250), false);
    ctx.record_burn().unwrap();
    assert_eq!(ctx.player_progress, progress(5, 9, 250));
}

#[test]
fn reward_only_at_threshold() {
    for burned in [0u32, 1, 2, 3, 4, 6, 7, 100] {
        let mut ctx = reward_context(burned, false, true);
        let r = mint_nft::handler(&mut ctx, "r".to_string(), "ru".to_string());
        assert_eq!(r, Err(ErrorCode::NotEnoughBurns));
        assert_eq!(ctx.player_progress, progress(burned, 0, 200));
        assert_eq!(ctx.config, written_config());
    }
    let mut ctx = reward_context(5, false, true);
    let call = mint_nft::handler(&mut ctx, "r".to_string(), "ru".to_string()).unwrap();
    assert_eq!(ctx.player_progress, progress(0, 1, 200));
    assert_eq!(ctx.config.total_nft_minted, 1);
    assert_eq!(ctx.config.total_cnft_minted, 0);
    assert_eq!(call.name, "r");
    assert_eq!(call.uri, "ru");
    assert_eq!(call.asset, key(8));
    assert_eq!(call.collection, key(3));
    assert_eq!(call.owner, key(7));
    assert_eq!(call.payer, key(7));
    assert_eq!(call.authority, key(9));
    assert_eq!(call.attributes_authority, key(9));
    assert_eq!(call.signer, SignerSeeds { owner: key(1), bump: 254 });
}

#[test]
fn reward_refusals_in_order() {
    let mut ctx = reward_context(4, true, false);
    assert_eq!(ctx.check(), Err(ErrorCode::NotEnoughBurns));
    ctx = reward_context(5, true, false);
    assert_eq!(ctx.check(), Err(ErrorCode::CollectionNotInitialized));
    ctx = reward_context(5, false, false);
    assert_eq!(ctx.check(), Err(ErrorCode::AssetAlreadyInitialized));
    let r = mint_nft::handler(&mut ctx, "r".to_string(), "ru".to_string());
    assert_eq!(r, Err(ErrorCode::AssetAlreadyInitialized));
    assert_eq!(ctx.player_progress, progress(5, 0, 200));
    ctx = reward_context(5, false, true);
    assert_eq!(ctx.check(), Ok(()));
}

#[test]
fn reward_attributes_name_player_then_collection() {
    let ctx = reward_context(5, false, true);
    let call = ctx.asset_call(
        "r".to_string(),
        "ru".to_string(),
        "player-text".to_string(),
        "collection-text".to_string(),
    );
    assert_eq!(call.attributes.len(), 2);
    assert_eq!(call.attributes[0].key, "Player");
    assert_eq!(call.attributes[0].value, "player-text");
    assert_eq!(call.attributes[1].key, "Collection");
    assert_eq!(call.attributes[1].value, "collection-text");
}

#[test]
fn record_mint_moves_three_counters() {
    let mut ctx = reward_context(9, false, true);
    ctx.config.total_nft_minted = 41;
    ctx.player_progress.total_nfts_minted = 6;
    ctx.record_mint().unwrap();
    assert_eq!(ctx.config.total_nft_minted, 42);
    assert_eq!(ctx.player_progress.total_cnfts_burned, 0);
    assert_eq!(ctx.player_progress.total_nfts_minted, 7);
}
