use ovwigho::registry::{PlayerKey, Registry, RegistryKey};
use ovwigho::{Address, Config, PlayerProgress};

fn k(n: u8) -> Address {
    Address::new([n; 32])
}

#[test]
fn registry_holds_one_value_per_key() {
    let mut registry: Registry<Address, u32> = Registry::new();
    assert_eq!(registry.get(&k(1)), None);
    assert!(!registry.contains(&k(1)));
    registry.insert(k(1), 10);
    registry.insert(k(2), 20);
    assert_eq!(registry.get(&k(1)), Some(10));
    assert_eq!(registry.get(&k(2)), Some(20));
    registry.insert(k(1), 11);
    assert_eq!(registry.get(&k(1)), Some(11));
    assert_eq!(registry.get(&k(2)), Some(20));
    assert_eq!(registry.get(&k(3)), None);
    assert!(registry.contains(&k(2)));
}

#[test]
fn player_keys_compare_both_parts() {
    let key = PlayerKey { authority: k(1), player: k(2) };
    assert!(key.same_key(&PlayerKey { authority: k(1), player: k(2) }));
    assert!(!key.same_key(&PlayerKey { authority: k(1), player: k(3) }));
    assert!(!key.same_key(&PlayerKey { authority: k(3), player: k(2) }));
    assert!(!key.same_key(&PlayerKey { authority: k(2), player: k(1) }));
    let mut registry: Registry<PlayerKey, u8> = Registry::new();
    registry.insert(key, 1);
    registry.insert(PlayerKey { authority: k(2), player: k(1) }, 2);
    assert_eq!(registry.get(&key), Some(1));
    assert_eq!(registry.get(&PlayerKey { authority: k(2), player: k(1) }), Some(2));
}

#[test]
fn blank_records_are_all_zero() {
    let zero = Address::zero();
    assert_eq!(zero.bytes, [0u8; 32]);
    let config = Config::blank();
    assert_eq!(
        config,
        Config {
            authority: zero,
            cnft_collection: zero,
            nft_collection: zero,
            merkle_tree: zero,
            total_cnft_minted: 0,
            total_nft_minted: 0,
            bump: 0,
        }
    );
    let progress = PlayerProgress::blank();
    assert_eq!(
        progress,
        PlayerProgress {
            player: zero,
            authority: zero,
            total_cnfts_burned: 0,
            total_nfts_minted: 0,
            bump: 0,
        }
    );
}
