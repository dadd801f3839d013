//! The ledger as the program sees it: a registry of authority records, one of
//! progress records, and the slots that the services have filled. The four
//! entry points run one request each against it. A request changes the ledger
//! only if every check passes and the services accept its calls; otherwise the
//! ledger stays exactly as it was.

use crate::address::Address;
use crate::authority::{
    base58_text, config_home, find_config_address, find_player_address, player_home,
};
use crate::error::ErrorCode;
use crate::instructions::burn_cnft::{BurncNFT, BurncNFTBumps, LeafProof};
use crate::instructions::initialize::{
    CreateCnftCollectionArgs, CreateNftCollectionArgs, Initialize, InitializeBumps, InitializeCalls,
};
use crate::instructions::mint_cnft::{MintcNFT, MintcNFTBumps};
use crate::instructions::mint_nft::MintNFT;
use crate::registry::{PlayerKey, Registry};
use crate::service::{AccountSlot, BurnLeafCall, CreateAssetCall, MintLeafCall};
use crate::state::config::Config;
use crate::state::player_progress::{PlayerProgress, REWARD_THRESHOLD};
use vstd::prelude::*;

verus! {

/// A failure inside one of the services, handed on as it came.
#[derive(Clone, Copy, Debug, PartialEq, Eq)]
pub struct ServiceFault {
    pub code: u64,
}

/// What the services answered to the calls of one request.
#[derive(Clone, Copy, Debug, PartialEq, Eq)]
pub enum ServiceReply {
    Accepted,
    Refused(ServiceFault),
}

/// Why a request left the ledger unchanged.
#[derive(Clone, Copy, Debug, PartialEq, Eq)]
pub enum Failure {
    /// A precondition of the workflow did not hold.
    Program(ErrorCode),
    /// No nonce gives a valid derived address.
    NoDerivedAddress,
    /// A service refused a call.
    Service(ServiceFault),
}

/// An authority record together with the derived address at which it lives.
#[derive(Clone, Copy, Debug, PartialEq, Eq)]
pub struct AuthorityEntry {
    pub key: Address,
    pub config: Config,
}

/// What a service wrote into a slot.
#[derive(Clone, Copy, Debug, PartialEq, Eq)]
pub enum Occupant {
    Collection,
    Asset,
}

/// The addresses that a set-up request names.
#[derive(Clone, Copy, Debug)]
pub struct InitializeAccounts {
    pub authority: Address,
    pub cnft_collection: Address,
    pub nft_collection: Address,
    pub tree_config: Address,
    pub merkle_tree: Address,
}

/// The addresses that a mint or burn of a compressed asset names.
#[derive(Clone, Copy, Debug)]
pub struct PlayerAccounts {
    pub authority: Address,
    pub player: Address,
    pub tree_config: Address,
}

/// The addresses that a reward request names.
#[derive(Clone, Copy, Debug)]
pub struct RewardAccounts {
    pub authority: Address,
    pub player: Address,
    pub asset: Address,
}

/// The ledger as a mathematical value.
pub struct LedgerState {
    /// The address of the program, under which addresses are derived.
    pub program: Address,
    /// The authority record of each owning identity that has one.
    pub configs: Map<Address, AuthorityEntry>,
    /// The progress record of each authority and player that has one.
    pub players: Map<PlayerKey, PlayerProgress>,
    /// The slots that hold a collection or an asset.
    pub occupied: Set<Address>,
}

impl LedgerState {
    pub open spec fn progress_key(authority: Address, player: Address) -> PlayerKey {
        PlayerKey { authority, player }
    }

    /// The progress record that a request for `player` finds: the stored one,
    /// or none.
    pub open spec fn progress(self, authority: Address, player: Address) -> Option<PlayerProgress> {
        if self.players.contains_key(Self::progress_key(authority, player)) {
            Some(self.players[Self::progress_key(authority, player)])
        } else {
            None
        }
    }

    /// Whether a mint or burn has to write the progress record afresh.
    pub open spec fn lacks_progress(self, authority: Address, player: Address) -> bool {
        match self.progress(authority, player) {
            Some(p) => p.is_blank(),
            None => true,
        }
    }

    /// Whether the collection of compressed assets of `authority` exists.
    pub open spec fn has_cnft_collection(self, authority: Address) -> bool {
        self.configs.contains_key(authority) && self.occupied.contains(
            self.configs[authority].config.cnft_collection,
        )
    }

    /// Whether the collection of reward assets of `authority` exists.
    pub open spec fn has_nft_collection(self, authority: Address) -> bool {
        self.configs.contains_key(authority) && self.occupied.contains(
            self.configs[authority].config.nft_collection,
        )
    }

    // ----- set-up -----
    /// Why set-up fails, if it does.
    pub open spec fn initialize_failure(self, accounts: InitializeAccounts, reply: ServiceReply) -> Option<
        Failure,
    > {
        if self.configs.contains_key(accounts.authority) || self.occupied.contains(
            accounts.cnft_collection,
        ) || self.occupied.contains(accounts.nft_collection) {
            Some(Failure::Program(ErrorCode::CollectionAlreadyInitialized))
        } else if config_home(accounts.authority, self.program) is None {
            Some(Failure::NoDerivedAddress)
        } else {
            match reply {
                ServiceReply::Refused(fault) => Some(Failure::Service(fault)),
                ServiceReply::Accepted => None,
            }
        }
    }

    /// The authority record that set-up writes.
    pub open spec fn initial_entry(self, accounts: InitializeAccounts) -> AuthorityEntry {
        let found = config_home(accounts.authority, self.program).unwrap();
        AuthorityEntry {
            key: found.0,
            config: Config {
                authority: accounts.authority,
                cnft_collection: accounts.cnft_collection,
                nft_collection: accounts.nft_collection,
                merkle_tree: accounts.merkle_tree,
                total_cnft_minted: 0,
                total_nft_minted: 0,
                bump: found.1,
            },
        }
    }

    /// The ledger after a set-up request.
    pub open spec fn after_initialize(self, accounts: InitializeAccounts, reply: ServiceReply) -> LedgerState {
        if self.initialize_failure(accounts, reply) is Some {
            self
        } else {
            LedgerState {
                configs: self.configs.insert(accounts.authority, self.initial_entry(accounts)),
                occupied: self.occupied.insert(accounts.cnft_collection).insert(
                    accounts.nft_collection,
                ),
                ..self
            }
        }
    }

    // ----- mint and burn of a compressed asset -----
    /// Why a mint or a burn of a compressed asset fails, if it does.
    pub open spec fn compressed_failure(self, accounts: PlayerAccounts, reply: ServiceReply) -> Option<
        Failure,
    > {
        if !self.has_cnft_collection(accounts.authority) {
            Some(Failure::Program(ErrorCode::CollectionNotInitialized))
        } else if self.lacks_progress(accounts.authority, accounts.player) && player_home(
            accounts.authority,
            accounts.player,
            self.program,
        ) is None {
            Some(Failure::NoDerivedAddress)
        } else {
            match reply {
                ServiceReply::Refused(fault) => Some(Failure::Service(fault)),
                ServiceReply::Accepted => None,
            }
        }
    }

    /// The progress record once a mint or burn has made sure it exists.
    pub open spec fn ensured_progress(self, accounts: PlayerAccounts) -> PlayerProgress {
        if self.lacks_progress(accounts.authority, accounts.player) {
            PlayerProgress::fresh(
                accounts.player,
                accounts.authority,
                player_home(accounts.authority, accounts.player, self.program).unwrap().1,
            )
        } else {
            self.players[Self::progress_key(accounts.authority, accounts.player)]
        }
    }

    /// The ledger after a request to mint a compressed asset: the progress
    /// record exists, and nothing else has changed.
    pub open spec fn after_mint_cnft(self, accounts: PlayerAccounts, reply: ServiceReply) -> LedgerState {
        if self.compressed_failure(accounts, reply) is Some {
            self
        } else {
            LedgerState {
                players: self.players.insert(
                    Self::progress_key(accounts.authority, accounts.player),
                    self.ensured_progress(accounts),
                ),
                ..self
            }
        }
    }

    /// The ledger after a request to burn a compressed asset: the progress
    /// record exists and has counted one more burn.
    pub open spec fn after_burn_cnft(self, accounts: PlayerAccounts, reply: ServiceReply) -> LedgerState {
        if self.compressed_failure(accounts, reply) is Some {
            self
        } else {
            LedgerState {
                players: self.players.insert(
                    Self::progress_key(accounts.authority, accounts.player),
                    self.ensured_progress(accounts).burned(),
                ),
                ..self
            }
        }
    }

    /// The burn counter has room for one more burn.
    pub open spec fn can_count_burn(self, accounts: PlayerAccounts) -> bool {
        match self.progress(accounts.authority, accounts.player) {
            Some(p) => p.total_cnfts_burned < u32::MAX,
            None => true,
        }
    }

    // ----- reward -----
    /// Why a reward request fails, if it does.
    pub open spec fn reward_failure(self, accounts: RewardAccounts, reply: ServiceReply) -> Option<
        Failure,
    > {
        if !(self.progress(accounts.authority, accounts.player) matches Some(p)
            && p.total_cnfts_burned == REWARD_THRESHOLD) {
            Some(Failure::Program(ErrorCode::NotEnoughBurns))
        } else if !self.has_nft_collection(accounts.authority) {
            Some(Failure::Program(ErrorCode::CollectionNotInitialized))
        } else if self.occupied.contains(accounts.asset) {
            Some(Failure::Program(ErrorCode::AssetAlreadyInitialized))
        } else {
            match reply {
                ServiceReply::Refused(fault) => Some(Failure::Service(fault)),
                ServiceReply::Accepted => None,
            }
        }
    }

    /// The ledger after a reward request: the asset slot filled, one more
    /// reward counted on both records, the burn counter back at zero.
    pub open spec fn after_mint_nft(self, accounts: RewardAccounts, reply: ServiceReply) -> LedgerState {
        if self.reward_failure(accounts, reply) is Some {
            self
        } else {
            let entry = self.configs[accounts.authority];
            let key = Self::progress_key(accounts.authority, accounts.player);
            LedgerState {
                configs: self.configs.insert(
                    accounts.authority,
                    AuthorityEntry {
                        key: entry.key,
                        config: Config {
                            total_nft_minted: (entry.config.total_nft_minted + 1) as u32,
                            ..entry.config
                        },
                    },
                ),
                players: self.players.insert(key, self.players[key].rewarded()),
                occupied: self.occupied.insert(accounts.asset),
                ..self
            }
        }
    }

    /// Both reward counters have room for one more reward.
    pub open spec fn can_count_reward(self, accounts: RewardAccounts) -> bool {
        &&& self.configs.contains_key(accounts.authority)
                ==> self.configs[accounts.authority].config.total_nft_minted < u32::MAX
        &&& self.progress(accounts.authority, accounts.player) matches Some(p)
                ==> p.total_nfts_minted < u32::MAX
    }

    // ----- the contexts that the workflows are run on -----
    pub open spec fn initialize_context(self, accounts: InitializeAccounts) -> Initialize {
        let entry = self.initial_entry(accounts);
        Initialize {
            authority: accounts.authority,
            config_key: entry.key,
            config: entry.config,
            cnft_collection: AccountSlot { key: accounts.cnft_collection, data_is_empty: true },
            nft_collection: AccountSlot { key: accounts.nft_collection, data_is_empty: true },
            tree_config: accounts.tree_config,
            merkle_tree: accounts.merkle_tree,
        }
    }

    pub open spec fn mint_context(self, accounts: PlayerAccounts) -> MintcNFT {
        let entry = self.configs[accounts.authority];
        MintcNFT {
            player: accounts.player,
            authority: accounts.authority,
            config_key: entry.key,
            config: entry.config,
            player_progress: self.ensured_progress(accounts),
            cnft_collection: AccountSlot { key: entry.config.cnft_collection, data_is_empty: false },
            tree_config: accounts.tree_config,
            merkle_tree: entry.config.merkle_tree,
        }
    }

    pub open spec fn burn_context(self, accounts: PlayerAccounts) -> BurncNFT {
        let entry = self.configs[accounts.authority];
        BurncNFT {
            player: accounts.player,
            authority: accounts.authority,
            config_key: entry.key,
            config: entry.config,
            player_progress: self.ensured_progress(accounts),
            cnft_collection: AccountSlot { key: entry.config.cnft_collection, data_is_empty: false },
            tree_config: accounts.tree_config,
            merkle_tree: entry.config.merkle_tree,
        }
    }

    pub open spec fn reward_context(self, accounts: RewardAccounts) -> MintNFT {
        let entry = self.configs[accounts.authority];
        MintNFT {
            player: accounts.player,
            authority: accounts.authority,
            config_key: entry.key,
            config: entry.config,
            player_progress: self.players[Self::progress_key(accounts.authority, accounts.player)],
            nft_collection: AccountSlot { key: entry.config.nft_collection, data_is_empty: false },
            asset: AccountSlot { key: accounts.asset, data_is_empty: true },
        }
    }
}

/// The registries behind a `LedgerState`.
pub struct Ledger {
    program: Address,
    configs: Registry<Address, AuthorityEntry>,
    players: Registry<PlayerKey, PlayerProgress>,
    occupied: Registry<Address, Occupant>,
}

impl Ledger {
    pub closed spec fn wf(&self) -> bool {
        &&& self.configs.wf()
        &&& self.players.wf()
        &&& self.occupied.wf()
    }

    pub closed spec fn view(&self) -> LedgerState {
        LedgerState {
            program: self.program,
            configs: self.configs@,
            players: self.players@,
            occupied: self.occupied@.dom(),
        }
    }

    /// A ledger on which the program at `program` has written nothing yet.
    pub fn new(program: Address) -> (r: Ledger)
        ensures
            r.wf(),
            r@ == (LedgerState {
                program,
                configs: Map::empty(),
                players: Map::empty(),
                occupied: Set::empty(),
            }),
    {
        let r = Ledger {
            program,
            configs: Registry::new(),
            players: Registry::new(),
            occupied: Registry::new(),
        };
        proof {
            assert(r.occupied@.dom() =~= Set::<Address>::empty());
        }
        r
    }

    /// The authority record of `owner`, if set-up has written one.
    pub fn config(&self, owner: &Address) -> (r: Option<Config>)
        requires
            self.wf(),
        ensures
            r == (if self@.configs.contains_key(*owner) {
                Some(self@.configs[*owner].config)
            } else {
                None
            }),
    {
        match self.configs.get(owner) {
            Some(entry) => Some(entry.config),
            None => None,
        }
    }

    /// The progress record of `player` under `authority`, if there is one.
    pub fn player_progress(&self, authority: &Address, player: &Address) -> (r: Option<PlayerProgress>)
        requires
            self.wf(),
        ensures
            r == self@.progress(*authority, *player),
    {
        self.players.get(&PlayerKey { authority: *authority, player: *player })
    }

    /// Whether a collection or an asset lives at `slot`.
    pub fn is_occupied(&self, slot: &Address) -> (r: bool)
        requires
            self.wf(),
        ensures
            r == self@.occupied.contains(*slot),
    {
        self.occupied.contains(slot)
    }

    fn occupy(&mut self, slot: Address, occupant: Occupant)
        requires
            old(self).wf(),
        ensures
            final(self).wf(),
            final(self)@ == (LedgerState {
                occupied: old(self)@.occupied.insert(slot),
                ..old(self)@
            }),
    {
        self.occupied.insert(slot, occupant);
        proof {
            assert(self.occupied@.dom() =~= old(self).occupied@.dom().insert(slot));
        }
    }
}

/// Set-up for the owning identity `accounts.authority`.
///
/// Fails with `CollectionAlreadyInitialized` when that identity has an
/// authority record already or one of the two collection slots is occupied;
/// else with `NoDerivedAddress` when the derivation finds no nonce; else with
/// the services' fault when they refuse. In each of these cases the ledger is
/// left as it was. Otherwise the authority record is stored with zeroed
/// counters, both collection slots are filled, and the calls that were made
/// come back in their order.
pub fn initialize(
    ledger: &mut Ledger,
    accounts: &InitializeAccounts,
    max_depth: u32,
    max_buffer_size: u32,
    cnft_args: CreateCnftCollectionArgs,
    nft_args: CreateNftCollectionArgs,
    reply: ServiceReply,
) -> (r: Result<InitializeCalls, Failure>)
    requires
        old(ledger).wf(),
    ensures
        final(ledger).wf(),
        final(ledger)@ == old(ledger)@.after_initialize(*accounts, reply),
        match old(ledger)@.initialize_failure(*accounts, reply) {
            Some(failure) => r == Err::<InitializeCalls, Failure>(failure),
            None => {
                let ctx = old(ledger)@.initialize_context(*accounts);
                &&& r matches Ok(calls)
                &&& calls.tree == ctx.tree_call(max_depth, max_buffer_size)
                &&& ctx.is_collection_call(
                    calls.cnft_collection,
                    accounts.cnft_collection,
                    true,
                    ctx.config.bump,
                    cnft_args.name@,
                    cnft_args.uri@,
                )
                &&& ctx.is_collection_call(
                    calls.nft_collection,
                    accounts.nft_collection,
                    false,
                    ctx.config.bump,
                    nft_args.name@,
                    nft_args.uri@,
                )
            },
        },
{
    if ledger.configs.contains(&accounts.authority) || ledger.occupied.contains(
        &accounts.cnft_collection,
    ) || ledger.occupied.contains(&accounts.nft_collection) {
        return Err(Failure::Program(ErrorCode::CollectionAlreadyInitialized));
    }
    let found = match find_config_address(&accounts.authority, &ledger.program) {
        Some(found) => found,
        None => {
            return Err(Failure::NoDerivedAddress);
        },
    };
    let mut ctx = Initialize {
        authority: accounts.authority,
        config_key: found.0,
        config: Config::blank(),
        cnft_collection: AccountSlot { key: accounts.cnft_collection, data_is_empty: true },
        nft_collection: AccountSlot { key: accounts.nft_collection, data_is_empty: true },
        tree_config: accounts.tree_config,
        merkle_tree: accounts.merkle_tree,
    };
    let bumps = InitializeBumps { config: found.1 };
    match crate::instructions::initialize::handler(
        &mut ctx,
        &bumps,
        max_depth,
        max_buffer_size,
        cnft_args,
        nft_args,
    ) {
        Err(e) => Err(Failure::Program(e)),
        Ok(calls) => match reply {
            ServiceReply::Refused(fault) => Err(Failure::Service(fault)),
            ServiceReply::Accepted => {
                ledger.configs.insert(
                    accounts.authority,
                    AuthorityEntry { key: ctx.config_key, config: ctx.config },
                );
                ledger.occupy(accounts.cnft_collection, Occupant::Collection);
                ledger.occupy(accounts.nft_collection, Occupant::Collection);
                Ok(calls)
            },
        },
    }
}

/// Mints a compressed asset for `accounts.player`.
///
/// Fails with `CollectionNotInitialized` when the authority has no record or
/// its collection of compressed assets does not exist; else with
/// `NoDerivedAddress` when a progress record must be written and the
/// derivation finds no nonce; else with the services' fault when they refuse.
/// In each of these cases the ledger is left as it was. Otherwise the
/// player's progress record exists afterwards, written afresh only if there
/// was none, and no counter has moved.
pub fn mint_cnft(
    ledger: &mut Ledger,
    accounts: &PlayerAccounts,
    name: String,
    uri: String,
    symbol: String,
    reply: ServiceReply,
) -> (r: Result<MintLeafCall, Failure>)
    requires
        old(ledger).wf(),
    ensures
        final(ledger).wf(),
        final(ledger)@ == old(ledger)@.after_mint_cnft(*accounts, reply),
        match old(ledger)@.compressed_failure(*accounts, reply) {
            Some(failure) => r == Err::<MintLeafCall, Failure>(failure),
            None => r matches Ok(call) && old(ledger)@.mint_context(*accounts).is_mint_call(
                call,
                name@,
                uri@,
                symbol@,
            ),
        },
{
    let entry = match ledger.configs.get(&accounts.authority) {
        Some(entry) => entry,
        None => {
            return Err(Failure::Program(ErrorCode::CollectionNotInitialized));
        },
    };
    if !ledger.occupied.contains(&entry.config.cnft_collection) {
        return Err(Failure::Program(ErrorCode::CollectionNotInitialized));
    }
    let key = PlayerKey { authority: accounts.authority, player: accounts.player };
    let stored = match ledger.players.get(&key) {
        Some(p) => p,
        None => PlayerProgress::blank(),
    };
    let mut bump: u8 = stored.bump;
    if stored.bump == 0 {
        match find_player_address(&accounts.authority, &accounts.player, &ledger.program) {
            Some(found) => {
                bump = found.1;
            },
            None => {
                return Err(Failure::NoDerivedAddress);
            },
        }
    }
    let mut ctx = MintcNFT {
        player: accounts.player,
        authority: accounts.authority,
        config_key: entry.key,
        config: entry.config,
        player_progress: stored,
        cnft_collection: AccountSlot { key: entry.config.cnft_collection, data_is_empty: false },
        tree_config: accounts.tree_config,
        merkle_tree: entry.config.merkle_tree,
    };
    let bumps = MintcNFTBumps { player_progress: bump };
    match crate::instructions::mint_cnft::handler(&mut ctx, &bumps, name, uri, symbol) {
        Err(e) => Err(Failure::Program(e)),
        Ok(call) => match reply {
            ServiceReply::Refused(fault) => Err(Failure::Service(fault)),
            ServiceReply::Accepted => {
                ledger.players.insert(key, ctx.player_progress);
                Ok(call)
            },
        },
    }
}

/// Burns the compressed asset that the proof names, for `accounts.player`.
///
/// Fails as `mint_cnft` does, on the same inputs, and then leaves the ledger as
/// it was. Otherwise the player's progress record exists afterwards and its
/// burn counter is one higher than before (one, if the record is new),
/// whatever the counter was: no cap is applied.
pub fn burn_cnft(
    ledger: &mut Ledger,
    accounts: &PlayerAccounts,
    root: [u8; 32],
    data_hash: [u8; 32],
    creator_hash: [u8; 32],
    nonce: u64,
    index: u32,
    asset_data_hash: [u8; 32],
    flags: u8,
    remaining_accounts: &Vec<Address>,
    reply: ServiceReply,
) -> (r: Result<BurnLeafCall, Failure>)
    requires
        old(ledger).wf(),
        old(ledger)@.can_count_burn(*accounts),
    ensures
        final(ledger).wf(),
        final(ledger)@ == old(ledger)@.after_burn_cnft(*accounts, reply),
        match old(ledger)@.compressed_failure(*accounts, reply) {
            Some(failure) => r == Err::<BurnLeafCall, Failure>(failure),
            None => r matches Ok(call) && old(ledger)@.burn_context(*accounts).is_burn_call(
                call,
                (LeafProof { root, data_hash, creator_hash, nonce, index, asset_data_hash, flags }),
                remaining_accounts@,
            ),
        },
{
    let entry = match ledger.configs.get(&accounts.authority) {
        Some(entry) => entry,
        None => {
            return Err(Failure::Program(ErrorCode::CollectionNotInitialized));
        },
    };
    if !ledger.occupied.contains(&entry.config.cnft_collection) {
        return Err(Failure::Program(ErrorCode::CollectionNotInitialized));
    }
    let key = PlayerKey { authority: accounts.authority, player: accounts.player };
    let stored = match ledger.players.get(&key) {
        Some(p) => p,
        None => PlayerProgress::blank(),
    };
    let mut bump: u8 = stored.bump;
    if stored.bump == 0 {
        match find_player_address(&accounts.authority, &accounts.player, &ledger.program) {
            Some(found) => {
                bump = found.1;
            },
            None => {
                return Err(Failure::NoDerivedAddress);
            },
        }
    }
    let mut ctx = BurncNFT {
        player: accounts.player,
        authority: accounts.authority,
        config_key: entry.key,
        config: entry.config,
        player_progress: stored,
        cnft_collection: AccountSlot { key: entry.config.cnft_collection, data_is_empty: false },
        tree_config: accounts.tree_config,
        merkle_tree: entry.config.merkle_tree,
    };
    let bumps = BurncNFTBumps { player_progress: bump };
    match crate::instructions::burn_cnft::handler(
        &mut ctx,
        &bumps,
        root,
        data_hash,
        creator_hash,
        nonce,
        index,
        asset_data_hash,
        flags,
        remaining_accounts,
    ) {
        Err(e) => Err(Failure::Program(e)),
        Ok(call) => match reply {
            ServiceReply::Refused(fault) => Err(Failure::Service(fault)),
            ServiceReply::Accepted => {
                ledger.players.insert(key, ctx.player_progress);
                Ok(call)
            },
        },
    }
}

/// Mints a reward asset for `accounts.player` into the slot `accounts.asset`.
///
/// Fails with `NotEnoughBurns` when the player has no progress record or its
/// burn counter is not at the threshold; else with `CollectionNotInitialized`
/// when the authority has no record or its collection of reward assets does
/// not exist; else with `AssetAlreadyInitialized` when the asset slot is
/// occupied; else with the services' fault when they refuse. In each of these
/// cases the ledger is left as it was. Otherwise the asset slot is filled, the
/// authority's and the player's reward counters are one higher, and the
/// player's burn counter is zero: all of it together.
pub fn mint_nft(
    ledger: &mut Ledger,
    accounts: &RewardAccounts,
    name: String,
    uri: String,
    reply: ServiceReply,
) -> (r: Result<CreateAssetCall, Failure>)
    requires
        old(ledger).wf(),
        old(ledger)@.can_count_reward(*accounts),
    ensures
        final(ledger).wf(),
        final(ledger)@ == old(ledger)@.after_mint_nft(*accounts, reply),
        match old(ledger)@.reward_failure(*accounts, reply) {
            Some(failure) => r == Err::<CreateAssetCall, Failure>(failure),
            None => r matches Ok(call) && old(ledger)@.reward_context(*accounts).is_asset_call(
                call,
                name@,
                uri@,
                base58_text(accounts.player@),
                base58_text(old(ledger)@.configs[accounts.authority].config.nft_collection@),
            ),
        },
{
    let key = PlayerKey { authority: accounts.authority, player: accounts.player };
    let stored = match ledger.players.get(&key) {
        Some(p) => p,
        None => {
            return Err(Failure::Program(ErrorCode::NotEnoughBurns));
        },
    };
    if stored.total_cnfts_burned != REWARD_THRESHOLD {
        return Err(Failure::Program(ErrorCode::NotEnoughBurns));
    }
    let entry = match ledger.configs.get(&accounts.authority) {
        Some(entry) => entry,
        None => {
            return Err(Failure::Program(ErrorCode::CollectionNotInitialized));
        },
    };
    let collection_missing = !ledger.occupied.contains(&entry.config.nft_collection);
    let asset_free = !ledger.occupied.contains(&accounts.asset);
    let mut ctx = MintNFT {
        player: accounts.player,
        authority: accounts.authority,
        config_key: entry.key,
        config: entry.config,
        player_progress: stored,
        nft_collection: AccountSlot {
            key: entry.config.nft_collection,
            data_is_empty: collection_missing,
        },
        asset: AccountSlot { key: accounts.asset, data_is_empty: asset_free },
    };
    match crate::instructions::mint_nft::handler(&mut ctx, name, uri) {
        Err(e) => Err(Failure::Program(e)),
        Ok(call) => match reply {
            ServiceReply::Refused(fault) => Err(Failure::Service(fault)),
            ServiceReply::Accepted => {
                ledger.configs.insert(
                    accounts.authority,
                    AuthorityEntry { key: entry.key, config: ctx.config },
                );
                ledger.players.insert(key, ctx.player_progress);
                ledger.occupy(accounts.asset, Occupant::Asset);
                Ok(call)
            },
        },
    }
}

} // verus!
