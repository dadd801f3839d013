//! What holds of the ledger across requests, proved from the transitions that
//! the entry points implement.

use crate::address::Address;
use crate::authority::{config_home, player_home};
use crate::error::ErrorCode;
use crate::ledger::{
    Failure, InitializeAccounts, LedgerState, PlayerAccounts, RewardAccounts, ServiceReply,
};
use crate::registry::PlayerKey;
use crate::state::player_progress::REWARD_THRESHOLD;
use vstd::prelude::*;

verus! {

/// The burns that count for a player: those on the stored record, none where a
/// record has yet to be written.
pub open spec fn burn_count(s: LedgerState, authority: Address, player: Address) -> nat {
    if s.lacks_progress(authority, player) {
        0
    } else {
        s.progress(authority, player).unwrap().total_cnfts_burned as nat
    }
}

/// The rewards that a player has had.
pub open spec fn reward_count(s: LedgerState, authority: Address, player: Address) -> nat {
    if s.lacks_progress(authority, player) {
        0
    } else {
        s.progress(authority, player).unwrap().total_nfts_minted as nat
    }
}

/// The ledger after `n` burns for the same player, each accepted by the services.
pub open spec fn after_burns(s: LedgerState, accounts: PlayerAccounts, n: nat) -> LedgerState
    decreases n,
{
    if n == 0 {
        s
    } else {
        after_burns(s, accounts, (n - 1) as nat).after_burn_cnft(accounts, ServiceReply::Accepted)
    }
}

/// What holds of every ledger that requests have built from an empty one:
/// an authority record is stored under its owner, at the derived address and
/// with the derived nonce, and its two collections exist; a progress record
/// is stored under its player and authority, has a nonce that is not zero, and
/// belongs to an authority that has a record.
pub open spec fn consistent(s: LedgerState) -> bool {
    &&& forall|owner: Address| #[trigger]
        s.configs.contains_key(owner) ==> {
            &&& s.configs[owner].config.authority == owner
            &&& config_home(owner, s.program) == Some(
                (s.configs[owner].key, s.configs[owner].config.bump),
            )
            &&& s.occupied.contains(s.configs[owner].config.cnft_collection)
            &&& s.occupied.contains(s.configs[owner].config.nft_collection)
        }
    &&& forall|key: PlayerKey| #[trigger]
        s.players.contains_key(key) ==> {
            &&& s.players[key].player == key.player
            &&& s.players[key].authority == key.authority
            &&& s.players[key].bump != 0
            &&& s.configs.contains_key(key.authority)
        }
}

/// The empty ledger is consistent.
pub proof fn law_empty_ledger_is_consistent(program: Address)
    ensures
        consistent(
            LedgerState {
                program,
                configs: Map::empty(),
                players: Map::empty(),
                occupied: Set::empty(),
            },
        ),
{
}

/// Every request keeps a consistent ledger consistent, whether it succeeds or fails.
pub proof fn law_requests_keep_consistency(
    s: LedgerState,
    set_up: InitializeAccounts,
    mint: PlayerAccounts,
    burn: PlayerAccounts,
    reward: RewardAccounts,
    reply: ServiceReply,
)
    requires
        consistent(s),
    ensures
        consistent(s.after_initialize(set_up, reply)),
        consistent(s.after_mint_cnft(mint, reply)),
        consistent(s.after_burn_cnft(burn, reply)),
        consistent(s.after_mint_nft(reward, reply)),
{
}

/// On a consistent ledger a mint or burn of a compressed asset is refused with
/// `CollectionNotInitialized` exactly when set-up has not been run for the authority.
pub proof fn law_compressed_needs_only_set_up(
    s: LedgerState,
    accounts: PlayerAccounts,
    reply: ServiceReply,
)
    requires
        consistent(s),
    ensures
        s.compressed_failure(accounts, reply) == Some(
            Failure::Program(ErrorCode::CollectionNotInitialized),
        ) <==> !s.configs.contains_key(accounts.authority),
{
}

/// Set-up succeeds at most once for an owning identity: after it has
/// succeeded, every further set-up for that identity fails with
/// `CollectionAlreadyInitialized`, whatever slots it names and whatever the
/// services would answer, and leaves the ledger as it is.
pub proof fn law_initialize_once(
    s: LedgerState,
    first: InitializeAccounts,
    first_reply: ServiceReply,
    second: InitializeAccounts,
    second_reply: ServiceReply,
)
    requires
        s.initialize_failure(first, first_reply) is None,
        second.authority == first.authority,
    ensures
        ({
            let s1 = s.after_initialize(first, first_reply);
            &&& s1.initialize_failure(second, second_reply) == Some(
                Failure::Program(ErrorCode::CollectionAlreadyInitialized),
            )
            &&& s1.after_initialize(second, second_reply) == s1
        }),
{
}

/// The authority record of `owner` is in `next` as it was in `s`, but for its
/// counters, which are no lower.
pub open spec fn keeps_authority_record(s: LedgerState, next: LedgerState, owner: Address) -> bool {
    &&& next.configs.contains_key(owner)
    &&& next.configs[owner].key == s.configs[owner].key
    &&& next.configs[owner].config.same_identity(s.configs[owner].config)
    &&& next.configs[owner].config.total_cnft_minted >= s.configs[owner].config.total_cnft_minted
    &&& next.configs[owner].config.total_nft_minted >= s.configs[owner].config.total_nft_minted
}

/// An authority record, once written, stays: no request removes it or changes
/// its owner, its references, its nonce or its address, and its counters never
/// go down.
pub proof fn law_authority_record_stays(
    s: LedgerState,
    owner: Address,
    set_up: InitializeAccounts,
    mint: PlayerAccounts,
    burn: PlayerAccounts,
    reward: RewardAccounts,
    reply: ServiceReply,
)
    requires
        s.configs.contains_key(owner),
        s.can_count_reward(reward),
    ensures
        keeps_authority_record(s, s.after_initialize(set_up, reply), owner),
        keeps_authority_record(s, s.after_mint_cnft(mint, reply), owner),
        keeps_authority_record(s, s.after_burn_cnft(burn, reply), owner),
        keeps_authority_record(s, s.after_mint_nft(reward, reply), owner),
{
}

/// The progress record of a player is in `next` with the identities and the
/// nonce that it had in `s`, and with no fewer rewards.
pub open spec fn keeps_progress_record(
    s: LedgerState,
    next: LedgerState,
    authority: Address,
    player: Address,
) -> bool {
    let key = LedgerState::progress_key(authority, player);
    &&& next.players.contains_key(key)
    &&& next.players[key].player == s.players[key].player
    &&& next.players[key].authority == s.players[key].authority
    &&& next.players[key].bump == s.players[key].bump
    &&& next.players[key].total_nfts_minted >= s.players[key].total_nfts_minted
}

/// A progress record, once written, stays: no request removes it or changes
/// the identities or the nonce in it, and its reward counter never goes down.
pub proof fn law_progress_record_stays(
    s: LedgerState,
    authority: Address,
    player: Address,
    set_up: InitializeAccounts,
    mint: PlayerAccounts,
    burn: PlayerAccounts,
    reward: RewardAccounts,
    reply: ServiceReply,
)
    requires
        s.progress(authority, player) matches Some(p) && !p.is_blank(),
        s.can_count_reward(reward),
    ensures
        keeps_progress_record(s, s.after_initialize(set_up, reply), authority, player),
        keeps_progress_record(s, s.after_mint_cnft(mint, reply), authority, player),
        keeps_progress_record(s, s.after_burn_cnft(burn, reply), authority, player),
        keeps_progress_record(s, s.after_mint_nft(reward, reply), authority, player),
{
}

/// Players are counted apart: a request for one player leaves the progress
/// record of every other player, and of the same player under another
/// authority, as it was.
pub proof fn law_other_players_untouched(
    s: LedgerState,
    authority: Address,
    player: Address,
    set_up: InitializeAccounts,
    mint: PlayerAccounts,
    burn: PlayerAccounts,
    reward: RewardAccounts,
    reply: ServiceReply,
)
    requires
        mint.authority != authority || mint.player != player,
        burn.authority != authority || burn.player != player,
        reward.authority != authority || reward.player != player,
    ensures
        s.after_initialize(set_up, reply).progress(authority, player) == s.progress(authority, player),
        s.after_mint_cnft(mint, reply).progress(authority, player) == s.progress(authority, player),
        s.after_burn_cnft(burn, reply).progress(authority, player) == s.progress(authority, player),
        s.after_mint_nft(reward, reply).progress(authority, player) == s.progress(authority, player),
{
}

/// A slot that holds a collection or an asset keeps holding it through every request.
pub proof fn law_slots_stay_occupied(
    s: LedgerState,
    slot: Address,
    set_up: InitializeAccounts,
    mint: PlayerAccounts,
    burn: PlayerAccounts,
    reward: RewardAccounts,
    reply: ServiceReply,
)
    requires
        s.occupied.contains(slot),
    ensures
        s.after_initialize(set_up, reply).occupied.contains(slot),
        s.after_mint_cnft(mint, reply).occupied.contains(slot),
        s.after_burn_cnft(burn, reply).occupied.contains(slot),
        s.after_mint_nft(reward, reply).occupied.contains(slot),
{
}

/// Before set-up for an authority, a mint and a burn of a compressed asset
/// under it both fail with `CollectionNotInitialized` and change nothing.
pub proof fn law_nothing_before_initialize(
    s: LedgerState,
    accounts: PlayerAccounts,
    reply: ServiceReply,
)
    requires
        !s.configs.contains_key(accounts.authority),
    ensures
        s.compressed_failure(accounts, reply) == Some(
            Failure::Program(ErrorCode::CollectionNotInitialized),
        ),
        s.after_mint_cnft(accounts, reply) == s,
        s.after_burn_cnft(accounts, reply) == s,
{
}

/// Two mints of a compressed asset for a player without a record create one
/// record between them: the first writes it, with both counters at zero, and
/// adds no other; the second, whatever becomes of it, leaves the ledger as the
/// first left it.
pub proof fn law_progress_created_once(
    s: LedgerState,
    accounts: PlayerAccounts,
    first_reply: ServiceReply,
    second_reply: ServiceReply,
)
    requires
        s.progress(accounts.authority, accounts.player) is None,
        s.compressed_failure(accounts, first_reply) is None,
    ensures
        ({
            let key = LedgerState::progress_key(accounts.authority, accounts.player);
            let s1 = s.after_mint_cnft(accounts, first_reply);
            &&& s1.players.dom() == s.players.dom().insert(key)
            &&& s1.players[key].total_cnfts_burned == 0
            &&& s1.players[key].total_nfts_minted == 0
            &&& s1.players[key].player == accounts.player
            &&& s1.players[key].authority == accounts.authority
            &&& s1.after_mint_cnft(accounts, second_reply) == s1
        }),
{
    let key = LedgerState::progress_key(accounts.authority, accounts.player);
    let s1 = s.after_mint_cnft(accounts, first_reply);
    assert(s1.players.dom() =~= s.players.dom().insert(key));
    assert(!s1.lacks_progress(accounts.authority, accounts.player));
    let s2 = s1.after_mint_cnft(accounts, second_reply);
    assert(s2.players =~= s1.players);
}

/// A mint of a compressed asset moves no counter: neither the player's burns
/// and rewards nor the authority's totals.
pub proof fn law_mint_moves_no_counter(s: LedgerState, accounts: PlayerAccounts, reply: ServiceReply)
    ensures
        ({
            let next = s.after_mint_cnft(accounts, reply);
            &&& burn_count(next, accounts.authority, accounts.player) == burn_count(
                s,
                accounts.authority,
                accounts.player,
            )
            &&& reward_count(next, accounts.authority, accounts.player) == reward_count(
                s,
                accounts.authority,
                accounts.player,
            )
            &&& next.configs == s.configs
            &&& next.occupied == s.occupied
        }),
{
}

/// `n` accepted burns for a player raise the burn counter by exactly `n`,
/// past the reward threshold too, and leave the player's rewards, the
/// authority records and the slots as they were.
pub proof fn law_burns_add_up(s: LedgerState, accounts: PlayerAccounts, n: nat)
    requires
        s.has_cnft_collection(accounts.authority),
        s.lacks_progress(accounts.authority, accounts.player) ==> player_home(
            accounts.authority,
            accounts.player,
            s.program,
        ) is Some,
        burn_count(s, accounts.authority, accounts.player) + n <= u32::MAX,
    ensures
        ({
            let next = after_burns(s, accounts, n);
            &&& burn_count(next, accounts.authority, accounts.player) == burn_count(
                s,
                accounts.authority,
                accounts.player,
            ) + n
            &&& reward_count(next, accounts.authority, accounts.player) == reward_count(
                s,
                accounts.authority,
                accounts.player,
            )
            &&& n >= 1 ==> !next.lacks_progress(accounts.authority, accounts.player)
            &&& next.configs == s.configs
            &&& next.occupied == s.occupied
            &&& next.program == s.program
        }),
    decreases n,
{
    if n > 0 {
        law_burns_add_up(s, accounts, (n - 1) as nat);
        let before = after_burns(s, accounts, (n - 1) as nat);
        assert(before.compressed_failure(accounts, ServiceReply::Accepted) is None);
    }
}

/// Whenever the player's burn counter is not at the threshold, or the player
/// has no record, a reward request fails with `NotEnoughBurns` and changes nothing.
pub proof fn law_reward_needs_threshold(s: LedgerState, accounts: RewardAccounts, reply: ServiceReply)
    requires
        match s.progress(accounts.authority, accounts.player) {
            Some(p) => p.total_cnfts_burned != REWARD_THRESHOLD,
            None => true,
        },
    ensures
        s.reward_failure(accounts, reply) == Some(Failure::Program(ErrorCode::NotEnoughBurns)),
        s.after_mint_nft(accounts, reply) == s,
{
}

/// With the collection of reward assets in place, the asset slot free and the
/// services willing, a reward request succeeds exactly when the player's burn
/// counter is at the threshold. When it succeeds, the burn counter is zero
/// afterwards, the player's and the authority's reward counters are one
/// higher, and the asset slot is filled.
pub proof fn law_reward_at_threshold(s: LedgerState, accounts: RewardAccounts)
    requires
        s.has_nft_collection(accounts.authority),
        !s.occupied.contains(accounts.asset),
        s.can_count_reward(accounts),
    ensures
        s.reward_failure(accounts, ServiceReply::Accepted) is None <==> (s.progress(
            accounts.authority,
            accounts.player,
        ) matches Some(p) && p.total_cnfts_burned == REWARD_THRESHOLD),
        s.reward_failure(accounts, ServiceReply::Accepted) is None ==> ({
            let key = LedgerState::progress_key(accounts.authority, accounts.player);
            let next = s.after_mint_nft(accounts, ServiceReply::Accepted);
            &&& next.players.contains_key(key)
            &&& next.players[key].total_cnfts_burned == 0
            &&& next.players[key].total_nfts_minted == s.players[key].total_nfts_minted + 1
            &&& next.configs[accounts.authority].config.total_nft_minted
                == s.configs[accounts.authority].config.total_nft_minted + 1
            &&& next.occupied.contains(accounts.asset)
        }),
{
}

/// An asset slot is used once. After a reward has filled a slot, a second
/// request for the same slot, by any player, fails and changes nothing; it
/// fails with `AssetAlreadyInitialized` whenever that player's burn counter is
/// at the threshold and the collection of reward assets exists.
pub proof fn law_asset_slot_used_once(
    s: LedgerState,
    first: RewardAccounts,
    first_reply: ServiceReply,
    second: RewardAccounts,
    second_reply: ServiceReply,
)
    requires
        s.reward_failure(first, first_reply) is None,
        second.asset == first.asset,
    ensures
        ({
            let s1 = s.after_mint_nft(first, first_reply);
            &&& s1.reward_failure(second, second_reply) is Some
            &&& s1.after_mint_nft(second, second_reply) == s1
            &&& (s1.progress(second.authority, second.player) matches Some(p)
                && p.total_cnfts_burned == REWARD_THRESHOLD && s1.has_nft_collection(
                second.authority,
            )) ==> s1.reward_failure(second, second_reply) == Some(
                Failure::Program(ErrorCode::AssetAlreadyInitialized),
            )
        }),
{
}

/// A request that fails leaves the ledger exactly as it was.
pub proof fn law_failure_changes_nothing(
    s: LedgerState,
    set_up: InitializeAccounts,
    player: PlayerAccounts,
    reward: RewardAccounts,
    reply: ServiceReply,
)
    ensures
        s.initialize_failure(set_up, reply) is Some ==> s.after_initialize(set_up, reply) == s,
        s.compressed_failure(player, reply) is Some ==> s.after_mint_cnft(player, reply) == s,
        s.compressed_failure(player, reply) is Some ==> s.after_burn_cnft(player, reply) == s,
        s.reward_failure(reward, reply) is Some ==> s.after_mint_nft(reward, reply) == s,
{
}

} // verus!
