//! Derived authority: the address and nonce that stand for a record, and the
//! seeds with which the program signs its calls to the services.

use crate::address::Address;
use vstd::prelude::*;

verus! {

/// The bytes of the text `config`, the salt of an authority record.
pub open spec fn config_salt() -> Seq<u8> {
    seq![99u8, 111u8, 110u8, 102u8, 105u8, 103u8]
}

/// The bytes of the text `player`, the salt of a progress record.
pub open spec fn player_salt() -> Seq<u8> {
    seq![112u8, 108u8, 97u8, 121u8, 101u8, 114u8]
}

/// The seeds of the authority record of `owner`.
pub open spec fn config_seeds(owner: Address) -> Seq<Seq<u8>> {
    seq![config_salt(), owner@]
}

/// The seeds of the progress record of `player` under `authority`.
pub open spec fn player_seeds(authority: Address, player: Address) -> Seq<Seq<u8>> {
    seq![player_salt(), authority@, player@]
}

/// The byte strings that a list of seeds holds.
pub open spec fn seed_bytes(seeds: Seq<Vec<u8>>) -> Seq<Seq<u8>> {
    seeds.map_values(|seed: Vec<u8>| seed@)
}

/// The address that has the given 32 bytes.
pub open spec fn address_of(bytes: Seq<u8>) -> Address {
    choose|a: Address| a@ == bytes
}

/// A derivation's result as address and nonce. A nonce is never zero, so a
/// zero nonce counts as nothing found.
pub open spec fn home(found: Option<(Seq<u8>, u8)>) -> Option<(Address, u8)> {
    match found {
        Some(pair) => if pair.1 >= 1 {
            Some((address_of(pair.0), pair.1))
        } else {
            None
        },
        None => None,
    }
}

/// Address and nonce of the authority record of `owner`, where the derivation
/// finds them.
pub open spec fn config_home(owner: Address, program: Address) -> Option<(Address, u8)> {
    home(derived_address(config_seeds(owner), program@))
}

/// Address and nonce of the progress record of `player` under `authority`.
pub open spec fn player_home(authority: Address, player: Address, program: Address) -> Option<
    (Address, u8),
> {
    home(derived_address(player_seeds(authority, player), program@))
}

proof fn lemma_address_of(a: Address)
    ensures
        address_of(a@) == a,
{
    let c = address_of(a@);
    assert(c@ == a@);
    assert(c.bytes =~= a.bytes);
}

/// What the program signs with in place of a secret key: the seeds of the
/// authority record of `owner`, which are the salt `config`, the owner's 32
/// bytes and the nonce.
#[derive(Clone, Copy, Debug, PartialEq, Eq)]
pub struct SignerSeeds {
    pub owner: Address,
    pub bump: u8,
}

impl SignerSeeds {
    /// The three seeds in the order in which the ledger hashes them.
    pub open spec fn seeds(self) -> Seq<Seq<u8>> {
        seq![config_salt(), self.owner@, seq![self.bump]]
    }

    pub fn to_seeds(&self) -> (r: Vec<Vec<u8>>)
        ensures
            seed_bytes(r@) == self.seeds(),
    {
        let mut out: Vec<Vec<u8>> = Vec::new();
        out.push(config_salt_bytes());
        out.push(self.owner.to_vec());
        let mut nonce: Vec<u8> = Vec::new();
        nonce.push(self.bump);
        proof {
            assert(nonce@ =~= seq![self.bump]);
        }
        out.push(nonce);
        proof {
            assert(seed_bytes(out@) =~= self.seeds());
        }
        out
    }
}

fn config_salt_bytes() -> (r: Vec<u8>)
    ensures
        r@ == config_salt(),
{
    let r: Vec<u8> = vec![99u8, 111u8, 110u8, 102u8, 105u8, 103u8];
    proof {
        assert(r@ =~= config_salt());
    }
    r
}

fn player_salt_bytes() -> (r: Vec<u8>)
    ensures
        r@ == player_salt(),
{
    let r: Vec<u8> = vec![112u8, 108u8, 97u8, 121u8, 101u8, 114u8];
    proof {
        assert(r@ =~= player_salt());
    }
    r
}

/// Derives the address and nonce of the authority record of `owner`.
/// `None` where no nonce gives a valid derived address.
pub fn find_config_address(owner: &Address, program: &Address) -> (r: Option<(Address, u8)>)
    ensures
        r == config_home(*owner, *program),
        r matches Some(found) ==> found.1 >= 1,
{
    let mut seeds: Vec<Vec<u8>> = Vec::new();
    seeds.push(config_salt_bytes());
    seeds.push(owner.to_vec());
    proof {
        assert(seed_bytes(seeds@) =~= config_seeds(*owner));
    }
    let r = try_find_program_address(&seeds, program);
    proof {
        if let Some(found) = r {
            lemma_address_of(found.0);
        }
    }
    r
}

/// Derives the address and nonce of the progress record of `player` under
/// `authority`. `None` where no nonce gives a valid derived address.
pub fn find_player_address(authority: &Address, player: &Address, program: &Address) -> (r: Option<
    (Address, u8),
>)
    ensures
        r == player_home(*authority, *player, *program),
        r matches Some(found) ==> found.1 >= 1,
{
    let mut seeds: Vec<Vec<u8>> = Vec::new();
    seeds.push(player_salt_bytes());
    seeds.push(authority.to_vec());
    seeds.push(player.to_vec());
    proof {
        assert(seed_bytes(seeds@) =~= player_seeds(*authority, *player));
    }
    let r = try_find_program_address(&seeds, program);
    proof {
        if let Some(found) = r {
            lemma_address_of(found.0);
        }
    }
    r
}

/// The address and nonce that the ledger's derivation gives for a list of seeds
/// under a program, or `None` where no nonce yields a valid derived address.
pub uninterp spec fn derived_address(seeds: Seq<Seq<u8>>, program: Seq<u8>) -> Option<(Seq<u8>, u8)>;

/// The base-58 text of an address.
pub uninterp spec fn base58_text(bytes: Seq<u8>) -> Seq<char>;

/// Calls `Pubkey::try_find_program_address` of anchor_lang, which hashes the
/// seeds, one nonce byte and the program address, and tries the nonces from 255
/// down to 1 until the hash is no point of the curve. Believed, not proved: the
/// result depends on the seeds and the program address alone; it is `None`
/// where no nonce serves; and a nonce that is found is never zero.
#[verifier::external_body]
fn try_find_program_address(seeds: &Vec<Vec<u8>>, program: &Address) -> (r: Option<(Address, u8)>)
    ensures
        match r {
            Some(found) => derived_address(seed_bytes(seeds@), program@) == Some((found.0@, found.1))
                && found.1 >= 1,
            None => derived_address(seed_bytes(seeds@), program@) is None,
        },
{
    let parts: Vec<&[u8]> = seeds.iter().map(|s| s.as_slice()).collect();
    let program_id = anchor_lang::prelude::Pubkey::new_from_array(program.bytes);
    match anchor_lang::prelude::Pubkey::try_find_program_address(&parts, &program_id) {
        Some((key, bump)) => Some((Address { bytes: key.to_bytes() }, bump)),
        None => None,
    }
}

/// Calls `to_string` on anchor_lang's `Pubkey`, which writes the 32 bytes in
/// base 58. Believed, not proved: the text depends on the 32 bytes alone.
#[verifier::external_body]
pub(crate) fn to_base58(address: &Address) -> (r: String)
    ensures
        r@ == base58_text(address@),
{
    anchor_lang::prelude::Pubkey::new_from_array(address.bytes).to_string()
}

} // verus!
