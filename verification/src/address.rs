//! The accounts of the market, at addresses that the program derives.

use crate::ids::{PROGRAM_ID, UPGRADEABLE_LOADER_ID};
use crate::outside;
use crate::pubkey::Pubkey;
use vstd::prelude::*;

verus! {

/// The letters `state`.
pub const STATE_SEED: [u8; 5] = [115, 116, 97, 116, 101];

/// The letters `mint`.
pub const MINT_SEED: [u8; 4] = [109, 105, 110, 116];

/// The letters `vault`.
pub const VAULT_SEED: [u8; 5] = [118, 97, 117, 108, 116];

/// The address that the program derives from `seed`, and its bump, where there
/// is one.
pub open spec fn derived(seed: Seq<u8>) -> Option<(Seq<u8>, u8)> {
    outside::derived_address(seed, PROGRAM_ID@)
}

/// The address that the program derives from `seed`, and its bump.
pub fn pda(seed: &[u8]) -> (r: (Pubkey, u8))
    requires
        derived(seed@) is Some,
    ensures
        derived(seed@) == Some((r.0@, r.1)),
{
    outside::find_program_address(seed, &PROGRAM_ID).unwrap()
}

/// As `pda`, where the seed gives an address.
pub fn try_pda(seed: &[u8]) -> (r: Option<(Pubkey, u8)>)
    ensures
        match r {
            Some(found) => derived(seed@) == Some((found.0@, found.1)),
            None => derived(seed@) is None,
        },
{
    match outside::find_program_address(seed, &PROGRAM_ID) {
        Some(_) => Some(pda(seed)),
        None => None,
    }
}

/// Address of the state.
pub fn state_pda() -> (r: Pubkey)
    requires
        derived(STATE_SEED@) is Some,
    ensures
        r@ == (derived(STATE_SEED@)->0).0,
{
    pda(&STATE_SEED).0
}

/// Address of the mint.
pub fn mint_pda() -> (r: Pubkey)
    requires
        derived(MINT_SEED@) is Some,
    ensures
        r@ == (derived(MINT_SEED@)->0).0,
{
    pda(&MINT_SEED).0
}

/// Address of the vault.
pub fn vault_pda() -> (r: Pubkey)
    requires
        derived(VAULT_SEED@) is Some,
    ensures
        r@ == (derived(VAULT_SEED@)->0).0,
{
    pda(&VAULT_SEED).0
}

/// The accounts of the market.
#[derive(Clone, Copy, Debug, PartialEq, Eq)]
pub struct MarketAddresses {
    pub state: Pubkey,
    pub mint: Pubkey,
    pub vault: Pubkey,
}

/// Whether the three seeds give addresses.
pub open spec fn market_exists() -> bool {
    &&& derived(STATE_SEED@) is Some
    &&& derived(MINT_SEED@) is Some
    &&& derived(VAULT_SEED@) is Some
}

impl MarketAddresses {
    /// Whether these are the accounts that the program derives.
    pub open spec fn is_derived(self) -> bool {
        &&& market_exists()
        &&& self.state@ == (derived(STATE_SEED@)->0).0
        &&& self.mint@ == (derived(MINT_SEED@)->0).0
        &&& self.vault@ == (derived(VAULT_SEED@)->0).0
    }
}

/// The accounts of the market, where the three seeds give addresses.
pub fn market_addresses() -> (r: Option<MarketAddresses>)
    ensures
        r is Some <==> market_exists(),
        r matches Some(m) ==> m.is_derived(),
{
    match (try_pda(&STATE_SEED), try_pda(&MINT_SEED), try_pda(&VAULT_SEED)) {
        (Some(_), Some(_), Some(_)) => Some(
            MarketAddresses { state: state_pda(), mint: mint_pda(), vault: vault_pda() },
        ),
        _ => None,
    }
}

/// Address of the account that holds the program's code and its upgrade
/// authority, where there is one.
pub fn program_data_address() -> (r: Option<Pubkey>)
    ensures
        match r {
            Some(key) => {
                &&& outside::derived_address(PROGRAM_ID@, UPGRADEABLE_LOADER_ID@) is Some
                &&& key@ == (outside::derived_address(PROGRAM_ID@, UPGRADEABLE_LOADER_ID@)->0).0
            },
            None => outside::derived_address(PROGRAM_ID@, UPGRADEABLE_LOADER_ID@) is None,
        },
{
    match outside::find_program_address(&PROGRAM_ID, &UPGRADEABLE_LOADER_ID) {
        Some((key, _)) => Some(key),
        None => None,
    }
}

} // verus!
