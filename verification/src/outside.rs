//! Calls into other crates. What is stated here is taken on trust.

use crate::instruction::{AccountMeta, Instruction};
use crate::keys::Keypair;
use crate::pubkey::Pubkey;
use base64::Engine;
use sha2::Digest;
use solana_sdk::signer::Signer;
use vstd::prelude::*;

verus! {

/// The SHA-256 digest of `data`.
pub uninterp spec fn sha256_of(data: Seq<u8>) -> Seq<u8>;

/// Calls `sha2::Sha256`: hashes `data` in one update. The result is the digest of
/// `data` and of nothing else.
#[verifier::external_body]
pub(crate) fn sha256(data: &[u8]) -> (r: [u8; 32])
    ensures
        r@ == sha256_of(data@),
{
    let mut h = sha2::Sha256::new();
    h.update(data);
    h.finalize().into()
}

/// The program derived address of one seed and its bump, where there is one.
pub uninterp spec fn derived_address(seed: Seq<u8>, program_id: Seq<u8>) -> Option<(Seq<u8>, u8)>;

/// Calls `Pubkey::try_find_program_address` with one seed. It answers `None` where
/// no bump gives an address off the curve, or where the seed is too long. The
/// result depends on the seed and the program alone.
#[verifier::external_body]
pub(crate) fn find_program_address(seed: &[u8], program_id: &Pubkey) -> (r: Option<(Pubkey, u8)>)
    ensures
        match r {
            Some(found) => derived_address(seed@, program_id@) == Some((found.0@, found.1)),
            None => derived_address(seed@, program_id@) is None,
        },
{
    let id = solana_sdk::pubkey::Pubkey::new_from_array(*program_id);
    match solana_sdk::pubkey::Pubkey::try_find_program_address(&[seed], &id) {
        Some((address, bump)) => Some((address.to_bytes(), bump)),
        None => None,
    }
}

/// The Ed25519 public key that belongs to a secret key.
pub uninterp spec fn public_key_of(secret: Seq<u8>) -> Seq<u8>;

/// Calls `solana_sdk::signer::keypair::keypair_from_seed`. It takes the first 32
/// bytes of the seed for the secret key, and refuses a shorter seed.
#[verifier::external_body]
pub(crate) fn keypair_from_seed(seed: &[u8]) -> (r: Option<Keypair>)
    ensures
        r is Some <==> seed@.len() >= 32,
        r matches Some(k) ==> {
            &&& k.secret@ == seed@.subrange(0, 32)
            &&& k.public@ == public_key_of(k.secret@)
        },
{
    match solana_sdk::signer::keypair::keypair_from_seed(seed) {
        Ok(k) => Some(Keypair { secret: *k.secret_bytes(), public: k.pubkey().to_bytes() }),
        Err(_) => None,
    }
}

/// Calls `Keypair::try_from` on bytes. It accepts 64 bytes, a secret key and the
/// public key that belongs to it, and nothing else.
#[verifier::external_body]
pub(crate) fn keypair_from_bytes(bytes: &[u8]) -> (r: Option<Keypair>)
    ensures
        r is Some <==> {
            &&& bytes@.len() == 64
            &&& bytes@.subrange(32, 64) == public_key_of(bytes@.subrange(0, 32))
        },
        r matches Some(k) ==> {
            &&& k.secret@ == bytes@.subrange(0, 32)
            &&& k.public@ == bytes@.subrange(32, 64)
        },
{
    match solana_sdk::signature::Keypair::try_from(bytes) {
        Ok(k) => Some(Keypair { secret: *k.secret_bytes(), public: k.pubkey().to_bytes() }),
        Err(_) => None,
    }
}

/// The bytes that a JSON text holds as an array of numbers, where it is one.
pub uninterp spec fn json_bytes(text: Seq<char>) -> Option<Seq<u8>>;

/// Calls `serde_json::from_str` for a `Vec<u8>`. The result depends on the text
/// alone.
#[verifier::external_body]
pub(crate) fn parse_json_bytes(text: &str) -> (r: Option<Vec<u8>>)
    ensures
        match r {
            Some(bytes) => json_bytes(text@) == Some(bytes@),
            None => json_bytes(text@) is None,
        },
{
    match serde_json::from_str::<Vec<u8>>(text) {
        Ok(bytes) => Some(bytes),
        Err(_) => None,
    }
}

/// The bytes that a text holds in standard, padded base64, where it holds any.
pub uninterp spec fn base64_bytes(text: Seq<char>) -> Option<Seq<u8>>;

/// Calls `decode` of `base64::engine::general_purpose::STANDARD`. The result
/// depends on the text alone.
#[verifier::external_body]
pub(crate) fn base64_decode(text: &str) -> (r: Option<Vec<u8>>)
    ensures
        match r {
            Some(bytes) => base64_bytes(text@) == Some(bytes@),
            None => base64_bytes(text@) is None,
        },
{
    match base64::engine::general_purpose::STANDARD.decode(text) {
        Ok(bytes) => Some(bytes),
        Err(_) => None,
    }
}

/// Calls `solana_system_interface::instruction::create_account`. Both accounts
/// sign and are written to. The data is the tag zero in four bytes, the lamports
/// and the space in eight bytes each, all in little endian, and the owner.
#[verifier::external_body]
pub(crate) fn create_account(
    payer: &Pubkey,
    account: &Pubkey,
    lamports: u64,
    space: u64,
    owner: &Pubkey,
) -> (r: Instruction)
    ensures
        r.program_id == crate::ids::SYSTEM_PROGRAM_ID,
        r.accounts@ == seq![
            AccountMeta { pubkey: *payer, is_signer: true, is_writable: true },
            AccountMeta { pubkey: *account, is_signer: true, is_writable: true },
        ],
        r.data@ == vstd::bytes::spec_u32_to_le_bytes(0) + vstd::bytes::spec_u64_to_le_bytes(
            lamports,
        ) + vstd::bytes::spec_u64_to_le_bytes(space) + owner@,
{
    let (p, a, o) = ((*payer).into(), (*account).into(), (*owner).into());
    let ix = solana_system_interface::instruction::create_account(&p, &a, lamports, space, &o);
    let mut accounts: Vec<AccountMeta> = Vec::new();
    for m in ix.accounts {
        let (pubkey, is_signer, is_writable) = (m.pubkey.to_bytes(), m.is_signer, m.is_writable);
        accounts.push(AccountMeta { pubkey, is_signer, is_writable });
    }
    Instruction { program_id: ix.program_id.to_bytes(), accounts, data: ix.data }
}

} // verus!
