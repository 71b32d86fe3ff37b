//! Key pairs.

use crate::ids::DEPLOYER_SEED;
use crate::outside;
use crate::pubkey::Pubkey;
use vstd::prelude::*;

verus! {

/// An Ed25519 key pair.
#[derive(Clone, Copy, Debug, PartialEq, Eq)]
pub struct Keypair {
    pub secret: [u8; 32],
    pub public: Pubkey,
}

impl Keypair {
    /// Whether the public key belongs to the secret key.
    pub open spec fn matches(self) -> bool {
        self.public@ == outside::public_key_of(self.secret@)
    }

    pub fn pubkey(&self) -> (r: Pubkey)
        ensures
            r == self.public,
    {
        self.public
    }

    /// The secret key, then the public key.
    pub fn to_bytes(&self) -> (r: Vec<u8>)
        ensures
            r@ == self.secret@ + self.public@,
    {
        let mut bytes: Vec<u8> = Vec::new();
        bytes.extend_from_slice(&self.secret);
        bytes.extend_from_slice(&self.public);
        assert(bytes@ =~= self.secret@ + self.public@);
        bytes
    }
}

/// The test deployer, whose key comes from a fixed seed.
pub fn deployer() -> (r: Keypair)
    ensures
        r.secret == DEPLOYER_SEED,
        r.matches(),
{
    let k = outside::keypair_from_seed(&DEPLOYER_SEED).unwrap();
    assert(k.secret =~= DEPLOYER_SEED);
    k
}

/// Why a key file is refused.
#[derive(Clone, Copy, Debug, PartialEq, Eq, Structural)]
pub enum KeypairError {
    /// The text is no JSON array of bytes.
    NotBytes,
    /// The bytes are no secret key with its public key.
    NotAKeypair,
}

/// Whether the bytes are a secret key and the public key that belongs to it.
pub open spec fn is_keypair(bytes: Seq<u8>) -> bool {
    &&& bytes.len() == 64
    &&& bytes.subrange(32, 64) == outside::public_key_of(bytes.subrange(0, 32))
}

/// The key pair that the bytes hold.
pub fn keypair_of_bytes(bytes: &[u8]) -> (r: Result<Keypair, KeypairError>)
    ensures
        match r {
            Ok(k) => is_keypair(bytes@) && k.matches() && k.secret@ + k.public@ == bytes@,
            Err(e) => !is_keypair(bytes@) && e == KeypairError::NotAKeypair,
        },
{
    match outside::keypair_from_bytes(bytes) {
        Some(k) => {
            assert(k.secret@ + k.public@ =~= bytes@);
            Ok(k)
        },
        None => Err(KeypairError::NotAKeypair),
    }
}

/// The key pair that a key file holds: a JSON array of the secret key's bytes
/// and the public key's.
pub fn keypair_of_json(text: &str) -> (r: Result<Keypair, KeypairError>)
    ensures
        match (outside::json_bytes(text@), r) {
            (None, r) => r == Err::<Keypair, KeypairError>(KeypairError::NotBytes),
            (Some(bytes), Ok(k)) => is_keypair(bytes) && k.matches() && k.secret@ + k.public@
                == bytes,
            (Some(bytes), Err(e)) => !is_keypair(bytes) && e == KeypairError::NotAKeypair,
        },
{
    match outside::parse_json_bytes(text) {
        Some(bytes) => keypair_of_bytes(bytes.as_slice()),
        None => Err(KeypairError::NotBytes),
    }
}

/// The bytes of a key pair hold it, and only it.
pub proof fn law_bytes_of_a_keypair_are_one(k: Keypair)
    requires
        k.matches(),
    ensures
        is_keypair(k.secret@ + k.public@),
        forall|other: Keypair| #[trigger]
            (other.secret@ + other.public@) == k.secret@ + k.public@ ==> other == k,
{
    let bytes = k.secret@ + k.public@;
    assert(bytes.subrange(0, 32) =~= k.secret@);
    assert(bytes.subrange(32, 64) =~= k.public@);
    assert forall|other: Keypair| #[trigger]
        (other.secret@ + other.public@) == bytes implies other == k by {
        let joined = other.secret@ + other.public@;
        assert(joined.subrange(0, 32) =~= other.secret@);
        assert(joined.subrange(32, 64) =~= other.public@);
        assert(other.secret =~= k.secret);
        assert(other.public =~= k.public);
    }
}

} // verus!
