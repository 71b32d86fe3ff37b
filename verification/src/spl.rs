//! Accounts of the SPL Token program: the bytes that hold a token account, and
//! the numbers read back from them.

use crate::pubkey::Pubkey;
use vstd::bytes::{u32_to_le_bytes, u64_from_le_bytes, u64_to_le_bytes};
use vstd::prelude::*;
use vstd::slice::slice_subrange;

verus! {

/// Length of a token account.
pub fn spl_token_account_len() -> (r: usize)
    ensures
        r == 165,
{
    165
}

/// A token account.
#[derive(Clone, Copy, Debug, PartialEq, Eq)]
pub struct SplTokenAccount {
    pub mint: Pubkey,
    pub owner: Pubkey,
    pub amount: u64,
    pub delegate: Option<Pubkey>,
    pub state: u8,
    pub is_native: Option<u64>,
    pub delegated_amount: u64,
    pub close_authority: Option<Pubkey>,
}

/// An optional field: a tag of four bytes, then the value. Without a value the
/// bytes after the tag stay as `before` has them.
pub open spec fn optional_field(value: Option<Seq<u8>>, before: Seq<u8>) -> Seq<u8> {
    match value {
        Some(bytes) => vstd::bytes::spec_u32_to_le_bytes(1) + bytes,
        None => vstd::bytes::spec_u32_to_le_bytes(0) + before.subrange(4, before.len() as int),
    }
}

/// The bytes of an optional address.
pub open spec fn key_bytes(key: Option<Pubkey>) -> Option<Seq<u8>> {
    match key {
        Some(k) => Some(k@),
        None => None,
    }
}

/// The bytes of an optional number.
pub open spec fn number_bytes(number: Option<u64>) -> Option<Seq<u8>> {
    match number {
        Some(x) => Some(vstd::bytes::spec_u64_to_le_bytes(x)),
        None => None,
    }
}

impl SplTokenAccount {
    /// The bytes of the account, written over `before`: the fields in order,
    /// numbers in little endian.
    pub open spec fn packed(self, before: Seq<u8>) -> Seq<u8> {
        self.mint@ + self.owner@ + vstd::bytes::spec_u64_to_le_bytes(self.amount) + optional_field(
            key_bytes(self.delegate),
            before.subrange(72, 108),
        ) + seq![self.state] + optional_field(
            number_bytes(self.is_native),
            before.subrange(109, 121),
        ) + vstd::bytes::spec_u64_to_le_bytes(self.delegated_amount) + optional_field(
            key_bytes(self.close_authority),
            before.subrange(129, 165),
        ) + before.subrange(165, before.len() as int)
    }

    /// Writes the account at the start of `dst`.
    pub fn pack_into_slice(&self, dst: &mut [u8])
        requires
            old(dst)@.len() >= 165,
        ensures
            final(dst)@ == self.packed(old(dst)@),
    {
        let ghost before = dst@;
        let ghost mut done: Seq<u8> = seq![];
        let amount = u64_to_le_bytes(self.amount);
        let delegated_amount = u64_to_le_bytes(self.delegated_amount);
        let no_value = u32_to_le_bytes(0);
        proof {
            vstd::bytes::lemma_auto_spec_u32_to_from_le_bytes();
            assert(before =~= done + before.subrange(0, before.len() as int));
        }
        write_bytes(dst, 0, &self.mint);
        proof {
            lemma_extended(done, before, self.mint@);
            done = self.mint@;
            assert(seq![] + self.mint@ =~= done);
        }
        write_bytes(dst, 32, &self.owner);
        proof {
            lemma_extended(done, before, self.owner@);
            done = done + self.owner@;
        }
        write_bytes(dst, 64, amount.as_slice());
        proof {
            lemma_extended(done, before, amount@);
            done = done + amount@;
        }
        match &self.delegate {
            Some(d) => {
                write_value(dst, 72, d);
                proof {
                    lemma_extended(done, before, vstd::bytes::spec_u32_to_le_bytes(1) + d@);
                }
            },
            None => {
                write_bytes(dst, 72, no_value.as_slice());
                proof {
                    lemma_extended(done, before, no_value@);
                    lemma_left_alone(done, before, no_value@, 36);
                }
            },
        }
        proof {
            done = done + optional_field(key_bytes(self.delegate), before.subrange(72, 108));
        }
        let state: [u8; 1] = [self.state];
        write_bytes(dst, 108, &state);
        proof {
            assert(state@ =~= seq![self.state]);
            lemma_extended(done, before, seq![self.state]);
            done = done + seq![self.state];
        }
        match self.is_native {
            Some(v) => {
                let value = u64_to_le_bytes(v);
                write_value(dst, 109, value.as_slice());
                proof {
                    lemma_extended(done, before, vstd::bytes::spec_u32_to_le_bytes(1) + value@);
                }
            },
            None => {
                write_bytes(dst, 109, no_value.as_slice());
                proof {
                    lemma_extended(done, before, no_value@);
                    lemma_left_alone(done, before, no_value@, 12);
                }
            },
        }
        proof {
            done = done + optional_field(number_bytes(self.is_native), before.subrange(109, 121));
        }
        write_bytes(dst, 121, delegated_amount.as_slice());
        proof {
            lemma_extended(done, before, delegated_amount@);
            done = done + delegated_amount@;
        }
        match &self.close_authority {
            Some(c) => {
                write_value(dst, 129, c);
                proof {
                    lemma_extended(done, before, vstd::bytes::spec_u32_to_le_bytes(1) + c@);
                }
            },
            None => {
                write_bytes(dst, 129, no_value.as_slice());
                proof {
                    lemma_extended(done, before, no_value@);
                    lemma_left_alone(done, before, no_value@, 36);
                }
            },
        }
    }
}

/// `s` with `part` written over it from `at` on.
spec fn overwritten(s: Seq<u8>, at: int, part: Seq<u8>) -> Seq<u8> {
    s.subrange(0, at) + part + s.subrange(at + part.len(), s.len() as int)
}

/// What is written right behind `done` extends it.
proof fn lemma_extended(done: Seq<u8>, before: Seq<u8>, part: Seq<u8>)
    requires
        done.len() + part.len() <= before.len(),
    ensures
        overwritten(
            done + before.subrange(done.len() as int, before.len() as int),
            done.len() as int,
            part,
        ) == (done + part) + before.subrange((done + part).len() as int, before.len() as int),
{
    let s = done + before.subrange(done.len() as int, before.len() as int);
    assert(s.subrange(0, done.len() as int) =~= done);
    assert(s.subrange((done.len() + part.len()) as int, s.len() as int) =~= before.subrange(
        (done + part).len() as int,
        before.len() as int,
    ));
}

/// An optional field without a value keeps the bytes behind its tag.
proof fn lemma_left_alone(done: Seq<u8>, before: Seq<u8>, tag: Seq<u8>, width: int)
    requires
        tag.len() == 4 <= width,
        done.len() + width <= before.len(),
    ensures
        ({
            let at = done.len() as int;
            (done + tag) + before.subrange((done + tag).len() as int, before.len() as int) == (done
                + (tag + before.subrange(at, at + width).subrange(4, width))) + before.subrange(
                at + width,
                before.len() as int,
            )
        }),
{
    let at = done.len() as int;
    assert((done + tag) + before.subrange((done + tag).len() as int, before.len() as int) =~= (done
        + (tag + before.subrange(at, at + width).subrange(4, width))) + before.subrange(
        at + width,
        before.len() as int,
    ));
}

/// Writes `src` into `dst` from `at` on.
fn write_bytes(dst: &mut [u8], at: usize, src: &[u8])
    requires
        at + src@.len() <= old(dst)@.len(),
    ensures
        final(dst)@ == overwritten(old(dst)@, at as int, src@),
{
    let n = src.len();
    let total = dst.len();
    let ghost before = dst@;
    let mut i: usize = 0;
    while i < n
        invariant
            i <= n == src@.len(),
            at + n <= total == before.len(),
            dst@ == overwritten(before, at as int, src@.subrange(0, i as int)),
        decreases n - i,
    {
        dst[at + i] = src[i];
        i += 1;
        assert(dst@ =~= overwritten(before, at as int, src@.subrange(0, i as int)));
    }
    assert(src@.subrange(0, n as int) =~= src@);
}

/// Writes an optional field that holds `value`.
fn write_value(dst: &mut [u8], at: usize, value: &[u8])
    requires
        at + 4 + value@.len() <= old(dst)@.len(),
    ensures
        final(dst)@ == overwritten(
            old(dst)@,
            at as int,
            vstd::bytes::spec_u32_to_le_bytes(1) + value@,
        ),
{
    let tag = u32_to_le_bytes(1);
    assert(dst@.len() == dst.len());
    write_bytes(dst, at, tag.as_slice());
    write_bytes(dst, at + 4, value);
    assert(dst@ =~= overwritten(old(dst)@, at as int, tag@ + value@));
}

/// The supply that a mint account holds.
pub fn mint_supply(data: &[u8]) -> (r: u64)
    requires
        data@.len() >= 44,
    ensures
        r == vstd::bytes::spec_u64_from_le_bytes(data@.subrange(36, 44)),
{
    u64_from_le_bytes(slice_subrange(data, 36, 44))
}

/// The balance that a token account holds.
pub fn token_balance(data: &[u8]) -> (r: u64)
    requires
        data@.len() >= 72,
    ensures
        r == vstd::bytes::spec_u64_from_le_bytes(data@.subrange(64, 72)),
{
    u64_from_le_bytes(slice_subrange(data, 64, 72))
}

/// The bytes of a fresh, empty token account of `owner`.
pub fn empty_token_account(mint: &Pubkey, owner: &Pubkey) -> (r: Vec<u8>)
    ensures
        r@ == (SplTokenAccount {
            mint: *mint,
            owner: *owner,
            amount: 0,
            delegate: None,
            state: 1,
            is_native: None,
            delegated_amount: 0,
            close_authority: None,
        }).packed(Seq::new(165, |i: int| 0u8)),
{
    let len = spl_token_account_len();
    let mut data: Vec<u8> = Vec::new();
    let mut i: usize = 0;
    while i < len
        invariant
            i <= len == 165,
            data@ =~= Seq::new(i as nat, |j: int| 0u8),
        decreases len - i,
    {
        data.push(0);
        i += 1;
    }
    let account = SplTokenAccount {
        mint: *mint,
        owner: *owner,
        amount: 0,
        delegate: None,
        state: 1,
        is_native: None,
        delegated_amount: 0,
        close_authority: None,
    };
    account.pack_into_slice(data.as_mut_slice());
    data
}

/// A balance that was packed is read back.
pub proof fn law_packed_balance_is_read_back(account: SplTokenAccount, before: Seq<u8>)
    requires
        before.len() >= 165,
    ensures
        account.packed(before).len() == before.len(),
        vstd::bytes::spec_u64_from_le_bytes(account.packed(before).subrange(64, 72))
            == account.amount,
{
    vstd::bytes::lemma_auto_spec_u64_to_from_le_bytes();
    vstd::bytes::lemma_auto_spec_u32_to_from_le_bytes();
    assert(account.packed(before).subrange(64, 72) =~= vstd::bytes::spec_u64_to_le_bytes(
        account.amount,
    ));
}

} // verus!
