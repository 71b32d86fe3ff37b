//! What a client builds and reads.

use crate::address;
use crate::address::MarketAddresses;
use crate::ids::{PROGRAM_ID, RENT_SYSVAR, SYSTEM_PROGRAM_ID, TOKEN_PROGRAM_ID};
use crate::instruction;
use crate::instruction::{AccountMeta, Instruction, Request};
use crate::keys;
use crate::keys::{Keypair, KeypairError};
use crate::logs;
use crate::logs::TradeFields;
use crate::outside;
use crate::pubkey::Pubkey;
use crate::spl;
use crate::spl::SplTokenAccount;
use vstd::bytes;
use vstd::prelude::*;

verus! {

// ---------------------------------------------------------------------------
// Addresses
// ---------------------------------------------------------------------------

/// An address is the one that the program derives from the seed.
pub proof fn law_pda(seed: &[u8], found: (Pubkey, u8))
    requires
        call_ensures(address::pda, (seed,), found),
    ensures
        outside::derived_address(seed@, PROGRAM_ID@) == Some((found.0@, found.1)),
{
}

/// An address is given exactly where the program derives one from the seed.
pub proof fn law_try_pda(seed: &[u8], r: Option<(Pubkey, u8)>)
    requires
        call_ensures(address::try_pda, (seed,), r),
    ensures
        r is Some <==> outside::derived_address(seed@, PROGRAM_ID@) is Some,
        r matches Some(found) ==> outside::derived_address(seed@, PROGRAM_ID@) == Some(
            (found.0@, found.1),
        ),
{
}

/// The three accounts of the market are derived from the letters of their names,
/// and are given exactly where all three are derived.
pub proof fn law_market_addresses(r: Option<MarketAddresses>)
    requires
        call_ensures(address::market_addresses, (), r),
    ensures
        ({
            let state = outside::derived_address(seq![115u8, 116, 97, 116, 101], PROGRAM_ID@);
            let mint = outside::derived_address(seq![109u8, 105, 110, 116], PROGRAM_ID@);
            let vault = outside::derived_address(seq![118u8, 97, 117, 108, 116], PROGRAM_ID@);
            &&& r is Some <==> state is Some && mint is Some && vault is Some
            &&& r matches Some(m) ==> {
                &&& m.state@ == (state->0).0
                &&& m.mint@ == (mint->0).0
                &&& m.vault@ == (vault->0).0
            }
        }),
{
    lemma_seeds();
}

proof fn lemma_seeds()
    ensures
        address::STATE_SEED@ == seq![115u8, 116, 97, 116, 101],
        address::MINT_SEED@ == seq![109u8, 105, 110, 116],
        address::VAULT_SEED@ == seq![118u8, 97, 117, 108, 116],
{
    assert(address::STATE_SEED@ =~= seq![115u8, 116, 97, 116, 101]);
    assert(address::MINT_SEED@ =~= seq![109u8, 105, 110, 116]);
    assert(address::VAULT_SEED@ =~= seq![118u8, 97, 117, 108, 116]);
}

// ---------------------------------------------------------------------------
// Instructions
// ---------------------------------------------------------------------------

/// A discriminator is the first eight bytes of the digest.
pub proof fn law_discriminator_of_digest(digest: [u8; 32], r: [u8; 8])
    requires
        call_ensures(instruction::discriminator_of_digest, (&digest,), r),
    ensures
        forall|i: int| 0 <= i < 8 ==> #[trigger] r@[i] == digest@[i],
{
}

/// The discriminator of an instruction is the start of the digest of `global:`
/// and its name.
pub proof fn law_ix_discriminator(name: &str, r: [u8; 8])
    requires
        call_ensures(instruction::ix_discriminator, (name,), r),
    ensures
        r@ == outside::sha256_of(vstd::utf8::encode_utf8("global:"@ + name@)).subrange(0, 8),
{
}

/// An account of an instruction is written to or only read, as it was asked.
pub proof fn law_account_meta(pubkey: Pubkey, is_signer: bool, w: AccountMeta, r: AccountMeta)
    requires
        call_ensures(AccountMeta::new, (pubkey, is_signer), w),
        call_ensures(AccountMeta::new_readonly, (pubkey, is_signer), r),
    ensures
        w.pubkey == pubkey && w.is_signer == is_signer && w.is_writable,
        r.pubkey == pubkey && r.is_signer == is_signer && !r.is_writable,
{
}

/// An `initialize` names its eight accounts in this order. The treasury and the
/// payer sign; the market's accounts and the payer are written to.
pub proof fn law_initialize_instruction(
    market: MarketAddresses,
    tag: [u8; 8],
    payer: Pubkey,
    treasury: Pubkey,
    ix: Instruction,
)
    requires
        call_ensures(
            instruction::initialize_instruction,
            (&market, &tag, &payer, &treasury),
            ix,
        ),
    ensures
        ix.program_id == PROGRAM_ID,
        ix.data@ == tag@,
        ix.accounts@ == seq![
            AccountMeta { pubkey: market.state, is_signer: false, is_writable: true },
            AccountMeta { pubkey: market.mint, is_signer: false, is_writable: true },
            AccountMeta { pubkey: market.vault, is_signer: false, is_writable: true },
            AccountMeta { pubkey: treasury, is_signer: true, is_writable: false },
            AccountMeta { pubkey: payer, is_signer: true, is_writable: true },
            AccountMeta { pubkey: SYSTEM_PROGRAM_ID, is_signer: false, is_writable: false },
            AccountMeta { pubkey: TOKEN_PROGRAM_ID, is_signer: false, is_writable: false },
            AccountMeta { pubkey: RENT_SYSVAR, is_signer: false, is_writable: false },
        ],
{
}

/// A trade names its eight accounts in this order, and its data are the tag and
/// the two numbers. The user alone signs.
pub proof fn law_trade_instruction(
    market: MarketAddresses,
    tag: [u8; 8],
    a: u64,
    b: u64,
    treasury: Pubkey,
    user: Pubkey,
    user_token: Pubkey,
    ix: Instruction,
)
    requires
        call_ensures(
            instruction::trade_instruction,
            (&market, &tag, a, b, &treasury, &user, &user_token),
            ix,
        ),
    ensures
        ix.program_id == PROGRAM_ID,
        ix.data@ == tag@ + bytes::spec_u64_to_le_bytes(a) + bytes::spec_u64_to_le_bytes(b),
        ix.accounts@ == seq![
            AccountMeta { pubkey: market.state, is_signer: false, is_writable: false },
            AccountMeta { pubkey: market.mint, is_signer: false, is_writable: true },
            AccountMeta { pubkey: market.vault, is_signer: false, is_writable: true },
            AccountMeta { pubkey: treasury, is_signer: false, is_writable: true },
            AccountMeta { pubkey: user, is_signer: true, is_writable: true },
            AccountMeta { pubkey: user_token, is_signer: false, is_writable: true },
            AccountMeta { pubkey: SYSTEM_PROGRAM_ID, is_signer: false, is_writable: false },
            AccountMeta { pubkey: TOKEN_PROGRAM_ID, is_signer: false, is_writable: false },
        ],
{
}

/// A quote names two accounts, which it only reads, and its data are the tag and
/// the number.
pub proof fn law_quote_instruction(
    market: MarketAddresses,
    tag: [u8; 8],
    amount: u64,
    ix: Instruction,
)
    requires
        call_ensures(instruction::quote_instruction, (&market, &tag, amount), ix),
    ensures
        ix.program_id == PROGRAM_ID,
        ix.data@ == tag@ + bytes::spec_u64_to_le_bytes(amount),
        ix.accounts@ == seq![
            AccountMeta { pubkey: market.state, is_signer: false, is_writable: false },
            AccountMeta { pubkey: market.mint, is_signer: false, is_writable: false },
        ],
{
}

/// Derived addresses are the same wherever they are derived.
proof fn lemma_one_market(m: MarketAddresses, other: MarketAddresses)
    requires
        m.is_derived(),
        other.is_derived(),
    ensures
        m == other,
{
    assert(m.state =~= other.state);
    assert(m.mint =~= other.mint);
    assert(m.vault =~= other.vault);
}

/// `ix_initialize` is the `initialize` of the derived market, under its own name.
pub proof fn law_ix_initialize(
    market: MarketAddresses,
    tag: [u8; 8],
    payer: Pubkey,
    treasury: Pubkey,
    plain: Instruction,
    ix: Instruction,
)
    requires
        call_ensures(address::market_addresses, (), Some(market)),
        call_ensures(instruction::ix_discriminator, ("initialize",), tag),
        call_ensures(
            instruction::initialize_instruction,
            (&market, &tag, &payer, &treasury),
            plain,
        ),
        call_ensures(instruction::ix_initialize, (&payer, &treasury), ix),
    ensures
        ix.program_id == plain.program_id,
        ix.accounts@ == plain.accounts@,
        ix.data@ == plain.data@,
{
    let m = choose|m: MarketAddresses| #[trigger]
        m.is_derived() && ix.is_call(
            instruction::initialize_accounts(m, payer, treasury),
            instruction::discriminator("initialize"@),
        );
    lemma_one_market(m, market);
}

/// `ix_buy` is the trade of the derived market under the name `buy`, with the
/// amount before the limit.
pub proof fn law_ix_buy(
    market: MarketAddresses,
    tag: [u8; 8],
    amount: u64,
    max_cost: u64,
    treasury: Pubkey,
    user: Pubkey,
    user_token: Pubkey,
    plain: Instruction,
    ix: Instruction,
)
    requires
        call_ensures(address::market_addresses, (), Some(market)),
        call_ensures(instruction::ix_discriminator, ("buy",), tag),
        call_ensures(
            instruction::trade_instruction,
            (&market, &tag, amount, max_cost, &treasury, &user, &user_token),
            plain,
        ),
        call_ensures(
            instruction::ix_buy,
            (amount, max_cost, &treasury, &user, &user_token),
            ix,
        ),
    ensures
        ix.program_id == plain.program_id,
        ix.accounts@ == plain.accounts@,
        ix.data@ == plain.data@,
{
    let m = choose|m: MarketAddresses| #[trigger]
        m.is_derived() && ix.is_call(
            instruction::trade_accounts(m, treasury, user, user_token),
            instruction::trade_data(instruction::discriminator("buy"@), amount, max_cost),
        );
    lemma_one_market(m, market);
}

/// `ix_sell` is the trade of the derived market under the name `sell`, with the
/// amount before the limit.
pub proof fn law_ix_sell(
    market: MarketAddresses,
    tag: [u8; 8],
    amount: u64,
    min_refund: u64,
    treasury: Pubkey,
    user: Pubkey,
    user_token: Pubkey,
    plain: Instruction,
    ix: Instruction,
)
    requires
        call_ensures(address::market_addresses, (), Some(market)),
        call_ensures(instruction::ix_discriminator, ("sell",), tag),
        call_ensures(
            instruction::trade_instruction,
            (&market, &tag, amount, min_refund, &treasury, &user, &user_token),
            plain,
        ),
        call_ensures(
            instruction::ix_sell,
            (amount, min_refund, &treasury, &user, &user_token),
            ix,
        ),
    ensures
        ix.program_id == plain.program_id,
        ix.accounts@ == plain.accounts@,
        ix.data@ == plain.data@,
{
    let m = choose|m: MarketAddresses| #[trigger]
        m.is_derived() && ix.is_call(
            instruction::trade_accounts(m, treasury, user, user_token),
            instruction::trade_data(instruction::discriminator("sell"@), amount, min_refund),
        );
    lemma_one_market(m, market);
}

/// `ix_quote` is the quote of the derived market, under its own name.
pub proof fn law_ix_quote(
    market: MarketAddresses,
    tag: [u8; 8],
    amount: u64,
    plain: Instruction,
    ix: Instruction,
)
    requires
        call_ensures(address::market_addresses, (), Some(market)),
        call_ensures(instruction::ix_discriminator, ("quote",), tag),
        call_ensures(instruction::quote_instruction, (&market, &tag, amount), plain),
        call_ensures(instruction::ix_quote, (amount,), ix),
    ensures
        ix.program_id == plain.program_id,
        ix.accounts@ == plain.accounts@,
        ix.data@ == plain.data@,
{
    let m = choose|m: MarketAddresses| #[trigger]
        m.is_derived() && ix.is_call(
            instruction::quote_accounts(m),
            instruction::quote_data(instruction::discriminator("quote"@), amount),
        );
    lemma_one_market(m, market);
}

/// A request becomes the instruction that stands for it, and becomes one exactly
/// where the market has addresses.
pub proof fn law_request_is_its_instruction(
    request: Request,
    market: Option<MarketAddresses>,
    r: Option<Instruction>,
    ix: Instruction,
)
    requires
        call_ensures(address::market_addresses, (), market),
        call_ensures(Request::instruction, (&request,), r),
        match request {
            Request::Initialize { payer, treasury } => call_ensures(
                instruction::ix_initialize,
                (&payer, &treasury),
                ix,
            ),
            Request::Buy { amount, max_cost, treasury, user, user_token } => call_ensures(
                instruction::ix_buy,
                (amount, max_cost, &treasury, &user, &user_token),
                ix,
            ),
            Request::Sell { amount, min_refund, treasury, user, user_token } => call_ensures(
                instruction::ix_sell,
                (amount, min_refund, &treasury, &user, &user_token),
                ix,
            ),
            Request::Quote { amount } => call_ensures(instruction::ix_quote, (amount,), ix),
        },
    ensures
        r is Some <==> market is Some,
        r matches Some(built) ==> {
            &&& built.program_id == ix.program_id
            &&& built.accounts@ == ix.accounts@
            &&& built.data@ == ix.data@
        },
{
    if let Some(built) = r {
        let m = choose|m: MarketAddresses| #[trigger]
            m.is_derived() && built.is_call(request.accounts(m), request.data());
        let k = choose|k: MarketAddresses| #[trigger]
            k.is_derived() && ix.is_call(request.accounts(k), request.data());
        lemma_one_market(m, k);
    }
}

/// A token account is opened by a creation that the payer and the account sign,
/// with the rent and the length of a token account, for the token program; and by
/// an instruction of the token program that names the account, the mint and the
/// owner.
pub proof fn law_open_token_account(
    payer: Pubkey,
    account: Pubkey,
    owner: Pubkey,
    mint: Pubkey,
    rent: u64,
    r: (Instruction, Instruction),
    init: Instruction,
)
    requires
        call_ensures(
            instruction::open_token_account,
            (&payer, &account, &owner, &mint, rent),
            r,
        ),
        call_ensures(instruction::initialize_token_account, (&account, &mint, &owner), init),
    ensures
        r.0.program_id == SYSTEM_PROGRAM_ID,
        r.0.accounts@ == seq![
            AccountMeta { pubkey: payer, is_signer: true, is_writable: true },
            AccountMeta { pubkey: account, is_signer: true, is_writable: true },
        ],
        r.0.data@ == bytes::spec_u32_to_le_bytes(0) + bytes::spec_u64_to_le_bytes(rent)
            + bytes::spec_u64_to_le_bytes(165) + TOKEN_PROGRAM_ID@,
        init.program_id == TOKEN_PROGRAM_ID,
        init.accounts@ == seq![
            AccountMeta { pubkey: account, is_signer: false, is_writable: true },
            AccountMeta { pubkey: mint, is_signer: false, is_writable: false },
        ],
        init.data@ == seq![18u8] + owner@,
        r.1.program_id == init.program_id,
        r.1.accounts@ == init.accounts@,
        r.1.data@ == init.data@,
{
}

// ---------------------------------------------------------------------------
// Keys
// ---------------------------------------------------------------------------

/// The bytes of a key pair are the secret key and the public key.
pub proof fn law_keypair_bytes(k: Keypair, r: Vec<u8>, public: Pubkey)
    requires
        call_ensures(Keypair::to_bytes, (&k,), r),
        call_ensures(Keypair::pubkey, (&k,), public),
    ensures
        r@ == k.secret@ + k.public@,
        public == k.public,
{
}

/// Bytes are a key pair exactly where they are a secret key of 32 bytes and the
/// public key that belongs to it, and then they are the key pair's own.
pub proof fn law_keypair_of_bytes(data: &[u8], r: Result<Keypair, KeypairError>)
    requires
        call_ensures(keys::keypair_of_bytes, (data,), r),
    ensures
        r is Ok <==> data@.len() == 64 && data@.subrange(32, 64) == outside::public_key_of(
            data@.subrange(0, 32),
        ),
        r matches Ok(k) ==> k.secret@ == data@.subrange(0, 32) && k.public@ == data@.subrange(
            32,
            64,
        ),
        r matches Err(e) ==> e == KeypairError::NotAKeypair,
{
    if let Ok(k) = r {
        let joined = k.secret@ + k.public@;
        assert(joined.subrange(0, 32) =~= k.secret@);
        assert(joined.subrange(32, 64) =~= k.public@);
    }
}

/// A key file is read as its bytes are, and refused as no bytes where its text
/// holds none.
pub proof fn law_keypair_of_json(
    text: &str,
    data: &[u8],
    of_bytes: Result<Keypair, KeypairError>,
    r: Result<Keypair, KeypairError>,
)
    requires
        call_ensures(keys::keypair_of_json, (text,), r),
        call_ensures(keys::keypair_of_bytes, (data,), of_bytes),
    ensures
        outside::json_bytes(text@) is None ==> r == Err::<Keypair, KeypairError>(
            KeypairError::NotBytes,
        ),
        outside::json_bytes(text@) == Some(data@) ==> r == of_bytes,
{
    if outside::json_bytes(text@) == Some(data@) {
        if let Ok(k) = r {
            keys::law_bytes_of_a_keypair_are_one(k);
            let other = of_bytes->Ok_0;
            assert(other.secret@ + other.public@ == k.secret@ + k.public@);
        }
    }
}

// ---------------------------------------------------------------------------
// Token accounts
// ---------------------------------------------------------------------------

/// Where each field of a token account stands. A field without a value has the
/// tag zero and leaves the bytes of the value alone, and so does all that follows
/// the account.
pub proof fn law_packed_fields(account: SplTokenAccount, before: Seq<u8>)
    requires
        before.len() >= 165,
    ensures
        ({
            let p = account.packed(before);
            let absent = bytes::spec_u32_to_le_bytes(0);
            let present = bytes::spec_u32_to_le_bytes(1);
            &&& p.len() == before.len()
            &&& p.subrange(0, 32) == account.mint@
            &&& p.subrange(32, 64) == account.owner@
            &&& p.subrange(64, 72) == bytes::spec_u64_to_le_bytes(account.amount)
            &&& match account.delegate {
                Some(k) => p.subrange(72, 76) == present && p.subrange(76, 108) == k@,
                None => p.subrange(72, 76) == absent && p.subrange(76, 108) == before.subrange(
                    76,
                    108,
                ),
            }
            &&& p[108] == account.state
            &&& match account.is_native {
                Some(x) => p.subrange(109, 113) == present && p.subrange(113, 121)
                    == bytes::spec_u64_to_le_bytes(x),
                None => p.subrange(109, 113) == absent && p.subrange(113, 121) == before.subrange(
                    113,
                    121,
                ),
            }
            &&& p.subrange(121, 129) == bytes::spec_u64_to_le_bytes(account.delegated_amount)
            &&& match account.close_authority {
                Some(k) => p.subrange(129, 133) == present && p.subrange(133, 165) == k@,
                None => p.subrange(129, 133) == absent && p.subrange(133, 165) == before.subrange(
                    133,
                    165,
                ),
            }
            &&& p.subrange(165, p.len() as int) == before.subrange(165, before.len() as int)
        }),
{
    bytes::lemma_auto_spec_u64_to_from_le_bytes();
    bytes::lemma_auto_spec_u32_to_from_le_bytes();
    let p = account.packed(before);
    let absent = bytes::spec_u32_to_le_bytes(0);
    let present = bytes::spec_u32_to_le_bytes(1);
    assert(p.len() == before.len());
    assert(p.subrange(0, 32) =~= account.mint@);
    assert(p.subrange(32, 64) =~= account.owner@);
    assert(p.subrange(64, 72) =~= bytes::spec_u64_to_le_bytes(account.amount));
    match account.delegate {
        Some(k) => {
            assert(p.subrange(72, 76) =~= present);
            assert(p.subrange(76, 108) =~= k@);
        },
        None => {
            assert(p.subrange(72, 76) =~= absent);
            assert(p.subrange(76, 108) =~= before.subrange(76, 108));
        },
    }
    match account.is_native {
        Some(x) => {
            assert(p.subrange(109, 113) =~= present);
            assert(p.subrange(113, 121) =~= bytes::spec_u64_to_le_bytes(x));
        },
        None => {
            assert(p.subrange(109, 113) =~= absent);
            assert(p.subrange(113, 121) =~= before.subrange(113, 121));
        },
    }
    assert(p.subrange(121, 129) =~= bytes::spec_u64_to_le_bytes(account.delegated_amount));
    match account.close_authority {
        Some(k) => {
            assert(p.subrange(129, 133) =~= present);
            assert(p.subrange(133, 165) =~= k@);
        },
        None => {
            assert(p.subrange(129, 133) =~= absent);
            assert(p.subrange(133, 165) =~= before.subrange(133, 165));
        },
    }
    assert(p.subrange(165, p.len() as int) =~= before.subrange(165, before.len() as int));
}

/// The supply of a mint is the number at its place, and the balance of a token
/// account is the number at its.
pub proof fn law_numbers_of_accounts(data: &[u8], supply: u64, balance: u64)
    requires
        data@.len() >= 72,
        call_ensures(spl::mint_supply, (data,), supply),
        call_ensures(spl::token_balance, (data,), balance),
    ensures
        bytes::spec_u64_to_le_bytes(supply) == data@.subrange(36, 44),
        bytes::spec_u64_to_le_bytes(balance) == data@.subrange(64, 72),
{
    bytes::lemma_auto_spec_u64_to_from_le_bytes();
}

/// A fresh token account belongs to its owner and its mint, is initialized, and
/// holds nothing else.
pub proof fn law_empty_token_account(mint: Pubkey, owner: Pubkey, r: Vec<u8>)
    requires
        call_ensures(spl::empty_token_account, (&mint, &owner), r),
    ensures
        r@.len() == 165,
        r@.subrange(0, 32) == mint@,
        r@.subrange(32, 64) == owner@,
        r@[108] == 1,
        r@.subrange(64, 72) == bytes::spec_u64_to_le_bytes(0),
        r@.subrange(121, 129) == bytes::spec_u64_to_le_bytes(0),
        r@.subrange(72, 76) == bytes::spec_u32_to_le_bytes(0),
        r@.subrange(109, 113) == bytes::spec_u32_to_le_bytes(0),
        r@.subrange(129, 133) == bytes::spec_u32_to_le_bytes(0),
        forall|i: int| 76 <= i < 108 || 113 <= i < 121 || 133 <= i < 165 ==> #[trigger] r@[i] == 0,
{
    let account = SplTokenAccount {
        mint,
        owner,
        amount: 0,
        delegate: None,
        state: 1,
        is_native: None,
        delegated_amount: 0,
        close_authority: None,
    };
    let zeros = Seq::new(165, |i: int| 0u8);
    law_packed_fields(account, zeros);
    assert forall|i: int| 76 <= i < 108 || 113 <= i < 121 || 133 <= i < 165 implies #[trigger] r@[i]
        == 0 by {
        if i < 108 {
            assert(r@.subrange(76, 108)[i - 76] == zeros.subrange(76, 108)[i - 76]);
        } else if i < 121 {
            assert(r@.subrange(113, 121)[i - 113] == zeros.subrange(113, 121)[i - 113]);
        } else {
            assert(r@.subrange(133, 165)[i - 133] == zeros.subrange(133, 165)[i - 133]);
        }
    }
}

/// A token account takes the length that the token program expects.
pub proof fn law_token_account_len(r: usize)
    requires
        call_ensures(spl::spl_token_account_len, (), r),
    ensures
        r == 165,
{
}

// ---------------------------------------------------------------------------
// Logs and accounts
// ---------------------------------------------------------------------------

/// The white space of Unicode, and nothing else.
pub proof fn law_is_white_space(c: char, r: bool)
    requires
        call_ensures(logs::is_white_space, (c,), r),
    ensures
        r <==> {
            let n = c as u32;
            ||| 0x9 <= n <= 0xd
            ||| n == 0x20
            ||| n == 0x85
            ||| n == 0xa0
            ||| n == 0x1680
            ||| 0x2000 <= n <= 0x200a
            ||| n == 0x2028
            ||| n == 0x2029
            ||| n == 0x202f
            ||| n == 0x205f
            ||| n == 0x3000
        },
{
}

/// Trimming takes white space from both ends and nothing else: what is taken is
/// white space, and what is left neither starts nor ends with any.
pub proof fn law_trim(s: &str, r: &str) -> (parts: (Seq<char>, Seq<char>))
    requires
        call_ensures(logs::trim, (s,), r),
    ensures
        s@ == parts.0 + r@ + parts.1,
        forall|i: int| 0 <= i < parts.0.len() ==> logs::white_space(#[trigger] parts.0[i]),
        forall|i: int| 0 <= i < parts.1.len() ==> logs::white_space(#[trigger] parts.1[i]),
        r@.len() > 0 ==> !logs::white_space(r@[0]) && !logs::white_space(r@[r@.len() - 1]),
{
    let front = lemma_trimmed_start(s@);
    let rest = logs::trimmed_start(s@);
    let back = lemma_trimmed_end(rest);
    assert(s@ =~= front + r@ + back);
    if r@.len() > 0 {
        assert(rest[0] == r@[0]);
    }
    (front, back)
}

proof fn lemma_trimmed_start(s: Seq<char>) -> (front: Seq<char>)
    ensures
        s == front + logs::trimmed_start(s),
        forall|i: int| 0 <= i < front.len() ==> logs::white_space(#[trigger] front[i]),
        logs::trimmed_start(s).len() > 0 ==> !logs::white_space(logs::trimmed_start(s)[0]),
    decreases s.len(),
{
    if s.len() > 0 && logs::white_space(s[0]) {
        let rest = s.subrange(1, s.len() as int);
        let front = lemma_trimmed_start(rest);
        let longer = seq![s[0]] + front;
        assert(s =~= seq![s[0]] + rest);
        assert(s =~= longer + logs::trimmed_start(s));
        assert forall|i: int| 0 <= i < longer.len() implies logs::white_space(
            #[trigger] longer[i],
        ) by {
            if i > 0 {
                assert(longer[i] == front[i - 1]);
            }
        }
        longer
    } else {
        assert(s =~= Seq::<char>::empty() + s);
        Seq::empty()
    }
}

proof fn lemma_trimmed_end(s: Seq<char>) -> (back: Seq<char>)
    ensures
        s == logs::trimmed_end(s) + back,
        forall|i: int| 0 <= i < back.len() ==> logs::white_space(#[trigger] back[i]),
        logs::trimmed_end(s).len() > 0 ==> !logs::white_space(
            logs::trimmed_end(s)[logs::trimmed_end(s).len() - 1],
        ),
    decreases s.len(),
{
    if s.len() > 0 && logs::white_space(s[s.len() - 1]) {
        let rest = s.subrange(0, s.len() - 1);
        let back = lemma_trimmed_end(rest);
        let longer = back.push(s[s.len() - 1]);
        assert(s =~= rest.push(s[s.len() - 1]));
        assert(s =~= logs::trimmed_end(s) + longer);
        longer
    } else {
        assert(s =~= s + Seq::<char>::empty());
        Seq::empty()
    }
}

/// Stripping takes the prefix from the front, and answers nothing where the text
/// does not start with it.
pub proof fn law_strip_prefix(s: &str, prefix: &str, r: Option<&str>)
    requires
        call_ensures(logs::strip_prefix, (s, prefix), r),
    ensures
        r is Some <==> prefix@.len() <= s@.len() && s@.subrange(0, prefix@.len() as int) == prefix@,
        r matches Some(rest) ==> rest@ == s@.subrange(prefix@.len() as int, s@.len() as int),
{
    if let Some(rest) = r {
        assert(s@.subrange(0, prefix@.len() as int) =~= prefix@);
        assert(rest@ =~= s@.subrange(prefix@.len() as int, s@.len() as int));
    }
}

/// An event of 49 bytes or more is read from fixed places: the side behind the
/// discriminator, then the amount, the lamports, the cut and the supply. A
/// shorter one is none of a trade.
pub proof fn law_decode_trade(raw: &[u8], r: Option<TradeFields>)
    requires
        call_ensures(logs::decode_trade, (raw,), r),
    ensures
        raw@.len() < 49 ==> r is None,
        raw@.len() >= 49 ==> {
            &&& r is Some
            &&& (r->0).0 <==> raw@[8] == 1
            &&& bytes::spec_u64_to_le_bytes((r->0).1) == raw@.subrange(9, 17)
            &&& bytes::spec_u64_to_le_bytes((r->0).2) == raw@.subrange(17, 25)
            &&& bytes::spec_u64_to_le_bytes((r->0).3) == raw@.subrange(25, 33)
            &&& bytes::spec_u64_to_le_bytes((r->0).4) == raw@.subrange(33, 41)
        },
{
    bytes::lemma_auto_spec_u64_to_from_le_bytes();
}

/// A log of no lines announces nothing.
pub proof fn law_an_empty_log_has_no_events(logs: &[String], r: Vec<TradeFields>)
    requires
        logs@.len() == 0,
        call_ensures(crate::logs::decode_trade_events, (logs,), r),
    ensures
        r@.len() == 0,
{
}

/// The events of a log are those of its first part, then those of the rest.
pub proof fn law_events_of_a_log_are_those_of_its_parts(
    first: &[String],
    rest: &[String],
    whole: &[String],
    of_first: Vec<TradeFields>,
    of_rest: Vec<TradeFields>,
    of_whole: Vec<TradeFields>,
)
    requires
        whole@ == first@ + rest@,
        call_ensures(logs::decode_trade_events, (first,), of_first),
        call_ensures(logs::decode_trade_events, (rest,), of_rest),
        call_ensures(logs::decode_trade_events, (whole,), of_whole),
    ensures
        of_whole@ == of_first@ + of_rest@,
{
    logs::law_events_keep_their_order(first@, rest@);
}

/// One line announces the trade that its base64 text decodes to, behind the
/// prefix and without the white space around it; any other line announces
/// nothing.
pub proof fn law_events_of_one_line(
    line: &[String],
    text: &str,
    rest: Option<&str>,
    inner: &str,
    raw: &[u8],
    trade: Option<TradeFields>,
    r: Vec<TradeFields>,
)
    requires
        line@.len() == 1,
        text@ == line@[0]@,
        call_ensures(logs::decode_trade_events, (line,), r),
        call_ensures(logs::strip_prefix, (text, "Program data: "), rest),
        rest matches Some(after) ==> call_ensures(logs::trim, (after,), inner),
        call_ensures(logs::decode_trade, (raw,), trade),
    ensures
        rest is None ==> r@.len() == 0,
        rest is Some && outside::base64_bytes(inner@) is None ==> r@.len() == 0,
        rest is Some && outside::base64_bytes(inner@) == Some(raw@) ==> match trade {
            Some(t) => r@ == seq![t],
            None => r@.len() == 0,
        },
{
    assert(line@.drop_last() =~= Seq::<String>::empty());
    assert(line@.last() == line@[0]);
    reveal_with_fuel(logs::trades_of_lines, 2);
    let prefix = logs::event_prefix();
    match rest {
        Some(after) => {
            assert(text@.subrange(prefix.len() as int, text@.len() as int) =~= after@);
            assert(prefix.is_prefix_of(text@));
            if let Some(t) = trade {
                assert(Seq::<TradeFields>::empty().push(t) =~= seq![t]);
            }
        },
        None => {},
    }
}

/// The answer of a quote is two numbers, and nothing else is.
pub proof fn law_decode_quote(data: &[u8], r: Option<(u64, u64)>)
    requires
        call_ensures(logs::decode_quote, (data,), r),
    ensures
        r is Some <==> data@.len() == 16,
        r matches Some(pair) ==> bytes::spec_u64_to_le_bytes(pair.0)
            + bytes::spec_u64_to_le_bytes(pair.1) == data@,
{
    bytes::lemma_auto_spec_u64_to_from_le_bytes();
    if let Some(pair) = r {
        assert(bytes::spec_u64_to_le_bytes(pair.0) + bytes::spec_u64_to_le_bytes(pair.1)
            =~= data@);
    }
}

/// The program data name an authority exactly where they hold their header of 45
/// bytes, whatever follows it, and its byte at 12 is one; the authority stands
/// behind that byte.
pub proof fn law_upgrade_authority(data: &[u8], r: Option<Pubkey>)
    requires
        call_ensures(logs::upgrade_authority, (data,), r),
    ensures
        r is Some <==> data@.len() >= 45 && data@[12] == 1,
        r matches Some(key) ==> key@ == data@.subrange(13, 45),
{
}

/// The treasury stands in the state behind the discriminator and the mint.
pub proof fn law_treasury_from_state(data: &[u8], r: Pubkey)
    requires
        data@.len() >= 72,
        call_ensures(logs::treasury_from_state, (data,), r),
    ensures
        forall|i: int| 0 <= i < 32 ==> #[trigger] r@[i] == data@[40 + i],
{
}

} // verus!
