//! Instructions as a client sends them.

use crate::address::{market_addresses, mint_pda, state_pda, vault_pda, MarketAddresses};
use crate::ids::{PROGRAM_ID, RENT_SYSVAR, SYSTEM_PROGRAM_ID, TOKEN_PROGRAM_ID};
use crate::outside;
use crate::pubkey::Pubkey;
use crate::spl::spl_token_account_len;
use vstd::bytes::u64_to_le_bytes;
use vstd::prelude::*;

verus! {

/// An account of an instruction.
#[derive(Clone, Copy, Debug, PartialEq, Eq)]
pub struct AccountMeta {
    pub pubkey: Pubkey,
    pub is_signer: bool,
    pub is_writable: bool,
}

/// An instruction.
#[derive(Debug, PartialEq, Eq)]
pub struct Instruction {
    pub program_id: Pubkey,
    pub accounts: Vec<AccountMeta>,
    pub data: Vec<u8>,
}

/// An account that the instruction writes to.
pub open spec fn writable(pubkey: Pubkey, is_signer: bool) -> AccountMeta {
    AccountMeta { pubkey, is_signer, is_writable: true }
}

/// An account that the instruction only reads.
pub open spec fn readonly(pubkey: Pubkey, is_signer: bool) -> AccountMeta {
    AccountMeta { pubkey, is_signer, is_writable: false }
}

impl AccountMeta {
    pub fn new(pubkey: Pubkey, is_signer: bool) -> (r: Self)
        ensures
            r == writable(pubkey, is_signer),
    {
        AccountMeta { pubkey, is_signer, is_writable: true }
    }

    pub fn new_readonly(pubkey: Pubkey, is_signer: bool) -> (r: Self)
        ensures
            r == readonly(pubkey, is_signer),
    {
        AccountMeta { pubkey, is_signer, is_writable: false }
    }
}

/// The eight bytes that stand for the instruction `name`: the first of the
/// digest of `global:` and the name.
pub open spec fn discriminator(name: Seq<char>) -> Seq<u8> {
    outside::sha256_of(vstd::utf8::encode_utf8("global:"@ + name)).subrange(0, 8)
}

/// The first eight bytes of a digest.
pub fn discriminator_of_digest(digest: &[u8; 32]) -> (r: [u8; 8])
    ensures
        r@ == digest@.subrange(0, 8),
{
    let r = [
        digest[0],
        digest[1],
        digest[2],
        digest[3],
        digest[4],
        digest[5],
        digest[6],
        digest[7],
    ];
    assert(r@ =~= digest@.subrange(0, 8));
    r
}

/// The eight bytes that stand for the instruction `name`.
pub fn ix_discriminator(name: &str) -> (r: [u8; 8])
    ensures
        r@ == discriminator(name@),
{
    let text = String::from_str("global:").concat(name);
    let digest = outside::sha256(text.as_str().as_bytes());
    discriminator_of_digest(&digest)
}

impl Instruction {
    /// Whether this goes to the program, with these accounts and these data.
    pub open spec fn is_call(self, accounts: Seq<AccountMeta>, data: Seq<u8>) -> bool {
        &&& self.program_id == PROGRAM_ID
        &&& self.accounts@ == accounts
        &&& self.data@ == data
    }
}

/// The accounts of an `initialize`.
pub open spec fn initialize_accounts(
    market: MarketAddresses,
    payer: Pubkey,
    treasury: Pubkey,
) -> Seq<AccountMeta> {
    seq![
        writable(market.state, false),
        writable(market.mint, false),
        writable(market.vault, false),
        readonly(treasury, true),
        writable(payer, true),
        readonly(SYSTEM_PROGRAM_ID, false),
        readonly(TOKEN_PROGRAM_ID, false),
        readonly(RENT_SYSVAR, false),
    ]
}

/// The accounts of a `buy` or a `sell`.
pub open spec fn trade_accounts(
    market: MarketAddresses,
    treasury: Pubkey,
    user: Pubkey,
    user_token: Pubkey,
) -> Seq<AccountMeta> {
    seq![
        readonly(market.state, false),
        writable(market.mint, false),
        writable(market.vault, false),
        writable(treasury, false),
        writable(user, true),
        writable(user_token, false),
        readonly(SYSTEM_PROGRAM_ID, false),
        readonly(TOKEN_PROGRAM_ID, false),
    ]
}

/// The accounts of a `quote`: none of them signs.
pub open spec fn quote_accounts(market: MarketAddresses) -> Seq<AccountMeta> {
    seq![readonly(market.state, false), readonly(market.mint, false)]
}

/// The data of an instruction with two numbers.
pub open spec fn trade_data(tag: Seq<u8>, a: u64, b: u64) -> Seq<u8> {
    tag + vstd::bytes::spec_u64_to_le_bytes(a) + vstd::bytes::spec_u64_to_le_bytes(b)
}

/// The data of an instruction with one number.
pub open spec fn quote_data(tag: Seq<u8>, amount: u64) -> Seq<u8> {
    tag + vstd::bytes::spec_u64_to_le_bytes(amount)
}

/// An `initialize` of the market at the given addresses.
pub fn initialize_instruction(
    market: &MarketAddresses,
    tag: &[u8; 8],
    payer: &Pubkey,
    treasury: &Pubkey,
) -> (r: Instruction)
    ensures
        r.is_call(initialize_accounts(*market, *payer, *treasury), tag@),
{
    let mut data: Vec<u8> = Vec::new();
    data.extend_from_slice(tag);
    let accounts = vec![
        AccountMeta::new(market.state, false),
        AccountMeta::new(market.mint, false),
        AccountMeta::new(market.vault, false),
        AccountMeta::new_readonly(*treasury, true),
        AccountMeta::new(*payer, true),
        AccountMeta::new_readonly(SYSTEM_PROGRAM_ID, false),
        AccountMeta::new_readonly(TOKEN_PROGRAM_ID, false),
        AccountMeta::new_readonly(RENT_SYSVAR, false),
    ];
    assert(accounts@ =~= initialize_accounts(*market, *payer, *treasury));
    assert(data@ =~= tag@);
    Instruction { program_id: PROGRAM_ID, accounts, data }
}

/// A `buy` or a `sell` in the market at the given addresses.
pub fn trade_instruction(
    market: &MarketAddresses,
    tag: &[u8; 8],
    a: u64,
    b: u64,
    treasury: &Pubkey,
    user: &Pubkey,
    user_token: &Pubkey,
) -> (r: Instruction)
    ensures
        r.is_call(trade_accounts(*market, *treasury, *user, *user_token), trade_data(tag@, a, b)),
{
    let mut data: Vec<u8> = Vec::new();
    data.extend_from_slice(tag);
    data.extend_from_slice(u64_to_le_bytes(a).as_slice());
    data.extend_from_slice(u64_to_le_bytes(b).as_slice());
    let accounts = vec![
        AccountMeta::new_readonly(market.state, false),
        AccountMeta::new(market.mint, false),
        AccountMeta::new(market.vault, false),
        AccountMeta::new(*treasury, false),
        AccountMeta::new(*user, true),
        AccountMeta::new(*user_token, false),
        AccountMeta::new_readonly(SYSTEM_PROGRAM_ID, false),
        AccountMeta::new_readonly(TOKEN_PROGRAM_ID, false),
    ];
    assert(accounts@ =~= trade_accounts(*market, *treasury, *user, *user_token));
    assert(data@ =~= trade_data(tag@, a, b));
    Instruction { program_id: PROGRAM_ID, accounts, data }
}

/// A `quote` in the market at the given addresses.
pub fn quote_instruction(market: &MarketAddresses, tag: &[u8; 8], amount: u64) -> (r: Instruction)
    ensures
        r.is_call(quote_accounts(*market), quote_data(tag@, amount)),
{
    let mut data: Vec<u8> = Vec::new();
    data.extend_from_slice(tag);
    data.extend_from_slice(u64_to_le_bytes(amount).as_slice());
    let accounts = vec![
        AccountMeta::new_readonly(market.state, false),
        AccountMeta::new_readonly(market.mint, false),
    ];
    assert(accounts@ =~= quote_accounts(*market));
    assert(data@ =~= quote_data(tag@, amount));
    Instruction { program_id: PROGRAM_ID, accounts, data }
}

/// The addresses that the program derives.
fn derived_market() -> (r: MarketAddresses)
    requires
        crate::address::market_exists(),
    ensures
        r.is_derived(),
{
    MarketAddresses { state: state_pda(), mint: mint_pda(), vault: vault_pda() }
}

/// An `initialize`, signed by the payer and the treasury.
pub fn ix_initialize(payer: &Pubkey, treasury: &Pubkey) -> (r: Instruction)
    requires
        crate::address::market_exists(),
    ensures
        exists|m: MarketAddresses| #[trigger]
            m.is_derived() && r.is_call(
                initialize_accounts(m, *payer, *treasury),
                discriminator("initialize"@),
            ),
{
    initialize_instruction(&derived_market(), &ix_discriminator("initialize"), payer, treasury)
}

/// The instruction `name` with two numbers.
fn trade_ix(
    name: &str,
    a: u64,
    b: u64,
    treasury: &Pubkey,
    user: &Pubkey,
    user_token: &Pubkey,
) -> (r: Instruction)
    requires
        crate::address::market_exists(),
    ensures
        exists|m: MarketAddresses| #[trigger]
            m.is_derived() && r.is_call(
                trade_accounts(m, *treasury, *user, *user_token),
                trade_data(discriminator(name@), a, b),
            ),
{
    trade_instruction(&derived_market(), &ix_discriminator(name), a, b, treasury, user, user_token)
}

/// A `buy` of `amount` units for at most `max_cost` lamports, signed by the user.
pub fn ix_buy(
    amount: u64,
    max_cost: u64,
    treasury: &Pubkey,
    user: &Pubkey,
    user_token: &Pubkey,
) -> (r: Instruction)
    requires
        crate::address::market_exists(),
    ensures
        exists|m: MarketAddresses| #[trigger]
            m.is_derived() && r.is_call(
                trade_accounts(m, *treasury, *user, *user_token),
                trade_data(discriminator("buy"@), amount, max_cost),
            ),
{
    trade_ix("buy", amount, max_cost, treasury, user, user_token)
}

/// A `sell` of `amount` units for at least `min_refund` lamports, signed by the
/// user.
pub fn ix_sell(
    amount: u64,
    min_refund: u64,
    treasury: &Pubkey,
    user: &Pubkey,
    user_token: &Pubkey,
) -> (r: Instruction)
    requires
        crate::address::market_exists(),
    ensures
        exists|m: MarketAddresses| #[trigger]
            m.is_derived() && r.is_call(
                trade_accounts(m, *treasury, *user, *user_token),
                trade_data(discriminator("sell"@), amount, min_refund),
            ),
{
    trade_ix("sell", amount, min_refund, treasury, user, user_token)
}

/// A `quote` for `amount` units. It only reads: no account of it signs.
pub fn ix_quote(amount: u64) -> (r: Instruction)
    requires
        crate::address::market_exists(),
    ensures
        exists|m: MarketAddresses| #[trigger]
            m.is_derived() && r.is_call(
                quote_accounts(m),
                quote_data(discriminator("quote"@), amount),
            ),
{
    quote_instruction(&derived_market(), &ix_discriminator("quote"), amount)
}

/// What a client asks of the market.
#[derive(Clone, Copy, Debug, PartialEq, Eq)]
pub enum Request {
    Initialize { payer: Pubkey, treasury: Pubkey },
    Buy { amount: u64, max_cost: u64, treasury: Pubkey, user: Pubkey, user_token: Pubkey },
    Sell { amount: u64, min_refund: u64, treasury: Pubkey, user: Pubkey, user_token: Pubkey },
    Quote { amount: u64 },
}

impl Request {
    /// The accounts of the request.
    pub open spec fn accounts(self, market: MarketAddresses) -> Seq<AccountMeta> {
        match self {
            Request::Initialize { payer, treasury } => initialize_accounts(market, payer, treasury),
            Request::Buy { treasury, user, user_token, .. } => trade_accounts(
                market,
                treasury,
                user,
                user_token,
            ),
            Request::Sell { treasury, user, user_token, .. } => trade_accounts(
                market,
                treasury,
                user,
                user_token,
            ),
            Request::Quote { .. } => quote_accounts(market),
        }
    }

    /// The data of the request.
    pub open spec fn data(self) -> Seq<u8> {
        match self {
            Request::Initialize { .. } => discriminator("initialize"@),
            Request::Buy { amount, max_cost, .. } => trade_data(
                discriminator("buy"@),
                amount,
                max_cost,
            ),
            Request::Sell { amount, min_refund, .. } => trade_data(
                discriminator("sell"@),
                amount,
                min_refund,
            ),
            Request::Quote { amount } => quote_data(discriminator("quote"@), amount),
        }
    }

    /// The instruction for the request, where the market has addresses.
    pub fn instruction(&self) -> (r: Option<Instruction>)
        ensures
            r is Some <==> crate::address::market_exists(),
            r matches Some(ix) ==> exists|m: MarketAddresses| #[trigger]
                m.is_derived() && ix.is_call(self.accounts(m), self.data()),
    {
        if market_addresses().is_none() {
            return None;
        }
        match self {
            Request::Initialize { payer, treasury } => Some(ix_initialize(payer, treasury)),
            Request::Buy { amount, max_cost, treasury, user, user_token } => Some(
                ix_buy(*amount, *max_cost, treasury, user, user_token),
            ),
            Request::Sell { amount, min_refund, treasury, user, user_token } => Some(
                ix_sell(*amount, *min_refund, treasury, user, user_token),
            ),
            Request::Quote { amount } => Some(ix_quote(*amount)),
        }
    }
}

/// Tag of the token program's `InitializeAccount3`.
pub const INITIALIZE_ACCOUNT_TAG: u8 = 18;

/// Makes `account` a token account of `owner`.
pub fn initialize_token_account(account: &Pubkey, mint: &Pubkey, owner: &Pubkey) -> (r: Instruction)
    ensures
        r.program_id == TOKEN_PROGRAM_ID,
        r.accounts@ == seq![writable(*account, false), readonly(*mint, false)],
        r.data@ == seq![INITIALIZE_ACCOUNT_TAG] + owner@,
{
    let mut data: Vec<u8> = Vec::new();
    data.push(INITIALIZE_ACCOUNT_TAG);
    data.extend_from_slice(owner);
    let accounts = vec![AccountMeta::new(*account, false), AccountMeta::new_readonly(*mint, false)];
    assert(accounts@ =~= seq![writable(*account, false), readonly(*mint, false)]);
    assert(data@ =~= seq![INITIALIZE_ACCOUNT_TAG] + owner@);
    Instruction { program_id: TOKEN_PROGRAM_ID, accounts, data }
}

/// The two instructions that open a token account of `owner` for `mint` at
/// `account`: `payer` funds it with `rent` lamports, then it is made a token
/// account.
pub fn open_token_account(
    payer: &Pubkey,
    account: &Pubkey,
    owner: &Pubkey,
    mint: &Pubkey,
    rent: u64,
) -> (r: (Instruction, Instruction))
    ensures
        r.0.program_id == SYSTEM_PROGRAM_ID,
        r.0.accounts@ == seq![writable(*payer, true), writable(*account, true)],
        r.0.data@ == vstd::bytes::spec_u32_to_le_bytes(0) + vstd::bytes::spec_u64_to_le_bytes(rent)
            + vstd::bytes::spec_u64_to_le_bytes(165) + TOKEN_PROGRAM_ID@,
        r.1.program_id == TOKEN_PROGRAM_ID,
        r.1.accounts@ == seq![writable(*account, false), readonly(*mint, false)],
        r.1.data@ == seq![INITIALIZE_ACCOUNT_TAG] + owner@,
{
    let space = spl_token_account_len() as u64;
    let create = outside::create_account(payer, account, rent, space, &TOKEN_PROGRAM_ID);
    assert(create.accounts@ =~= seq![writable(*payer, true), writable(*account, true)]);
    (create, initialize_token_account(account, mint, owner))
}

/// The program reads in a trade's data the numbers that the client put there,
/// behind the tag.
pub proof fn law_trade_data_is_read_back(tag: Seq<u8>, a: u64, b: u64)
    requires
        tag.len() == 8,
    ensures
        trade_data(tag, a, b).len() == 24,
        trade_data(tag, a, b).subrange(0, 8) == tag,
        crate::logs::number_at(trade_data(tag, a, b), 8) == a,
        crate::logs::number_at(trade_data(tag, a, b), 16) == b,
{
    vstd::bytes::lemma_auto_spec_u64_to_from_le_bytes();
    let data = trade_data(tag, a, b);
    assert(data.subrange(0, 8) =~= tag);
    assert(data.subrange(8, 16) =~= vstd::bytes::spec_u64_to_le_bytes(a));
    assert(data.subrange(16, 24) =~= vstd::bytes::spec_u64_to_le_bytes(b));
}

/// The program reads in a quote's data the number that the client put there,
/// behind the tag.
pub proof fn law_quote_data_is_read_back(tag: Seq<u8>, amount: u64)
    requires
        tag.len() == 8,
    ensures
        quote_data(tag, amount).len() == 16,
        quote_data(tag, amount).subrange(0, 8) == tag,
        crate::logs::number_at(quote_data(tag, amount), 8) == amount,
{
    vstd::bytes::lemma_auto_spec_u64_to_from_le_bytes();
    let data = quote_data(tag, amount);
    assert(data.subrange(0, 8) =~= tag);
    assert(data.subrange(8, 16) =~= vstd::bytes::spec_u64_to_le_bytes(amount));
}

} // verus!
