//! The four instructions of the market: what each refuses, and what it moves.
//!
//! An instruction reads a snapshot of its accounts and answers with the state to
//! write or with the actions to perform, in order. It performs none of them.

use crate::ids::{EXPECTED_DEPLOYER, PROGRAM_ID, SYSTEM_PROGRAM_ID, TOKEN_PROGRAM_ID};
use crate::lemmas;
use crate::math::{cost_buy, guard_treasury, refund_sell, treasury_cut};
use crate::model;
use crate::params::MAX_SUPPLY;
use crate::pubkey::{same_key, Pubkey};
use vstd::prelude::*;

verus! {

/// Why an instruction is refused.
#[derive(Clone, Copy, Debug, PartialEq, Eq, Structural)]
pub enum MmError {
    MaxSupplyExceeded,
    ZeroAmount,
    Overflow,
    SlippageBuy,
    SlippageSell,
    InsufficientReserve,
    InsufficientSupply,
    InvalidTreasury,
    Unauthorized,
}

impl MmError {
    /// Place of the error among the errors of the program.
    pub open spec fn index(self) -> int {
        match self {
            MmError::MaxSupplyExceeded => 0,
            MmError::ZeroAmount => 1,
            MmError::Overflow => 2,
            MmError::SlippageBuy => 3,
            MmError::SlippageSell => 4,
            MmError::InsufficientReserve => 5,
            MmError::InsufficientSupply => 6,
            MmError::InvalidTreasury => 7,
            MmError::Unauthorized => 8,
        }
    }

    /// The custom error code that a client sees: the errors of a program are
    /// numbered from 6000.
    pub fn code(self) -> (r: u32)
        ensures
            r == 6000 + self.index(),
    {
        match self {
            MmError::MaxSupplyExceeded => 6000,
            MmError::ZeroAmount => 6001,
            MmError::Overflow => 6002,
            MmError::SlippageBuy => 6003,
            MmError::SlippageSell => 6004,
            MmError::InsufficientReserve => 6005,
            MmError::InsufficientSupply => 6006,
            MmError::InvalidTreasury => 6007,
            MmError::Unauthorized => 6008,
        }
    }

    /// The text that goes with the code.
    pub open spec fn text(self) -> Seq<char> {
        match self {
            MmError::MaxSupplyExceeded => "supply massima superata"@,
            MmError::ZeroAmount => "quantita' nulla"@,
            MmError::Overflow => "overflow aritmetico"@,
            MmError::SlippageBuy => "slippage: costo oltre il massimo accettato"@,
            MmError::SlippageSell => "slippage: rimborso sotto il minimo accettato"@,
            MmError::InsufficientReserve => "riserva insufficiente"@,
            MmError::InsufficientSupply => "supply insufficiente per la vendita"@,
            MmError::InvalidTreasury => "treasury non valida (PDA, o account del protocollo)"@,
            MmError::Unauthorized => "chiamante non autorizzato"@,
        }
    }

    pub fn message(self) -> (r: &'static str)
        ensures
            r@ == self.text(),
    {
        match self {
            MmError::MaxSupplyExceeded => "supply massima superata",
            MmError::ZeroAmount => "quantita' nulla",
            MmError::Overflow => "overflow aritmetico",
            MmError::SlippageBuy => "slippage: costo oltre il massimo accettato",
            MmError::SlippageSell => "slippage: rimborso sotto il minimo accettato",
            MmError::InsufficientReserve => "riserva insufficiente",
            MmError::InsufficientSupply => "supply insufficiente per la vendita",
            MmError::InvalidTreasury => "treasury non valida (PDA, o account del protocollo)",
            MmError::Unauthorized => "chiamante non autorizzato",
        }
    }
}

/// What the market remembers. It is written once, by `initialize`.
#[derive(Clone, Copy, Debug, PartialEq, Eq)]
pub struct MarketState {
    pub mint: Pubkey,
    pub treasury: Pubkey,
    pub vault_bump: u8,
    pub state_bump: u8,
    pub mint_bump: u8,
}

/// Announces a new market.
#[derive(Clone, Copy, Debug, PartialEq, Eq)]
pub struct InitializeEvent {
    pub mint: Pubkey,
    pub treasury: Pubkey,
    pub slot: u64,
}

/// Announces a trade.
#[derive(Clone, Copy, Debug, PartialEq, Eq, Structural)]
pub struct TradeEvent {
    pub is_buy: bool,
    pub amount: u64,
    /// Paid by the user in a buy, paid back to the user in a sell.
    pub lamports: u64,
    pub treasury_cut: u64,
    pub supply_after: u64,
    pub slot: u64,
}

/// The accounts of an `initialize`. The treasury and the payer have signed.
#[derive(Clone, Copy, Debug, PartialEq, Eq)]
pub struct Initialize {
    pub state: Pubkey,
    pub mint: Pubkey,
    pub vault: Pubkey,
    pub treasury: Pubkey,
    pub payer: Pubkey,
    pub vault_bump: u8,
    pub state_bump: u8,
    pub mint_bump: u8,
    /// Rent exemption of an account without data.
    pub rent_min: u64,
    pub slot: u64,
}

/// The treasury account as a trade finds it. Its owner can have done anything
/// to it.
#[derive(Clone, Copy, Debug, PartialEq, Eq)]
pub struct TreasuryAccount {
    pub owner: Pubkey,
    pub data_len: usize,
    pub lamports: u64,
}

/// The accounts of a `buy` or a `sell`.
#[derive(Clone, Copy, Debug, PartialEq, Eq)]
pub struct Trade {
    /// Supply of the mint.
    pub supply: u64,
    pub vault_lamports: u64,
    /// Rent exemption of an account without data.
    pub rent_min: u64,
    /// Rent exemption of the vault.
    pub rent_floor: u64,
    pub treasury: TreasuryAccount,
    pub slot: u64,
}

/// The account of a `quote`.
#[derive(Clone, Copy, Debug, PartialEq, Eq)]
pub struct Quote {
    /// Supply of the mint.
    pub supply: u64,
}

/// Who holds lamports in a trade.
#[derive(Clone, Copy, Debug, PartialEq, Eq, Structural)]
pub enum Party {
    User,
    Vault,
    Treasury,
}

/// One step of a settlement.
#[derive(Clone, Copy, Debug, PartialEq, Eq, Structural)]
pub enum Action {
    Transfer { from: Party, to: Party, lamports: u64 },
    /// Mints to the user's token account.
    Mint { amount: u64 },
    /// Burns from the user's token account.
    Burn { amount: u64 },
}

/// What a trade does: the actions in order, then the event.
#[derive(Debug, PartialEq, Eq)]
pub struct Settlement {
    pub actions: Vec<Action>,
    pub event: TradeEvent,
}

/// What `initialize` does.
#[derive(Clone, Copy, Debug, PartialEq, Eq)]
pub struct Initialization {
    pub state: MarketState,
    /// Lamports from the payer to the vault: its permanent floor.
    pub vault_seed: u64,
    pub event: InitializeEvent,
}

/// Whether `initialize` refuses, and why.
pub open spec fn initialize_refusal(accounts: Initialize) -> Option<MmError> {
    if accounts.payer != EXPECTED_DEPLOYER {
        Some(MmError::Unauthorized)
    } else if accounts.treasury == accounts.vault || accounts.treasury == accounts.state
        || accounts.treasury == accounts.mint || accounts.treasury == SYSTEM_PROGRAM_ID
        || accounts.treasury == TOKEN_PROGRAM_ID || accounts.treasury == PROGRAM_ID {
        Some(MmError::InvalidTreasury)
    } else {
        None
    }
}

/// The state that `initialize` writes.
pub open spec fn initialized_state(accounts: Initialize) -> MarketState {
    MarketState {
        mint: accounts.mint,
        treasury: accounts.treasury,
        vault_bump: accounts.vault_bump,
        state_bump: accounts.state_bump,
        mint_bump: accounts.mint_bump,
    }
}

/// Sets the market up: fixes the treasury for good and seeds the vault.
pub fn initialize(accounts: &Initialize) -> (r: Result<Initialization, MmError>)
    ensures
        match r {
            Err(e) => initialize_refusal(*accounts) == Some(e),
            Ok(done) => {
                &&& initialize_refusal(*accounts) is None
                &&& accounts.payer == EXPECTED_DEPLOYER
                &&& done.state == initialized_state(*accounts)
                &&& done.vault_seed == accounts.rent_min
                &&& done.event == (InitializeEvent {
                    mint: accounts.mint,
                    treasury: accounts.treasury,
                    slot: accounts.slot,
                })
            },
        },
{
    if !same_key(&accounts.payer, &EXPECTED_DEPLOYER) {
        return Err(MmError::Unauthorized);
    }
    let treasury = accounts.treasury;
    if same_key(&treasury, &accounts.vault) || same_key(&treasury, &accounts.state) || same_key(
        &treasury,
        &accounts.mint,
    ) || same_key(&treasury, &SYSTEM_PROGRAM_ID) || same_key(&treasury, &TOKEN_PROGRAM_ID)
        || same_key(&treasury, &PROGRAM_ID) {
        return Err(MmError::InvalidTreasury);
    }
    Ok(
        Initialization {
            state: MarketState {
                mint: accounts.mint,
                treasury,
                vault_bump: accounts.vault_bump,
                state_bump: accounts.state_bump,
                mint_bump: accounts.mint_bump,
            },
            vault_seed: accounts.rent_min,
            event: InitializeEvent { mint: accounts.mint, treasury, slot: accounts.slot },
        },
    )
}

impl TreasuryAccount {
    /// What of `cut` the account is paid: all of it or nothing.
    pub open spec fn accepted(self, cut: int, rent_min: u64) -> int {
        if model::can_receive(
            cut,
            self.owner == SYSTEM_PROGRAM_ID,
            self.data_len as int,
            self.lamports as int,
            rent_min as int,
        ) {
            cut
        } else {
            0
        }
    }
}

impl Trade {
    /// Whether a buy refuses, and why.
    pub open spec fn buy_refusal(self, amount: u64, max_cost_lamports: u64) -> Option<MmError> {
        if amount == 0 {
            Some(MmError::ZeroAmount)
        } else if self.supply + amount > u64::MAX {
            Some(MmError::Overflow)
        } else if self.supply + amount > MAX_SUPPLY {
            Some(MmError::MaxSupplyExceeded)
        } else if model::buy_cost(self.supply as int, amount as int) > max_cost_lamports {
            Some(MmError::SlippageBuy)
        } else {
            None
        }
    }

    /// What the treasury gets of a buy.
    pub open spec fn buy_cut(self, amount: u64) -> int {
        let s = self.supply as int;
        let cut = model::capped_cut(
            model::buy_spread(s, amount as int),
            self.vault_lamports + model::buy_cost(s, amount as int),
            self.rent_floor as int,
            s + amount,
        );
        self.treasury.accepted(cut, self.rent_min)
    }

    /// Whether a sell refuses, and why.
    pub open spec fn sell_refusal(self, amount: u64, min_refund_lamports: u64) -> Option<MmError> {
        let s_post = self.supply - amount;
        let refund = model::sell_refund(s_post, amount as int);
        if amount == 0 {
            Some(MmError::ZeroAmount)
        } else if amount > self.supply {
            Some(MmError::InsufficientSupply)
        } else if !model::area_down_fits(s_post, amount as int) {
            Some(MmError::Overflow)
        } else if refund < min_refund_lamports {
            Some(MmError::SlippageSell)
        } else if self.vault_lamports < refund + self.rent_floor {
            Some(MmError::InsufficientReserve)
        } else if !model::liability_fits(s_post) {
            Some(MmError::Overflow)
        } else {
            None
        }
    }

    /// What the treasury gets of a sell.
    pub open spec fn sell_cut(self, amount: u64) -> int {
        let s_post = self.supply - amount;
        let cut = model::capped_cut(
            model::sell_spread(s_post, amount as int),
            self.vault_lamports - model::sell_refund(s_post, amount as int),
            self.rent_floor as int,
            s_post,
        );
        self.treasury.accepted(cut, self.rent_min)
    }
}

/// A transfer to the treasury, left out where there is nothing to transfer.
pub open spec fn cut_action(from: Party, cut: u64) -> Seq<Action> {
    if cut > 0 {
        seq![Action::Transfer { from, to: Party::Treasury, lamports: cut }]
    } else {
        seq![]
    }
}

/// The actions of a buy: the user pays the vault, pays the treasury, and gets
/// the tokens.
pub open spec fn buy_actions(amount: u64, cost: u64, cut: u64) -> Seq<Action> {
    seq![
        Action::Transfer { from: Party::User, to: Party::Vault, lamports: (cost - cut) as u64 },
    ] + cut_action(Party::User, cut) + seq![Action::Mint { amount }]
}

/// The actions of a sell: the tokens go first, then the vault pays the user and
/// the treasury.
pub open spec fn sell_actions(amount: u64, refund: u64, cut: u64) -> Seq<Action> {
    seq![
        Action::Burn { amount },
        Action::Transfer { from: Party::Vault, to: Party::User, lamports: refund },
    ] + cut_action(Party::Vault, cut)
}

/// `x` where it fits 64 bits.
fn to_u64(x: u128) -> (r: Option<u64>)
    ensures
        r is Some <==> x <= u64::MAX,
        r matches Some(y) ==> y == x,
{
    if x <= u64::MAX as u128 {
        Some(x as u64)
    } else {
        None
    }
}

/// Buys `amount` units for at most `max_cost_lamports`.
pub fn buy(trade: &Trade, amount: u64, max_cost_lamports: u64) -> (r: Result<Settlement, MmError>)
    ensures
        match r {
            Err(e) => trade.buy_refusal(amount, max_cost_lamports) == Some(e),
            Ok(done) => {
                &&& trade.buy_refusal(amount, max_cost_lamports) is None
                &&& done.event.lamports <= max_cost_lamports
                &&& done.event.is_buy
                &&& done.event.amount == amount
                &&& done.event.lamports == model::buy_cost(trade.supply as int, amount as int)
                &&& done.event.treasury_cut == trade.buy_cut(amount)
                &&& done.event.treasury_cut <= done.event.lamports
                &&& done.event.supply_after == trade.supply + amount
                &&& done.event.slot == trade.slot
                &&& done.actions@ == buy_actions(
                    amount,
                    done.event.lamports,
                    done.event.treasury_cut,
                )
            },
        },
{
    if amount == 0 {
        return Err(MmError::ZeroAmount);
    }
    let s = trade.supply;
    let s_post = match s.checked_add(amount) {
        Some(x) => x,
        None => return Err(MmError::Overflow),
    };
    if s_post > MAX_SUPPLY {
        return Err(MmError::MaxSupplyExceeded);
    }
    proof {
        lemmas::lemma_curve_fits(s as int, amount as int);
        lemmas::lemma_buy_cost_bounds(s as int, amount as int);
        lemmas::lemma_liability_is_small(s_post as int);
    }
    let (cost, spread) = match cost_buy(s as u128, amount as u128) {
        Some(x) => x,
        None => return Err(MmError::Overflow),
    };
    let cost: u64 = match to_u64(cost) {
        Some(x) => x,
        None => return Err(MmError::Overflow),
    };
    if cost > max_cost_lamports {
        return Err(MmError::SlippageBuy);
    }
    let vault_pre_cut: u128 = match (trade.vault_lamports as u128).checked_add(cost as u128) {
        Some(x) => x,
        None => return Err(MmError::Overflow),
    };
    let cut: u128 = match treasury_cut(
        spread,
        vault_pre_cut,
        trade.rent_floor as u128,
        s_post as u128,
    ) {
        Some(x) => x,
        None => return Err(MmError::Overflow),
    };
    let cut: u64 = match to_u64(cut) {
        Some(x) => x,
        None => return Err(MmError::Overflow),
    };
    let cut: u64 = guard_treasury(
        cut,
        same_key(&trade.treasury.owner, &SYSTEM_PROGRAM_ID),
        trade.treasury.data_len,
        trade.treasury.lamports,
        trade.rent_min,
    );
    let to_vault: u64 = match cost.checked_sub(cut) {
        Some(x) => x,
        None => return Err(MmError::Overflow),
    };
    let mut actions: Vec<Action> = Vec::new();
    actions.push(Action::Transfer { from: Party::User, to: Party::Vault, lamports: to_vault });
    if cut > 0 {
        actions.push(Action::Transfer { from: Party::User, to: Party::Treasury, lamports: cut });
    }
    actions.push(Action::Mint { amount });
    let event = TradeEvent {
        is_buy: true,
        amount,
        lamports: cost,
        treasury_cut: cut,
        supply_after: s_post,
        slot: trade.slot,
    };
    assert(actions@ =~= buy_actions(amount, cost, cut));
    Ok(Settlement { actions, event })
}

/// Sells `amount` units for at least `min_refund_lamports`.
pub fn sell(trade: &Trade, amount: u64, min_refund_lamports: u64) -> (r: Result<
    Settlement,
    MmError,
>)
    ensures
        match r {
            Err(e) => trade.sell_refusal(amount, min_refund_lamports) == Some(e),
            Ok(done) => {
                &&& trade.sell_refusal(amount, min_refund_lamports) is None
                &&& done.event.lamports >= min_refund_lamports
                &&& !done.event.is_buy
                &&& done.event.amount == amount
                &&& done.event.lamports == model::sell_refund(
                    trade.supply - amount,
                    amount as int,
                )
                &&& done.event.treasury_cut == trade.sell_cut(amount)
                &&& done.event.supply_after == trade.supply - amount
                &&& done.event.slot == trade.slot
                &&& done.actions@ == sell_actions(
                    amount,
                    done.event.lamports,
                    done.event.treasury_cut,
                )
            },
        },
{
    if amount == 0 {
        return Err(MmError::ZeroAmount);
    }
    let s = trade.supply;
    let s_post = match s.checked_sub(amount) {
        Some(x) => x,
        None => return Err(MmError::InsufficientSupply),
    };
    let (refund, spread) = match refund_sell(s_post as u128, amount as u128) {
        Some(x) => x,
        None => return Err(MmError::Overflow),
    };
    proof {
        lemmas::lemma_sell_refund_bounds(s_post as int, amount as int);
    }
    let refund: u64 = match to_u64(refund) {
        Some(x) => x,
        None => return Err(MmError::Overflow),
    };
    if refund < min_refund_lamports {
        return Err(MmError::SlippageSell);
    }
    let vault_pre_cut: u64 = match trade.vault_lamports.checked_sub(refund) {
        Some(x) => x,
        None => return Err(MmError::InsufficientReserve),
    };
    if vault_pre_cut < trade.rent_floor {
        return Err(MmError::InsufficientReserve);
    }
    proof {
        if model::liability_fits(s_post as int) {
            lemmas::lemma_liability_is_small(s_post as int);
        }
    }
    let cut: u128 = match treasury_cut(
        spread,
        vault_pre_cut as u128,
        trade.rent_floor as u128,
        s_post as u128,
    ) {
        Some(x) => x,
        None => return Err(MmError::Overflow),
    };
    let cut: u64 = match to_u64(cut) {
        Some(x) => x,
        None => return Err(MmError::Overflow),
    };
    let cut: u64 = guard_treasury(
        cut,
        same_key(&trade.treasury.owner, &SYSTEM_PROGRAM_ID),
        trade.treasury.data_len,
        trade.treasury.lamports,
        trade.rent_min,
    );
    let mut actions: Vec<Action> = Vec::new();
    actions.push(Action::Burn { amount });
    actions.push(Action::Transfer { from: Party::Vault, to: Party::User, lamports: refund });
    if cut > 0 {
        actions.push(Action::Transfer { from: Party::Vault, to: Party::Treasury, lamports: cut });
    }
    let event = TradeEvent {
        is_buy: false,
        amount,
        lamports: refund,
        treasury_cut: cut,
        supply_after: s_post,
        slot: trade.slot,
    };
    assert(actions@ =~= sell_actions(amount, refund, cut));
    Ok(Settlement { actions, event })
}

impl Quote {
    /// Whether a quote refuses, and why: as a buy without a limit on the cost
    /// does.
    pub open spec fn refusal(self, amount: u64) -> Option<MmError> {
        if amount == 0 {
            Some(MmError::ZeroAmount)
        } else if self.supply + amount > u64::MAX {
            Some(MmError::Overflow)
        } else if self.supply + amount > MAX_SUPPLY {
            Some(MmError::MaxSupplyExceeded)
        } else {
            None
        }
    }

    /// What a sell of `amount` would pay back, or nothing where so much is not
    /// in circulation.
    pub open spec fn refund(self, amount: u64) -> int {
        if amount <= self.supply {
            model::sell_refund(self.supply - amount, amount as int)
        } else {
            0
        }
    }
}

/// Cost of a buy of `amount` units, and refund of a sell of as many.
pub fn quote(accounts: &Quote, amount: u64) -> (r: Result<(u64, u64), MmError>)
    ensures
        match r {
            Err(e) => accounts.refusal(amount) == Some(e),
            Ok(pair) => {
                &&& accounts.refusal(amount) is None
                &&& pair.0 == model::buy_cost(accounts.supply as int, amount as int)
                &&& pair.1 == accounts.refund(amount)
            },
        },
{
    if amount == 0 {
        return Err(MmError::ZeroAmount);
    }
    let supply = accounts.supply;
    let s_post = match supply.checked_add(amount) {
        Some(x) => x,
        None => return Err(MmError::Overflow),
    };
    if s_post > MAX_SUPPLY {
        return Err(MmError::MaxSupplyExceeded);
    }
    proof {
        lemmas::lemma_curve_fits(supply as int, amount as int);
        lemmas::lemma_buy_cost_bounds(supply as int, amount as int);
    }
    let (c, _) = match cost_buy(supply as u128, amount as u128) {
        Some(x) => x,
        None => return Err(MmError::Overflow),
    };
    let r: u128 = if amount <= supply {
        proof {
            lemmas::lemma_curve_fits(supply - amount, amount as int);
            lemmas::lemma_sell_refund_bounds(supply - amount, amount as int);
        }
        match refund_sell((supply - amount) as u128, amount as u128) {
            Some((refund, _)) => refund,
            None => return Err(MmError::Overflow),
        }
    } else {
        0
    };
    match (to_u64(c), to_u64(r)) {
        (Some(c), Some(r)) => Ok((c, r)),
        _ => Err(MmError::Overflow),
    }
}

} // verus!
