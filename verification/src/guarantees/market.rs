//! The four instructions.

use crate::guarantees::curve;
use crate::history::{Call, Ledger, Market, Order, RentRules};
use crate::ids::{EXPECTED_DEPLOYER, PROGRAM_ID, SYSTEM_PROGRAM_ID, TOKEN_PROGRAM_ID};
use crate::laws;
use crate::lemmas;
use crate::market;
use crate::market::{
    Action, Initialization, Initialize, MarketState, MmError, Party, Quote, Settlement, Trade,
};
use crate::model;
use crate::params::{DEN, HALF_DEN, MAX_SUPPLY, P0_NUM, PHI_BPS, S0};
use crate::pubkey;
use crate::pubkey::Pubkey;
use vstd::prelude::*;

verus! {

/// Two addresses are the same where all their bytes are.
pub proof fn law_same_key(a: Pubkey, b: Pubkey, r: bool)
    requires
        call_ensures(pubkey::same_key, (&a, &b), r),
    ensures
        r <==> a@ == b@,
{
    if a@ == b@ {
        assert(a =~= b);
    }
}

// ---------------------------------------------------------------------------
// initialize
// ---------------------------------------------------------------------------

/// Only the expected deployer sets a market up, and with a treasury that is no
/// account of the market and no program. The state and the event hold what the
/// accounts were, and the vault gets the rent of an account without data.
pub proof fn law_initialize_answers_the_deployer_alone(accounts: Initialize, done: Initialization)
    requires
        call_ensures(market::initialize, (&accounts,), Ok(done)),
    ensures
        accounts.payer == EXPECTED_DEPLOYER,
        accounts.treasury != accounts.vault,
        accounts.treasury != accounts.state,
        accounts.treasury != accounts.mint,
        accounts.treasury != SYSTEM_PROGRAM_ID,
        accounts.treasury != TOKEN_PROGRAM_ID,
        accounts.treasury != PROGRAM_ID,
        done.state.mint == accounts.mint,
        done.state.treasury == accounts.treasury,
        done.state.vault_bump == accounts.vault_bump,
        done.state.state_bump == accounts.state_bump,
        done.state.mint_bump == accounts.mint_bump,
        done.vault_seed == accounts.rent_min,
        done.event.mint == accounts.mint,
        done.event.treasury == accounts.treasury,
        done.event.slot == accounts.slot,
{
}

/// `initialize` is refused for two reasons alone: the payer is not the expected
/// deployer, or the treasury is an account of the market or a program.
pub proof fn law_initialize_refusals(accounts: Initialize, e: MmError)
    requires
        call_ensures(market::initialize, (&accounts,), Err(e)),
    ensures
        accounts.payer != EXPECTED_DEPLOYER ==> e == MmError::Unauthorized,
        accounts.payer == EXPECTED_DEPLOYER ==> {
            &&& e == MmError::InvalidTreasury
            &&& {
                ||| accounts.treasury == accounts.vault
                ||| accounts.treasury == accounts.state
                ||| accounts.treasury == accounts.mint
                ||| accounts.treasury == SYSTEM_PROGRAM_ID
                ||| accounts.treasury == TOKEN_PROGRAM_ID
                ||| accounts.treasury == PROGRAM_ID
            }
        },
{
}

/// Whatever state a market has after any calls, one of the calls was an
/// `initialize` that the expected deployer paid for, and the state holds the
/// accounts of that call. Its treasury is no account of the market and no
/// program.
pub proof fn law_a_state_is_the_deployers(
    prefunded: u64,
    calls: Seq<Call>,
    rent: RentRules,
    state: MarketState,
) -> (r: (int, Initialize))
    requires
        Market::fresh(prefunded).after_all(calls, rent).state == Some(state),
    ensures
        0 <= r.0 < calls.len(),
        calls[r.0] == Call::Initialize(r.1),
        r.1.payer == EXPECTED_DEPLOYER,
        r.1.treasury == state.treasury,
        r.1.mint == state.mint,
        r.1.vault_bump == state.vault_bump,
        r.1.state_bump == state.state_bump,
        r.1.mint_bump == state.mint_bump,
        r.1.treasury != r.1.vault,
        r.1.treasury != r.1.state,
        r.1.treasury != r.1.mint,
        r.1.treasury != SYSTEM_PROGRAM_ID,
        r.1.treasury != TOKEN_PROGRAM_ID,
        r.1.treasury != PROGRAM_ID,
{
    crate::history::law_only_the_deployer_sets_a_market_up(prefunded, calls, rent);
    let i = choose|i: int| 0 <= i < calls.len() && (#[trigger] calls[i]).writes(state);
    (i, calls[i]->Initialize_0)
}

/// A stored market follows the call: where the accounts pay the rent of the
/// cluster and the vault can hold it, an `initialize` that goes through stores
/// the state that it gives back, and one that is refused stores nothing.
pub proof fn law_stored_market_follows_initialize(
    m: Market,
    accounts: Initialize,
    rent: RentRules,
    r: Result<Initialization, MmError>,
)
    requires
        m.state is None,
        accounts.rent_min == rent.rent_min,
        m.ledger.vault + rent.rent_min <= u64::MAX,
        call_ensures(market::initialize, (&accounts,), r),
    ensures
        match r {
            Ok(done) => {
                &&& m.after(Call::Initialize(accounts), rent).state == Some(done.state)
                &&& m.after(Call::Initialize(accounts), rent).ledger.vault == m.ledger.vault
                    + done.vault_seed
            },
            Err(_) => m.after(Call::Initialize(accounts), rent) == m,
        },
{
}

// ---------------------------------------------------------------------------
// buy
// ---------------------------------------------------------------------------

/// A buy that settles never charges more than the user accepts.
pub proof fn law_buy_never_charges_more_than_the_limit(
    trade: Trade,
    amount: u64,
    max_cost_lamports: u64,
    done: Settlement,
)
    requires
        call_ensures(market::buy, (&trade, amount, max_cost_lamports), Ok(done)),
    ensures
        done.event.lamports <= max_cost_lamports,
{
}

/// The limit decides nothing but whether a buy goes through: of two buys that
/// differ in the limit alone, where one settles, the other settles alike if its
/// limit reaches the price, and is refused for slippage if not.
pub proof fn law_buy_limit_only_admits_or_refuses(
    trade: Trade,
    amount: u64,
    limit: u64,
    done: Settlement,
    other_limit: u64,
    r: Result<Settlement, MmError>,
)
    requires
        call_ensures(market::buy, (&trade, amount, limit), Ok(done)),
        call_ensures(market::buy, (&trade, amount, other_limit), r),
    ensures
        match r {
            Ok(other) => {
                &&& done.event.lamports <= other_limit
                &&& other.event == done.event
                &&& other.actions@ == done.actions@
            },
            Err(e) => e == MmError::SlippageBuy && done.event.lamports > other_limit,
        },
{
}

/// A buy that settles, told from the cubes: with `u = S0 + supply` and
/// `v = u + amount`, the area is `P0 * (v^3 - u^3) / (3*S0^2)` rounded up, and
/// the price is the area and half the spread, rounded up again. The event says
/// what was bought, at what price, and what supply it leaves.
pub proof fn law_buy_charges_the_curve(
    trade: Trade,
    amount: u64,
    max_cost_lamports: u64,
    done: Settlement,
) -> (area: int)
    requires
        call_ensures(market::buy, (&trade, amount, max_cost_lamports), Ok(done)),
    ensures
        ({
            let u = S0 + trade.supply;
            let v = u + amount;
            let price = done.event.lamports;
            &&& (area - 1) * DEN < P0_NUM * (v * v * v - u * u * u) <= area * DEN
            &&& (price - 1) * HALF_DEN < area * (HALF_DEN + PHI_BPS) <= price * HALF_DEN
            &&& price <= max_cost_lamports
        }),
        amount >= 1,
        trade.supply + amount <= MAX_SUPPLY,
        done.event.is_buy,
        done.event.amount == amount,
        done.event.supply_after == trade.supply + amount,
        done.event.slot == trade.slot,
{
    let (s, d) = (trade.supply as int, amount as int);
    curve::lemma_cubes(s, d, S0 + s, S0 + s + d);
    laws::law_area_up_is_least(s, d);
    laws::law_buy_charges_half_the_spread(s, d);
    model::area_up(s, d)
}

/// A buy pays the vault and the treasury together the price, the treasury only
/// where there is something to pay, and then mints exactly the amount to the
/// user.
pub proof fn law_buy_moves(
    trade: Trade,
    amount: u64,
    max_cost_lamports: u64,
    done: Settlement,
)
    requires
        call_ensures(market::buy, (&trade, amount, max_cost_lamports), Ok(done)),
    ensures
        ({
            let cut = done.event.treasury_cut;
            let pay = Action::Transfer {
                from: Party::User,
                to: Party::Vault,
                lamports: (done.event.lamports - cut) as u64,
            };
            let share = Action::Transfer {
                from: Party::User,
                to: Party::Treasury,
                lamports: cut,
            };
            let mint = Action::Mint { amount };
            &&& cut <= done.event.lamports
            &&& cut == 0 ==> done.actions@ == seq![pay, mint]
            &&& cut > 0 ==> done.actions@ == seq![pay, share, mint]
        }),
{
    let cut = done.event.treasury_cut;
    let pay = Action::Transfer {
        from: Party::User,
        to: Party::Vault,
        lamports: (done.event.lamports - cut) as u64,
    };
    let share = Action::Transfer { from: Party::User, to: Party::Treasury, lamports: cut };
    let mint = Action::Mint { amount };
    if cut == 0 {
        assert(done.actions@ =~= seq![pay, mint]);
    } else {
        assert(done.actions@ =~= seq![pay, share, mint]);
    }
}

/// What the treasury gets of a buy. `area` and `v` are the area of the buy and
/// the liability after it, both rounded up. The cut is the spread, or what the
/// vault holds above its floor and the liability where that is less; it is paid
/// where the account belongs to the system program, has no data, and would hold
/// at least the rent and no more than 64 bits, and else it is zero.
pub proof fn law_buy_cut(
    trade: Trade,
    amount: u64,
    max_cost_lamports: u64,
    done: Settlement,
) -> (r: (int, int))
    requires
        call_ensures(market::buy, (&trade, amount, max_cost_lamports), Ok(done)),
    ensures
        ({
            let (area, v) = r;
            let u = S0 + trade.supply;
            let w = u + amount;
            let spread = done.event.lamports - area;
            let above = trade.vault_lamports + done.event.lamports - trade.rent_floor - v;
            let due = if above <= 0 {
                0
            } else if above < spread {
                above
            } else {
                spread
            };
            let t = trade.treasury;
            &&& (area - 1) * DEN < P0_NUM * (w * w * w - u * u * u) <= area * DEN
            &&& (v - 1) * DEN < P0_NUM * (w * w * w - S0 * S0 * S0) <= v * DEN
            &&& t.owner == SYSTEM_PROGRAM_ID && t.data_len == 0 && trade.rent_min <= t.lamports
                + due <= u64::MAX ==> done.event.treasury_cut == due
            &&& t.owner != SYSTEM_PROGRAM_ID || t.data_len != 0 || t.lamports + due < trade.rent_min
                || t.lamports + due > u64::MAX ==> done.event.treasury_cut == 0
        }),
{
    let (s, d) = (trade.supply as int, amount as int);
    curve::lemma_cubes(s, d, S0 + s, S0 + s + d);
    laws::law_area_up_is_least(s, d);
    curve::lemma_liability_cube(s + d, S0 + s + d);
    (model::area_up(s, d), model::liability(s + d))
}

/// In a market whose vault covers its floor and the liability, the treasury gets
/// the whole spread of a buy wherever its account can take it: it belongs to the
/// system program, has no data, and would hold at least the rent and no more than
/// 64 bits. Here `v` is the liability before the buy.
pub proof fn law_buy_pays_the_whole_spread(
    trade: Trade,
    amount: u64,
    max_cost_lamports: u64,
    done: Settlement,
    v: int,
) -> (area: int)
    requires
        call_ensures(market::buy, (&trade, amount, max_cost_lamports), Ok(done)),
        ({
            let u = S0 + trade.supply;
            (v - 1) * DEN < P0_NUM * (u * u * u - S0 * S0 * S0) <= v * DEN
        }),
        trade.vault_lamports >= trade.rent_floor + v,
    ensures
        ({
            let u = S0 + trade.supply;
            let w = u + amount;
            let t = trade.treasury;
            let spread = done.event.lamports - area;
            &&& (area - 1) * DEN < P0_NUM * (w * w * w - u * u * u) <= area * DEN
            &&& t.owner == SYSTEM_PROGRAM_ID && t.data_len == 0 && trade.rent_min <= t.lamports
                + spread <= u64::MAX ==> done.event.treasury_cut == spread
        }),
{
    let (s, d) = (trade.supply as int, amount as int);
    curve::lemma_cubes(s, d, S0 + s, S0 + s + d);
    laws::law_area_up_is_least(s, d);
    lemma_same_rounding_up(trade.supply, v);
    laws::law_buy_keeps_solvency(trade, amount);
    model::area_up(s, d)
}

/// A number that rounds the liability up is the liability.
proof fn lemma_same_rounding_up(supply: u64, v: int)
    requires
        ({
            let u = S0 + supply;
            (v - 1) * DEN < P0_NUM * (u * u * u - S0 * S0 * S0) <= v * DEN
        }),
    ensures
        v == model::liability(supply as int),
{
    curve::lemma_liability_cube(supply as int, S0 + supply);
    let w = model::liability(supply as int);
    lemmas::lemma_factor_order(v - 1, w, DEN as int);
    lemmas::lemma_factor_order(w - 1, v, DEN as int);
}

/// Why a buy is refused: it asks for nothing, for more than 64 bits can count,
/// for more than the largest supply, or at a price above the limit. There is no
/// other reason. The price exceeds the limit where the area and half the spread
/// do.
pub proof fn law_buy_refusals(
    trade: Trade,
    amount: u64,
    max_cost_lamports: u64,
    e: MmError,
) -> (area: int)
    requires
        call_ensures(market::buy, (&trade, amount, max_cost_lamports), Err(e)),
    ensures
        ({
            let u = S0 + trade.supply;
            let v = u + amount;
            (area - 1) * DEN < P0_NUM * (v * v * v - u * u * u) <= area * DEN
        }),
        amount == 0 ==> e == MmError::ZeroAmount,
        amount > 0 && trade.supply + amount > u64::MAX ==> e == MmError::Overflow,
        amount > 0 && MAX_SUPPLY < trade.supply + amount <= u64::MAX ==> e
            == MmError::MaxSupplyExceeded,
        amount > 0 && trade.supply + amount <= MAX_SUPPLY ==> {
            &&& e == MmError::SlippageBuy
            &&& area * (HALF_DEN + PHI_BPS) > max_cost_lamports * HALF_DEN
        },
{
    let (s, d) = (trade.supply as int, amount as int);
    curve::lemma_cubes(s, d, S0 + s, S0 + s + d);
    laws::law_area_up_is_least(s, d);
    laws::law_buy_charges_half_the_spread(s, d);
    model::area_up(s, d)
}

// ---------------------------------------------------------------------------
// sell
// ---------------------------------------------------------------------------

/// A sell that settles never pays the user less than they ask for.
pub proof fn law_sell_never_pays_less_than_the_limit(
    trade: Trade,
    amount: u64,
    min_refund_lamports: u64,
    done: Settlement,
)
    requires
        call_ensures(market::sell, (&trade, amount, min_refund_lamports), Ok(done)),
    ensures
        done.event.lamports >= min_refund_lamports,
{
}

/// The limit decides nothing but whether a sell goes through: of two sells that
/// differ in the limit alone, where one settles, the other settles alike if its
/// limit does not exceed the refund, and is refused for slippage if it does.
pub proof fn law_sell_limit_only_admits_or_refuses(
    trade: Trade,
    amount: u64,
    limit: u64,
    done: Settlement,
    other_limit: u64,
    r: Result<Settlement, MmError>,
)
    requires
        call_ensures(market::sell, (&trade, amount, limit), Ok(done)),
        call_ensures(market::sell, (&trade, amount, other_limit), r),
    ensures
        match r {
            Ok(other) => {
                &&& done.event.lamports >= other_limit
                &&& other.event == done.event
                &&& other.actions@ == done.actions@
            },
            Err(e) => e == MmError::SlippageSell && done.event.lamports < other_limit,
        },
{
}

/// A sell that settles, told from the cubes: with `v = S0 + supply` and
/// `u = v - amount`, the area is `P0 * (v^3 - u^3) / (3*S0^2)` rounded down, and
/// the refund is the area less half the spread, rounded down again. The vault
/// keeps its floor. The event says what was sold, for how much, and what supply
/// it leaves.
pub proof fn law_sell_pays_the_curve(
    trade: Trade,
    amount: u64,
    min_refund_lamports: u64,
    done: Settlement,
) -> (area: int)
    requires
        call_ensures(market::sell, (&trade, amount, min_refund_lamports), Ok(done)),
    ensures
        ({
            let v = S0 + trade.supply;
            let u = v - amount;
            let refund = done.event.lamports;
            &&& area * DEN <= P0_NUM * (v * v * v - u * u * u) < (area + 1) * DEN
            &&& refund * HALF_DEN <= area * (HALF_DEN - PHI_BPS) < (refund + 1) * HALF_DEN
            &&& refund >= min_refund_lamports
            &&& trade.vault_lamports >= refund + trade.rent_floor
        }),
        1 <= amount <= trade.supply,
        !done.event.is_buy,
        done.event.amount == amount,
        done.event.supply_after == trade.supply - amount,
        done.event.slot == trade.slot,
{
    let (s, d) = (trade.supply - amount, amount as int);
    curve::lemma_cubes(s, d, S0 + s, S0 + trade.supply);
    laws::law_area_down_is_greatest(s, d);
    laws::law_sell_withholds_half_the_spread(s, d);
    model::area_down(s, d)
}

/// A sell burns exactly the amount, then the vault pays the user the refund, and
/// then the treasury where there is something to pay.
pub proof fn law_sell_moves(
    trade: Trade,
    amount: u64,
    min_refund_lamports: u64,
    done: Settlement,
)
    requires
        call_ensures(market::sell, (&trade, amount, min_refund_lamports), Ok(done)),
    ensures
        ({
            let cut = done.event.treasury_cut;
            let burn = Action::Burn { amount };
            let pay = Action::Transfer {
                from: Party::Vault,
                to: Party::User,
                lamports: done.event.lamports,
            };
            let share = Action::Transfer {
                from: Party::Vault,
                to: Party::Treasury,
                lamports: cut,
            };
            &&& cut == 0 ==> done.actions@ == seq![burn, pay]
            &&& cut > 0 ==> done.actions@ == seq![burn, pay, share]
            &&& done.event.lamports + cut + trade.rent_floor <= trade.vault_lamports
        }),
{
    let cut = done.event.treasury_cut;
    let burn = Action::Burn { amount };
    let pay = Action::Transfer {
        from: Party::Vault,
        to: Party::User,
        lamports: done.event.lamports,
    };
    let share = Action::Transfer { from: Party::Vault, to: Party::Treasury, lamports: cut };
    if cut == 0 {
        assert(done.actions@ =~= seq![burn, pay]);
    } else {
        assert(done.actions@ =~= seq![burn, pay, share]);
    }
    curve::lemma_liability_cube(trade.supply - amount, S0 + trade.supply - amount);
    lemmas::lemma_n_nonnegative(trade.supply - amount);
    let v = model::liability(trade.supply - amount);
    lemmas::lemma_factor_order(-1, v, DEN as int);
}

/// What the treasury gets of a sell. `area` is the area of the sell, rounded
/// down, and `v` the liability after it, rounded up. The cut is what is withheld
/// of the area, or what the vault then holds above its floor and the liability
/// where that is less; it is paid where the account belongs to the system
/// program, has no data, and would hold at least the rent and no more than 64
/// bits, and else it is zero.
pub proof fn law_sell_cut(
    trade: Trade,
    amount: u64,
    min_refund_lamports: u64,
    done: Settlement,
) -> (r: (int, int))
    requires
        call_ensures(market::sell, (&trade, amount, min_refund_lamports), Ok(done)),
    ensures
        ({
            let (area, v) = r;
            let w = S0 + trade.supply;
            let u = w - amount;
            let spread = area - done.event.lamports;
            let above = trade.vault_lamports - done.event.lamports - trade.rent_floor - v;
            let due = if above <= 0 {
                0
            } else if above < spread {
                above
            } else {
                spread
            };
            let t = trade.treasury;
            &&& area * DEN <= P0_NUM * (w * w * w - u * u * u) < (area + 1) * DEN
            &&& (v - 1) * DEN < P0_NUM * (u * u * u - S0 * S0 * S0) <= v * DEN
            &&& t.owner == SYSTEM_PROGRAM_ID && t.data_len == 0 && trade.rent_min <= t.lamports
                + due <= u64::MAX ==> done.event.treasury_cut == due
            &&& t.owner != SYSTEM_PROGRAM_ID || t.data_len != 0 || t.lamports + due < trade.rent_min
                || t.lamports + due > u64::MAX ==> done.event.treasury_cut == 0
        }),
{
    let (s, d) = (trade.supply - amount, amount as int);
    curve::lemma_cubes(s, d, S0 + s, S0 + trade.supply);
    laws::law_area_down_is_greatest(s, d);
    curve::lemma_liability_cube(s, S0 + s);
    (model::area_down(s, d), model::liability(s))
}

/// In a market whose vault covers its floor and the liability, the treasury gets
/// all that a sell withholds wherever its account can take it, as in a buy. Here
/// `v` is the liability before the sell.
pub proof fn law_sell_pays_the_whole_spread(
    trade: Trade,
    amount: u64,
    min_refund_lamports: u64,
    done: Settlement,
    v: int,
) -> (area: int)
    requires
        call_ensures(market::sell, (&trade, amount, min_refund_lamports), Ok(done)),
        trade.supply <= MAX_SUPPLY,
        ({
            let u = S0 + trade.supply;
            (v - 1) * DEN < P0_NUM * (u * u * u - S0 * S0 * S0) <= v * DEN
        }),
        trade.vault_lamports >= trade.rent_floor + v,
    ensures
        ({
            let w = S0 + trade.supply;
            let u = w - amount;
            let t = trade.treasury;
            let spread = area - done.event.lamports;
            &&& area * DEN <= P0_NUM * (w * w * w - u * u * u) < (area + 1) * DEN
            &&& t.owner == SYSTEM_PROGRAM_ID && t.data_len == 0 && trade.rent_min <= t.lamports
                + spread <= u64::MAX ==> done.event.treasury_cut == spread
        }),
{
    let (s, d) = (trade.supply - amount, amount as int);
    curve::lemma_cubes(s, d, S0 + s, S0 + trade.supply);
    laws::law_area_down_is_greatest(s, d);
    lemma_same_rounding_up(trade.supply, v);
    laws::law_sell_keeps_solvency(trade, amount);
    model::area_down(s, d)
}

/// Why a sell is refused, in this order: it asks for nothing, for more than is in
/// circulation, at a supply beyond the arithmetic, for a higher refund than the
/// curve's, or for more than the vault can pay above its floor. There is no other
/// reason.
pub proof fn law_sell_refusals(
    trade: Trade,
    amount: u64,
    min_refund_lamports: u64,
    e: MmError,
) -> (r: (int, int))
    requires
        call_ensures(market::sell, (&trade, amount, min_refund_lamports), Err(e)),
    ensures
        ({
            let (area, refund) = r;
            let w = S0 + trade.supply;
            let u = w - amount;
            let exact = P0_NUM * (w * w * w - u * u * u);
            let left = P0_NUM * (u * u * u - S0 * S0 * S0);
            let too_large = w * w * w - S0 * S0 * S0 > u128::MAX || exact > u128::MAX;
            &&& amount == 0 ==> e == MmError::ZeroAmount
            &&& amount > trade.supply ==> e == MmError::InsufficientSupply
            &&& 1 <= amount <= trade.supply ==> {
                &&& area * DEN <= exact < (area + 1) * DEN
                &&& refund * HALF_DEN <= area * (HALF_DEN - PHI_BPS) < (refund + 1) * HALF_DEN
                &&& too_large ==> e == MmError::Overflow
                &&& !too_large && refund < min_refund_lamports ==> e == MmError::SlippageSell
                &&& !too_large && refund >= min_refund_lamports && trade.vault_lamports < refund
                    + trade.rent_floor ==> e == MmError::InsufficientReserve
                &&& !too_large && refund >= min_refund_lamports && trade.vault_lamports >= refund
                    + trade.rent_floor ==> e == MmError::Overflow && left + DEN - 1 > u128::MAX
            }
        }),
{
    let (s, d) = (trade.supply - amount, amount as int);
    curve::lemma_cubes(s, d, S0 + s, S0 + trade.supply);
    laws::law_area_down_is_greatest(s, d);
    laws::law_sell_withholds_half_the_spread(s, d);
    curve::lemma_liability_cube(s, S0 + s);
    (model::area_down(s, d), model::sell_refund(s, d))
}

/// Within the largest supply a sell is refused for want of reserve alone, once it
/// asks for something that is in circulation, at no more than the curve pays: the
/// arithmetic always fits.
pub proof fn law_sell_within_the_largest_supply_never_overflows(
    trade: Trade,
    amount: u64,
    min_refund_lamports: u64,
    e: MmError,
)
    requires
        call_ensures(market::sell, (&trade, amount, min_refund_lamports), Err(e)),
        trade.supply <= MAX_SUPPLY,
    ensures
        e != MmError::Overflow,
{
    if 1 <= amount <= trade.supply {
        lemmas::lemma_curve_fits(trade.supply - amount, amount as int);
    }
}

/// Selling back at once what was bought never pays more than it cost: the refund
/// of the sell is below the price of the buy that brought the supply there.
pub proof fn law_buy_then_sell_loses(
    before: Trade,
    amount: u64,
    max_cost_lamports: u64,
    bought: Settlement,
    after: Trade,
    min_refund_lamports: u64,
    sold: Settlement,
)
    requires
        call_ensures(market::buy, (&before, amount, max_cost_lamports), Ok(bought)),
        after.supply == bought.event.supply_after,
        call_ensures(market::sell, (&after, amount, min_refund_lamports), Ok(sold)),
    ensures
        sold.event.lamports < bought.event.lamports,
        sold.event.supply_after == before.supply,
{
    laws::law_round_trip_never_profits(before.supply as int, amount as int);
}

// ---------------------------------------------------------------------------
// quote
// ---------------------------------------------------------------------------

/// A quote gives the price of a buy and the refund of a sell by the cubes, and no
/// refund where so much is not in circulation.
pub proof fn law_quote_gives_the_curve(accounts: Quote, amount: u64, pair: (u64, u64)) -> (r: (
    int,
    int,
))
    requires
        call_ensures(market::quote, (&accounts, amount), Ok(pair)),
    ensures
        ({
            let (up, down) = r;
            let (cost, refund) = pair;
            let u = S0 + accounts.supply;
            let v = u + amount;
            let w = u - amount;
            &&& (up - 1) * DEN < P0_NUM * (v * v * v - u * u * u) <= up * DEN
            &&& (cost - 1) * HALF_DEN < up * (HALF_DEN + PHI_BPS) <= cost * HALF_DEN
            &&& amount <= accounts.supply ==> {
                &&& down * DEN <= P0_NUM * (u * u * u - w * w * w) < (down + 1) * DEN
                &&& refund * HALF_DEN <= down * (HALF_DEN - PHI_BPS) < (refund + 1) * HALF_DEN
            }
            &&& amount > accounts.supply ==> refund == 0
        }),
        amount >= 1,
        accounts.supply + amount <= MAX_SUPPLY,
{
    let (s, d) = (accounts.supply as int, amount as int);
    curve::lemma_cubes(s, d, S0 + s, S0 + s + d);
    curve::lemma_cubes(s - d, d, S0 + s - d, S0 + s);
    laws::law_area_up_is_least(s, d);
    laws::law_buy_charges_half_the_spread(s, d);
    laws::law_area_down_is_greatest(s - d, d);
    laws::law_sell_withholds_half_the_spread(s - d, d);
    (model::area_up(s, d), model::area_down(s - d, d))
}

/// Why a quote is refused: it asks for nothing, for more than 64 bits can count,
/// or for more than the largest supply. There is no other reason.
pub proof fn law_quote_refusals(accounts: Quote, amount: u64, e: MmError)
    requires
        call_ensures(market::quote, (&accounts, amount), Err(e)),
    ensures
        amount == 0 ==> e == MmError::ZeroAmount,
        amount > 0 ==> accounts.supply + amount > MAX_SUPPLY,
        amount > 0 && accounts.supply + amount > u64::MAX ==> e == MmError::Overflow,
        amount > 0 && accounts.supply + amount <= u64::MAX ==> e == MmError::MaxSupplyExceeded,
{
}

/// A quote is what a buy at that supply then charges.
pub proof fn law_quote_is_what_buy_charges(
    trade: Trade,
    amount: u64,
    max_cost_lamports: u64,
    done: Settlement,
    quoted: Result<(u64, u64), MmError>,
)
    requires
        call_ensures(market::buy, (&trade, amount, max_cost_lamports), Ok(done)),
        call_ensures(market::quote, (&Quote { supply: trade.supply }, amount), quoted),
    ensures
        quoted is Ok,
        (quoted->Ok_0).0 == done.event.lamports,
{
}

/// A quote is what a sell at that supply then pays.
pub proof fn law_quote_is_what_sell_pays(
    trade: Trade,
    amount: u64,
    min_refund_lamports: u64,
    done: Settlement,
    pair: (u64, u64),
)
    requires
        call_ensures(market::sell, (&trade, amount, min_refund_lamports), Ok(done)),
        call_ensures(market::quote, (&Quote { supply: trade.supply }, amount), Ok(pair)),
    ensures
        pair.1 == done.event.lamports,
{
}

/// A quote is refused where a buy without a limit is, for the same reason, and
/// given where such a buy settles.
pub proof fn law_quote_is_refused_where_buy_is(
    trade: Trade,
    amount: u64,
    bought: Result<Settlement, MmError>,
    quoted: Result<(u64, u64), MmError>,
)
    requires
        call_ensures(market::buy, (&trade, amount, u64::MAX), bought),
        call_ensures(market::quote, (&Quote { supply: trade.supply }, amount), quoted),
    ensures
        bought is Ok <==> quoted is Ok,
        bought is Err ==> bought->Err_0 == quoted->Err_0,
{
    if amount >= 1 && trade.supply + amount <= MAX_SUPPLY {
        lemmas::lemma_curve_fits(trade.supply as int, amount as int);
        lemmas::lemma_buy_cost_bounds(trade.supply as int, amount as int);
    }
}

// ---------------------------------------------------------------------------
// The ledger
// ---------------------------------------------------------------------------

/// The ledger's orders are settled by the actions that `buy` and `sell` hand out,
/// where the vault can hold what it is paid.
pub proof fn law_ledger_takes_the_settlements(
    l: Ledger,
    order: Order,
    rent: RentRules,
    r: Result<Settlement, MmError>,
)
    requires
        order.is_buy ==> call_ensures(
            market::buy,
            (&l.trade(order, rent), order.amount, order.limit),
            r,
        ),
        !order.is_buy ==> call_ensures(
            market::sell,
            (&l.trade(order, rent), order.amount, order.limit),
            r,
        ),
    ensures
        match r {
            Ok(done) => {
                ||| l.actions(order, rent) == done.actions@
                ||| order.is_buy && l.vault + done.event.lamports - done.event.treasury_cut
                    > u64::MAX
            },
            Err(_) => l.after(order, rent) == l,
        },
{
}

} // verus!
