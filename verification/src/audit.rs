//! What the rehearsal of a deployment checks on a running market: the price that
//! was paid, the event that announced it, and the reserve.

use crate::curve;
use crate::lemmas;
use crate::logs::{upgrade_authority, TradeFields};
use crate::model;
use crate::params::MAX_SUPPLY;
use vstd::prelude::*;

verus! {

/// Fee of a transaction with one signature.
pub const SIGNATURE_FEE: u64 = 5_000;

/// How a market fails the rehearsal.
#[derive(Clone, Copy, Debug, PartialEq, Eq, Structural)]
pub enum Failure {
    /// The program's code can still be replaced.
    AuthorityPresent,
    /// The balance moved as no trade moves it.
    BalanceDiverges,
    /// The price is not the curve's.
    PriceDiverges,
    /// The sell paid nothing back.
    NothingRefunded,
    /// The log does not hold one event.
    WrongEventCount,
    /// The event is one of the other side.
    WrongSide,
    WrongAmount,
    WrongLamports,
    WrongSupply,
    /// The vault does not cover its floor and the liability.
    Insolvent,
}

/// A trade as a client saw it.
#[derive(Clone, Copy, Debug, PartialEq, Eq, Structural)]
pub struct Observed {
    pub supply_before: u64,
    pub amount: u64,
    /// Balance of the user before the trade.
    pub balance_before: u64,
    /// Balance of the user after it.
    pub balance_after: u64,
}

impl Observed {
    /// What the user paid, besides the fee.
    pub open spec fn paid(self) -> int {
        self.balance_before - self.balance_after - SIGNATURE_FEE
    }

    /// What the user got, besides the fee.
    pub open spec fn got(self) -> int {
        self.balance_after + SIGNATURE_FEE - self.balance_before
    }

    /// What the curve asks for the buy.
    pub open spec fn expected_cost(self) -> int {
        model::buy_cost(self.supply_before as int, self.amount as int)
    }

    /// What the curve pays for the sell.
    pub open spec fn expected_refund(self) -> int {
        model::sell_refund(self.supply_before - self.amount, self.amount as int)
    }

    /// How the refund of the sell fails, where it only has to be positive.
    pub open spec fn refund_failure(self) -> Option<Failure> {
        if self.got() < 0 || self.got() > u64::MAX {
            Some(Failure::BalanceDiverges)
        } else if self.got() == 0 {
            Some(Failure::NothingRefunded)
        } else {
            None
        }
    }

    /// How the price of the buy fails.
    pub open spec fn buy_price_failure(self) -> Option<Failure> {
        if self.paid() < 0 {
            Some(Failure::BalanceDiverges)
        } else if self.paid() != self.expected_cost() {
            Some(Failure::PriceDiverges)
        } else {
            None
        }
    }

    /// How the price of the sell fails.
    pub open spec fn sell_price_failure(self) -> Option<Failure> {
        if self.got() < 0 || self.got() > u64::MAX {
            Some(Failure::BalanceDiverges)
        } else if self.got() != self.expected_refund() {
            Some(Failure::PriceDiverges)
        } else {
            None
        }
    }

    /// How the event of the buy fails.
    pub open spec fn buy_event_failure(self, events: Seq<TradeFields>) -> Option<Failure> {
        if events.len() != 1 {
            Some(Failure::WrongEventCount)
        } else if !events[0].0 {
            Some(Failure::WrongSide)
        } else if events[0].1 != self.amount {
            Some(Failure::WrongAmount)
        } else if events[0].2 != self.expected_cost() {
            Some(Failure::WrongLamports)
        } else if events[0].4 != self.supply_before + self.amount {
            Some(Failure::WrongSupply)
        } else {
            None
        }
    }

    /// How the event of the sell fails.
    pub open spec fn sell_event_failure(self, events: Seq<TradeFields>) -> Option<Failure> {
        if events.len() != 1 {
            Some(Failure::WrongEventCount)
        } else if events[0].0 {
            Some(Failure::WrongSide)
        } else if events[0].4 != self.supply_before - self.amount {
            Some(Failure::WrongSupply)
        } else {
            None
        }
    }
}

/// What a balance lost, besides the fee.
pub fn lamports_paid(before: u64, after: u64) -> (r: Option<u64>)
    ensures
        r == (if before - after - SIGNATURE_FEE >= 0 {
            Some((before - after - SIGNATURE_FEE) as u64)
        } else {
            None
        }),
{
    match before.checked_sub(after) {
        Some(lost) => lost.checked_sub(SIGNATURE_FEE),
        None => None,
    }
}

/// What a balance gained, besides the fee.
pub fn lamports_received(before: u64, after: u64) -> (r: Option<u64>)
    ensures
        r == (if 0 <= after + SIGNATURE_FEE - before <= u64::MAX {
            Some((after + SIGNATURE_FEE - before) as u64)
        } else {
            None
        }),
{
    let gained: u128 = after as u128 + SIGNATURE_FEE as u128;
    if gained < before as u128 || gained - before as u128 > u64::MAX as u128 {
        None
    } else {
        Some((gained - before as u128) as u64)
    }
}

/// What the curve asks for a buy.
pub fn expected_cost(supply_before: u64, amount: u64) -> (r: u64)
    requires
        supply_before + amount <= MAX_SUPPLY,
    ensures
        r == model::buy_cost(supply_before as int, amount as int),
{
    proof {
        lemmas::lemma_curve_fits(supply_before as int, amount as int);
        lemmas::lemma_buy_cost_bounds(supply_before as int, amount as int);
    }
    curve::cost_buy(supply_before as u128, amount as u128) as u64
}

/// What the curve pays for a sell.
pub fn expected_refund(supply_before: u64, amount: u64) -> (r: u64)
    requires
        amount <= supply_before <= MAX_SUPPLY,
    ensures
        r == model::sell_refund(supply_before - amount, amount as int),
{
    proof {
        lemmas::lemma_curve_fits(supply_before - amount, amount as int);
        lemmas::lemma_sell_refund_bounds(supply_before - amount, amount as int);
    }
    curve::refund_sell((supply_before - amount) as u128, amount as u128) as u64
}

/// Checks that the user of a buy paid the curve's price, and says how much.
pub fn check_buy_price(o: &Observed) -> (r: Result<u64, Failure>)
    requires
        o.supply_before + o.amount <= MAX_SUPPLY,
    ensures
        match r {
            Ok(paid) => o.buy_price_failure() is None && paid == o.expected_cost(),
            Err(e) => o.buy_price_failure() == Some(e),
        },
{
    let cost = expected_cost(o.supply_before, o.amount);
    match lamports_paid(o.balance_before, o.balance_after) {
        Some(paid) => if paid == cost {
            Ok(paid)
        } else {
            Err(Failure::PriceDiverges)
        },
        None => Err(Failure::BalanceDiverges),
    }
}

/// Checks that the user of a sell got the curve's refund, and says how much.
pub fn check_sell_price(o: &Observed) -> (r: Result<u64, Failure>)
    requires
        o.amount <= o.supply_before <= MAX_SUPPLY,
    ensures
        match r {
            Ok(got) => o.sell_price_failure() is None && got == o.expected_refund(),
            Err(e) => o.sell_price_failure() == Some(e),
        },
{
    let refund = expected_refund(o.supply_before, o.amount);
    match lamports_received(o.balance_before, o.balance_after) {
        Some(got) => if got == refund {
            Ok(got)
        } else {
            Err(Failure::PriceDiverges)
        },
        None => Err(Failure::BalanceDiverges),
    }
}

/// Checks that the user of a sell got anything, and says how much.
pub fn check_refunded(o: &Observed) -> (r: Result<u64, Failure>)
    ensures
        match r {
            Ok(got) => o.refund_failure() is None && got == o.got(),
            Err(e) => o.refund_failure() == Some(e),
        },
{
    match lamports_received(o.balance_before, o.balance_after) {
        Some(got) => if got > 0 {
            Ok(got)
        } else {
            Err(Failure::NothingRefunded)
        },
        None => Err(Failure::BalanceDiverges),
    }
}

/// Checks that a log holds one event, and gives it.
pub fn check_one_event(events: &[TradeFields]) -> (r: Result<TradeFields, Failure>)
    ensures
        match r {
            Ok(event) => events@ == seq![event],
            Err(e) => events@.len() != 1 && e == Failure::WrongEventCount,
        },
{
    if events.len() != 1 {
        return Err(Failure::WrongEventCount);
    }
    assert(events@ =~= seq![events@[0]]);
    Ok(events[0])
}

/// Checks that a log holds the event of the buy, and gives it.
pub fn check_buy_event(o: &Observed, events: &[TradeFields]) -> (r: Result<TradeFields, Failure>)
    requires
        o.supply_before + o.amount <= MAX_SUPPLY,
    ensures
        match r {
            Ok(event) => o.buy_event_failure(events@) is None && events@ == seq![event],
            Err(e) => o.buy_event_failure(events@) == Some(e),
        },
{
    let event = match check_one_event(events) {
        Ok(event) => event,
        Err(e) => return Err(e),
    };
    let (is_buy, amount, lamports, _, supply_after) = event;
    if !is_buy {
        Err(Failure::WrongSide)
    } else if amount != o.amount {
        Err(Failure::WrongAmount)
    } else if lamports != expected_cost(o.supply_before, o.amount) {
        Err(Failure::WrongLamports)
    } else if supply_after != o.supply_before + o.amount {
        Err(Failure::WrongSupply)
    } else {
        Ok(event)
    }
}

/// Checks that a log holds the event of the sell, and gives it.
pub fn check_sell_event(o: &Observed, events: &[TradeFields]) -> (r: Result<TradeFields, Failure>)
    requires
        o.amount <= o.supply_before,
    ensures
        match r {
            Ok(event) => o.sell_event_failure(events@) is None && events@ == seq![event],
            Err(e) => o.sell_event_failure(events@) == Some(e),
        },
{
    let event = match check_one_event(events) {
        Ok(event) => event,
        Err(e) => return Err(e),
    };
    let (is_buy, _, _, _, supply_after) = event;
    if is_buy {
        Err(Failure::WrongSide)
    } else if supply_after != o.supply_before - o.amount {
        Err(Failure::WrongSupply)
    } else {
        Ok(event)
    }
}

/// Liability of the market.
pub fn liability(supply: u64) -> (r: u64)
    requires
        supply <= MAX_SUPPLY,
    ensures
        r == model::liability(supply as int),
{
    proof {
        lemmas::lemma_curve_fits(0, supply as int);
        lemmas::lemma_liability_is_small(supply as int);
    }
    curve::v_up(supply as u128) as u64
}

/// Checks that no one can replace the program's code any more. Without a program
/// data account there is no authority.
pub fn check_authority(program_data: &Option<Vec<u8>>) -> (r: Result<(), Failure>)
    ensures
        r == (if authority_present(*program_data) {
            Err(Failure::AuthorityPresent)
        } else {
            Ok(())
        }),
{
    match program_data {
        Some(data) => if upgrade_authority(data.as_slice()).is_some() {
            Err(Failure::AuthorityPresent)
        } else {
            Ok(())
        },
        None => Ok(()),
    }
}

/// Whether a program data account names an upgrade authority.
pub open spec fn authority_present(program_data: Option<Vec<u8>>) -> bool {
    program_data matches Some(data) && data@.len() >= 45 && data@[12] == 1
}

/// Whether the vault covers its floor and the liability.
pub open spec fn covered(vault: u64, rent_floor: u64, supply: int) -> bool {
    vault >= rent_floor + model::liability(supply)
}

/// Checks that the vault covers its floor and the liability, and says by how
/// much it exceeds them.
pub fn check_reserve(vault: u64, rent_floor: u64, supply: u64) -> (r: Result<u64, Failure>)
    requires
        supply <= MAX_SUPPLY,
    ensures
        match r {
            Ok(margin) => margin == vault - rent_floor - model::liability(supply as int),
            Err(e) => e == Failure::Insolvent && !covered(vault, rent_floor, supply as int),
        },
{
    let needed: u128 = rent_floor as u128 + liability(supply) as u128;
    if (vault as u128) < needed {
        Err(Failure::Insolvent)
    } else {
        Ok((vault as u128 - needed) as u64)
    }
}

/// A buy that was settled passes the rehearsal: the user paid the cost and the
/// fee, and the log announces what was settled.
pub proof fn law_settled_buy_passes(o: Observed, cut: u64)
    requires
        o.supply_before + o.amount <= MAX_SUPPLY,
        o.balance_before == o.balance_after + SIGNATURE_FEE + o.expected_cost(),
    ensures
        o.buy_price_failure() is None,
        o.buy_event_failure(
            seq![
                (
                    true,
                    o.amount,
                    o.expected_cost() as u64,
                    cut,
                    (o.supply_before + o.amount) as u64,
                ),
            ],
        ) is None,
{
    lemmas::lemma_curve_fits(o.supply_before as int, o.amount as int);
    lemmas::lemma_buy_cost_bounds(o.supply_before as int, o.amount as int);
}

/// A sell that was settled passes the rehearsal: the user got the refund less
/// the fee, and the log announces what was settled.
pub proof fn law_settled_sell_passes(o: Observed, cut: u64)
    requires
        o.amount <= o.supply_before <= MAX_SUPPLY,
        o.balance_after == o.balance_before + o.expected_refund() - SIGNATURE_FEE,
    ensures
        o.sell_price_failure() is None,
        o.sell_event_failure(
            seq![
                (
                    false,
                    o.amount,
                    o.expected_refund() as u64,
                    cut,
                    (o.supply_before - o.amount) as u64,
                ),
            ],
        ) is None,
{
    lemmas::lemma_curve_fits(o.supply_before - o.amount, o.amount as int);
    lemmas::lemma_sell_refund_bounds(o.supply_before - o.amount, o.amount as int);
}

} // verus!
