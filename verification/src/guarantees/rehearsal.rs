//! The rehearsals of a deployment: the checks, their order, and the waiting.

use crate::audit;
use crate::audit::{Failure, Observed, SIGNATURE_FEE};
use crate::guarantees::curve;
use crate::laws;
use crate::logs;
use crate::logs::TradeFields;
use crate::model;
use crate::params::{DEN, HALF_DEN, MAX_SUPPLY, P0_NUM, PHI_BPS, S0};
use crate::polling::{Outcome, Polling, Step};
use crate::pubkey::Pubkey;
use crate::rehearsal::{FinalRun, FirstRun, Next};
use vstd::prelude::*;

verus! {

/// What was paid, the fee and what is left are together what was there.
pub proof fn law_lamports_paid(before: u64, after: u64, r: Option<u64>)
    requires
        call_ensures(audit::lamports_paid, (before, after), r),
    ensures
        r is Some <==> before >= after + SIGNATURE_FEE,
        r matches Some(paid) ==> paid + SIGNATURE_FEE + after == before,
{
}

/// What was there and what was received are together what is left and the fee.
pub proof fn law_lamports_received(before: u64, after: u64, r: Option<u64>)
    requires
        call_ensures(audit::lamports_received, (before, after), r),
    ensures
        r is Some <==> before <= after + SIGNATURE_FEE <= before + u64::MAX,
        r matches Some(got) ==> before + got == after + SIGNATURE_FEE,
{
}

/// The price that the rehearsal expects of a buy is the curve's.
pub proof fn law_expected_cost(supply_before: u64, amount: u64, r: u64) -> (area: int)
    requires
        call_ensures(audit::expected_cost, (supply_before, amount), r),
    ensures
        ({
            let u = S0 + supply_before;
            let v = u + amount;
            &&& (area - 1) * DEN < P0_NUM * (v * v * v - u * u * u) <= area * DEN
            &&& (r - 1) * HALF_DEN < area * (HALF_DEN + PHI_BPS) <= r * HALF_DEN
        }),
{
    let (s, d) = (supply_before as int, amount as int);
    curve::lemma_cubes(s, d, S0 + s, S0 + s + d);
    laws::law_area_up_is_least(s, d);
    laws::law_buy_charges_half_the_spread(s, d);
    model::area_up(s, d)
}

/// The refund that the rehearsal expects of a sell is the curve's.
pub proof fn law_expected_refund(supply_before: u64, amount: u64, r: u64) -> (area: int)
    requires
        call_ensures(audit::expected_refund, (supply_before, amount), r),
    ensures
        ({
            let v = S0 + supply_before;
            let u = v - amount;
            &&& area * DEN <= P0_NUM * (v * v * v - u * u * u) < (area + 1) * DEN
            &&& r * HALF_DEN <= area * (HALF_DEN - PHI_BPS) < (r + 1) * HALF_DEN
        }),
{
    let (s, d) = (supply_before - amount, amount as int);
    curve::lemma_cubes(s, d, S0 + s, S0 + supply_before);
    laws::law_area_down_is_greatest(s, d);
    laws::law_sell_withholds_half_the_spread(s, d);
    model::area_down(s, d)
}

/// The liability that the rehearsal expects is the curve's.
pub proof fn law_expected_liability(supply: u64, r: u64)
    requires
        call_ensures(audit::liability, (supply,), r),
    ensures
        ({
            let u = S0 + supply;
            (r - 1) * DEN < P0_NUM * (u * u * u - S0 * S0 * S0) <= r * DEN
        }),
{
    curve::lemma_liability_cube(supply as int, S0 + supply);
}

/// A buy passes at the expected price and at no other, besides the fee.
pub proof fn law_check_buy_price(o: Observed, cost: u64, r: Result<u64, Failure>)
    requires
        o.supply_before + o.amount <= MAX_SUPPLY,
        call_ensures(audit::expected_cost, (o.supply_before, o.amount), cost),
        call_ensures(audit::check_buy_price, (&o,), r),
    ensures
        o.balance_before == o.balance_after + SIGNATURE_FEE + cost ==> r == Ok::<u64, Failure>(cost),
        o.balance_before < o.balance_after + SIGNATURE_FEE ==> r == Err::<u64, Failure>(
            Failure::BalanceDiverges,
        ),
        o.balance_before >= o.balance_after + SIGNATURE_FEE && o.balance_before != o.balance_after
            + SIGNATURE_FEE + cost ==> r == Err::<u64, Failure>(Failure::PriceDiverges),
{
}

/// A sell passes at the expected refund and at no other, besides the fee.
pub proof fn law_check_sell_price(o: Observed, refund: u64, r: Result<u64, Failure>)
    requires
        o.amount <= o.supply_before <= MAX_SUPPLY,
        call_ensures(audit::expected_refund, (o.supply_before, o.amount), refund),
        call_ensures(audit::check_sell_price, (&o,), r),
    ensures
        o.balance_before + refund == o.balance_after + SIGNATURE_FEE ==> r == Ok::<u64, Failure>(
            refund,
        ),
        o.balance_before > o.balance_after + SIGNATURE_FEE || o.balance_before + u64::MAX
            < o.balance_after + SIGNATURE_FEE ==> r == Err::<u64, Failure>(
            Failure::BalanceDiverges,
        ),
        o.balance_before <= o.balance_after + SIGNATURE_FEE <= o.balance_before + u64::MAX
            && o.balance_before + refund != o.balance_after + SIGNATURE_FEE ==> r == Err::<
            u64,
            Failure,
        >(Failure::PriceDiverges),
{
}

/// A sell has to pay something, besides the fee.
pub proof fn law_check_refunded(o: Observed, r: Result<u64, Failure>)
    requires
        call_ensures(audit::check_refunded, (&o,), r),
    ensures
        match r {
            Ok(got) => got > 0 && o.balance_before + got == o.balance_after + SIGNATURE_FEE,
            Err(Failure::NothingRefunded) => o.balance_before == o.balance_after + SIGNATURE_FEE,
            Err(Failure::BalanceDiverges) => o.balance_before > o.balance_after + SIGNATURE_FEE
                || o.balance_before + u64::MAX < o.balance_after + SIGNATURE_FEE,
            Err(_) => false,
        },
{
}

/// A log has to hold one event, and that is given.
pub proof fn law_check_one_event(events: &[TradeFields], r: Result<TradeFields, Failure>)
    requires
        call_ensures(audit::check_one_event, (events,), r),
    ensures
        events@.len() == 1 ==> r == Ok::<TradeFields, Failure>(events@[0]),
        events@.len() != 1 ==> r == Err::<TradeFields, Failure>(Failure::WrongEventCount),
{
}

/// The event of a buy has to be the only one, and to announce a buy of the amount
/// at the expected price that leaves the supply raised by the amount.
pub proof fn law_check_buy_event(
    o: Observed,
    events: &[TradeFields],
    cost: u64,
    r: Result<TradeFields, Failure>,
)
    requires
        o.supply_before + o.amount <= MAX_SUPPLY,
        call_ensures(audit::expected_cost, (o.supply_before, o.amount), cost),
        call_ensures(audit::check_buy_event, (&o, events), r),
    ensures
        match r {
            Ok(event) => {
                &&& events@ == seq![event]
                &&& event.0
                &&& event.1 == o.amount
                &&& event.2 == cost
                &&& event.4 == o.supply_before + o.amount
            },
            Err(Failure::WrongEventCount) => events@.len() != 1,
            Err(Failure::WrongSide) => events@.len() == 1 && !events@[0].0,
            Err(Failure::WrongAmount) => events@.len() == 1 && events@[0].0 && events@[0].1
                != o.amount,
            Err(Failure::WrongLamports) => events@.len() == 1 && events@[0].0 && events@[0].1
                == o.amount && events@[0].2 != cost,
            Err(Failure::WrongSupply) => events@.len() == 1 && events@[0].0 && events@[0].1
                == o.amount && events@[0].2 == cost && events@[0].4 != o.supply_before + o.amount,
            Err(_) => false,
        },
{
}

/// The event of a sell has to be the only one, and to announce a sell that leaves
/// the supply lowered by the amount.
pub proof fn law_check_sell_event(
    o: Observed,
    events: &[TradeFields],
    r: Result<TradeFields, Failure>,
)
    requires
        o.amount <= o.supply_before,
        call_ensures(audit::check_sell_event, (&o, events), r),
    ensures
        match r {
            Ok(event) => {
                &&& events@ == seq![event]
                &&& !event.0
                &&& event.4 == o.supply_before - o.amount
            },
            Err(Failure::WrongEventCount) => events@.len() != 1,
            Err(Failure::WrongSide) => events@.len() == 1 && events@[0].0,
            Err(Failure::WrongSupply) => events@.len() == 1 && !events@[0].0 && events@[0].4
                != o.supply_before - o.amount,
            Err(_) => false,
        },
{
}

/// While the program data name an authority, the market is refused, whatever
/// follows the header; without one, or without the account, it is not.
pub proof fn law_check_authority(program_data: Option<Vec<u8>>, r: Result<(), Failure>)
    requires
        call_ensures(audit::check_authority, (&program_data,), r),
    ensures
        program_data matches Some(data) ==> {
            &&& data@.len() >= 45 && data@[12] == 1 ==> r == Err::<(), Failure>(
                Failure::AuthorityPresent,
            )
            &&& data@.len() < 45 || data@[12] != 1 ==> r == Ok::<(), Failure>(())
        },
        program_data is None ==> r == Ok::<(), Failure>(()),
{
}

/// The rehearsal refuses exactly where a client reads an authority.
pub proof fn law_check_authority_reads_the_authority(
    data: Vec<u8>,
    bytes: &[u8],
    authority: Option<Pubkey>,
    r: Result<(), Failure>,
)
    requires
        bytes@ == data@,
        call_ensures(logs::upgrade_authority, (bytes,), authority),
        call_ensures(audit::check_authority, (&Some(data),), r),
    ensures
        authority is Some <==> r == Err::<(), Failure>(Failure::AuthorityPresent),
        authority is None <==> r == Ok::<(), Failure>(()),
{
}

/// The reserve passes exactly where the vault holds its floor and the liability,
/// and the margin is what it holds above.
pub proof fn law_check_reserve(
    vault: u64,
    rent_floor: u64,
    supply: u64,
    v: u64,
    r: Result<u64, Failure>,
)
    requires
        supply <= MAX_SUPPLY,
        call_ensures(audit::liability, (supply,), v),
        call_ensures(audit::check_reserve, (vault, rent_floor, supply), r),
    ensures
        match r {
            Ok(margin) => rent_floor + v + margin == vault,
            Err(e) => e == Failure::Insolvent && vault < rent_floor + v,
        },
{
}

/// After the authority is given up, the rehearsal refuses the market while any
/// program data name an authority, whatever was seen of its trades.
pub proof fn law_final_run_refuses_an_authority(
    run: FinalRun,
    data: Vec<u8>,
    r: Result<Next, Failure>,
)
    requires
        run.program_data == Some(data),
        data@.len() >= 45,
        data@[12] == 1,
        call_ensures(FinalRun::next, (&run,), r),
    ensures
        r == Err::<Next, Failure>(Failure::AuthorityPresent),
{
}

/// The final rehearsal asks the checks in order, and what comes first decides:
/// the authority, then the price and the event of a buy, then the refund of a
/// sell, then the reserve. Before each of the last three it says what to do.
pub proof fn law_final_run_follows_the_checks(
    run: FinalRun,
    events: &[TradeFields],
    authority: Result<(), Failure>,
    price: Result<u64, Failure>,
    event: Result<TradeFields, Failure>,
    refund: Result<u64, Failure>,
    reserve: Result<u64, Failure>,
    r: Result<Next, Failure>,
)
    requires
        call_ensures(audit::check_authority, (&run.program_data,), authority),
        run.bought matches Some(sent) ==> {
            &&& sent.trade.supply_before + sent.trade.amount <= MAX_SUPPLY
            &&& call_ensures(audit::check_buy_price, (&sent.trade,), price)
            &&& events@ == sent.events@
            &&& call_ensures(audit::check_one_event, (events,), event)
        },
        run.sold matches Some(trade) ==> call_ensures(audit::check_refunded, (&trade,), refund),
        run.reserve matches Some(seen) ==> {
            &&& seen.supply <= MAX_SUPPLY
            &&& call_ensures(
                audit::check_reserve,
                (seen.vault, seen.rent_floor, seen.supply),
                reserve,
            )
        },
        call_ensures(FinalRun::next, (&run,), r),
    ensures
        r == (if authority is Err {
            Err::<Next, Failure>(authority->Err_0)
        } else if run.bought is None {
            Ok(Next::Buy)
        } else if price is Err {
            Err(price->Err_0)
        } else if event is Err {
            Err(event->Err_0)
        } else if run.sold is None {
            Ok(Next::Sell)
        } else if refund is Err {
            Err(refund->Err_0)
        } else if run.reserve is None {
            Ok(Next::ReadReserve)
        } else if reserve is Err {
            Err(reserve->Err_0)
        } else {
            Ok(Next::Passed)
        }),
{
}

/// The first rehearsal asks the checks in order, and what comes first decides:
/// the price and the event of a buy, then those of a sell, then the reserve.
/// Before each it says what to do.
pub proof fn law_first_run_follows_the_checks(
    run: FirstRun,
    buy_events: &[TradeFields],
    sell_events: &[TradeFields],
    buy_price: Result<u64, Failure>,
    buy_event: Result<TradeFields, Failure>,
    sell_price: Result<u64, Failure>,
    sell_event: Result<TradeFields, Failure>,
    reserve: Result<u64, Failure>,
    r: Result<Next, Failure>,
)
    requires
        run.bought matches Some(sent) ==> {
            &&& sent.trade.supply_before + sent.trade.amount <= MAX_SUPPLY
            &&& call_ensures(audit::check_buy_price, (&sent.trade,), buy_price)
            &&& buy_events@ == sent.events@
            &&& call_ensures(audit::check_buy_event, (&sent.trade, buy_events), buy_event)
        },
        run.sold matches Some(sent) ==> {
            &&& sent.trade.amount <= sent.trade.supply_before <= MAX_SUPPLY
            &&& call_ensures(audit::check_sell_price, (&sent.trade,), sell_price)
            &&& sell_events@ == sent.events@
            &&& call_ensures(audit::check_sell_event, (&sent.trade, sell_events), sell_event)
        },
        run.reserve matches Some(seen) ==> {
            &&& seen.supply <= MAX_SUPPLY
            &&& call_ensures(
                audit::check_reserve,
                (seen.vault, seen.rent_floor, seen.supply),
                reserve,
            )
        },
        call_ensures(FirstRun::next, (&run,), r),
    ensures
        r == (if run.bought is None {
            Ok::<Next, Failure>(Next::Buy)
        } else if buy_price is Err {
            Err(buy_price->Err_0)
        } else if buy_event is Err {
            Err(buy_event->Err_0)
        } else if run.sold is None {
            Ok(Next::Sell)
        } else if sell_price is Err {
            Err(sell_price->Err_0)
        } else if sell_event is Err {
            Err(sell_event->Err_0)
        } else if run.reserve is None {
            Ok(Next::ReadReserve)
        } else if reserve is Err {
            Err(reserve->Err_0)
        } else {
            Ok(Next::Passed)
        }),
{
}

/// An answer ends the polling, silence is followed by waiting, and the service is
/// asked exactly while attempts are left.
pub proof fn law_polling_steps(p: Polling)
    ensures
        p.step(Outcome::Answered) == Step::Done,
        p.step(Outcome::Silent) == Step::Wait,
        p.attempts_left > 0 ==> p.step(Outcome::Started) == Step::Ask && p.step(Outcome::Waited)
            == Step::Ask,
        p.attempts_left == 0 ==> p.step(Outcome::Started) == Step::GiveUp && p.step(Outcome::Waited)
            == Step::GiveUp,
{
}

/// Silence costs one attempt, and nothing else does.
pub proof fn law_polling_counts_silence(p: Polling)
    ensures
        p.after(Outcome::Started) == p,
        p.after(Outcome::Answered) == p,
        p.after(Outcome::Waited) == p,
        p.attempts_left > 0 ==> p.after(Outcome::Silent).attempts_left == p.attempts_left - 1,
        p.attempts_left == 0 ==> p.after(Outcome::Silent).attempts_left == 0,
{
}

} // verus!
