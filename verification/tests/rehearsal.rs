//! What the rehearsal of a deployment checks, and how it waits.

use autonomous_mm::audit::{
    check_authority, check_buy_event, check_buy_price, check_one_event, check_refunded, check_reserve,
    check_sell_event, check_sell_price, expected_cost, expected_refund, lamports_paid,
    lamports_received, liability, Failure, Observed, SIGNATURE_FEE,
};
use autonomous_mm::curve;
use autonomous_mm::math;
use autonomous_mm::params::MAX_SUPPLY;
use autonomous_mm::polling::{
    Outcome, Polling, Step, AIRDROP_ATTEMPTS, TRANSACTION_ATTEMPTS, WAIT_MILLIS,
};
use autonomous_mm::rehearsal::{FinalRun, FirstRun, Next, Reserve, Sent};

#[test]
fn the_two_curves_agree() {
    let mut x: u64 = 0xC0FFEE123456789;
    for _ in 0..5_000 {
        x ^= x << 13;
        x ^= x >> 7;
        x ^= x << 17;
        let s = x as u128 % MAX_SUPPLY as u128;
        let d = (x >> 20) as u128 % (MAX_SUPPLY as u128 - s + 1);
        assert_eq!(math::cost_buy(s, d).unwrap().0, curve::cost_buy(s, d));
        assert_eq!(math::refund_sell(s, d).unwrap().0, curve::refund_sell(s, d));
        assert_eq!(math::v_up(s).unwrap(), curve::v_up(s));
    }
    assert_eq!(curve::DEN, 3 * curve::S0 * curve::S0);
    assert_eq!((curve::P0, curve::PHI_BPS, curve::HALF), (100, 100, 20_000));
}

#[test]
fn exact_values_of_the_reference_curve() {
    assert_eq!(curve::cost_buy(0, 1), 102);
    assert_eq!(curve::refund_sell(0, 1), 99);
    assert_eq!(curve::v_up(0), 0);
    assert_eq!(curve::v_up(1), 101);
    assert_eq!(curve::v_up(MAX_SUPPLY as u128), 472_075_922_005_915);
    assert_eq!(expected_cost(0, 1_000_000), 100_500_219);
    assert_eq!(expected_refund(1_000_000, 1_000_000), 99_500_214);
    assert_eq!(liability(1), 101);
}

#[test]
fn balances_are_compared_besides_the_fee() {
    assert_eq!(SIGNATURE_FEE, 5_000);
    assert_eq!(lamports_paid(10_000, 4_000), Some(1_000));
    assert_eq!(lamports_paid(10_000, 5_000), Some(0));
    assert_eq!(lamports_paid(10_000, 5_001), None);
    assert_eq!(lamports_paid(0, 1), None);
    assert_eq!(lamports_received(10_000, 6_000), Some(1_000));
    assert_eq!(lamports_received(10_000, 5_000), Some(0));
    assert_eq!(lamports_received(10_000, 4_999), None);
    assert_eq!(lamports_received(5_000, u64::MAX), Some(u64::MAX));
    assert_eq!(lamports_received(4_999, u64::MAX), None);
}

fn observed_buy() -> Observed {
    let cost = 100_500_219;
    Observed {
        supply_before: 0,
        amount: 1_000_000,
        balance_before: 1_000_000_000,
        balance_after: 1_000_000_000 - cost - SIGNATURE_FEE,
    }
}

#[test]
fn a_settled_buy_passes() {
    let o = observed_buy();
    assert_eq!(check_buy_price(&o), Ok(100_500_219));
    let event = (true, 1_000_000, 100_500_219, 500_002, 1_000_000);
    assert_eq!(check_buy_event(&o, &[event]), Ok(event));
}

#[test]
fn a_wrong_price_of_a_buy_is_found() {
    let o = observed_buy();
    let dear = Observed { balance_after: o.balance_after - 1, ..o };
    assert_eq!(check_buy_price(&dear), Err(Failure::PriceDiverges));
    let gain = Observed { balance_after: o.balance_before, ..o };
    assert_eq!(check_buy_price(&gain), Err(Failure::BalanceDiverges));
}

#[test]
fn a_wrong_event_of_a_buy_is_found() {
    let o = observed_buy();
    let event = (true, 1_000_000, 100_500_219, 500_002, 1_000_000);
    assert_eq!(check_buy_event(&o, &[]), Err(Failure::WrongEventCount));
    assert_eq!(check_buy_event(&o, &[event, event]), Err(Failure::WrongEventCount));
    let fail = |e| check_buy_event(&o, &[e]).unwrap_err();
    assert_eq!(fail((false, 1_000_000, 100_500_219, 0, 1_000_000)), Failure::WrongSide);
    assert_eq!(fail((true, 1, 100_500_219, 0, 1_000_000)), Failure::WrongAmount);
    assert_eq!(fail((true, 1_000_000, 1, 0, 1_000_000)), Failure::WrongLamports);
    assert_eq!(fail((true, 1_000_000, 100_500_219, 0, 1)), Failure::WrongSupply);
    // the cut is not checked
    assert!(check_buy_event(&o, &[(true, 1_000_000, 100_500_219, 7, 1_000_000)]).is_ok());
}

#[test]
fn a_settled_sell_passes_and_a_wrong_one_does_not() {
    let refund = 99_500_214;
    let o = Observed {
        supply_before: 1_000_000,
        amount: 1_000_000,
        balance_before: 50_000,
        balance_after: 50_000 + refund - SIGNATURE_FEE,
    };
    assert_eq!(check_sell_price(&o), Ok(refund));
    let cheap = Observed { balance_after: o.balance_after - 1, ..o };
    assert_eq!(check_sell_price(&cheap), Err(Failure::PriceDiverges));
    let loss = Observed { balance_after: 0, ..o };
    assert_eq!(check_sell_price(&loss), Err(Failure::BalanceDiverges));

    let event = (false, 1_000_000, refund, 500_002, 0);
    assert_eq!(check_sell_event(&o, &[event]), Ok(event));
    assert_eq!(check_sell_event(&o, &[]), Err(Failure::WrongEventCount));
    assert_eq!(
        check_sell_event(&o, &[(true, 1_000_000, refund, 500_002, 0)]),
        Err(Failure::WrongSide)
    );
    assert_eq!(
        check_sell_event(&o, &[(false, 1_000_000, refund, 500_002, 1)]),
        Err(Failure::WrongSupply)
    );
}

/// A sell whose price is not looked at.
fn moved(balance_before: u64, balance_after: u64) -> Observed {
    Observed { supply_before: 1, amount: 1, balance_before, balance_after }
}

#[test]
fn a_sell_has_to_pay_something() {
    assert_eq!(check_refunded(&moved(10_000, 5_001)), Ok(1));
    assert_eq!(check_refunded(&moved(10_000, 5_000)), Err(Failure::NothingRefunded));
    assert_eq!(check_refunded(&moved(10_000, 4_999)), Err(Failure::BalanceDiverges));
}

#[test]
fn a_log_has_to_hold_one_event() {
    let event = (true, 1, 2, 3, 4);
    assert_eq!(check_one_event(&[event]), Ok(event));
    assert_eq!(check_one_event(&[]), Err(Failure::WrongEventCount));
    assert_eq!(check_one_event(&[event, event]), Err(Failure::WrongEventCount));
}

#[test]
fn the_reserve_has_to_cover_floor_and_liability() {
    assert_eq!(check_reserve(890_880 + 101, 890_880, 1), Ok(0));
    assert_eq!(check_reserve(890_880 + 111, 890_880, 1), Ok(10));
    assert_eq!(check_reserve(890_880 + 100, 890_880, 1), Err(Failure::Insolvent));
    assert_eq!(check_reserve(u64::MAX, u64::MAX, 1), Err(Failure::Insolvent));
}

/// Plays the caller: the service answers at attempt `answers_at`, if ever.
fn asked(attempts: u32, answers_at: Option<u32>) -> (u32, u32, Step) {
    let mut polling = Polling { attempts_left: attempts };
    let (mut asks, mut waits) = (0, 0);
    let mut step = polling.advance(Outcome::Started);
    loop {
        match step {
            Step::Ask => {
                asks += 1;
                let outcome =
                    if Some(asks) == answers_at { Outcome::Answered } else { Outcome::Silent };
                step = polling.advance(outcome);
            }
            Step::Wait => {
                waits += 1;
                step = polling.advance(Outcome::Waited);
            }
            Step::Done | Step::GiveUp => return (asks, waits, step),
        }
    }
}

#[test]
fn a_silent_service_is_asked_as_often_as_allowed() {
    assert_eq!(asked(AIRDROP_ATTEMPTS, None), (60, 60, Step::GiveUp));
    assert_eq!(asked(TRANSACTION_ATTEMPTS, None), (40, 40, Step::GiveUp));
    assert_eq!(WAIT_MILLIS, 300);
    assert_eq!(asked(0, None), (0, 0, Step::GiveUp));
    assert_eq!(asked(60, Some(1)), (1, 0, Step::Done));
    assert_eq!(asked(60, Some(60)), (60, 59, Step::Done));
    assert_eq!(asked(60, Some(61)), (60, 60, Step::GiveUp));
}

/// A program data account with an upgrade authority, or without.
fn program_data(has_authority: bool) -> Option<Vec<u8>> {
    let mut data = vec![6u8; 45];
    data[12] = has_authority as u8;
    Some(data)
}

fn bought() -> Sent {
    let event = (true, 1_000_000, 100_500_219, 500_002, 1_000_000);
    Sent { trade: observed_buy(), events: vec![event] }
}

fn sold() -> Sent {
    let trade = Observed {
        supply_before: 1_000_000,
        amount: 1_000_000,
        balance_before: 50_000,
        balance_after: 50_000 + 99_500_214 - SIGNATURE_FEE,
    };
    Sent { trade, events: vec![(false, 1_000_000, 99_500_214, 500_002, 0)] }
}

const COVERED: Reserve = Reserve { vault: 890_880, rent_floor: 890_880, supply: 0 };
const SHORT: Reserve = Reserve { vault: 890_879, rent_floor: 890_880, supply: 0 };

#[test]
fn an_authority_is_found_in_the_program_data() {
    assert_eq!(check_authority(&program_data(true)), Err(Failure::AuthorityPresent));
    assert_eq!(check_authority(&program_data(false)), Ok(()));
    assert_eq!(check_authority(&None), Ok(()));
}

#[test]
fn a_new_market_is_rehearsed_in_order() {
    let mut run = FirstRun { bought: None, sold: None, reserve: None };
    assert_eq!(run.next(), Ok(Next::Buy));
    run.bought = Some(bought());
    assert_eq!(run.next(), Ok(Next::Sell));
    run.sold = Some(sold());
    assert_eq!(run.next(), Ok(Next::ReadReserve));
    run.reserve = Some(COVERED);
    assert_eq!(run.next(), Ok(Next::Passed));
    run.reserve = Some(SHORT);
    assert_eq!(run.next(), Err(Failure::Insolvent));
    // the first failure counts
    run.sold = Some(Sent { events: vec![], ..sold() });
    assert_eq!(run.next(), Err(Failure::WrongEventCount));
    run.sold = Some(Sent { trade: moved(1, 1), events: vec![] });
    assert_eq!(run.next(), Err(Failure::PriceDiverges));
    run.bought = Some(Sent { events: vec![(false, 0, 0, 0, 0)], ..bought() });
    assert_eq!(run.next(), Err(Failure::WrongSide));
}

#[test]
fn a_final_market_is_rehearsed_in_order() {
    let mut run =
        FinalRun { program_data: program_data(false), bought: None, sold: None, reserve: None };
    assert_eq!(run.next(), Ok(Next::Buy));
    // the fields of the event are not looked at
    run.bought = Some(Sent { events: vec![(false, 0, 0, 0, 0)], ..bought() });
    assert_eq!(run.next(), Ok(Next::Sell));
    run.sold = Some(moved(10_000, 5_001));
    assert_eq!(run.next(), Ok(Next::ReadReserve));
    run.reserve = Some(COVERED);
    assert_eq!(run.next(), Ok(Next::Passed));
    // the first failure counts
    run.reserve = Some(SHORT);
    assert_eq!(run.next(), Err(Failure::Insolvent));
    run.sold = Some(moved(10_000, 5_000));
    assert_eq!(run.next(), Err(Failure::NothingRefunded));
    run.bought = Some(Sent { events: vec![], ..bought() });
    assert_eq!(run.next(), Err(Failure::WrongEventCount));
    run.bought = Some(Sent { trade: moved(0, 0), events: vec![] });
    assert_eq!(run.next(), Err(Failure::BalanceDiverges));
    run.program_data = program_data(true);
    assert_eq!(run.next(), Err(Failure::AuthorityPresent));
}

#[test]
fn an_authority_stops_everything() {
    let run = FinalRun {
        program_data: program_data(true),
        bought: Some(bought()),
        sold: Some(sold().trade),
        reserve: Some(COVERED),
    };
    assert_eq!(run.next(), Err(Failure::AuthorityPresent));
    let nothing_sent =
        FinalRun { program_data: program_data(true), bought: None, sold: None, reserve: None };
    assert_eq!(nothing_sent.next(), Err(Failure::AuthorityPresent));
}
