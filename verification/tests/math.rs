//! The checked arithmetic of the program.

use autonomous_mm::math::{
    area_down, area_up, ceil_div, cost_buy, floor_div, guard_treasury, n_of, refund_sell,
    treasury_cut, v_up,
};
use autonomous_mm::params::{
    BPS, DEN, HALF_DEN, LAMPORTS_PER_SOL, MAX_SUPPLY, P0_DEN, P0_NUM, PHI_BPS, S0, TOKEN_DECIMALS,
};

const MAXS: u128 = MAX_SUPPLY as u128;
/// Rent floor of an account without data on a real cluster.
const FLOOR: u128 = 890_880;

fn n_exact(s: u128) -> u128 {
    3 * S0 * S0 * s + 3 * S0 * s * s + s * s * s
}

/// A deterministic source of numbers.
struct Source(u64);

impl Source {
    fn next(&mut self) -> u64 {
        self.0 ^= self.0 << 13;
        self.0 ^= self.0 >> 7;
        self.0 ^= self.0 << 17;
        self.0
    }

    /// A number in `low..high`.
    fn pick(&mut self, low: u128, high: u128) -> u128 {
        low + self.next() as u128 % (high - low)
    }

    /// A supply and an amount within the largest supply.
    fn buy_pair(&mut self) -> (u128, u128) {
        let s = self.pick(0, MAXS);
        (s, self.pick(1, MAXS - s + 1))
    }

    fn buy_pair_small(&mut self) -> (u128, u128) {
        (self.pick(0, MAXS - 1_000_000), self.pick(1, 1_000_001))
    }

    fn sell_pair(&mut self) -> (u128, u128) {
        let s = self.pick(1, MAXS + 1);
        (s, self.pick(1, s + 1))
    }
}

// ---------------------------------------------------------------------------
// Properties of the trades
// ---------------------------------------------------------------------------

#[test]
fn no_round_trip_profit() {
    for s in [0u128, 1, 999, 10_000, 1_000_000, 500_000_000_000] {
        for d in [1u128, 7, 1_000, 999_999, 100_000_000] {
            if s + d > MAX_SUPPLY as u128 {
                continue;
            }
            assert!(cost_buy(s, d).unwrap().0 >= refund_sell(s, d).unwrap().0);
        }
    }
}

#[test]
fn solvency_with_cut_fuzz() {
    let (mut s, mut vault, mut treasury) = (0u128, FLOOR, 0u128);
    let mut x: u64 = 0x9E3779B97F4A7C15;
    for _ in 0..50_000 {
        x ^= x << 13;
        x ^= x >> 7;
        x ^= x << 17;
        let d = (x % 1_000_000 + 1) as u128;
        if x & 1 == 0 && s + d <= MAX_SUPPLY as u128 {
            let (c, sp) = cost_buy(s, d).unwrap();
            let pre = vault + c;
            let cut = treasury_cut(sp, pre, FLOOR, s + d).unwrap();
            assert!(cut <= sp);
            vault = pre - cut;
            treasury += cut;
            s += d;
        } else if s >= d {
            let (r, sp) = refund_sell(s - d, d).unwrap();
            assert!(vault >= r + FLOOR, "I8");
            let pre = vault - r;
            let cut = treasury_cut(sp, pre, FLOOR, s - d).unwrap();
            assert!(cut <= sp);
            vault = pre - cut;
            treasury += cut;
            s -= d;
        }
        assert!(vault >= FLOOR + v_up(s).unwrap(), "I5 violato");
    }
    assert!(treasury > 0, "la treasury non ha mai ricevuto");
}

#[test]
fn treasury_paid_in_pure_accumulation() {
    let (mut s, mut vault, mut treasury) = (0u128, FLOOR, 0u128);
    for _ in 0..1000 {
        let d = 100_000_000u128;
        let (c, sp) = cost_buy(s, d).unwrap();
        let pre = vault + c;
        let cut = treasury_cut(sp, pre, FLOOR, s + d).unwrap();
        vault = pre - cut;
        treasury += cut;
        s += d;
    }
    assert!(treasury > 0, "treasury non pagata in solo-buy");
}

#[test]
fn guard_never_bricks_trade() {
    let r = 890_880;
    assert_eq!(guard_treasury(100, true, 0, 0, r), 0);
    assert_eq!(guard_treasury(100, true, 0, r, r), 100);
    assert_eq!(guard_treasury(100, true, 0, r - 101, r), 0);
    assert_eq!(guard_treasury(100, true, 0, r - 100, r), 100);
    assert_eq!(guard_treasury(100, true, 0, r - 1, r), 100);
    assert_eq!(guard_treasury(900_000, true, 0, 0, r), 900_000);
    assert_eq!(guard_treasury(900_000, false, 0, 0, r), 0);
    assert_eq!(guard_treasury(900_000, true, 8, r, r), 0);
}

// ---------------------------------------------------------------------------
// Rounding
// ---------------------------------------------------------------------------

#[test]
fn area_up_is_exactly_ceil() {
    let mut source = Source(0x1234_5678_9ABC_DEF1);
    for _ in 0..2000 {
        let (s, d) = source.buy_pair();
        let a = area_up(s, d).unwrap();
        let num = (n_exact(s + d) - n_exact(s)) * P0_NUM;
        assert!(a * DEN >= num, "area_up sotto il valore esatto");
        if a > 0 {
            assert!((a - 1) * DEN < num, "area_up non e' minimale");
        }
    }
}

#[test]
fn area_down_is_exactly_floor() {
    let mut source = Source(0x2234_5678_9ABC_DEF1);
    for _ in 0..2000 {
        let (s, d) = source.buy_pair();
        let a = area_down(s, d).unwrap();
        let num = (n_exact(s + d) - n_exact(s)) * P0_NUM;
        assert!(a * DEN <= num, "area_down sopra il valore esatto");
        assert!((a + 1) * DEN > num, "area_down non e' massimale");
    }
}

#[test]
fn up_and_down_differ_by_at_most_one() {
    let mut source = Source(0x3234_5678_9ABC_DEF1);
    for _ in 0..2000 {
        let (s, d) = source.buy_pair();
        let (u, l) = (area_up(s, d).unwrap(), area_down(s, d).unwrap());
        assert!(u >= l && u - l <= 1);
    }
}

// ---------------------------------------------------------------------------
// No value can be extracted
// ---------------------------------------------------------------------------

#[test]
fn round_trip_never_profits() {
    let mut source = Source(0x4234_5678_9ABC_DEF1);
    for _ in 0..2000 {
        let (s, d) = source.buy_pair();
        let cost = cost_buy(s, d).unwrap().0;
        let back = refund_sell(s, d).unwrap().0;
        assert!(cost >= back, "round trip profittevole: {cost} < {back}");
    }
}

#[test]
fn splitting_a_buy_never_saves() {
    let mut source = Source(0x5234_5678_9ABC_DEF1);
    for _ in 0..2000 {
        let (s, d) = source.buy_pair_small();
        let k = source.pick(2, 8);
        let chunk = d / k;
        if chunk == 0 {
            continue;
        }
        let bulk = cost_buy(s, d).unwrap().0;
        let (mut cur, mut total) = (s, 0u128);
        for i in 0..k {
            let piece = if i == k - 1 { d - chunk * (k - 1) } else { chunk };
            total += cost_buy(cur, piece).unwrap().0;
            cur += piece;
        }
        assert!(total >= bulk, "spezzare l'acquisto costa meno: {total} < {bulk}");
    }
}

#[test]
fn splitting_a_sell_never_gains() {
    let mut source = Source(0x6234_5678_9ABC_DEF1);
    for _ in 0..2000 {
        let (s, d) = source.sell_pair();
        let k = source.pick(2, 8);
        let chunk = d / k;
        if chunk == 0 {
            continue;
        }
        let bulk = refund_sell(s - d, d).unwrap().0;
        let (mut cur, mut total) = (s, 0u128);
        for i in 0..k {
            let piece = if i == k - 1 { d - chunk * (k - 1) } else { chunk };
            total += refund_sell(cur - piece, piece).unwrap().0;
            cur -= piece;
        }
        assert!(total <= bulk, "spezzare la vendita rende di piu': {total} > {bulk}");
    }
}

#[test]
fn closed_cycle_never_profits() {
    let mut source = Source(0x7234_5678_9ABC_DEF1);
    for _ in 0..2000 {
        let s0 = source.pick(0, 500_000_000_000);
        let (mut s, mut paid, mut got) = (s0, 0u128, 0u128);
        for _ in 0..source.pick(1, 12) {
            let is_buy = source.next() & 1 == 0;
            let d = source.pick(1, 5_000_000);
            if is_buy && s + d <= MAXS {
                paid += cost_buy(s, d).unwrap().0;
                s += d;
            } else if !is_buy && d <= s {
                got += refund_sell(s - d, d).unwrap().0;
                s -= d;
            }
        }
        if s > s0 {
            got += refund_sell(s0, s - s0).unwrap().0;
        } else if s < s0 {
            paid += cost_buy(s, s0 - s).unwrap().0;
        }
        assert!(paid >= got, "ciclo chiuso profittevole: pagato {paid}, incassato {got}");
    }
}

// ---------------------------------------------------------------------------
// Solvency
// ---------------------------------------------------------------------------

#[test]
fn refund_never_exceeds_liability_drop() {
    let mut source = Source(0x8234_5678_9ABC_DEF1);
    for _ in 0..1500 {
        let (s_post, d) = source.buy_pair();
        let refund = refund_sell(s_post, d).unwrap().0;
        let drop = v_up(s_post + d).unwrap() - v_up(s_post).unwrap();
        assert!(refund <= drop, "rimborso {refund} > calo liability {drop}");
    }
}

#[test]
fn cut_respects_both_caps() {
    let mut source = Source(0x9234_5678_9ABC_DEF1);
    for _ in 0..1500 {
        let spread = source.pick(0, 1_000_000_000);
        let extra = source.pick(0, 1_000_000_000);
        let s_post = source.pick(0, MAXS + 1);
        let required = FLOOR + v_up(s_post).unwrap();
        let vault_pre_cut = required + extra;
        let cut = treasury_cut(spread, vault_pre_cut, FLOOR, s_post).unwrap();
        assert!(cut <= spread, "L2 violato");
        assert!(vault_pre_cut - cut >= required, "L3/I5 violato dopo il cut");
        assert_eq!(cut, spread.min(extra));
    }
}

#[test]
fn cut_is_zero_at_the_floor() {
    let mut source = Source(0xA234_5678_9ABC_DEF1);
    for _ in 0..1500 {
        let spread = source.pick(0, 1_000_000_000);
        let s_post = source.pick(0, MAXS + 1);
        let exact = FLOOR + v_up(s_post).unwrap();
        assert_eq!(treasury_cut(spread, exact, FLOOR, s_post).unwrap(), 0);
    }
}

#[test]
fn cut_is_zero_below_the_floor() {
    assert_eq!(treasury_cut(1_000, 0, FLOOR, 0), Some(0));
    assert_eq!(treasury_cut(1_000, FLOOR + 7, FLOOR, 0), Some(7));
    assert_eq!(treasury_cut(1_000, u128::MAX, u128::MAX, MAXS), None);
    assert_eq!(treasury_cut(1_000, u128::MAX, 0, u128::MAX), None);
}

#[test]
fn long_run_solvency_and_accounting() {
    let (mut s, mut vault, mut treasury) = (0u128, FLOOR, 0u128);
    let (mut collected_spread, mut user_paid, mut user_got) = (0u128, 0u128, 0u128);
    let mut x: u64 = 0xDEADBEEFCAFEBABE;

    for _ in 0..200_000 {
        x ^= x << 13;
        x ^= x >> 7;
        x ^= x << 17;
        let d = (x % 5_000_000 + 1) as u128;

        if x & 1 == 0 && s + d <= MAXS {
            let (c, sp) = cost_buy(s, d).unwrap();
            let pre = vault + c;
            let cut = treasury_cut(sp, pre, FLOOR, s + d).unwrap();
            vault = pre - cut;
            treasury += cut;
            collected_spread += sp;
            user_paid += c;
            s += d;
        } else if s >= d {
            let (r, sp) = refund_sell(s - d, d).unwrap();
            assert!(vault >= r + FLOOR, "I8: vault {vault} < refund {r} + floor");
            let pre = vault - r;
            let cut = treasury_cut(sp, pre, FLOOR, s - d).unwrap();
            vault = pre - cut;
            treasury += cut;
            collected_spread += sp;
            user_got += r;
            s -= d;
        }
        assert!(vault >= FLOOR + v_up(s).unwrap(), "I5 violato a supply {s}");
    }

    assert!(treasury <= collected_spread, "la treasury ha preso piu' dello spread");
    assert!(treasury > 0, "la treasury non ha mai incassato");
    assert_eq!(user_paid - user_got, (vault - FLOOR) + treasury);
}

#[test]
fn bank_run_everyone_can_exit() {
    for seed in [1u64, 42, 7777, 0xABCDEF] {
        let (mut s, mut vault, mut treasury) = (0u128, FLOOR, 0u128);
        let mut x = seed | 1;

        for _ in 0..500 {
            x ^= x << 13;
            x ^= x >> 7;
            x ^= x << 17;
            let d = (x % 1_000_000_000 + 1) as u128;
            if s + d > MAXS {
                continue;
            }
            let (c, sp) = cost_buy(s, d).unwrap();
            let pre = vault + c;
            let cut = treasury_cut(sp, pre, FLOOR, s + d).unwrap();
            vault = pre - cut;
            treasury += cut;
            s += d;
        }

        while s > 0 {
            let d = (s / 7).max(1).min(s);
            let (r, sp) = refund_sell(s - d, d).unwrap();
            assert!(vault >= r + FLOOR, "bank run: vault esaurito a supply {s}");
            let pre = vault - r;
            let cut = treasury_cut(sp, pre, FLOOR, s - d).unwrap();
            vault = pre - cut;
            treasury += cut;
            s -= d;
        }

        assert_eq!(s, 0);
        assert!(vault >= FLOOR, "vault sotto il rent floor dopo l'uscita totale");
        assert!(treasury > 0);
    }
}

// ---------------------------------------------------------------------------
// Monotony
// ---------------------------------------------------------------------------

#[test]
fn cost_is_monotone_in_supply() {
    let mut source = Source(0xB234_5678_9ABC_DEF1);
    for _ in 0..1000 {
        let s = source.pick(0, 400_000_000_000);
        let ds = source.pick(1, 400_000_000_000);
        let d = source.pick(1, 1_000_000);
        let low = cost_buy(s, d).unwrap().0;
        let high = cost_buy(s + ds, d).unwrap().0;
        assert!(high >= low, "prezzo non monotono: {high} < {low}");
    }
}

#[test]
fn cost_is_monotone_in_amount() {
    let mut source = Source(0xC234_5678_9ABC_DEF1);
    for _ in 0..1000 {
        let s = source.pick(0, 500_000_000_000);
        let d = source.pick(1, 1_000_000);
        let extra = source.pick(1, 1_000_000);
        assert!(cost_buy(s, d + extra).unwrap().0 >= cost_buy(s, d).unwrap().0);
    }
}

#[test]
fn liability_is_monotone() {
    let mut source = Source(0xD234_5678_9ABC_DEF1);
    for _ in 0..1000 {
        let a = source.pick(0, MAXS + 1);
        let b = source.pick(0, MAXS + 1);
        assert!(v_up(a.max(b)).unwrap() >= v_up(a.min(b)).unwrap());
    }
}

#[test]
fn spread_is_consistent() {
    let mut source = Source(0xE234_5678_9ABC_DEF1);
    for _ in 0..1000 {
        let (s, d) = source.buy_pair_small();
        let (cost, spread) = cost_buy(s, d).unwrap();
        let area = area_up(s, d).unwrap();
        assert_eq!(cost - spread, area, "cost - spread != area");
        assert!(cost >= area, "I3: il buy incassa meno dell'area");

        let (refund, held) = refund_sell(s, d).unwrap();
        let area_d = area_down(s, d).unwrap();
        assert_eq!(refund + held, area_d, "refund + trattenuto != area");
        assert!(refund <= area_d, "I4: il sell paga piu' dell'area");
    }
}

// ---------------------------------------------------------------------------
// Edges and overflow
// ---------------------------------------------------------------------------

#[test]
fn boundaries_do_not_panic_and_stay_consistent() {
    assert_eq!(v_up(0).unwrap(), 0);
    assert!(v_up(MAXS).unwrap() > 0);
    assert!(cost_buy(0, 1).unwrap().0 >= 1);
    assert!(cost_buy(MAXS - 1, 1).is_some());
    assert!(refund_sell(MAXS - 1, 1).is_some());
    assert!(cost_buy(0, MAXS).is_some());
    assert!(refund_sell(0, MAXS).is_some());
    let full = refund_sell(0, MAXS).unwrap().0;
    let raise = cost_buy(0, MAXS).unwrap().0;
    assert!(raise > full, "comprare tutto deve costare piu' di rivendere tutto");
}

#[test]
fn overflow_returns_none_instead_of_panicking() {
    assert!(cost_buy(0, u64::MAX as u128).is_none());
    assert!(cost_buy(MAXS, u64::MAX as u128).is_none());
    assert!(area_up(u64::MAX as u128, u64::MAX as u128).is_none());
    assert!(n_of(u128::MAX).is_none());
}

#[test]
fn overflow_is_none_in_every_function() {
    assert_eq!(area_up(u128::MAX, 1), None);
    assert_eq!(area_down(u128::MAX, 1), None);
    assert_eq!(area_down(u64::MAX as u128, 1), None);
    assert_eq!(refund_sell(0, u64::MAX as u128), None);
    assert_eq!(v_up(u64::MAX as u128), None);
    assert_eq!(ceil_div(u128::MAX, 2), None);
    assert_eq!(ceil_div(u128::MAX, 1), Some(u128::MAX));
    assert_eq!(floor_div(u128::MAX, 2), Some(u128::MAX / 2));
}

#[test]
fn worst_case_fits_in_u128_with_known_margin() {
    let worst = n_of(MAXS).unwrap().checked_mul(P0_NUM).unwrap();
    assert!(worst <= u128::MAX);
    let margin_x1000 = (u128::MAX / (worst / 1000)) as u64;
    assert!(
        (1100..=1200).contains(&margin_x1000),
        "margine di overflow cambiato: {margin_x1000}/1000"
    );
}

#[test]
fn curve_multiplier_is_ten() {
    let a = S0 + MAXS;
    let lhs = a * a * 1000;
    let rhs = S0 * S0;
    assert!(lhs >= 9990 * rhs && lhs <= 10010 * rhs, "moltiplicatore != 10x");
}

#[test]
fn exact_values_of_the_curve() {
    // the first unit costs a hundred lamports and the spread, rounded up
    assert_eq!(cost_buy(0, 1), Some((102, 1)));
    assert_eq!(refund_sell(0, 1), Some((99, 1)));
    assert_eq!(area_up(0, 1), Some(101));
    assert_eq!(area_down(0, 1), Some(100));
    assert_eq!(n_of(0), Some(0));
    assert_eq!(n_of(1), Some(3 * S0 * S0 + 3 * S0 + 1));
    assert_eq!(ceil_div(7, 2), Some(4));
    assert_eq!(ceil_div(8, 2), Some(4));
    assert_eq!(floor_div(7, 2), Some(3));
    // about 472 076 SOL are in the vault when all is sold
    let full = v_up(MAXS).unwrap();
    assert_eq!(full, 472_075_922_005_915);
    assert_eq!((full + LAMPORTS_PER_SOL as u128 / 2) / LAMPORTS_PER_SOL as u128, 472_076);
}

#[test]
fn the_area_is_under_the_price() {
    // P(s) = P0 * (1 + s/S0)^2, in units of 1 / S0^2 lamport
    let price = |s: u128| P0_NUM * (S0 + s) * (S0 + s);
    assert_eq!(price(0), P0_NUM * S0 * S0);
    for (s, d) in [(0u128, 1u128), (0, 1_000_000), (1, 7), (999_999_999_999, 1), (5_000, 0)] {
        let area = (n_of(s + d).unwrap() - n_of(s).unwrap()) * P0_NUM;
        assert!(3 * price(s) * d <= area && area <= 3 * price(s + d) * d);
    }
}

#[test]
fn parameters_of_the_market() {
    assert_eq!(P0_NUM, 100);
    assert_eq!(P0_DEN, 1);
    assert_eq!(MAX_SUPPLY, 1_000_000_000_000);
    assert_eq!(S0, 462_475_295_574);
    assert_eq!(PHI_BPS, 100);
    assert_eq!(HALF_DEN, 20_000);
    assert_eq!(BPS, 10_000);
    assert_eq!(DEN, 3 * S0 * S0);
    assert_eq!(TOKEN_DECIMALS, 6);
    assert_eq!(LAMPORTS_PER_SOL, 1_000_000_000);
    // a tenth of a SOL per whole token at supply zero
    assert_eq!(P0_NUM * 10u128.pow(TOKEN_DECIMALS as u32), LAMPORTS_PER_SOL as u128 / 10);
}

// ---------------------------------------------------------------------------
// The guard of the treasury
// ---------------------------------------------------------------------------

#[test]
fn guard_treasury_exhaustive_boundaries() {
    let r: u64 = 890_880;
    for &cut in &[0u64, 1, 100, r - 1, r, r + 1, u64::MAX] {
        for &owner_sys in &[true, false] {
            for &data in &[0usize, 1, 8] {
                for &bal in &[0u64, 1, r - 1, r, r + 1, u64::MAX] {
                    let out = guard_treasury(cut, owner_sys, data, bal, r);
                    assert!(out == 0 || out == cut, "output diverso da 0 o cut");
                    if !owner_sys || data != 0 {
                        assert_eq!(out, 0, "treasury non system-owned o con dati");
                    } else {
                        match bal.checked_add(cut) {
                            Some(t) if t >= r => assert_eq!(out, cut),
                            _ => assert_eq!(out, 0, "overflow o sotto rent"),
                        }
                    }
                }
            }
        }
    }
}

#[test]
fn guard_treasury_never_overflows_balance() {
    assert_eq!(guard_treasury(u64::MAX, true, 0, u64::MAX, 890_880), 0);
    assert_eq!(guard_treasury(2, true, 0, u64::MAX - 1, 890_880), 0);
}

#[test]
fn guard_output_never_exceeds_cut() {
    let mut source = Source(0xF234_5678_9ABC_DEF1);
    for _ in 0..4000 {
        let cut = source.next();
        let owner = source.next() & 1 == 0;
        let data = source.pick(0, 64) as usize;
        let bal = source.next();
        let rent = source.pick(0, 2_000_000) as u64;
        let out = guard_treasury(cut, owner, data, bal, rent);
        assert!(out <= cut);
        assert!(out == 0 || out == cut);
    }
}

// ---------------------------------------------------------------------------
// The commission
// ---------------------------------------------------------------------------

#[test]
fn buy_charges_exactly_half_the_spread() {
    let mut source = Source(0x1334_5678_9ABC_DEF1);
    for _ in 0..2000 {
        let (s, d) = source.buy_pair_small();
        let area = area_up(s, d).unwrap();
        let cost = cost_buy(s, d).unwrap().0;
        let target = area * (HALF_DEN + PHI_BPS);
        assert!(cost * HALF_DEN >= target, "buy sotto la commissione dovuta");
        assert!((cost - 1) * HALF_DEN < target, "buy sopra la commissione dovuta");
    }
}

#[test]
fn sell_withholds_exactly_half_the_spread() {
    let mut source = Source(0x1434_5678_9ABC_DEF1);
    for _ in 0..2000 {
        let (s, d) = source.buy_pair_small();
        let area = area_down(s, d).unwrap();
        let refund = refund_sell(s, d).unwrap().0;
        let target = area * (HALF_DEN - PHI_BPS);
        assert!(refund * HALF_DEN <= target, "sell paga piu' del dovuto");
        assert!((refund + 1) * HALF_DEN > target, "sell paga meno del dovuto");
    }
}

#[test]
fn both_sides_actually_collect() {
    let mut source = Source(0x1534_5678_9ABC_DEF1);
    for _ in 0..2000 {
        let s = source.pick(0, 900_000_000_000);
        let d = source.pick(1_000_000, 10_000_000);
        assert!(cost_buy(s, d).unwrap().1 > 0, "il lato acquisto non trattiene nulla");
        assert!(refund_sell(s, d).unwrap().1 > 0, "il lato vendita non trattiene nulla");
    }
}

#[test]
fn round_trip_costs_about_one_percent() {
    let mut source = Source(0x1634_5678_9ABC_DEF1);
    for _ in 0..2000 {
        let s = source.pick(0, 800_000_000_000);
        let d = source.pick(10_000_000, 100_000_000);
        let cost = cost_buy(s, d).unwrap().0;
        let back = refund_sell(s, d).unwrap().0;
        let loss = cost - back;
        assert!(loss * 1000 >= cost * 9, "giro troppo economico: {loss} su {cost}");
        assert!(loss * 1000 <= cost * 11, "giro troppo caro: {loss} su {cost}");
    }
}

#[test]
fn rounding_weighs_more_on_the_smallest_trades() {
    // from 29 units on a round trip costs a percent at any supply; below, one
    // lamport of rounding can weigh more
    let cost = cost_buy(242_513_660, 28).unwrap().0;
    let loss = cost - refund_sell(242_513_660, 28).unwrap().0;
    assert!(loss * 1000 > cost * 11);
    let cost = cost_buy(242_513_660, 29).unwrap().0;
    let loss = cost - refund_sell(242_513_660, 29).unwrap().0;
    assert!(loss * 1000 >= cost * 9 && loss * 1000 <= cost * 11);
}

#[test]
fn both_sides_share_the_spread_to_the_lamport() {
    assert_eq!((cost_buy(0, 0).unwrap().1, refund_sell(0, 0).unwrap().1), (0, 0));
    let mut source = Source(0x1734_5678_9ABC_DEF1);
    for _ in 0..2000 {
        let (s, d) = source.buy_pair();
        let added = cost_buy(s, d).unwrap().1;
        let withheld = refund_sell(s, d).unwrap().1;
        assert!(withheld <= added && added <= withheld + 1);
    }
    // one lamport apart where the rounding of the area crosses a step
    assert_eq!(cost_buy(0, 2).unwrap().1, 2);
    assert_eq!(refund_sell(0, 2).unwrap().1, 1);
}

#[test]
fn spread_split_is_symmetric() {
    for (s, d) in [
        (0u128, 50_000_000u128),
        (300_000_000_000, 10_000_000),
        (900_000_000_000, 1_000_000),
    ] {
        let (_, buy_spread) = cost_buy(s, d).unwrap();
        let (_, sell_held) = refund_sell(s, d).unwrap();
        let diff = buy_spread.abs_diff(sell_held);
        assert!(
            diff * 1000 <= buy_spread.max(sell_held),
            "spread asimmetrico a (s={s}, d={d}): buy {buy_spread}, sell {sell_held}"
        );
    }
}
