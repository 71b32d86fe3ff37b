//! Reference curve: a second computation of the prices, written from the
//! formulas alone and without checked arithmetic.

use crate::lemmas;
use crate::model;
use vstd::prelude::*;

verus! {

pub const P0: u128 = 100;

pub const S0: u128 = 462_475_295_574;

pub const PHI_BPS: u128 = 100;

pub const HALF: u128 = 20_000;

pub const DEN: u128 = 3 * S0 * S0;

fn n(s: u128) -> (r: u128)
    requires
        model::n(s as int) <= u128::MAX,
    ensures
        r == model::n(s as int),
{
    proof {
        lemmas::lemma_n_nonnegative(s as int);
        let i = s as int;
        let c = 3 * S0 as int;
        assert(c * i * i == c * (i * i)) by (nonlinear_arith);
        assert(0 <= c * i <= c * (i * i)) by (nonlinear_arith)
            requires
                0 <= i,
                0 <= c,
        ;
    }
    3 * S0 * S0 * s + 3 * S0 * s * s + s * s * s
}

fn div_ceil(a: u128, b: u128) -> (r: u128)
    requires
        b > 0,
        a + b <= u128::MAX,
    ensures
        r == model::ceil_quotient(a as int, b as int),
{
    (a + b - 1) / b
}

/// Cost of a buy of `d` units at supply `s`.
pub fn cost_buy(s: u128, d: u128) -> (r: u128)
    requires
        model::n(s + d) <= u128::MAX,
        model::area_numerator(s as int, d as int) + DEN <= u128::MAX,
    ensures
        r == model::buy_cost(s as int, d as int),
{
    proof {
        lemmas::lemma_n_growth(s as int, d as int);
        lemmas::lemma_n_nonnegative(s as int);
        lemmas::lemma_n_nonnegative(s + d);
        lemmas::lemma_area_up_is_small(s as int, d as int);
    }
    let area = div_ceil((n(s + d) - n(s)) * P0, DEN);
    assert(area * (HALF + PHI_BPS) == area * 20_100);
    div_ceil(area * (HALF + PHI_BPS), HALF)
}

/// Refund of a sell of `d` units that leaves supply `s_after`.
pub fn refund_sell(s_after: u128, d: u128) -> (r: u128)
    requires
        model::area_down_fits(s_after as int, d as int),
    ensures
        r == model::sell_refund(s_after as int, d as int),
{
    proof {
        lemmas::lemma_n_growth(s_after as int, d as int);
        lemmas::lemma_n_nonnegative(s_after as int);
        lemmas::lemma_n_nonnegative(s_after + d);
        lemmas::lemma_area_down_is_small(s_after as int, d as int);
    }
    let area = ((n(s_after + d) - n(s_after)) * P0) / DEN;
    assert(area * (HALF - PHI_BPS) == area * 19_900);
    area * (HALF - PHI_BPS) / HALF
}

/// Liability at supply `s`, rounded up.
pub fn v_up(s: u128) -> (r: u128)
    requires
        model::n(s as int) * P0 + DEN <= u128::MAX,
    ensures
        r == model::liability(s as int),
{
    proof {
        lemmas::lemma_n_nonnegative(s as int);
    }
    div_ceil(n(s) * P0, DEN)
}

} // verus!
