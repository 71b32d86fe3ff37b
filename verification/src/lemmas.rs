//! Arithmetic behind the curve: rounding, and the shape of `N`.

use crate::model;
use crate::params::{DEN, HALF_DEN, MAX_SUPPLY, P0_NUM, PHI_BPS, S0};
use vstd::prelude::*;

verus! {

/// The rounded up quotient is the least integer whose product with `b` reaches
/// `a`.
pub proof fn lemma_ceil_bounds(a: int, b: int)
    requires
        b > 0,
    ensures
        a <= model::ceil_quotient(a, b) * b < a + b,
{
    let q = (a + b - 1) / b;
    vstd::arithmetic::div_mod::lemma_fundamental_div_mod(a + b - 1, b);
    vstd::arithmetic::div_mod::lemma_mod_bound(a + b - 1, b);
    assert(q * b == b * q) by (nonlinear_arith);
}

pub proof fn lemma_floor_bounds(a: int, b: int)
    requires
        b > 0,
    ensures
        a - b < (a / b) * b <= a,
{
    vstd::arithmetic::div_mod::lemma_fundamental_div_mod(a, b);
    vstd::arithmetic::div_mod::lemma_mod_bound(a, b);
    assert((a / b) * b == b * (a / b)) by (nonlinear_arith);
}

/// `q * b < r * b` orders the factors.
pub proof fn lemma_factor_order(q: int, r: int, b: int)
    by (nonlinear_arith)
    requires
        b > 0,
        q * b < r * b,
    ensures
        q < r,
{
}

pub proof fn lemma_n_nonnegative(s: int)
    requires
        s >= 0,
    ensures
        model::n(s) >= s,
        model::n(s) >= 3 * S0 * S0 * s,
        model::n(s) >= 3 * S0 * s * s,
        model::n(s) >= s * s * s,
        s * s >= 0,
        s * s * s >= s * s,
        model::n(s) >= 3 * S0 * S0 * s + 3 * S0 * s * s,
{
    assert(s * s >= 0) by (nonlinear_arith);
    assert(s * s * s >= s * s) by (nonlinear_arith)
        requires
            s >= 0,
    ;
    assert(3 * S0 * s * s == 3 * S0 * (s * s)) by (nonlinear_arith);
    let c = S0 as int;
    assert(3 * c * c * s >= s) by (nonlinear_arith)
        requires
            c >= 1,
            s >= 0,
    ;
}

/// The cube of a sum.
proof fn lemma_cube_of_sum(u: int, d: int)
    ensures
        (u + d) * (u + d) * (u + d) == u * u * u + 3 * (u * u) * d + 3 * u * (d * d) + d * d * d,
{
    assert((u + d) * (u + d) == u * u + 2 * (u * d) + d * d) by (nonlinear_arith);
    let (uu, ud, dd) = (u * u, u * d, d * d);
    assert((uu + 2 * ud + dd) * (u + d) == uu * u + 2 * ud * u + dd * u + uu * d + 2 * ud * d + dd
        * d) by (nonlinear_arith);
    assert(ud * u == uu * d) by (nonlinear_arith)
        requires
            ud == u * d,
            uu == u * u,
    ;
    assert(ud * d == u * dd) by (nonlinear_arith)
        requires
            ud == u * d,
            dd == d * d,
    ;
    assert(2 * ud * u == 2 * (ud * u) && 2 * ud * d == 2 * (ud * d)) by (nonlinear_arith);
    assert(3 * uu * d == 3 * (uu * d) && 3 * u * dd == 3 * (u * dd)) by (nonlinear_arith);
    assert(dd * u == u * dd) by (nonlinear_arith);
}

/// `N(s)` is a difference of cubes.
pub proof fn lemma_n_is_difference_of_cubes(s: int)
    ensures
        model::n(s) == (S0 + s) * (S0 + s) * (S0 + s) - S0 * S0 * S0,
{
    let c = S0 as int;
    lemma_cube_of_sum(c, s);
    assert(3 * c * s * s == 3 * c * (s * s)) by (nonlinear_arith);
    assert(3 * (c * c) * s == 3 * c * c * s) by (nonlinear_arith);
}

/// The difference of `N` over an interval, in powers of its length.
pub proof fn lemma_n_difference(s: int, d: int)
    ensures
        model::n(s + d) - model::n(s) == 3 * ((S0 + s) * (S0 + s)) * d + 3 * (S0 + s) * (d * d) + d
            * d * d,
{
    lemma_n_is_difference_of_cubes(s);
    lemma_n_is_difference_of_cubes(s + d);
    lemma_cube_of_sum(S0 + s, d);
}

/// `N` grows at least by the price at supply zero for each unit.
pub proof fn lemma_n_growth(s: int, d: int)
    requires
        s >= 0,
        d >= 0,
    ensures
        model::n(s + d) - model::n(s) >= 3 * S0 * S0 * d >= 0,
{
    lemma_n_difference(s, d);
    let c = S0 as int;
    let u = c + s;
    assert(3 * (u * u) * d >= 3 * c * c * d) by (nonlinear_arith)
        requires
            u >= c,
            c >= 0,
            d >= 0,
    ;
    assert(3 * u * (d * d) >= 0) by (nonlinear_arith)
        requires
            u >= 0,
    ;
    assert(d * d * d >= 0) by (nonlinear_arith)
        requires
            d >= 0,
    ;
}

/// The same interval higher on the curve holds at least as much of `N`.
pub proof fn lemma_n_convex(s: int, t: int, d: int)
    requires
        0 <= s <= t,
        d >= 0,
    ensures
        model::n(s + d) - model::n(s) <= model::n(t + d) - model::n(t),
{
    lemma_n_difference(s, d);
    lemma_n_difference(t, d);
    let u = S0 + s;
    let v = S0 + t;
    assert(3 * (u * u) * d <= 3 * (v * v) * d) by (nonlinear_arith)
        requires
            0 <= u <= v,
            d >= 0,
    ;
    assert(3 * u * (d * d) <= 3 * v * (d * d)) by (nonlinear_arith)
        requires
            0 <= u <= v,
    ;
}

/// Each unit adds at least the price at supply zero to the area.
pub proof fn lemma_area_numerator_growth(s: int, d: int)
    requires
        s >= 0,
        d >= 0,
    ensures
        model::area_numerator(s, d) >= 100 * d * DEN >= 0,
{
    lemma_n_growth(s, d);
    assert(100 * d * DEN == 100 * (3 * S0 * S0 * d)) by (nonlinear_arith)
        requires
            DEN == 3 * S0 * S0,
    ;
}

/// A rounded up area that fits 128 bits is small enough for the commission to
/// fit as well.
pub proof fn lemma_area_up_is_small(s: int, d: int)
    requires
        s >= 0,
        d >= 0,
        model::area_up_fits(s, d),
    ensures
        100 * d <= model::area_up(s, d) <= 600_000_000_000_000,
{
    lemma_n_growth(s, d);
    let a = model::area_numerator(s, d);
    lemma_ceil_bounds(a, DEN as int);
    let q = model::area_up(s, d);
    lemma_area_numerator_growth(s, d);
    lemma_factor_order(q, 600_000_000_000_001, DEN as int);
    assert((100 * d - 1) * DEN == 100 * d * DEN - DEN) by (nonlinear_arith);
    lemma_factor_order(100 * d - 1, q, DEN as int);
}

/// The same of a rounded down area.
pub proof fn lemma_area_down_is_small(s: int, d: int)
    requires
        s >= 0,
        d >= 0,
        model::area_down_fits(s, d),
    ensures
        100 * d <= model::area_down(s, d) <= 600_000_000_000_000,
{
    lemma_n_growth(s, d);
    let a = model::area_numerator(s, d);
    lemma_floor_bounds(a, DEN as int);
    let q = model::area_down(s, d);
    lemma_area_numerator_growth(s, d);
    lemma_factor_order(q, 600_000_000_000_001, DEN as int);
    assert((100 * d - 1) * DEN == 100 * d * DEN - DEN) by (nonlinear_arith);
    lemma_factor_order(100 * d - 1, q, DEN as int);
}

/// A liability that fits 128 bits is small.
pub proof fn lemma_liability_is_small(s: int)
    requires
        s >= 0,
        model::liability_fits(s),
    ensures
        0 <= model::liability(s) <= 600_000_000_000_000,
{
    lemma_n_nonnegative(s);
    let a = model::n(s) * P0_NUM;
    lemma_ceil_bounds(a, DEN as int);
    lemma_factor_order(model::liability(s), 600_000_000_000_001, DEN as int);
    lemma_factor_order(-1, model::liability(s), DEN as int);
}

/// Up to the largest supply every step of the arithmetic fits 128 bits.
pub proof fn lemma_curve_fits(s: int, d: int)
    requires
        s >= 0,
        d >= 0,
        s + d <= MAX_SUPPLY,
    ensures
        model::area_up_fits(s, d),
        model::area_down_fits(s, d),
        model::liability_fits(s + d),
        model::liability_fits(s),
{
    let m = MAX_SUPPLY as int;
    assert(model::n(m) * P0_NUM + DEN - 1 <= u128::MAX);
    lemma_n_growth(s + d, m - s - d);
    lemma_n_growth(s, d);
    lemma_n_nonnegative(s);
}

/// The commission of a buy lies between the area and twice the area.
pub proof fn lemma_buy_cost_bounds(s: int, d: int)
    requires
        s >= 0,
        d >= 0,
        model::area_up_fits(s, d),
    ensures
        0 <= model::buy_spread(s, d) <= model::buy_cost(s, d) <= 700_000_000_000_000,
        model::area_up(s, d) <= model::buy_cost(s, d),
{
    lemma_area_up_is_small(s, d);
    let a = model::area_up(s, d);
    assert(a * (HALF_DEN + PHI_BPS) == a * 20_100);
}

/// The refund and the withheld spread of a sell make up the area.
pub proof fn lemma_sell_refund_bounds(s_after: int, d: int)
    requires
        s_after >= 0,
        d >= 0,
        model::area_down_fits(s_after, d),
    ensures
        0 <= model::sell_refund(s_after, d) <= model::area_down(s_after, d) <= 600_000_000_000_000,
        0 <= model::sell_spread(s_after, d) <= 600_000_000_000_000,
{
    lemma_area_down_is_small(s_after, d);
    let a = model::area_down(s_after, d);
    assert(a * (HALF_DEN - PHI_BPS) == a * 19_900);
}

/// Rounding up the parts of a sum reaches the rounded up sum, and passes it by
/// one at most.
pub proof fn lemma_ceil_of_sum(x: int, y: int, b: int)
    requires
        b > 0,
    ensures
        model::ceil_quotient(x + y, b) <= model::ceil_quotient(x, b) + model::ceil_quotient(y, b)
            <= model::ceil_quotient(x + y, b) + 1,
{
    lemma_ceil_bounds(x, b);
    lemma_ceil_bounds(y, b);
    lemma_ceil_bounds(x + y, b);
    let (p, q, r) = (
        model::ceil_quotient(x, b),
        model::ceil_quotient(y, b),
        model::ceil_quotient(x + y, b),
    );
    assert((p + q) * b == p * b + q * b) by (nonlinear_arith);
    assert((r - 1) * b == r * b - b && (r + 2) * b == r * b + 2 * b) by (nonlinear_arith);
    lemma_factor_order(r - 1, p + q, b);
    lemma_factor_order(p + q, r + 2, b);
}

/// Rounding down the parts of a sum does not pass the rounded down sum.
pub proof fn lemma_floor_of_sum(x: int, y: int, b: int)
    requires
        b > 0,
    ensures
        x / b + y / b <= (x + y) / b,
{
    lemma_floor_bounds(x, b);
    lemma_floor_bounds(y, b);
    lemma_floor_bounds(x + y, b);
    let (p, q, r) = (x / b, y / b, (x + y) / b);
    assert((p + q) * b == p * b + q * b) by (nonlinear_arith);
    assert((r + 1) * b == r * b + b) by (nonlinear_arith);
    lemma_factor_order(p + q, r + 1, b);
}

/// The step of a rounded up value is the rounded down step, or one more.
pub proof fn lemma_ceil_step(x: int, y: int, b: int)
    requires
        b > 0,
    ensures
        x / b <= model::ceil_quotient(x + y, b) - model::ceil_quotient(y, b) <= x / b + 1,
{
    lemma_floor_bounds(x, b);
    lemma_ceil_bounds(y, b);
    lemma_ceil_bounds(x + y, b);
    let (p, q, r) = (x / b, model::ceil_quotient(y, b), model::ceil_quotient(x + y, b));
    assert((r - q) * b == r * b - q * b) by (nonlinear_arith);
    assert((p - 1) * b == p * b - b && (p + 2) * b == p * b + 2 * b) by (nonlinear_arith);
    lemma_factor_order(p - 1, r - q, b);
    lemma_factor_order(r - q, p + 2, b);
}

/// The rounded up quotient is the rounded down one, or one more.
pub proof fn lemma_ceil_and_floor(x: int, b: int)
    requires
        b > 0,
    ensures
        x / b <= model::ceil_quotient(x, b) <= x / b + 1,
{
    lemma_floor_bounds(x, b);
    lemma_ceil_bounds(x, b);
    let (p, q) = (x / b, model::ceil_quotient(x, b));
    assert((p - 1) * b == p * b - b && (p + 2) * b == p * b + 2 * b) by (nonlinear_arith);
    lemma_factor_order(p - 1, q, b);
    lemma_factor_order(q, p + 2, b);
}

/// Rounding keeps the order.
pub proof fn lemma_rounding_is_monotone(x: int, y: int, b: int)
    requires
        b > 0,
        x <= y,
    ensures
        x / b <= y / b,
        model::ceil_quotient(x, b) <= model::ceil_quotient(y, b),
{
    vstd::arithmetic::div_mod::lemma_div_is_ordered(x, y, b);
    vstd::arithmetic::div_mod::lemma_div_is_ordered(x + b - 1, y + b - 1, b);
}

} // verus!
