//! The arithmetic. The area between two supplies is a difference of cubes: with
//! `u = S0 + s` and `v = u + d` it is `P0 * (v^3 - u^3) / (3*S0^2)`.

use crate::curve;
use crate::laws;
use crate::lemmas;
use crate::math;
use crate::model;
use crate::params::{DEN, HALF_DEN, P0_NUM, PHI_BPS, S0};
use vstd::prelude::*;

verus! {

/// The area and `N` as cubes.
pub proof fn lemma_cubes(s: int, d: int, u: int, v: int)
    requires
        u == S0 + s,
        v == u + d,
    ensures
        model::area_numerator(s, d) == P0_NUM * (v * v * v - u * u * u),
        model::n(s) == u * u * u - S0 * S0 * S0,
        model::n(s + d) == v * v * v - S0 * S0 * S0,
{
    lemmas::lemma_n_is_difference_of_cubes(s);
    lemmas::lemma_n_is_difference_of_cubes(s + d);
    let (x, y) = (model::n(s), model::n(s + d));
    assert((y - x) * P0_NUM == P0_NUM * (y - x)) by (nonlinear_arith);
}

/// The liability as a cube, rounded up.
pub proof fn lemma_liability_cube(s: int, u: int)
    requires
        u == S0 + s,
    ensures
        model::n(s) * P0_NUM == P0_NUM * (u * u * u - S0 * S0 * S0),
        (model::liability(s) - 1) * DEN < P0_NUM * (u * u * u - S0 * S0 * S0)
            <= model::liability(s) * DEN,
{
    lemmas::lemma_n_is_difference_of_cubes(s);
    lemmas::lemma_ceil_bounds(model::n(s) * P0_NUM, DEN as int);
    let (x, v) = (model::n(s), model::liability(s));
    assert(x * P0_NUM == P0_NUM * x) by (nonlinear_arith);
    assert((v - 1) * DEN == v * DEN - DEN) by (nonlinear_arith);
}

/// `n_of` is `(S0 + s)^3 - S0^3`, where that fits.
pub proof fn law_n_of(s: u128, r: Option<u128>)
    requires
        call_ensures(math::n_of, (s,), r),
    ensures
        ({
            let u = S0 + s;
            let value = u * u * u - S0 * S0 * S0;
            &&& r is Some <==> value <= u128::MAX
            &&& r matches Some(n) ==> n == value
        }),
{
    lemma_cubes(s as int, 0, S0 + s, S0 + s);
}

/// A quotient rounded up is the least whose product reaches the dividend.
pub proof fn law_ceil_div(a: u128, b: u128, r: Option<u128>)
    requires
        b > 0,
        call_ensures(math::ceil_div, (a, b), r),
    ensures
        r is Some <==> a + b - 1 <= u128::MAX,
        r matches Some(q) ==> (q - 1) * b < a <= q * b,
{
    lemmas::lemma_ceil_bounds(a as int, b as int);
    let q = model::ceil_quotient(a as int, b as int);
    assert((q - 1) * b == q * b - b) by (nonlinear_arith);
}

/// A quotient rounded down is the greatest whose product the dividend reaches.
pub proof fn law_floor_div(a: u128, b: u128, r: Option<u128>)
    requires
        call_ensures(math::floor_div, (a, b), r),
    ensures
        r is Some <==> b != 0,
        r matches Some(q) ==> q * b <= a < (q + 1) * b,
{
    if b != 0 {
        lemmas::lemma_floor_bounds(a as int, b as int);
        let q = a as int / b as int;
        assert((q + 1) * b == q * b + b) by (nonlinear_arith);
    }
}

/// The area of a buy is the least number of lamports that reaches the exact one.
pub proof fn law_area_up(s: u128, d: u128, r: Option<u128>)
    requires
        call_ensures(math::area_up, (s, d), r),
    ensures
        ({
            let u = S0 + s;
            let v = u + d;
            let exact = P0_NUM * (v * v * v - u * u * u);
            &&& r is Some <==> v * v * v - S0 * S0 * S0 <= u128::MAX && exact + DEN - 1 <= u128::MAX
            &&& r matches Some(a) ==> (a - 1) * DEN < exact <= a * DEN
        }),
{
    lemma_cubes(s as int, d as int, S0 + s, S0 + s + d);
    laws::law_area_up_is_least(s as int, d as int);
}

/// The area of a sell is the greatest number of lamports that the exact one
/// reaches.
pub proof fn law_area_down(s: u128, d: u128, r: Option<u128>)
    requires
        call_ensures(math::area_down, (s, d), r),
    ensures
        ({
            let u = S0 + s;
            let v = u + d;
            let exact = P0_NUM * (v * v * v - u * u * u);
            &&& r is Some <==> v * v * v - S0 * S0 * S0 <= u128::MAX && exact <= u128::MAX
            &&& r matches Some(a) ==> a * DEN <= exact < (a + 1) * DEN
        }),
{
    lemma_cubes(s as int, d as int, S0 + s, S0 + s + d);
    laws::law_area_down_is_greatest(s as int, d as int);
}

/// The liability is the least number of lamports that reaches the whole area.
pub proof fn law_v_up(s: u128, r: Option<u128>)
    requires
        call_ensures(math::v_up, (s,), r),
    ensures
        ({
            let u = S0 + s;
            let exact = P0_NUM * (u * u * u - S0 * S0 * S0);
            &&& r is Some <==> exact + DEN - 1 <= u128::MAX
            &&& r matches Some(v) ==> (v - 1) * DEN < exact <= v * DEN
        }),
{
    lemma_liability_cube(s as int, S0 + s);
}

/// A buy costs its area and half the spread, both rounded up; its spread is what
/// it costs above the area.
pub proof fn law_cost_buy(s: u128, d: u128, r: Option<(u128, u128)>) -> (area: int)
    requires
        call_ensures(math::cost_buy, (s, d), r),
    ensures
        ({
            let u = S0 + s;
            let v = u + d;
            let exact = P0_NUM * (v * v * v - u * u * u);
            &&& (area - 1) * DEN < exact <= area * DEN
            &&& r is Some <==> v * v * v - S0 * S0 * S0 <= u128::MAX && exact + DEN - 1 <= u128::MAX
            &&& r matches Some(p) ==> {
                &&& (p.0 - 1) * HALF_DEN < area * (HALF_DEN + PHI_BPS) <= p.0 * HALF_DEN
                &&& p.1 == p.0 - area
            }
        }),
{
    lemma_cubes(s as int, d as int, S0 + s, S0 + s + d);
    laws::law_area_up_is_least(s as int, d as int);
    laws::law_buy_charges_half_the_spread(s as int, d as int);
    model::area_up(s as int, d as int)
}

/// A sell pays its area less half the spread, both rounded down; its spread is
/// what it withholds.
pub proof fn law_refund_sell(s_after: u128, d: u128, r: Option<(u128, u128)>) -> (area: int)
    requires
        call_ensures(math::refund_sell, (s_after, d), r),
    ensures
        ({
            let u = S0 + s_after;
            let v = u + d;
            let exact = P0_NUM * (v * v * v - u * u * u);
            &&& area * DEN <= exact < (area + 1) * DEN
            &&& r is Some <==> v * v * v - S0 * S0 * S0 <= u128::MAX && exact <= u128::MAX
            &&& r matches Some(p) ==> {
                &&& p.0 * HALF_DEN <= area * (HALF_DEN - PHI_BPS) < (p.0 + 1) * HALF_DEN
                &&& p.1 == area - p.0
            }
        }),
{
    lemma_cubes(s_after as int, d as int, S0 + s_after, S0 + s_after + d);
    laws::law_area_down_is_greatest(s_after as int, d as int);
    laws::law_sell_withholds_half_the_spread(s_after as int, d as int);
    model::area_down(s_after as int, d as int)
}

/// The cut is the spread, or what the vault holds above its rent floor and the
/// liability where that is less, and never below zero.
pub proof fn law_treasury_cut(
    spread: u128,
    vault_pre_cut: u128,
    rent_floor: u128,
    s_post: u128,
    r: Option<u128>,
) -> (v: int)
    requires
        call_ensures(math::treasury_cut, (spread, vault_pre_cut, rent_floor, s_post), r),
    ensures
        ({
            let u = S0 + s_post;
            let exact = P0_NUM * (u * u * u - S0 * S0 * S0);
            &&& (v - 1) * DEN < exact <= v * DEN
            &&& r is Some <==> exact + DEN - 1 <= u128::MAX && rent_floor + v <= u128::MAX
            &&& r matches Some(cut) ==> {
                &&& cut <= spread
                &&& cut == spread || cut + rent_floor + v == vault_pre_cut || cut == 0
                &&& vault_pre_cut >= rent_floor + v + spread ==> cut == spread
                &&& rent_floor + v <= vault_pre_cut < rent_floor + v + spread ==> cut + rent_floor
                    + v == vault_pre_cut
                &&& vault_pre_cut < rent_floor + v ==> cut == 0
            }
        }),
{
    lemma_liability_cube(s_post as int, S0 + s_post);
    model::liability(s_post as int)
}

/// The guard pays the whole cut or nothing. It pays exactly where the account
/// belongs to the system program, holds no data, and would hold at least the rent
/// and no more than 64 bits.
pub proof fn law_guard_treasury(
    cut: u64,
    owner_is_system: bool,
    data_len: usize,
    treasury_lamports: u64,
    rent_min: u64,
    r: u64,
)
    requires
        call_ensures(
            math::guard_treasury,
            (cut, owner_is_system, data_len, treasury_lamports, rent_min),
            r,
        ),
    ensures
        owner_is_system && data_len == 0 && rent_min <= treasury_lamports + cut <= u64::MAX
            ==> r == cut,
        !owner_is_system || data_len != 0 || treasury_lamports + cut < rent_min || treasury_lamports
            + cut > u64::MAX ==> r == 0,
{
}

/// The reference curve prices a buy as the program does: area and half the
/// spread, both rounded up.
pub proof fn law_reference_cost(s: u128, d: u128, r: u128) -> (area: int)
    requires
        call_ensures(curve::cost_buy, (s, d), r),
    ensures
        ({
            let u = S0 + s;
            let v = u + d;
            &&& (area - 1) * DEN < P0_NUM * (v * v * v - u * u * u) <= area * DEN
            &&& (r - 1) * HALF_DEN < area * (HALF_DEN + PHI_BPS) <= r * HALF_DEN
        }),
{
    lemma_cubes(s as int, d as int, S0 + s, S0 + s + d);
    laws::law_area_up_is_least(s as int, d as int);
    laws::law_buy_charges_half_the_spread(s as int, d as int);
    model::area_up(s as int, d as int)
}

/// The reference curve prices a sell as the program does: area less half the
/// spread, both rounded down.
pub proof fn law_reference_refund(s_after: u128, d: u128, r: u128) -> (area: int)
    requires
        call_ensures(curve::refund_sell, (s_after, d), r),
    ensures
        ({
            let u = S0 + s_after;
            let v = u + d;
            &&& area * DEN <= P0_NUM * (v * v * v - u * u * u) < (area + 1) * DEN
            &&& r * HALF_DEN <= area * (HALF_DEN - PHI_BPS) < (r + 1) * HALF_DEN
        }),
{
    lemma_cubes(s_after as int, d as int, S0 + s_after, S0 + s_after + d);
    laws::law_area_down_is_greatest(s_after as int, d as int);
    laws::law_sell_withholds_half_the_spread(s_after as int, d as int);
    model::area_down(s_after as int, d as int)
}

/// The reference curve's liability is the whole area, rounded up.
pub proof fn law_reference_liability(s: u128, r: u128)
    requires
        call_ensures(curve::v_up, (s,), r),
    ensures
        ({
            let u = S0 + s;
            (r - 1) * DEN < P0_NUM * (u * u * u - S0 * S0 * S0) <= r * DEN
        }),
{
    lemma_liability_cube(s as int, S0 + s);
}

/// The two computations of the prices agree wherever both give one.
pub proof fn law_the_two_curves_agree(
    s: u128,
    d: u128,
    cost: (u128, u128),
    reference_cost: u128,
    refund: (u128, u128),
    reference_refund: u128,
)
    requires
        call_ensures(math::cost_buy, (s, d), Some(cost)),
        call_ensures(curve::cost_buy, (s, d), reference_cost),
        call_ensures(math::refund_sell, (s, d), Some(refund)),
        call_ensures(curve::refund_sell, (s, d), reference_refund),
    ensures
        cost.0 == reference_cost,
        refund.0 == reference_refund,
{
}

} // verus!
