//! The settlement arithmetic: every operation is checked, and `None` means that
//! an exact value left the 128 bits.

use crate::lemmas;
use crate::model;
use crate::params::{DEN, HALF_DEN, P0_NUM, PHI_BPS, S0};
use vstd::prelude::*;

verus! {

/// `N(s)`.
pub fn n_of(s: u128) -> (r: Option<u128>)
    ensures
        r is Some <==> model::n(s as int) <= u128::MAX,
        r matches Some(v) ==> v == model::n(s as int),
{
    proof {
        lemmas::lemma_n_nonnegative(s as int);
        let i = s as int;
        assert(3 * S0 * i * i == 3 * S0 * (i * i)) by (nonlinear_arith);
    }
    let t1 = S0.checked_mul(S0)?;
    let t1 = t1.checked_mul(3)?;
    let t1 = t1.checked_mul(s)?;
    let t2 = S0.checked_mul(3)?;
    let ss = s.checked_mul(s)?;
    let t2 = t2.checked_mul(ss)?;
    let t3 = ss.checked_mul(s)?;
    let r = t1.checked_add(t2)?;
    r.checked_add(t3)
}

/// `a / b` rounded up.
pub fn ceil_div(a: u128, b: u128) -> (r: Option<u128>)
    requires
        b > 0,
    ensures
        r is Some <==> a + b - 1 <= u128::MAX,
        r matches Some(q) ==> q == model::ceil_quotient(a as int, b as int),
{
    a.checked_add(b - 1)?.checked_div(b)
}

/// `a / b` rounded down.
pub fn floor_div(a: u128, b: u128) -> (r: Option<u128>)
    ensures
        r is Some <==> b != 0,
        r matches Some(q) ==> q == a as int / b as int,
{
    a.checked_div(b)
}

/// The area between `s` and `s + d`, rounded up: what a buy is charged on.
pub fn area_up(s: u128, d: u128) -> (r: Option<u128>)
    ensures
        r is Some <==> model::area_up_fits(s as int, d as int),
        r matches Some(a) ==> a == model::area_up(s as int, d as int),
{
    proof {
        lemmas::lemma_n_growth(s as int, d as int);
        lemmas::lemma_n_nonnegative(s as int);
        lemmas::lemma_n_nonnegative(s + d);
    }
    let dn = n_of(s.checked_add(d)?)?.checked_sub(n_of(s)?)?;
    ceil_div(dn.checked_mul(P0_NUM)?, DEN)
}

/// The area between `s` and `s + d`, rounded down: what a sell is paid on.
pub fn area_down(s: u128, d: u128) -> (r: Option<u128>)
    ensures
        r is Some <==> model::area_down_fits(s as int, d as int),
        r matches Some(a) ==> a == model::area_down(s as int, d as int),
{
    proof {
        lemmas::lemma_n_growth(s as int, d as int);
        lemmas::lemma_n_nonnegative(s as int);
        lemmas::lemma_n_nonnegative(s + d);
    }
    let dn = n_of(s.checked_add(d)?)?.checked_sub(n_of(s)?)?;
    floor_div(dn.checked_mul(P0_NUM)?, DEN)
}

/// The liability at supply `s`.
pub fn v_up(s: u128) -> (r: Option<u128>)
    ensures
        r is Some <==> model::liability_fits(s as int),
        r matches Some(v) ==> v == model::liability(s as int),
{
    proof {
        lemmas::lemma_n_nonnegative(s as int);
    }
    ceil_div(n_of(s)?.checked_mul(P0_NUM)?, DEN)
}

/// A buy of `d` units at supply `s`: the whole cost, and the spread in it.
pub fn cost_buy(s: u128, d: u128) -> (r: Option<(u128, u128)>)
    ensures
        r is Some <==> model::area_up_fits(s as int, d as int),
        r matches Some(p) ==> {
            &&& p.0 == model::buy_cost(s as int, d as int)
            &&& p.1 == model::buy_spread(s as int, d as int)
        },
{
    let a = area_up(s, d)?;
    proof {
        lemmas::lemma_area_up_is_small(s as int, d as int);
    }
    let factor = HALF_DEN.checked_add(PHI_BPS)?;
    assert(a * factor == a * 20_100);
    let c = ceil_div(a.checked_mul(factor)?, HALF_DEN)?;
    Some((c, c.checked_sub(a)?))
}

/// A sell of `d` units that leaves supply `s_after`: the refund, and the spread
/// withheld.
pub fn refund_sell(s_after: u128, d: u128) -> (r: Option<(u128, u128)>)
    ensures
        r is Some <==> model::area_down_fits(s_after as int, d as int),
        r matches Some(p) ==> {
            &&& p.0 == model::sell_refund(s_after as int, d as int)
            &&& p.1 == model::sell_spread(s_after as int, d as int)
        },
{
    let a = area_down(s_after, d)?;
    proof {
        lemmas::lemma_area_down_is_small(s_after as int, d as int);
    }
    let factor = HALF_DEN.checked_sub(PHI_BPS)?;
    assert(a * factor == a * 19_900);
    let r = floor_div(a.checked_mul(factor)?, HALF_DEN)?;
    Some((r, a.checked_sub(r)?))
}

/// The part of `spread` that goes to the treasury: no more than what the vault
/// holds above the rent floor and the liability at `s_post`.
pub fn treasury_cut(spread: u128, vault_pre_cut: u128, rent_floor: u128, s_post: u128) -> (r: Option<
    u128,
>)
    ensures
        r is Some <==> {
            &&& model::liability_fits(s_post as int)
            &&& rent_floor + model::liability(s_post as int) <= u128::MAX
        },
        r matches Some(cut) ==> cut == model::capped_cut(
            spread as int,
            vault_pre_cut as int,
            rent_floor as int,
            s_post as int,
        ),
{
    let required = rent_floor.checked_add(v_up(s_post)?)?;
    let safe = vault_pre_cut.saturating_sub(required);
    Some(
        if spread < safe {
            spread
        } else {
            safe
        },
    )
}

/// The whole cut where the treasury can receive it and stay rent exempt, else
/// nothing: the treasury can never make a trade fail.
pub fn guard_treasury(
    cut: u64,
    owner_is_system: bool,
    data_len: usize,
    treasury_lamports: u64,
    rent_min: u64,
) -> (r: u64)
    ensures
        r == if model::can_receive(
            cut as int,
            owner_is_system,
            data_len as int,
            treasury_lamports as int,
            rent_min as int,
        ) {
            cut
        } else {
            0
        },
{
    if !owner_is_system || data_len != 0 {
        return 0;
    }
    match treasury_lamports.checked_add(cut) {
        Some(total) if total >= rent_min => cut,
        _ => 0,
    }
}

} // verus!
