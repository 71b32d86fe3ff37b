//! The curve and the settlement rules over mathematical integers.
//!
//! Price `P(s) = P0 * (1 + s/S0)^2`, area `V(s) = P0 * N(s) / (3*S0^2)`. A buy
//! rounds up, a sell rounds down, and the liability owed to the holders rounds
//! up.

use crate::params::{DEN, HALF_DEN, P0_NUM, PHI_BPS, S0};
use vstd::prelude::*;

verus! {

/// Numerator of the area: `N(s) = 3*S0^2*s + 3*S0*s^2 + s^3`.
pub open spec fn n(s: int) -> int {
    3 * S0 * S0 * s + 3 * S0 * s * s + s * s * s
}

/// The price at supply `s`, in units of `1 / S0^2` lamport per smallest unit:
/// `P(s) = P0 * (1 + s/S0)^2`.
pub open spec fn price_numerator(s: int) -> int {
    P0_NUM * ((S0 + s) * (S0 + s))
}

/// `a / b` rounded up, for positive `b`.
pub open spec fn ceil_quotient(a: int, b: int) -> int {
    (a + b - 1) / b
}

/// The area between supplies `s` and `s + d`, in units of `1 / DEN` lamport.
pub open spec fn area_numerator(s: int, d: int) -> int {
    (n(s + d) - n(s)) * P0_NUM
}

/// The area between supplies `s` and `s + d` in lamports, rounded up.
pub open spec fn area_up(s: int, d: int) -> int {
    ceil_quotient(area_numerator(s, d), DEN as int)
}

/// The area between supplies `s` and `s + d` in lamports, rounded down.
pub open spec fn area_down(s: int, d: int) -> int {
    area_numerator(s, d) / DEN as int
}

/// What the vault owes to the holders at supply `s`, rounded up.
pub open spec fn liability(s: int) -> int {
    ceil_quotient(n(s) * P0_NUM, DEN as int)
}

/// Lamports that a buy of `d` units pays at supply `s`.
pub open spec fn buy_cost(s: int, d: int) -> int {
    ceil_quotient(area_up(s, d) * (HALF_DEN + PHI_BPS), HALF_DEN as int)
}

/// The part of `buy_cost` above the area.
pub open spec fn buy_spread(s: int, d: int) -> int {
    buy_cost(s, d) - area_up(s, d)
}

/// Lamports that a sell of `d` units pays back when it leaves supply `s_after`.
pub open spec fn sell_refund(s_after: int, d: int) -> int {
    area_down(s_after, d) * (HALF_DEN - PHI_BPS) / (HALF_DEN as int)
}

/// The part of the area that a sell withholds.
pub open spec fn sell_spread(s_after: int, d: int) -> int {
    area_down(s_after, d) - sell_refund(s_after, d)
}

/// The part of `spread` that lies above the rent floor and the liability of a
/// vault that holds `vault_pre_cut` lamports at supply `s_post`.
pub open spec fn capped_cut(spread: int, vault_pre_cut: int, rent_floor: int, s_post: int) -> int {
    let above = vault_pre_cut - rent_floor - liability(s_post);
    if above <= 0 {
        0
    } else if above < spread {
        above
    } else {
        spread
    }
}

/// Whether an account can take `cut` lamports and stay rent exempt: it belongs
/// to the system program, holds no data, and its new balance exists and reaches
/// `rent_min`.
pub open spec fn can_receive(
    cut: int,
    owner_is_system: bool,
    data_len: int,
    lamports: int,
    rent_min: int,
) -> bool {
    &&& owner_is_system
    &&& data_len == 0
    &&& rent_min <= lamports + cut <= u64::MAX
}

/// Whether `area_up` can be computed in 128 bits.
pub open spec fn area_up_fits(s: int, d: int) -> bool {
    n(s + d) <= u128::MAX && area_numerator(s, d) + DEN - 1 <= u128::MAX
}

/// Whether `area_down` can be computed in 128 bits.
pub open spec fn area_down_fits(s: int, d: int) -> bool {
    n(s + d) <= u128::MAX && area_numerator(s, d) <= u128::MAX
}

/// Whether `liability` can be computed in 128 bits.
pub open spec fn liability_fits(s: int) -> bool {
    n(s) * P0_NUM + DEN - 1 <= u128::MAX
}

} // verus!
