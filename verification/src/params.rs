use vstd::prelude::*;

verus! {

/// Lamports per smallest token unit at supply zero.
pub const P0_NUM: u128 = 100;

pub const P0_DEN: u128 = 1;

/// Largest supply, in smallest units: a million whole tokens.
pub const MAX_SUPPLY: u64 = 1_000_000_000_000;

/// Scale of the curve, `MAX_SUPPLY / (sqrt(10) - 1)`: the price at the largest
/// supply is ten times the price at supply zero.
pub const S0: u128 = 462_475_295_574;

/// Whole spread in basis points, half of it on each side.
pub const PHI_BPS: u128 = 100;

/// `x * (HALF_DEN + PHI_BPS) / HALF_DEN` adds half the spread to `x`.
pub const HALF_DEN: u128 = 20_000;

pub const BPS: u128 = 10_000;

/// Denominator of the area under the curve.
pub const DEN: u128 = P0_DEN * 3 * S0 * S0;

pub const TOKEN_DECIMALS: u8 = 6;

pub const LAMPORTS_PER_SOL: u64 = 1_000_000_000;

} // verus!
