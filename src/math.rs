//! Fixed-point share arithmetic in basis points.
use vstd::prelude::*;

verus! {

/// The basis-point denominator: 10000 bps are 100%.
pub const BPS_DENOMINATOR: i128 = 10_000;

/// How fractional shares are handled during distribution calculations.
#[derive(Clone, Copy, Debug, PartialEq, Eq, Structural)]
pub enum RoundingMode {
    /// Truncate toward zero: share = (amount * bps) / 10000.
    Truncation,
    /// Round halves away from zero: share = round((amount * bps) / 10000).
    RoundHalfUp,
}

pub open spec fn abs(x: int) -> int {
    if x < 0 { -x } else { x }
}

/// Integer division rounding toward zero, as Rust's `/` does.
pub open spec fn trunc_div(x: int, d: int) -> int {
    let q = abs(x) / abs(d);
    if (x >= 0) == (d > 0) { q } else { -q }
}

pub open spec fn fits_i128(x: int) -> bool {
    i128::MIN <= x <= i128::MAX
}

/// `x` clamped into the range of `i128`.
pub open spec fn saturate(x: int) -> int {
    if x > i128::MAX { i128::MAX as int } else if x < i128::MIN { i128::MIN as int } else { x }
}

/// `amount * bps` when it fits in `i128`, and 0 when it overflows.
pub open spec fn scaled_amount(amount: i128, bps: u32) -> int {
    if fits_i128(amount * bps) { amount * bps } else { 0 }
}

/// The quotient of a scaled amount by the denominator under a rounding mode.
pub open spec fn rounded_quotient(raw: int, mode: RoundingMode) -> int {
    match mode {
        RoundingMode::Truncation => trunc_div(raw, 10000),
        RoundingMode::RoundHalfUp => if raw >= 0 {
            trunc_div(saturate(raw + 5000), 10000)
        } else {
            trunc_div(saturate(raw - 5000), 10000)
        },
    }
}

/// `x` clamped into `[min(0, amount), max(0, amount)]`.
pub open spec fn clamp_to_amount(x: int, amount: int) -> int {
    let lo = if amount < 0 { amount } else { 0 };
    let hi = if amount > 0 { amount } else { 0 };
    if x < lo { lo } else if x > hi { hi } else { x }
}

/// The share of `amount` at `bps` basis points under `mode`; 0 for bps above 10000.
pub open spec fn share_value(amount: i128, bps: u32, mode: RoundingMode) -> int {
    if bps > 10000 {
        0
    } else {
        clamp_to_amount(rounded_quotient(scaled_amount(amount, bps), mode), amount as int)
    }
}

/// `(total_revenue * bps / 10000) * holder_balance / total_supply`, each
/// division rounding toward zero.
pub open spec fn proportional_payout(
    total_revenue: i128,
    bps: u32,
    total_supply: i128,
    holder_balance: i128,
) -> int {
    trunc_div(holder_balance * trunc_div(total_revenue * bps, 10000), total_supply as int)
}

/// The arithmetic of `proportional_payout` stays within `i128`.
pub open spec fn proportional_payout_fits(
    total_revenue: i128,
    bps: u32,
    total_supply: i128,
    holder_balance: i128,
) -> bool {
    &&& total_supply != 0
    &&& fits_i128(total_revenue * bps)
    &&& fits_i128(holder_balance * trunc_div(total_revenue * bps, 10000))
    &&& fits_i128(proportional_payout(total_revenue, bps, total_supply, holder_balance))
}

/// Share of `amount` at `bps` under `mode`; see `share_value`.
pub fn share_of_amount(amount: i128, bps: u32, mode: RoundingMode) -> (r: i128)
    ensures
        r == share_value(amount, bps, mode),
{
    if bps > 10_000 {
        return 0;
    }
    let raw: i128 = match amount.checked_mul(bps as i128) {
        Some(p) => p,
        None => 0,
    };
    let share: i128 = match mode {
        RoundingMode::Truncation => raw / 10_000,
        RoundingMode::RoundHalfUp => {
            let adjusted: i128 = if raw >= 0 {
                if raw > i128::MAX - 5000 {
                    i128::MAX
                } else {
                    raw + 5000
                }
            } else {
                if raw < i128::MIN + 5000 {
                    i128::MIN
                } else {
                    raw - 5000
                }
            };
            adjusted / 10_000
        },
    };
    let lo: i128 = if amount < 0 { amount } else { 0 };
    let hi: i128 = if amount > 0 { amount } else { 0 };
    if share < lo {
        lo
    } else if share > hi {
        hi
    } else {
        share
    }
}

/// Proportional payout of a holder; see `proportional_payout`.
pub fn proportional_payout_of(
    total_revenue: i128,
    bps: u32,
    total_supply: i128,
    holder_balance: i128,
) -> (r: i128)
    requires
        proportional_payout_fits(total_revenue, bps, total_supply, holder_balance),
    ensures
        r == proportional_payout(total_revenue, bps, total_supply, holder_balance),
{
    let distributable: i128 = total_revenue * (bps as i128) / BPS_DENOMINATOR;
    match (holder_balance * distributable).checked_div(total_supply) {
        Some(q) => q,
        None => 0,
    }
}

} // verus!
