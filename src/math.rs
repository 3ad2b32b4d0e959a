use vstd::prelude::*;
use vstd::arithmetic::div_mod::{lemma_fundamental_div_mod, lemma_mod_bound};

use solana_safe_math::SafeMath;

use crate::constants::MIN_FEED_LAMPORTS;
use crate::fish::Fish;
use crate::ocean::Ocean;

verus! {

/// `a + b`, capped at `u64::MAX`.
pub open spec fn sat_add(a: u64, b: u64) -> u64 {
    if a + b > u64::MAX {
        u64::MAX
    } else {
        (a + b) as u64
    }
}

/// `a - b`, floored at zero.
pub open spec fn sat_sub(a: u64, b: u64) -> u64 {
    if a >= b {
        (a - b) as u64
    } else {
        0
    }
}

/// `n / d` rounded to the nearest integer, halves rounded up.
pub open spec fn rounded_div(n: int, d: int) -> int {
    (n + d / 2) / d
}

/// `x` as a `u64`, capped at `u64::MAX`.
pub open spec fn capped(x: int) -> u64 {
    if x > u64::MAX {
        u64::MAX
    } else {
        x as u64
    }
}

/// Value of `share` shares in a pool of `total` shares worth `balance`.
pub open spec fn share_value(total: u64, balance: u64, share: u64) -> u64 {
    if total == 0 {
        0
    } else {
        capped(rounded_div(share * balance, total as int))
    }
}

/// Shares minted for `value` in a pool of `total` shares whose balance
/// `balance` already includes `value`; one for one in an empty pool.
pub open spec fn minted_shares(total: u64, balance: u64, value: u64) -> u64 {
    if total == 0 {
        value
    } else if balance <= value {
        0
    } else {
        capped(rounded_div(value * total, balance - value))
    }
}

/// `x * y`, capped at `u64::MAX`.
pub open spec fn saturated_product(x: u64, y: u64) -> u64 {
    if x * y > u64::MAX {
        u64::MAX
    } else {
        (x * y) as u64
    }
}

/// Feeding requirement of `share` shares at the ocean's feeding percentage.
pub open spec fn base_requirement(o: Ocean, share: u64) -> u64 {
    (saturated_product(share_value(o.total_shares, o.balance_fishes, share), o.feeding_percentage as u64)
        / 10_000) as u64
}

/// Least a feeding of `f` may cost: the base requirement less the fish's
/// hunt credit, and never under the global minimum.
pub open spec fn min_feeding(o: Ocean, f: Fish) -> u64 {
    let base = base_requirement(o, f.share);
    let net: u64 = if base >= f.received_from_hunt_value {
        (base - f.received_from_hunt_value) as u64
    } else {
        0
    };
    if net >= MIN_FEED_LAMPORTS {
        net
    } else {
        MIN_FEED_LAMPORTS
    }
}

/// Relies on solana_safe_math's `SafeMath::safe_mul` for `u128`: the product,
/// or an error when it overflows.
#[verifier::external_body]
fn safe_mul_u128(a: u128, b: u128) -> (r: Option<u128>)
    ensures
        r == (if a * b <= u128::MAX { Some((a * b) as u128) } else { None::<u128> }),
{
    a.safe_mul(b).ok()
}

/// Relies on solana_safe_math's `SafeMath::safe_add` for `u128`: the sum, or
/// an error when it overflows.
#[verifier::external_body]
fn safe_add_u128(a: u128, b: u128) -> (r: Option<u128>)
    ensures
        r == (if a + b <= u128::MAX { Some((a + b) as u128) } else { None::<u128> }),
{
    a.safe_add(b).ok()
}

/// Relies on solana_safe_math's `SafeMath::safe_div` for `u128`: the quotient,
/// or an error when dividing by zero.
#[verifier::external_body]
fn safe_div_u128(a: u128, b: u128) -> (r: Option<u128>)
    ensures
        r == (if b != 0 { Some(a / b) } else { None::<u128> }),
{
    a.safe_div(b).ok()
}

/// `(a * b + d / 2) / d` for 64-bit operands, capped at `u64::MAX`, through
/// the wide checked operations; the product never overflows 128 bits.
fn rounded_mul_div(a: u64, b: u64, d: u64) -> (r: u64)
    requires
        d > 0,
    ensures
        r == capped(rounded_div(a * b, d as int)),
{
    let wa = a as u128;
    let wb = b as u128;
    let wd = d as u128;
    proof {
        assert(a * b <= 0xffff_ffff_ffff_ffffu64 * 0xffff_ffff_ffff_ffffu64) by (nonlinear_arith)
            requires
                a <= 0xffff_ffff_ffff_ffffu64,
                b <= 0xffff_ffff_ffff_ffffu64,
        ;
    }
    let product = safe_mul_u128(wa, wb).unwrap_or(0);
    let half = safe_div_u128(wd, 2).unwrap_or(0);
    let numerator = safe_add_u128(product, half).unwrap_or(0);
    let quotient = safe_div_u128(numerator, wd).unwrap_or(0);
    if quotient > u64::MAX as u128 {
        u64::MAX
    } else {
        quotient as u64
    }
}

/// Converts a share amount into its value, rounded to the nearest unit.
pub fn share_to_value(ocean: &Ocean, share: u64) -> (r: u64)
    ensures
        r == share_value(ocean.total_shares, ocean.balance_fishes, share),
{
    if ocean.total_shares == 0 {
        return 0;
    }
    rounded_mul_div(share, ocean.balance_fishes, ocean.total_shares)
}

/// Computes the shares that a deposit of `value` mints; the ocean's balance
/// must already include the deposit.
pub fn new_share(ocean: &Ocean, value: u64) -> (r: u64)
    ensures
        r == minted_shares(ocean.total_shares, ocean.balance_fishes, value),
{
    if ocean.total_shares == 0 {
        value
    } else {
        let denom = ocean.balance_fishes.saturating_sub(value);
        if denom == 0 {
            return 0;
        }
        rounded_mul_div(value, ocean.total_shares, denom)
    }
}

/// `x * y`, capped at `u64::MAX`.
pub(crate) fn saturating_product(x: u64, y: u64) -> (r: u64)
    ensures
        r == saturated_product(x, y),
{
    proof {
        assert(x * y <= 0xffff_ffff_ffff_ffffu64 * 0xffff_ffff_ffff_ffffu64) by (nonlinear_arith)
            requires
                x <= 0xffff_ffff_ffff_ffffu64,
                y <= 0xffff_ffff_ffff_ffffu64,
        ;
    }
    let wide = x as u128 * y as u128;
    if wide > u64::MAX as u128 {
        u64::MAX
    } else {
        wide as u64
    }
}

/// Returns the raw feeding requirement for the provided share amount at the
/// current feeding percentage, before hunt credits and the minimum.
pub fn base_feeding_requirement(ocean: &Ocean, share: u64) -> (r: u64)
    ensures
        r == base_requirement(*ocean, share),
{
    let feeding_percent = ocean.feeding_percentage as u64;
    let value = share_to_value(ocean, share);
    saturating_product(value, feeding_percent) / 10_000
}

/// Calculates the minimum a player must spend to feed a fish, net of its hunt
/// credit and never under the global minimum.
pub fn min_feeding_amount(ocean: &Ocean, fish: &Fish) -> (r: u64)
    ensures
        r == min_feeding(*ocean, *fish),
{
    let net = base_feeding_requirement(ocean, fish.share).saturating_sub(fish.received_from_hunt_value);
    if net >= MIN_FEED_LAMPORTS {
        net
    } else {
        MIN_FEED_LAMPORTS
    }
}

/// Floor division of a value between `k * n` and `(k + 1) * n` lands on `k` or `k + 1`.
proof fn lemma_div_between(x: int, n: int, k: int)
    requires
        n > 0,
        k * n <= x <= k * n + n,
    ensures
        k <= x / n <= k + 1,
{
    lemma_fundamental_div_mod(x, n);
    lemma_mod_bound(x, n);
    let q = x / n;
    let m = x % n;
    assert(k <= q) by (nonlinear_arith)
        requires
            x == n * q + m,
            0 <= m < n,
            k * n <= x,
    ;
    assert(q <= k + 1) by (nonlinear_arith)
        requires
            x == n * q + m,
            0 <= m,
            n > 0,
            x <= k * n + n,
    ;
}

/// Depositing `value` into a non-empty pool and valuing the minted shares
/// afterwards gives back `value` or `value + 1`. Stated for pools whose
/// pre-deposit balance is at most one unit of value per share, and whose
/// grown share total still fits in a `u64`.
pub proof fn law_deposit_round_trip(total: u64, balance: u64, value: u64)
    requires
        total > 0,
        balance > value,
        balance - value <= total,
        total + rounded_div(value * total, balance - value) <= u64::MAX,
    ensures
        ({
            let s = minted_shares(total, balance, value);
            let back = share_value((total + s) as u64, balance, s);
            value <= back <= value + 1
        }),
{
    let d: int = balance - value;
    let t: int = total as int;
    let v: int = value as int;
    let b: int = balance as int;
    let s: int = rounded_div(v * t, d);
    lemma_fundamental_div_mod(v * t + d / 2, d);
    lemma_mod_bound(v * t + d / 2, d);
    assert(0 <= s) by (nonlinear_arith)
        requires
            v * t + d / 2 == d * s + (v * t + d / 2) % d,
            (v * t + d / 2) % d < d,
            v >= 0,
            t >= 0,
            d > 0,
    ;
    assert(minted_shares(total, balance, value) as int == s);
    let n: int = t + s;
    let e: int = s * d - v * t;
    assert(s * b == v * n + e) by (nonlinear_arith)
        requires
            b == d + v,
            n == t + s,
            e == s * d - v * t,
    ;
    assert(d / 2 - d < e <= d / 2) by (nonlinear_arith)
        requires
            v * t + d / 2 == d * s + (v * t + d / 2) % d,
            0 <= (v * t + d / 2) % d < d,
            e == s * d - v * t,
    ;
    let r: int = e + n / 2;
    assert(0 <= r <= n);
    lemma_div_between(s * b + n / 2, n, v);
    assert(rounded_div(s * b, n) == (s * b + n / 2) / n);
}

} // verus!
