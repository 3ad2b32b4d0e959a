use vstd::prelude::*;

use crate::constants::{
    BASIS_POINTS_DIVISOR, CREATION_FEE_DIVISOR, EXIT_FEE_BPS, FEED_COMMISSION_DIVISOR,
    FEE_SPLIT_DIVISOR, HIGH_RATE_THRESHOLD_SECONDS, MIN_DEPOSIT_LAMPORTS, MIN_MARK_COST_LAMPORTS,
};
use crate::errors::ErrorCode;
use crate::math::{sat_sub, saturated_product, saturating_product};

verus! {

/// Each of the two creation fees (operator and pool): 5% of the deposit.
pub open spec fn creation_fee(deposit: u64) -> u64 {
    (deposit / CREATION_FEE_DIVISOR) as u64
}

/// Outcome of charging a creation deposit to a payer who holds `payer_balance`:
/// `(operator fee, pool fee, deposit)`, or why it is refused.
pub open spec fn creation_finance(payer_balance: u64, deposit: u64) -> Result<(u64, u64, u64), ErrorCode> {
    if deposit < MIN_DEPOSIT_LAMPORTS {
        Err(ErrorCode::MinimumDeposit)
    } else if payer_balance < deposit + 2 * creation_fee(deposit) {
        Err(ErrorCode::InsufficientFunds)
    } else {
        Ok((creation_fee(deposit), creation_fee(deposit), deposit))
    }
}

/// Splits a creation deposit into operator and pool fees and checks that the
/// payer can cover deposit and both fees.
pub fn apply_creation_finance(payer_balance: u64, deposit: u64) -> (r: Result<(u64, u64, u64), ErrorCode>)
    ensures
        r == creation_finance(payer_balance, deposit),
{
    if deposit < MIN_DEPOSIT_LAMPORTS {
        return Err(ErrorCode::MinimumDeposit);
    }
    let admin_fee = deposit / CREATION_FEE_DIVISOR;
    let pool_fee = deposit / CREATION_FEE_DIVISOR;
    let total_cost = deposit as u128 + admin_fee as u128 + pool_fee as u128;
    if (payer_balance as u128) < total_cost {
        return Err(ErrorCode::InsufficientFunds);
    }
    Ok((admin_fee, pool_fee, deposit))
}

/// Commission on a feeding payment: 10% of it.
pub open spec fn feed_commission(amount: u64) -> u64 {
    (amount / FEED_COMMISSION_DIVISOR) as u64
}

/// Operator's half of the feeding commission (rounded down).
pub open spec fn feed_admin_fee(amount: u64) -> u64 {
    (feed_commission(amount) / FEE_SPLIT_DIVISOR) as u64
}

/// Pool's half of the feeding commission (the rest).
pub open spec fn feed_pool_fee(amount: u64) -> u64 {
    (feed_commission(amount) - feed_admin_fee(amount)) as u64
}

/// Splits a feeding payment's commission: `(commission, operator fee, pool fee)`.
pub fn feeding_fees(amount: u64) -> (r: (u64, u64, u64))
    ensures
        r == (feed_commission(amount), feed_admin_fee(amount), feed_pool_fee(amount)),
{
    let commission = amount / FEED_COMMISSION_DIVISOR;
    let admin_fee = commission / FEE_SPLIT_DIVISOR;
    (commission, admin_fee, commission - admin_fee)
}

/// Part of a bite of `bite` shares given by `percent`, with the product capped.
pub open spec fn bite_part(bite: u64, percent: u64) -> u64 {
    (saturated_product(bite, percent) / 100) as u64
}

/// Splits a prey's share among hunter (80%), pool (10%) and operator (10%).
pub fn hunt_split(bite: u64) -> (r: (u64, u64, u64))
    ensures
        r == (bite_part(bite, 80), bite_part(bite, 10), bite_part(bite, 10)),
{
    let to_hunter = saturating_product(bite, 80) / 100;
    let to_pool = saturating_product(bite, 10) / 100;
    let to_admin = saturating_product(bite, 10) / 100;
    (to_hunter, to_pool, to_admin)
}

/// The exit fee component: 5% of the value, charged twice.
pub open spec fn exit_fee(value: u64) -> u64 {
    (saturated_product(value, EXIT_FEE_BPS) / BASIS_POINTS_DIVISOR) as u64
}

/// What the player receives on exit: the value less the fee component twice.
pub open spec fn exit_withdrawal(value: u64) -> u64 {
    sat_sub(sat_sub(value, exit_fee(value)), exit_fee(value))
}

/// Splits an exit: `(fee component, withdrawal)`; the fee component goes once
/// to the pool and once to the operator.
pub fn exit_split(value: u64) -> (r: (u64, u64))
    ensures
        r == (exit_fee(value), exit_withdrawal(value)),
{
    let fee_component = saturating_product(value, EXIT_FEE_BPS) / BASIS_POINTS_DIVISOR;
    let withdrawal = value.saturating_sub(fee_component).saturating_sub(fee_component);
    (fee_component, withdrawal)
}

/// Rate of a mark, in tenths of a percent: 10% close to hunger, else 5%.
pub open spec fn mark_rate(time_until_hungry: int) -> u64 {
    if time_until_hungry <= HIGH_RATE_THRESHOLD_SECONDS {
        100
    } else {
        50
    }
}

/// Price of a mark on a prey worth `prey_value`, never under the minimum.
pub open spec fn mark_price(prey_value: u64, time_until_hungry: int) -> u64 {
    let raw = (saturated_product(prey_value, mark_rate(time_until_hungry)) / 1000) as u64;
    if raw < MIN_MARK_COST_LAMPORTS {
        MIN_MARK_COST_LAMPORTS
    } else {
        raw
    }
}

/// Prices a mark: `(cost, rate)` for a prey worth `prey_value` that becomes
/// huntable in `time_until_hungry` seconds.
pub fn mark_cost(prey_value: u64, time_until_hungry: i64) -> (r: (u64, u64))
    ensures
        r == (mark_price(prey_value, time_until_hungry as int), mark_rate(time_until_hungry as int)),
{
    let percent: u64 = if time_until_hungry <= HIGH_RATE_THRESHOLD_SECONDS {
        100
    } else {
        50
    };
    let raw = saturating_product(prey_value, percent) / 1000;
    let cost = if raw < MIN_MARK_COST_LAMPORTS {
        MIN_MARK_COST_LAMPORTS
    } else {
        raw
    };
    (cost, percent)
}

/// Pool's half of a mark's price (rounded down); the operator takes the rest.
pub open spec fn mark_pool_fee(cost: u64) -> u64 {
    (cost / 2) as u64
}

/// Whether the vault, holding `vault_balance`, can pay `amount` to the operator.
pub open spec fn admin_payable(vault_balance: u64, amount: u64) -> bool {
    amount == 0 || vault_balance >= amount
}

/// Checks a payment from the vault to the operator; nothing is due when the
/// amount is zero.
pub fn transfer_to_admin(vault_balance: u64, amount: u64) -> (r: Result<(), ErrorCode>)
    ensures
        r is Ok <==> admin_payable(vault_balance, amount),
        r is Err ==> r == Err::<(), ErrorCode>(ErrorCode::InsufficientFunds),
{
    if amount == 0 {
        return Ok(());
    }
    if vault_balance < amount {
        return Err(ErrorCode::InsufficientFunds);
    }
    Ok(())
}

} // verus!
