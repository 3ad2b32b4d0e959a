use vstd::prelude::*;

use crate::constants::{
    EXCLUSIVITY_SECONDS, PLACEMENT_WINDOW_SECONDS, PREY_COOLDOWN,
};
use crate::errors::ErrorCode;
use crate::events::HuntingMarkPlaced;
use crate::finance::{mark_cost, mark_pool_fee, mark_price, mark_rate};
use crate::fish::{expired_mark_cleared, Fish, PlayerKey};
use crate::math::{sat_add, share_to_value, share_value};
use crate::ocean::Ocean;

verus! {

/// A mark held by another hunter keeps `hunter_id` away from the prey at `now`
/// (an expired mark has been cleared first).
pub open spec fn mark_blocks(prey: Fish, hunter_id: u64, now: i64) -> bool {
    let p = expired_mark_cleared(prey, now);
    &&& p.marked_by_hunter_id > 0
    &&& p.mark_placed_at > 0
    &&& p.marked_by_hunter_id != hunter_id
    &&& now <= p.mark_expires_at
}

/// Validates exclusivity rules for hunting marks: lazily clears an expired
/// mark, then lets the mark owner hunt and rejects others until the window
/// expires.
pub fn check_hunting_mark_exclusivity(prey: &mut Fish, hunter_id: u64, current_time: i64) -> (r:
    Result<(), ErrorCode>)
    ensures
        *final(prey) == expired_mark_cleared(*old(prey), current_time),
        r == (if mark_blocks(*old(prey), hunter_id, current_time) {
            Err(ErrorCode::MarkExclusivityActive)
        } else {
            Ok::<(), ErrorCode>(())
        }),
{
    prey.clear_expired_mark(current_time);
    if prey.marked_by_hunter_id > 0 && prey.mark_placed_at > 0 {
        if prey.marked_by_hunter_id == hunter_id {
            return Ok(());
        } else if current_time > prey.mark_expires_at {
            return Ok(());
        } else {
            return Err(ErrorCode::MarkExclusivityActive);
        }
    }
    Ok(())
}

/// A mark placed by hunter `a` at time `placed` (later than zero) and expiring at
/// `expires` keeps any other hunter `b` out at every time in `(placed, expires]`,
/// and no longer after `expires`; `a` itself is never kept out.
pub proof fn law_mark_exclusivity(prey: Fish, a: u64, b: u64, now: i64)
    requires
        a > 0,
        b != a,
        prey.marked_by_hunter_id == a,
        prey.mark_placed_at > 0,
    ensures
        prey.mark_placed_at < now <= prey.mark_expires_at ==> mark_blocks(prey, b, now),
        now > prey.mark_expires_at ==> !mark_blocks(prey, b, now),
        !mark_blocks(prey, a, now),
{
}

/// Seconds until the prey becomes huntable.
pub open spec fn until_hungry(prey: Fish, now: i64) -> int {
    prey.last_fed_at + PREY_COOLDOWN - now
}

/// Why placing a mark by `hunter` (signed by `owner`, who holds
/// `payer_balance`) on `prey` at `now` is refused, if it is.
pub open spec fn mark_refusal(o: Ocean, hunter: Fish, prey: Fish, owner: PlayerKey, payer_balance: u64, now: i64) -> Option<ErrorCode> {
    let tuh = until_hungry(prey, now);
    if hunter.share == 0 || prey.share == 0 {
        Some(ErrorCode::FishAlreadyDead)
    } else if hunter.owner.bytes@ != owner.bytes@ {
        Some(ErrorCode::NotFishOwner)
    } else if hunter.owner.bytes@ == prey.owner.bytes@ || hunter.id == prey.id {
        Some(ErrorCode::InvalidPrey)
    } else if hunter.share <= prey.share {
        Some(ErrorCode::PreyTooHeavy)
    } else if !(0 < tuh <= PLACEMENT_WINDOW_SECONDS) {
        Some(ErrorCode::MarkTooEarly)
    } else if expired_mark_cleared(prey, now).marked_by_hunter_id != 0 {
        Some(ErrorCode::MarkAlreadyActive)
    } else if payer_balance < mark_price(share_value(o.total_shares, o.balance_fishes, prey.share), tuh) {
        Some(ErrorCode::InsufficientFunds)
    } else {
        None
    }
}

/// The price of the mark that `hunter` places on `prey` at `now`.
pub open spec fn placed_mark_cost(o: Ocean, prey: Fish, now: i64) -> u64 {
    mark_price(share_value(o.total_shares, o.balance_fishes, prey.share), until_hungry(prey, now))
}

/// The prey once marked by `hunter_id` at `now`.
pub open spec fn marked_prey(o: Ocean, prey: Fish, hunter_id: u64, now: i64) -> Fish {
    Fish {
        marked_by_hunter_id: hunter_id,
        mark_placed_at: now,
        mark_expires_at: (prey.last_fed_at + PREY_COOLDOWN + EXCLUSIVITY_SECONDS) as i64,
        mark_cost: placed_mark_cost(o, prey, now),
        ..expired_mark_cleared(prey, now)
    }
}

/// Places `hunter`'s exclusive hunting mark on `prey` shortly before the prey
/// becomes huntable. The placer pays the returned cost: the pool's half stays
/// in the ocean's balance, the rest goes to the operator.
pub fn place_hunting_mark(
    ocean: &mut Ocean,
    hunter: &mut Fish,
    prey: &mut Fish,
    hunter_owner: &PlayerKey,
    payer_balance: u64,
    now: i64,
) -> (r: Result<HuntingMarkPlaced, ErrorCode>)
    requires
        now <= i64::MAX - PLACEMENT_WINDOW_SECONDS - EXCLUSIVITY_SECONDS,
    ensures
        match r {
            Ok(ev) => {
                &&& mark_refusal(*old(ocean), *old(hunter), *old(prey), *hunter_owner, payer_balance, now) is None
                &&& *final(prey) == marked_prey(*old(ocean), *old(prey), old(hunter).id, now)
                &&& *final(hunter) == (Fish {
                    hunting_marks_placed: if old(hunter).hunting_marks_placed == u8::MAX {
                        u8::MAX
                    } else {
                        (old(hunter).hunting_marks_placed + 1) as u8
                    },
                    ..*old(hunter)
                })
                &&& *final(ocean) == (Ocean {
                    balance_fishes: sat_add(
                        old(ocean).balance_fishes,
                        mark_pool_fee(placed_mark_cost(*old(ocean), *old(prey), now)),
                    ),
                    ..*old(ocean)
                })
                &&& ev.cost == placed_mark_cost(*old(ocean), *old(prey), now)
                &&& ev.cost_percent == mark_rate(until_hungry(*old(prey), now))
                &&& ev.expires_at == final(prey).mark_expires_at
                &&& ev.time_until_hungry == until_hungry(*old(prey), now)
                &&& ev.hunter_id == old(hunter).id
                &&& ev.prey_id == old(prey).id
                &&& ev.hunter_owner == *hunter_owner
            },
            Err(e) => {
                &&& mark_refusal(*old(ocean), *old(hunter), *old(prey), *hunter_owner, payer_balance, now)
                    == Some(e)
                &&& *final(ocean) == *old(ocean)
                &&& *final(hunter) == *old(hunter)
                &&& *final(prey) == *old(prey)
            },
        },
{
    hunter.ensure_alive()?;
    prey.ensure_alive()?;
    hunter.ensure_owned_by(hunter_owner)?;
    if hunter.owner.same_as(&prey.owner) || hunter.id == prey.id {
        return Err(ErrorCode::InvalidPrey);
    }
    if hunter.share <= prey.share {
        return Err(ErrorCode::PreyTooHeavy);
    }
    let wide_until: i128 = prey.last_fed_at as i128 + PREY_COOLDOWN as i128 - now as i128;
    if !(0 < wide_until && wide_until <= PLACEMENT_WINDOW_SECONDS as i128) {
        return Err(ErrorCode::MarkTooEarly);
    }
    let time_until_hungry = wide_until as i64;
    if prey.is_mark_expired(now) {
    } else if prey.marked_by_hunter_id != 0 {
        return Err(ErrorCode::MarkAlreadyActive);
    }
    let prey_value = share_to_value(ocean, prey.share);
    let (cost, percent) = mark_cost(prey_value, time_until_hungry);
    if payer_balance < cost {
        return Err(ErrorCode::InsufficientFunds);
    }
    let to_pool = cost / 2;
    ocean.balance_fishes = ocean.balance_fishes.saturating_add(to_pool);
    prey.clear_expired_mark(now);
    prey.marked_by_hunter_id = hunter.id;
    prey.mark_placed_at = now;
    prey.mark_expires_at = prey.last_fed_at + PREY_COOLDOWN + EXCLUSIVITY_SECONDS;
    prey.mark_cost = cost;
    hunter.hunting_marks_placed = hunter.hunting_marks_placed.saturating_add(1);
    Ok(HuntingMarkPlaced {
        hunter_id: hunter.id,
        prey_id: prey.id,
        hunter_owner: *hunter_owner,
        cost,
        expires_at: prey.mark_expires_at,
        time_until_hungry,
        cost_percent: percent,
    })
}

} // verus!
