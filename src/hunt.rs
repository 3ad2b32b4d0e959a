use vstd::prelude::*;

use crate::constants::{MIN_FEED_LAMPORTS, POST_HUNT_COOLDOWN};
use crate::errors::ErrorCode;
use crate::events::FishHunted;
use crate::finance::{admin_payable, bite_part, hunt_split, transfer_to_admin};
use crate::fish::{expired_mark_cleared, hunt_ready, valid_prey, Fish, PlayerKey};
use crate::marks::{check_hunting_mark_exclusivity, mark_blocks};
use crate::math::{
    base_feeding_requirement, base_requirement, sat_add, sat_sub, saturated_product,
    saturating_product, share_to_value, share_value,
};
use crate::ocean::Ocean;

verus! {

/// Lowest prey share accepted for an expected share: 95% of it.
pub open spec fn slippage_floor(expected: u64) -> u64 {
    (saturated_product(expected, 95) / 100) as u64
}

/// Highest prey share accepted for an expected share: 105% of it.
pub open spec fn slippage_ceiling(expected: u64) -> u64 {
    (saturated_product(expected, 105) / 100) as u64
}

/// Shares that leave the share total in a hunt: all of the bite but the
/// hunter's part, so the pool's and operator's parts and the rounding dust.
pub open spec fn burnt_shares(bite: u64) -> u64 {
    (bite - bite_part(bite, 80)) as u64
}

/// Value of the operator's part of a bite, at the ocean's price before the hunt.
pub open spec fn admin_bite_value(o: Ocean, prey: Fish) -> u64 {
    share_value(o.total_shares, o.balance_fishes, bite_part(prey.share, 10))
}

/// Why `hunter` (signed by `owner`) may not hunt `prey` at `now`, given the
/// caller's `expected` prey share and the vault's balance.
pub open spec fn hunt_refusal(
    o: Ocean,
    hunter: Fish,
    prey: Fish,
    owner: PlayerKey,
    expected: u64,
    vault_balance: u64,
    now: i64,
) -> Option<ErrorCode> {
    if hunter.share == 0 || prey.share == 0 {
        Some(ErrorCode::FishAlreadyDead)
    } else if hunter.owner.bytes@ != owner.bytes@ {
        Some(ErrorCode::NotFishOwner)
    } else if hunter.id == prey.id || hunter.owner.bytes@ == prey.owner.bytes@ {
        Some(ErrorCode::InvalidPrey)
    } else if hunter.share <= prey.share {
        Some(ErrorCode::PreyTooHeavy)
    } else if !hunt_ready(hunter, now) {
        Some(ErrorCode::HuntingOnCooldown)
    } else if !valid_prey(prey, now) {
        Some(ErrorCode::InvalidPrey)
    } else if mark_blocks(prey, hunter.id, now) {
        Some(ErrorCode::MarkExclusivityActive)
    } else if !(slippage_floor(expected) <= prey.share <= slippage_ceiling(expected)) {
        Some(ErrorCode::SlippageExceeded)
    } else if o.total_shares < burnt_shares(prey.share) {
        Some(ErrorCode::MathOverflow)
    } else if o.balance_fishes < admin_bite_value(o, prey) {
        Some(ErrorCode::MathOverflow)
    } else if !admin_payable(vault_balance, admin_bite_value(o, prey)) {
        Some(ErrorCode::InsufficientFunds)
    } else {
        None
    }
}

/// The ocean after the hunt: every share of the bite not given to the hunter
/// leaves the share total, the operator's value leaves the balance, one fish fewer.
pub open spec fn hunted_ocean(o: Ocean, prey: Fish) -> Ocean {
    Ocean {
        total_shares: (o.total_shares - burnt_shares(prey.share)) as u64,
        balance_fishes: (o.balance_fishes - admin_bite_value(o, prey)) as u64,
        total_fish_count: sat_sub(o.total_fish_count, 1),
        ..o
    }
}

/// The prey after the hunt: dead, with an expired mark cleared.
pub open spec fn hunted_prey(prey: Fish, now: i64) -> Fish {
    Fish { share: 0, ..expired_mark_cleared(prey, now) }
}

/// Value of the hunter's part of the bite, at the ocean's price after the hunt.
pub open spec fn hunt_reward(o: Ocean, prey: Fish) -> u64 {
    let o2 = hunted_ocean(o, prey);
    share_value(o2.total_shares, o2.balance_fishes, bite_part(prey.share, 80))
}

/// The hunter's feeding requirement after the hunt, never under the minimum.
pub open spec fn hunter_feeding_need(o: Ocean, hunter: Fish, prey: Fish) -> u64 {
    let need = base_requirement(hunted_ocean(o, prey), sat_add(hunter.share, bite_part(prey.share, 80)));
    if need >= MIN_FEED_LAMPORTS {
        need
    } else {
        MIN_FEED_LAMPORTS
    }
}

/// The hunter after the hunt: heavier, resting, and either counted as fed (when
/// the reward covers its feeding need) or holding the reward as feeding credit.
pub open spec fn hunting_hunter(o: Ocean, hunter: Fish, prey: Fish, now: i64) -> Fish {
    let reward = hunt_reward(o, prey);
    let fed = reward >= hunter_feeding_need(o, hunter, prey);
    Fish {
        share: sat_add(hunter.share, bite_part(prey.share, 80)),
        last_hunt_at: now,
        can_hunt_after: (now + POST_HUNT_COOLDOWN) as i64,
        last_fed_at: if fed { now } else { hunter.last_fed_at },
        received_from_hunt_value: if fed { 0 } else { reward },
        total_hunts: sat_add(hunter.total_hunts, 1),
        total_hunt_income: sat_add(hunter.total_hunt_income, reward),
        ..hunter
    }
}

/// Runs a hunt: the prey's whole share is consumed, 80% to the hunter, 10% to
/// the pool (its shares are burnt, their value stays) and 10% to the operator
/// (burnt, and their value leaves the vault); the rounding dust is burnt
/// with them and its value stays in the pool. The prey dies and its name may
/// be released.
pub fn hunt_fish(
    ocean: &mut Ocean,
    hunter: &mut Fish,
    prey: &mut Fish,
    hunter_owner: &PlayerKey,
    expected_prey_share: u64,
    vault_balance: u64,
    now: i64,
) -> (r: Result<FishHunted, ErrorCode>)
    requires
        now <= i64::MAX - POST_HUNT_COOLDOWN,
    ensures
        match r {
            Ok(ev) => {
                &&& hunt_refusal(*old(ocean), *old(hunter), *old(prey), *hunter_owner, expected_prey_share, vault_balance, now) is None
                &&& *final(ocean) == hunted_ocean(*old(ocean), *old(prey))
                &&& *final(prey) == hunted_prey(*old(prey), now)
                &&& *final(hunter) == hunting_hunter(*old(ocean), *old(hunter), *old(prey), now)
                &&& ev.hunter_id == old(hunter).id
                &&& ev.prey_id == old(prey).id
                &&& ev.hunter_owner == old(hunter).owner
                &&& ev.prey_owner == old(prey).owner
                &&& ev.bite_share == old(prey).share
                &&& ev.to_hunter == bite_part(old(prey).share, 80)
                &&& ev.to_pool == bite_part(old(prey).share, 10)
                &&& ev.to_admin == bite_part(old(prey).share, 10)
                &&& ev.hunter_new_share == final(hunter).share
                &&& ev.prey_new_share == 0
                &&& ev.received_from_hunt_value == hunt_reward(*old(ocean), *old(prey))
                &&& ev.to_admin_value == admin_bite_value(*old(ocean), *old(prey))
                &&& ev.to_pool_value == admin_bite_value(*old(ocean), *old(prey))
                &&& !ev.enhanced && ev.bite_percent == 100 && ev.bite_fee_percent == 0 && ev.bite_fee == 0
            },
            Err(e) => {
                &&& hunt_refusal(*old(ocean), *old(hunter), *old(prey), *hunter_owner, expected_prey_share, vault_balance, now) == Some(e)
                &&& *final(ocean) == *old(ocean)
                &&& *final(hunter) == *old(hunter)
                &&& *final(prey) == *old(prey)
            },
        },
{
    hunter.ensure_alive()?;
    prey.ensure_alive()?;
    hunter.ensure_owned_by(hunter_owner)?;
    if hunter.id == prey.id || hunter.owner.same_as(&prey.owner) {
        return Err(ErrorCode::InvalidPrey);
    }
    if hunter.share <= prey.share {
        return Err(ErrorCode::PreyTooHeavy);
    }
    if !hunter.can_hunt(now) {
        return Err(ErrorCode::HuntingOnCooldown);
    }
    if !prey.is_valid_prey(now) {
        return Err(ErrorCode::InvalidPrey);
    }
    let lower_bound = saturating_product(expected_prey_share, 95) / 100;
    let upper_bound = saturating_product(expected_prey_share, 105) / 100;
    let bite_share = prey.share;
    let (to_hunter, to_pool, to_admin_share) = hunt_split(bite_share);
    let to_pool_value = share_to_value(ocean, to_pool);
    let to_admin_value = share_to_value(ocean, to_admin_share);
    let blocked = mark_blocks_now(prey, hunter.id, now);
    if blocked {
        return Err(ErrorCode::MarkExclusivityActive);
    }
    if !(lower_bound <= bite_share && bite_share <= upper_bound) {
        return Err(ErrorCode::SlippageExceeded);
    }
    let burnt = bite_share - to_hunter;
    if ocean.total_shares < burnt {
        return Err(ErrorCode::MathOverflow);
    }
    if ocean.balance_fishes < to_admin_value {
        return Err(ErrorCode::MathOverflow);
    }
    transfer_to_admin(vault_balance, to_admin_value)?;
    let checked = check_hunting_mark_exclusivity(prey, hunter.id, now);
    proof {
        assert(checked is Ok);
    }
    prey.share = 0;
    hunter.share = hunter.share.saturating_add(to_hunter);
    ocean.total_shares = ocean.total_shares - burnt;
    ocean.balance_fishes = ocean.balance_fishes - to_admin_value;
    ocean.total_fish_count = ocean.total_fish_count.saturating_sub(1);
    let need = base_feeding_requirement(ocean, hunter.share);
    let min_feeding_value = if need >= MIN_FEED_LAMPORTS {
        need
    } else {
        MIN_FEED_LAMPORTS
    };
    let received_from_hunt_value = share_to_value(ocean, to_hunter);
    hunter.last_hunt_at = now;
    hunter.can_hunt_after = now + POST_HUNT_COOLDOWN;
    if received_from_hunt_value >= min_feeding_value {
        hunter.last_fed_at = now;
        hunter.received_from_hunt_value = 0;
    } else {
        hunter.received_from_hunt_value = received_from_hunt_value;
    }
    hunter.total_hunts = hunter.total_hunts.saturating_add(1);
    hunter.total_hunt_income = hunter.total_hunt_income.saturating_add(received_from_hunt_value);
    Ok(FishHunted {
        hunter_id: hunter.id,
        prey_id: prey.id,
        hunter_owner: hunter.owner,
        prey_owner: prey.owner,
        bite_share,
        to_hunter,
        to_pool,
        to_admin: to_admin_share,
        enhanced: false,
        hunter_new_share: hunter.share,
        prey_new_share: prey.share,
        received_from_hunt_value,
        to_admin_value,
        to_pool_value,
        bite_percent: 100,
        bite_fee_percent: 0,
        bite_fee: 0,
    })
}

/// For a hunter and prey that meet every hunting condition checked before
/// marks, a mark that another hunter placed (at a time later than zero)
/// refuses the hunt with `MarkExclusivityActive` at every time from just after
/// its placement up to its expiry; after the expiry, or for the mark's own
/// hunter, the mark refuses nothing and the remaining conditions decide.
pub proof fn law_hunt_mark_exclusivity(
    o: Ocean,
    hunter: Fish,
    prey: Fish,
    owner: PlayerKey,
    expected: u64,
    vault_balance: u64,
    now: i64,
)
    requires
        hunter.share > 0,
        prey.share > 0,
        hunter.owner.bytes@ == owner.bytes@,
        hunter.id != prey.id,
        hunter.owner.bytes@ != prey.owner.bytes@,
        hunter.share > prey.share,
        hunt_ready(hunter, now),
        valid_prey(prey, now),
        prey.marked_by_hunter_id > 0,
        prey.mark_placed_at > 0,
    ensures
        prey.marked_by_hunter_id != hunter.id && prey.mark_placed_at < now <= prey.mark_expires_at
            ==> hunt_refusal(o, hunter, prey, owner, expected, vault_balance, now)
            == Some(ErrorCode::MarkExclusivityActive),
        prey.marked_by_hunter_id == hunter.id || now > prey.mark_expires_at
            ==> hunt_refusal(o, hunter, prey, owner, expected, vault_balance, now)
            != Some(ErrorCode::MarkExclusivityActive),
{
}

/// Whether another hunter's live mark keeps `hunter_id` away, without
/// touching the prey.
fn mark_blocks_now(prey: &Fish, hunter_id: u64, now: i64) -> (r: bool)
    ensures
        r == mark_blocks(*prey, hunter_id, now),
{
    if prey.is_mark_expired(now) {
        return false;
    }
    prey.marked_by_hunter_id > 0 && prey.mark_placed_at > 0 && prey.marked_by_hunter_id != hunter_id
        && now <= prey.mark_expires_at
}

} // verus!
