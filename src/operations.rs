use vstd::prelude::*;

use crate::constants::{
    CREATION_HUNTING_COOLDOWN, FEEDING_COOLDOWN, MIN_DEPOSIT_LAMPORTS, PROTECTION_PERIOD,
};
use crate::errors::ErrorCode;
use crate::events::{FishCreated, FishExited, FishFed, FishResurrected, FishTransferred};
use crate::finance::{
    admin_payable, apply_creation_finance, creation_fee, creation_finance, exit_fee, exit_split,
    exit_withdrawal, feed_admin_fee, feed_commission, feed_pool_fee, feeding_fees, transfer_to_admin,
};
use crate::fish::{Fish, PlayerKey};
use crate::math::{
    min_feeding, min_feeding_amount, minted_shares, new_share, sat_add, share_to_value, share_value,
};
use crate::names::{name_verdict, trimmed_of, validate_name};
use crate::ocean::Ocean;

verus! {

/// The ocean after `value` joins its balance and is minted into shares.
pub open spec fn minted_ocean(o: Ocean, value: u64) -> Ocean {
    Ocean {
        balance_fishes: sat_add(o.balance_fishes, value),
        total_shares: sat_add(o.total_shares, mint_amount(o, value)),
        ..o
    }
}

/// Shares that `value` mints once it has joined the ocean's balance.
pub open spec fn mint_amount(o: Ocean, value: u64) -> u64 {
    minted_shares(o.total_shares, sat_add(o.balance_fishes, value), value)
}

/// Mints shares for `value`: adds it to the ocean's balance, prices the
/// shares against the balance before it, and credits fish and ocean.
pub fn mint_fish_share(ocean: &mut Ocean, fish: &mut Fish, value: u64) -> (r: u64)
    ensures
        r == mint_amount(*old(ocean), value),
        *final(ocean) == minted_ocean(*old(ocean), value),
        *final(fish) == (Fish { share: sat_add(old(fish).share, r), ..*old(fish) }),
{
    ocean.balance_fishes = ocean.balance_fishes.saturating_add(value);
    let share = new_share(ocean, value);
    fish.share = fish.share.saturating_add(share);
    ocean.total_shares = ocean.total_shares.saturating_add(share);
    share
}

/// Why feeding `amount` to `f` on behalf of `owner`, who holds `payer_balance`, is refused.
pub open spec fn feed_refusal(o: Ocean, f: Fish, owner: PlayerKey, amount: u64, payer_balance: u64) -> Option<ErrorCode> {
    if f.share == 0 {
        Some(ErrorCode::FishAlreadyDead)
    } else if f.owner.bytes@ != owner.bytes@ {
        Some(ErrorCode::NotFishOwner)
    } else if amount < min_feeding(o, f) {
        Some(ErrorCode::InsufficientFeedingAmount)
    } else if payer_balance < amount + feed_commission(amount) {
        Some(ErrorCode::InsufficientFunds)
    } else {
        None
    }
}

/// The ocean's balance after a feeding: amount and the pool's fee join it.
pub open spec fn fed_balance_ocean(o: Ocean, amount: u64) -> Ocean {
    Ocean { balance_fishes: sat_add(o.balance_fishes, (amount + feed_pool_fee(amount)) as u64), ..o }
}

/// Shares that a feeding of `amount` adds; the commission buys none.
pub open spec fn feed_added(o: Ocean, amount: u64) -> u64 {
    let o1 = fed_balance_ocean(o, amount);
    minted_shares(o1.total_shares, o1.balance_fishes, amount)
}

/// The ocean after a feeding of `amount`.
pub open spec fn fed_ocean(o: Ocean, amount: u64) -> Ocean {
    Ocean {
        total_shares: sat_add(o.total_shares, feed_added(o, amount)),
        ..fed_balance_ocean(o, amount)
    }
}

/// The fish after a feeding of `amount` at `now`: more shares, clock reset,
/// mark and hunt credit cleared.
pub open spec fn fed_fish(o: Ocean, f: Fish, amount: u64, now: i64) -> Fish {
    Fish {
        share: sat_add(f.share, feed_added(o, amount)),
        last_fed_at: now,
        marked_by_hunter_id: 0,
        mark_placed_at: 0,
        mark_expires_at: 0,
        mark_cost: 0,
        can_hunt_after: (now + FEEDING_COOLDOWN) as i64,
        received_from_hunt_value: 0,
        ..f
    }
}

/// Feeds a fish: checks the payment against the minimum, mints shares for
/// the base amount and resets the fish's clock, mark and hunt credit. The
/// payer owes `amount` plus the commission; the operator's half is in the
/// returned notification.
pub fn feed_fish(
    ocean: &mut Ocean,
    fish: &mut Fish,
    owner: &PlayerKey,
    feeding_amount: u64,
    payer_balance: u64,
    now: i64,
) -> (r: Result<FishFed, ErrorCode>)
    requires
        now <= i64::MAX - FEEDING_COOLDOWN,
    ensures
        match r {
            Ok(ev) => {
                &&& feed_refusal(*old(ocean), *old(fish), *owner, feeding_amount, payer_balance) is None
                &&& *final(ocean) == fed_ocean(*old(ocean), feeding_amount)
                &&& *final(fish) == fed_fish(*old(ocean), *old(fish), feeding_amount, now)
                &&& ev.fish_id == old(fish).id
                &&& ev.owner == old(fish).owner
                &&& ev.added_share == feed_added(*old(ocean), feeding_amount)
                &&& ev.base_cost == feeding_amount
                &&& ev.admin_fee == feed_admin_fee(feeding_amount)
                &&& ev.pool_fee == feed_pool_fee(feeding_amount)
                &&& ev.new_share == final(fish).share
                &&& ev.new_value == share_value(
                    final(ocean).total_shares,
                    final(ocean).balance_fishes,
                    final(fish).share,
                )
            },
            Err(e) => {
                &&& feed_refusal(*old(ocean), *old(fish), *owner, feeding_amount, payer_balance) == Some(e)
                &&& *final(ocean) == *old(ocean)
                &&& *final(fish) == *old(fish)
            },
        },
{
    fish.ensure_alive()?;
    fish.ensure_owned_by(owner)?;
    let min_required_cost = min_feeding_amount(ocean, fish);
    if feeding_amount < min_required_cost {
        return Err(ErrorCode::InsufficientFeedingAmount);
    }
    let (commission, admin_fee, pool_fee) = feeding_fees(feeding_amount);
    if (payer_balance as u128) < feeding_amount as u128 + commission as u128 {
        return Err(ErrorCode::InsufficientFunds);
    }
    ocean.balance_fishes = ocean.balance_fishes.saturating_add(feeding_amount + pool_fee);
    let added_share = new_share(ocean, feeding_amount);
    fish.share = fish.share.saturating_add(added_share);
    ocean.total_shares = ocean.total_shares.saturating_add(added_share);
    fish.last_fed_at = now;
    fish.marked_by_hunter_id = 0;
    fish.mark_placed_at = 0;
    fish.mark_expires_at = 0;
    fish.mark_cost = 0;
    fish.can_hunt_after = now + FEEDING_COOLDOWN;
    fish.received_from_hunt_value = 0;
    Ok(FishFed {
        fish_id: fish.id,
        owner: fish.owner,
        added_share,
        base_cost: feeding_amount,
        admin_fee,
        pool_fee,
        new_share: fish.share,
        new_value: share_to_value(ocean, fish.share),
    })
}

/// Minting `value` into an empty pool gives exactly `value` shares, and the
/// pool then holds `value` on top of what it held before (all of its balance
/// when it held nothing).
pub proof fn law_bootstrap_mint(o: Ocean, value: u64)
    requires
        o.total_shares == 0,
        o.balance_fishes + value <= u64::MAX,
    ensures
        mint_amount(o, value) == value,
        minted_ocean(o, value).total_shares == value,
        minted_ocean(o, value).balance_fishes == o.balance_fishes + value,
        o.balance_fishes == 0 ==> minted_ocean(o, value).balance_fishes == value,
{
}

/// Creating the first fish of an empty pool mints exactly the deposit as
/// shares; the pool's balance grows by the deposit and the pool's fee.
pub proof fn law_bootstrap_create(o: Ocean, deposit: u64)
    requires
        o.total_shares == 0,
        o.balance_fishes + creation_fee(deposit) + deposit <= u64::MAX,
    ensures
        creation_shares(o, deposit) == deposit,
        created_ocean(o, deposit).total_shares == deposit,
        created_ocean(o, deposit).balance_fishes == o.balance_fishes + creation_fee(deposit) + deposit,
{
}

/// Why `owner` may not take `f` out of the game, given the vault's balance.
pub open spec fn exit_refusal(o: Ocean, f: Fish, owner: PlayerKey, vault_balance: u64) -> Option<ErrorCode> {
    let value = share_value(o.total_shares, o.balance_fishes, f.share);
    let fee = exit_fee(value);
    let withdrawal = exit_withdrawal(value);
    if f.share == 0 {
        Some(ErrorCode::FishAlreadyDead)
    } else if f.owner.bytes@ != owner.bytes@ {
        Some(ErrorCode::NotFishOwner)
    } else if o.is_storm {
        Some(ErrorCode::ExitDuringStorm)
    } else if vault_balance < withdrawal {
        Some(ErrorCode::InsufficientVaultBalance)
    } else if !admin_payable((vault_balance - withdrawal) as u64, fee) {
        Some(ErrorCode::InsufficientFunds)
    } else if o.total_shares < f.share || o.balance_fishes < withdrawal + fee || o.total_fish_count == 0 {
        Some(ErrorCode::MathOverflow)
    } else {
        None
    }
}

/// The ocean after `f` exits: its shares leave the total, the withdrawal and
/// the operator's fee leave the balance (the pool's fee stays), one fish fewer.
pub open spec fn exited_ocean(o: Ocean, f: Fish) -> Ocean {
    let value = share_value(o.total_shares, o.balance_fishes, f.share);
    Ocean {
        total_shares: (o.total_shares - f.share) as u64,
        balance_fishes: (o.balance_fishes - exit_withdrawal(value) - exit_fee(value)) as u64,
        total_fish_count: (o.total_fish_count - 1) as u64,
        ..o
    }
}

/// Takes a fish out of the game: its value, less the fee component counted
/// once for the pool and once for the operator, is paid to its owner, and
/// the fish dies. Refused while a storm rages.
pub fn exit_game(ocean: &mut Ocean, fish: &mut Fish, owner: &PlayerKey, vault_balance: u64) -> (r:
    Result<FishExited, ErrorCode>)
    ensures
        match r {
            Ok(ev) => {
                &&& exit_refusal(*old(ocean), *old(fish), *owner, vault_balance) is None
                &&& *final(ocean) == exited_ocean(*old(ocean), *old(fish))
                &&& *final(fish) == (Fish { share: 0, ..*old(fish) })
                &&& ev.fish_id == old(fish).id
                &&& ev.owner == old(fish).owner
                &&& ev.exited_share == old(fish).share
                &&& ev.payout == share_value(old(ocean).total_shares, old(ocean).balance_fishes, old(fish).share)
                &&& ev.admin_fee == exit_fee(ev.payout)
                &&& ev.pool_fee == exit_fee(ev.payout)
                &&& ev.to_player == exit_withdrawal(ev.payout)
                &&& ev.new_balance == final(ocean).balance_fishes
            },
            Err(e) => {
                &&& exit_refusal(*old(ocean), *old(fish), *owner, vault_balance) == Some(e)
                &&& *final(ocean) == *old(ocean)
                &&& *final(fish) == *old(fish)
            },
        },
{
    fish.ensure_alive()?;
    fish.ensure_owned_by(owner)?;
    if ocean.is_storm {
        return Err(ErrorCode::ExitDuringStorm);
    }
    let total_value = share_to_value(ocean, fish.share);
    let (fee_component, withdrawal) = exit_split(total_value);
    let fee_fishes = fee_component;
    let fee_admin = fee_component;
    if vault_balance < withdrawal {
        return Err(ErrorCode::InsufficientVaultBalance);
    }
    transfer_to_admin(vault_balance - withdrawal, fee_admin)?;
    if ocean.total_shares < fish.share {
        return Err(ErrorCode::MathOverflow);
    }
    if ocean.balance_fishes < withdrawal || ocean.balance_fishes - withdrawal < fee_admin {
        return Err(ErrorCode::MathOverflow);
    }
    if ocean.total_fish_count == 0 {
        return Err(ErrorCode::MathOverflow);
    }
    ocean.total_shares = ocean.total_shares - fish.share;
    ocean.balance_fishes = ocean.balance_fishes - withdrawal - fee_admin;
    ocean.total_fish_count = ocean.total_fish_count - 1;
    let exited_share = fish.share;
    fish.share = 0;
    Ok(FishExited {
        fish_id: fish.id,
        owner: fish.owner,
        exited_share,
        payout: total_value,
        admin_fee: fee_admin,
        pool_fee: fee_fishes,
        to_player: withdrawal,
        new_balance: ocean.balance_fishes,
    })
}

/// A dead fish's reserved name goes back to the registry.
pub fn release_name_if_dead(fish: &Fish) -> (r: bool)
    ensures
        r == (fish.share == 0),
{
    fish.share == 0
}

/// Reads the value of a fish's share at the ocean's current price.
pub fn get_share_value(ocean: &Ocean, fish: &Fish) -> (r: u64)
    ensures
        r == share_value(ocean.total_shares, ocean.balance_fishes, fish.share),
{
    share_to_value(ocean, fish.share)
}

/// Reads how many shares a deposit of `value` would mint in the ocean as it
/// stands (its balance taken to include the deposit).
pub fn get_new_share(ocean: &Ocean, value: u64) -> (r: u64)
    ensures
        r == minted_shares(ocean.total_shares, ocean.balance_fishes, value),
{
    new_share(ocean, value)
}

/// Moves a living fish to a new owner: the returned record carries every
/// field over, the owner aside; the old record is consumed.
pub fn transfer_fish(fish: Fish, current_owner: &PlayerKey, new_owner: &PlayerKey) -> (r: Result<
    (Fish, FishTransferred),
    ErrorCode,
>)
    ensures
        match r {
            Ok((f, ev)) => {
                &&& fish.owner.bytes@ == current_owner.bytes@
                &&& current_owner.bytes@ != new_owner.bytes@
                &&& fish.share > 0
                &&& f == (Fish { owner: *new_owner, ..fish })
                &&& ev.fish_id == fish.id
                &&& ev.from_owner == *current_owner
                &&& ev.to_owner == *new_owner
            },
            Err(e) => e == (if fish.owner.bytes@ != current_owner.bytes@ {
                ErrorCode::NotFishOwner
            } else if current_owner.bytes@ == new_owner.bytes@ {
                ErrorCode::CannotTransferToSelf
            } else {
                ErrorCode::FishAlreadyDead
            }) && !(fish.owner.bytes@ == current_owner.bytes@ && current_owner.bytes@
                != new_owner.bytes@ && fish.share > 0),
        },
{
    fish.ensure_owned_by(current_owner)?;
    if current_owner.same_as(new_owner) {
        return Err(ErrorCode::CannotTransferToSelf);
    }
    fish.ensure_alive()?;
    let id = fish.id;
    let moved = Fish { owner: *new_owner, ..fish };
    Ok((moved, FishTransferred { fish_id: id, from_owner: *current_owner, to_owner: *new_owner }))
}

/// A fish as hatched into ocean `o`: the next id, fresh clocks, protection
/// on, no history, no mark.
pub open spec fn hatchling(o: Ocean, owner: PlayerKey, name: String, share: u64, now: i64) -> Fish {
    Fish {
        id: o.next_fish_id,
        owner,
        share,
        name,
        created_at: now,
        last_fed_at: now,
        last_hunt_at: now,
        can_hunt_after: (now + CREATION_HUNTING_COOLDOWN) as i64,
        is_protected: true,
        protection_ends_at: (now + PROTECTION_PERIOD) as i64,
        total_hunts: 0,
        total_hunt_income: 0,
        received_from_hunt_value: 0,
        hunting_marks_placed: 0,
        last_mark_reset: now,
        marked_by_hunter_id: 0,
        mark_placed_at: 0,
        mark_expires_at: 0,
        mark_cost: 0,
    }
}

/// An empty record, before a fish is hatched into it.
fn blank_fish() -> (r: Fish)
    ensures
        r.share == 0,
        r.marked_by_hunter_id == 0,
        r.mark_placed_at == 0,
        r.mark_expires_at == 0,
        r.mark_cost == 0,
{
    Fish {
        id: 0,
        owner: PlayerKey { bytes: [0u8; 32] },
        share: 0,
        name: String::new(),
        created_at: 0,
        last_fed_at: 0,
        last_hunt_at: 0,
        can_hunt_after: 0,
        is_protected: false,
        protection_ends_at: 0,
        total_hunts: 0,
        total_hunt_income: 0,
        received_from_hunt_value: 0,
        hunting_marks_placed: 0,
        last_mark_reset: 0,
        marked_by_hunter_id: 0,
        mark_placed_at: 0,
        mark_expires_at: 0,
        mark_cost: 0,
    }
}

/// Writes a hatched fish's identity and clocks, and counts it in the ocean.
pub fn init_new_fish_meta(ocean: &mut Ocean, fish: &mut Fish, owner: PlayerKey, name: String, now: i64)
    requires
        now <= i64::MAX - PROTECTION_PERIOD,
    ensures
        *final(fish) == (Fish {
            marked_by_hunter_id: old(fish).marked_by_hunter_id,
            mark_placed_at: old(fish).mark_placed_at,
            mark_expires_at: old(fish).mark_expires_at,
            mark_cost: old(fish).mark_cost,
            ..hatchling(*old(ocean), owner, name, old(fish).share, now)
        }),
        *final(ocean) == (Ocean {
            total_fish_count: sat_add(old(ocean).total_fish_count, 1),
            next_fish_id: sat_add(old(ocean).next_fish_id, 1),
            ..*old(ocean)
        }),
{
    fish.id = ocean.next_fish_id;
    fish.owner = owner;
    fish.name = name;
    fish.created_at = now;
    fish.last_fed_at = now;
    fish.last_hunt_at = now;
    fish.can_hunt_after = now + CREATION_HUNTING_COOLDOWN;
    fish.is_protected = true;
    fish.protection_ends_at = now + PROTECTION_PERIOD;
    fish.total_hunts = 0;
    fish.total_hunt_income = 0;
    fish.received_from_hunt_value = 0;
    fish.hunting_marks_placed = 0;
    fish.last_mark_reset = now;
    ocean.total_fish_count = ocean.total_fish_count.saturating_add(1);
    ocean.next_fish_id = ocean.next_fish_id.saturating_add(1);
}

/// Why creating a fish named `name` with `deposit` is refused; `name_taken`
/// is the registry's answer for the trimmed name.
pub open spec fn create_refusal(name: Seq<char>, name_taken: bool, deposit: u64, payer_balance: u64) -> Option<ErrorCode> {
    match name_verdict(trimmed_of(name)) {
        Err(e) => Some(e),
        Ok(_) => if name_taken {
            Some(ErrorCode::NameAlreadyTaken)
        } else {
            match creation_finance(payer_balance, deposit) {
                Err(e) => Some(e),
                Ok(_) => None,
            }
        },
    }
}

/// The ocean once the creation's pool fee has joined its balance.
pub open spec fn fee_paid_ocean(o: Ocean, deposit: u64) -> Ocean {
    Ocean { balance_fishes: sat_add(o.balance_fishes, creation_fee(deposit)), ..o }
}

/// Shares minted for a creation deposit, priced after the pool fee joined.
pub open spec fn creation_shares(o: Ocean, deposit: u64) -> u64 {
    mint_amount(fee_paid_ocean(o, deposit), deposit)
}

/// The ocean after a creation: pool fee and deposit in its balance, the new
/// shares in its total, one more fish and the next id taken.
pub open spec fn created_ocean(o: Ocean, deposit: u64) -> Ocean {
    let o2 = minted_ocean(fee_paid_ocean(o, deposit), deposit);
    Ocean {
        total_fish_count: sat_add(o2.total_fish_count, 1),
        next_fish_id: sat_add(o2.next_fish_id, 1),
        ..o2
    }
}

/// Hatches a fish from a checked name and an accepted deposit.
fn hatch(ocean: &mut Ocean, owner: PlayerKey, name: String, deposit: u64, pool_fee: u64, now: i64) -> (r: Fish)
    requires
        now <= i64::MAX - PROTECTION_PERIOD,
        pool_fee == creation_fee(deposit),
    ensures
        r == hatchling(*old(ocean), owner, name, creation_shares(*old(ocean), deposit), now),
        *final(ocean) == created_ocean(*old(ocean), deposit),
{
    let mut fish = blank_fish();
    ocean.balance_fishes = ocean.balance_fishes.saturating_add(pool_fee);
    mint_fish_share(ocean, &mut fish, deposit);
    init_new_fish_meta(ocean, &mut fish, owner, name, now);
    fish
}

/// Creates a fish: checks the name and the deposit, mints shares for the
/// deposit against the balance that already holds the pool fee, and starts
/// the fish's protection. The payer owes the deposit and both fees; the
/// caller reserves the name when this succeeds.
pub fn create_fish(
    ocean: &mut Ocean,
    owner: PlayerKey,
    name: &str,
    name_taken: bool,
    deposit: u64,
    payer_balance: u64,
    now: i64,
) -> (r: Result<(Fish, FishCreated), ErrorCode>)
    requires
        now <= i64::MAX - PROTECTION_PERIOD,
    ensures
        match r {
            Ok((f, ev)) => {
                &&& create_refusal(name@, name_taken, deposit, payer_balance) is None
                &&& f.name@ == trimmed_of(name@)
                &&& f == hatchling(*old(ocean), owner, f.name, creation_shares(*old(ocean), deposit), now)
                &&& *final(ocean) == created_ocean(*old(ocean), deposit)
                &&& ev.fish_id == f.id && ev.owner == owner && ev.share == f.share
                &&& ev.deposit == deposit
                &&& ev.admin_fee == creation_fee(deposit) && ev.pool_fee == creation_fee(deposit)
                &&& ev.name@ == f.name@
            },
            Err(e) => {
                &&& create_refusal(name@, name_taken, deposit, payer_balance) == Some(e)
                &&& *final(ocean) == *old(ocean)
            },
        },
{
    let trimmed = validate_name(name)?;
    if name_taken {
        return Err(ErrorCode::NameAlreadyTaken);
    }
    let (admin_fee, pool_fee, value) = apply_creation_finance(payer_balance, deposit)?;
    let event_name = trimmed.clone();
    let fish = hatch(ocean, owner, trimmed, value, pool_fee, now);
    let ev = FishCreated {
        fish_id: fish.id,
        owner,
        share: fish.share,
        deposit: value,
        admin_fee,
        pool_fee,
        name: event_name,
    };
    Ok((fish, ev))
}

/// Why starting a new fish from the dead `old_fish` is refused.
pub open spec fn resurrect_refusal(
    old_fish: Fish,
    name: Seq<char>,
    name_taken: bool,
    deposit: u64,
    payer_balance: u64,
) -> Option<ErrorCode> {
    if deposit < MIN_DEPOSIT_LAMPORTS {
        Some(ErrorCode::MinimumDeposit)
    } else if payer_balance < deposit {
        Some(ErrorCode::InsufficientFunds)
    } else if old_fish.share != 0 {
        Some(ErrorCode::FishAlreadyDead)
    } else {
        create_refusal(name, name_taken, deposit, payer_balance)
    }
}

/// Starts a new fish for the owner of a dead one: as creation, under a fresh
/// id; the dead record stays as history.
pub fn resurrect_fish(
    ocean: &mut Ocean,
    old_fish: &Fish,
    owner: PlayerKey,
    name: &str,
    name_taken: bool,
    deposit: u64,
    payer_balance: u64,
    now: i64,
) -> (r: Result<(Fish, FishResurrected), ErrorCode>)
    requires
        now <= i64::MAX - PROTECTION_PERIOD,
    ensures
        match r {
            Ok((f, ev)) => {
                &&& resurrect_refusal(*old_fish, name@, name_taken, deposit, payer_balance) is None
                &&& f.name@ == trimmed_of(name@)
                &&& f == hatchling(*old(ocean), owner, f.name, creation_shares(*old(ocean), deposit), now)
                &&& *final(ocean) == created_ocean(*old(ocean), deposit)
                &&& ev.old_fish_id == old_fish.id && ev.new_fish_id == f.id
                &&& ev.owner == owner && ev.share == f.share && ev.deposit == deposit
                &&& ev.admin_fee == creation_fee(deposit) && ev.pool_fee == creation_fee(deposit)
                &&& ev.name@ == f.name@
            },
            Err(e) => {
                &&& resurrect_refusal(*old_fish, name@, name_taken, deposit, payer_balance) == Some(e)
                &&& *final(ocean) == *old(ocean)
            },
        },
{
    if deposit < MIN_DEPOSIT_LAMPORTS {
        return Err(ErrorCode::MinimumDeposit);
    }
    if payer_balance < deposit {
        return Err(ErrorCode::InsufficientFunds);
    }
    old_fish.ensure_dead()?;
    let (fish, created) = create_fish(ocean, owner, name, name_taken, deposit, payer_balance, now)?;
    let ev = FishResurrected {
        old_fish_id: old_fish.id,
        new_fish_id: fish.id,
        owner,
        name: created.name,
        share: fish.share,
        deposit: created.deposit,
        admin_fee: created.admin_fee,
        pool_fee: created.pool_fee,
    };
    Ok((fish, ev))
}

} // verus!
