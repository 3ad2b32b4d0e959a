use vstd::prelude::*;

use crate::fish::PlayerKey;

verus! {

/// Notification that a fish was fed.
#[derive(Debug, Clone, Copy)]
pub struct FishFed {
    pub fish_id: u64,
    pub owner: PlayerKey,
    pub added_share: u64,
    pub base_cost: u64,
    pub admin_fee: u64,
    pub pool_fee: u64,
    pub new_share: u64,
    pub new_value: u64,
}

/// Notification of a hunt: how the prey's share was split.
#[derive(Debug, Clone, Copy)]
pub struct FishHunted {
    pub hunter_id: u64,
    pub prey_id: u64,
    pub hunter_owner: PlayerKey,
    pub prey_owner: PlayerKey,
    pub bite_share: u64,
    pub to_hunter: u64,
    pub to_pool: u64,
    pub to_admin: u64,
    pub enhanced: bool,
    pub hunter_new_share: u64,
    pub prey_new_share: u64,
    pub received_from_hunt_value: u64,
    pub to_admin_value: u64,
    pub to_pool_value: u64,
    pub bite_percent: u64,
    pub bite_fee_percent: u64,
    pub bite_fee: u64,
}

/// Notification that a fish left the game and what it was paid.
#[derive(Debug, Clone, Copy)]
pub struct FishExited {
    pub fish_id: u64,
    pub owner: PlayerKey,
    pub exited_share: u64,
    pub payout: u64,
    pub admin_fee: u64,
    pub pool_fee: u64,
    pub to_player: u64,
    pub new_balance: u64,
}

/// Notification that a fish was created.
#[derive(Debug, Clone)]
pub struct FishCreated {
    pub fish_id: u64,
    pub owner: PlayerKey,
    pub share: u64,
    pub deposit: u64,
    pub admin_fee: u64,
    pub pool_fee: u64,
    pub name: String,
}

/// Notification that a fish changed owner.
#[derive(Debug, Clone, Copy)]
pub struct FishTransferred {
    pub fish_id: u64,
    pub from_owner: PlayerKey,
    pub to_owner: PlayerKey,
}

/// Notification that a dead fish's owner started a new fish.
#[derive(Debug, Clone)]
pub struct FishResurrected {
    pub old_fish_id: u64,
    pub new_fish_id: u64,
    pub owner: PlayerKey,
    pub name: String,
    pub share: u64,
    pub deposit: u64,
    pub admin_fee: u64,
    pub pool_fee: u64,
}

/// Notification that a hunter reserved a prey.
#[derive(Debug, Clone, Copy)]
pub struct HuntingMarkPlaced {
    pub hunter_id: u64,
    pub prey_id: u64,
    pub hunter_owner: PlayerKey,
    pub cost: u64,
    pub expires_at: i64,
    pub time_until_hungry: i64,
    pub cost_percent: u64,
}

/// Notification of a daily mode roll.
#[derive(Debug, Clone)]
pub struct OceanModeChanged {
    pub old_mode: bool,
    pub new_mode: bool,
    pub old_feeding_percentage: u16,
    pub new_feeding_percentage: u16,
    pub storm_probability_bps: u16,
    pub cycle_start_time: i64,
    pub next_change_time: i64,
    pub reason: String,
    pub timestamp: i64,
}

} // verus!
