use vstd::prelude::*;

use crate::constants::{
    CALM_FEEDING_BPS, DAY_DURATION, INITIAL_STORM_PROBABILITY_BPS, STORM_FEEDING_BPS,
};
use crate::events::OceanModeChanged;
use crate::fish::PlayerKey;

verus! {

/// The mode the daily cycle last rolled.
#[derive(Debug, Clone, Copy, PartialEq, Eq, Structural)]
pub enum CycleMode {
    /// No roll has happened since the ocean was created.
    Unset,
    Calm,
    Storm,
}

/// The single shared pool: its shares, its value and its daily cycle.
#[derive(Debug, Clone, Copy)]
pub struct Ocean {
    pub admin: PlayerKey,
    pub total_fish_count: u64,
    pub total_shares: u64,
    pub balance_fishes: u64,
    pub vault_bump: u8,
    pub last_feeding_update: i64,
    pub next_fish_id: u64,
    pub vault: PlayerKey,
    pub is_storm: bool,
    pub feeding_percentage: u16,
    pub storm_probability_bps: u16,
    pub last_cycle_mode: CycleMode,
    pub cycle_start_time: i64,
    pub next_mode_change_time: i64,
}

/// Start of the day that holds `t`.
pub open spec fn day_start(t: int) -> int {
    t - t % (DAY_DURATION as int)
}

/// The first midnight strictly after `t`.
pub open spec fn following_midnight(t: int) -> int {
    day_start(t) + DAY_DURATION
}

/// A seed rolls a storm when it falls in the lowest quarter of 1000.
pub open spec fn storm_roll(seed: u64) -> bool {
    seed % 1000 < INITIAL_STORM_PROBABILITY_BPS
}

/// Feeding percentage that goes with a mode.
pub open spec fn feeding_bps_for(storm: bool) -> u16 {
    if storm {
        STORM_FEEDING_BPS
    } else {
        CALM_FEEDING_BPS
    }
}

/// The ocean after switching to the mode `storm` at time `now`.
pub open spec fn mode_changed(o: Ocean, storm: bool, now: i64) -> Ocean {
    Ocean {
        is_storm: storm,
        feeding_percentage: feeding_bps_for(storm),
        last_cycle_mode: if storm { CycleMode::Storm } else { CycleMode::Calm },
        storm_probability_bps: INITIAL_STORM_PROBABILITY_BPS,
        cycle_start_time: day_start(now as int) as i64,
        next_mode_change_time: following_midnight(now as int) as i64,
        ..o
    }
}

/// The next mode change is the day boundary that follows the cycle's start.
pub open spec fn schedule_aligned(o: Ocean) -> bool {
    o.next_mode_change_time == o.cycle_start_time + DAY_DURATION
}

/// Timestamps whose day boundaries fit in an `i64`.
pub open spec fn schedulable(t: i64) -> bool {
    i64::MIN + DAY_DURATION <= t <= i64::MAX - DAY_DURATION
}

/// The ocean as created at time `now`: empty, calm, first roll at the next midnight.
pub open spec fn genesis(admin: PlayerKey, vault: PlayerKey, vault_bump: u8, now: i64) -> Ocean {
    Ocean {
        admin,
        total_fish_count: 0,
        total_shares: 0,
        balance_fishes: 0,
        vault_bump,
        last_feeding_update: now,
        next_fish_id: 1,
        vault,
        is_storm: false,
        feeding_percentage: CALM_FEEDING_BPS,
        storm_probability_bps: INITIAL_STORM_PROBABILITY_BPS,
        last_cycle_mode: CycleMode::Unset,
        cycle_start_time: day_start(now as int) as i64,
        next_mode_change_time: following_midnight(now as int) as i64,
    }
}

/// Remainder of `t` in its day, always in `0..DAY_DURATION`.
fn day_offset(t: i64) -> (r: i64)
    ensures
        r == (t as int) % (DAY_DURATION as int),
        0 <= r < DAY_DURATION,
{
    match t.checked_rem_euclid(DAY_DURATION) {
        Some(r) => r,
        None => 0,
    }
}

impl Ocean {
    /// Returns `true` when the provided timestamp has reached the scheduled mode change time.
    pub fn should_change_mode(&self, current_time: i64) -> (r: bool)
        ensures
            r == (current_time >= self.next_mode_change_time),
    {
        current_time >= self.next_mode_change_time
    }

    /// Decides from a random seed whether the next mode is a storm.
    pub fn determine_next_mode(&self, random_seed: u64) -> (r: bool)
        ensures
            r == storm_roll(random_seed),
    {
        let storm_chance = INITIAL_STORM_PROBABILITY_BPS as u64;
        let random_roll = random_seed % 1000;
        random_roll < storm_chance
    }

    /// Applies a mode transition and reschedules the next one; returns the
    /// notification that records the change.
    pub fn apply_mode_change(&mut self, new_mode: bool, current_time: i64, reason: &str) -> (r:
        OceanModeChanged)
        requires
            schedulable(current_time),
        ensures
            *final(self) == mode_changed(*old(self), new_mode, current_time),
            schedule_aligned(*final(self)),
            r.old_mode == old(self).is_storm,
            r.new_mode == new_mode,
            r.old_feeding_percentage == old(self).feeding_percentage,
            r.new_feeding_percentage == final(self).feeding_percentage,
            r.storm_probability_bps == final(self).storm_probability_bps,
            r.cycle_start_time == final(self).cycle_start_time,
            r.next_change_time == final(self).next_mode_change_time,
            r.reason@ == reason@,
            r.timestamp == current_time,
    {
        let old_mode = self.is_storm;
        let old_feeding_percentage = self.feeding_percentage;
        self.is_storm = new_mode;
        self.feeding_percentage = if new_mode {
            STORM_FEEDING_BPS
        } else {
            CALM_FEEDING_BPS
        };
        self.last_cycle_mode = if new_mode {
            CycleMode::Storm
        } else {
            CycleMode::Calm
        };
        self.storm_probability_bps = INITIAL_STORM_PROBABILITY_BPS;
        self.cycle_start_time = Self::current_day_start(current_time);
        self.next_mode_change_time = Self::next_midnight(current_time);
        OceanModeChanged {
            old_mode,
            new_mode,
            old_feeding_percentage,
            new_feeding_percentage: self.feeding_percentage,
            storm_probability_bps: self.storm_probability_bps,
            cycle_start_time: self.cycle_start_time,
            next_change_time: self.next_mode_change_time,
            reason: reason.to_owned(),
            timestamp: current_time,
        }
    }

    /// Computes the start timestamp of the day that contains `timestamp`.
    fn current_day_start(timestamp: i64) -> (r: i64)
        requires
            i64::MIN + DAY_DURATION <= timestamp,
        ensures
            r == day_start(timestamp as int),
    {
        timestamp - day_offset(timestamp)
    }

    /// Computes the timestamp of the next midnight following `timestamp`.
    fn next_midnight(timestamp: i64) -> (r: i64)
        requires
            timestamp <= i64::MAX - DAY_DURATION,
        ensures
            r == following_midnight(timestamp as int),
    {
        let remainder = day_offset(timestamp);
        if remainder == 0 {
            timestamp + DAY_DURATION
        } else {
            timestamp + (DAY_DURATION - remainder)
        }
    }
}

/// Creates the ocean at time `now`: no fish, no value, calm, with the first
/// daily roll scheduled for the next midnight.
pub fn initialize_ocean(admin: PlayerKey, vault: PlayerKey, vault_bump: u8, now: i64) -> (r: Ocean)
    requires
        schedulable(now),
    ensures
        r == genesis(admin, vault, vault_bump, now),
        schedule_aligned(r),
{
    Ocean {
        admin,
        total_fish_count: 0,
        total_shares: 0,
        balance_fishes: 0,
        vault_bump,
        last_feeding_update: now,
        next_fish_id: 1,
        vault,
        is_storm: false,
        feeding_percentage: CALM_FEEDING_BPS,
        storm_probability_bps: INITIAL_STORM_PROBABILITY_BPS,
        last_cycle_mode: CycleMode::Unset,
        cycle_start_time: Ocean::current_day_start(now),
        next_mode_change_time: Ocean::next_midnight(now),
    }
}

} // verus!
