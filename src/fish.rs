use vstd::prelude::*;

use crate::constants::PREY_COOLDOWN;
use crate::errors::ErrorCode;

verus! {

/// The 32-byte public key of a player (owner, operator or vault).
#[derive(Debug, Clone, Copy)]
pub struct PlayerKey {
    pub bytes: [u8; 32],
}

impl PlayerKey {
    /// True when both keys hold the same bytes.
    pub fn same_as(&self, other: &PlayerKey) -> (r: bool)
        ensures
            r == (self.bytes@ == other.bytes@),
    {
        let mut i: usize = 0;
        while i < 32
            invariant
                0 <= i <= 32,
                self.bytes@.len() == 32,
                other.bytes@.len() == 32,
                forall|j: int| 0 <= j < i ==> self.bytes@[j] == other.bytes@[j],
            decreases 32 - i,
        {
            if self.bytes[i] != other.bytes[i] {
                return false;
            }
            i = i + 1;
        }
        assert(self.bytes@ =~= other.bytes@);
        true
    }
}

/// A creature of the game: its claim on the pool (`share`), its clocks and
/// the hunting mark that another fish may hold on it.
#[derive(Debug, Clone)]
pub struct Fish {
    pub id: u64,
    pub owner: PlayerKey,
    pub share: u64,
    pub name: String,
    pub created_at: i64,
    pub last_fed_at: i64,
    pub last_hunt_at: i64,
    pub can_hunt_after: i64,
    pub is_protected: bool,
    pub protection_ends_at: i64,
    pub total_hunts: u64,
    pub total_hunt_income: u64,
    pub received_from_hunt_value: u64,
    pub hunting_marks_placed: u8,
    pub last_mark_reset: i64,
    pub marked_by_hunter_id: u64,
    pub mark_placed_at: i64,
    pub mark_expires_at: i64,
    pub mark_cost: u64,
}

/// A fish is alive while it holds shares.
pub open spec fn alive(f: Fish) -> bool {
    f.share > 0
}

/// The fish may start a hunt at `now`.
pub open spec fn hunt_ready(f: Fish, now: i64) -> bool {
    now >= f.can_hunt_after && f.share > 0
}

/// A mark is held on the fish and its exclusivity has run out at `now`.
pub open spec fn mark_expired(f: Fish, now: i64) -> bool {
    f.marked_by_hunter_id > 0 && now > f.mark_expires_at
}

/// The fish with all mark fields reset.
pub open spec fn without_mark(f: Fish) -> Fish {
    Fish { marked_by_hunter_id: 0, mark_placed_at: 0, mark_expires_at: 0, mark_cost: 0, ..f }
}

/// The fish after an expired mark has been lazily removed.
pub open spec fn expired_mark_cleared(f: Fish, now: i64) -> Fish {
    if mark_expired(f, now) {
        without_mark(f)
    } else {
        f
    }
}

/// The fish may be hunted at `now`: alive, not under protection, and unfed
/// for at least the prey cooldown.
pub open spec fn valid_prey(f: Fish, now: i64) -> bool {
    &&& f.share > 0
    &&& !(f.is_protected && now < f.protection_ends_at)
    &&& now - f.last_fed_at >= PREY_COOLDOWN
}

impl Fish {
    /// Returns true when the fish can initiate a hunt at the provided timestamp.
    pub fn can_hunt(&self, current_time: i64) -> (r: bool)
        ensures
            r == hunt_ready(*self, current_time),
    {
        current_time >= self.can_hunt_after && self.share > 0
    }

    /// Checks if the active hunting mark has expired relative to the provided time.
    pub fn is_mark_expired(&self, current_time: i64) -> (r: bool)
        ensures
            r == mark_expired(*self, current_time),
    {
        self.marked_by_hunter_id > 0 && current_time > self.mark_expires_at
    }

    /// Clears mark metadata when the exclusivity window has expired.
    pub fn clear_expired_mark(&mut self, current_time: i64)
        ensures
            *final(self) == expired_mark_cleared(*old(self), current_time),
    {
        if self.is_mark_expired(current_time) {
            self.marked_by_hunter_id = 0;
            self.mark_placed_at = 0;
            self.mark_expires_at = 0;
            self.mark_cost = 0;
        }
    }

    /// Verifies that the fish is a valid prey candidate at the given timestamp.
    pub fn is_valid_prey(&self, current_time: i64) -> (r: bool)
        ensures
            r == valid_prey(*self, current_time),
    {
        if self.share == 0 {
            return false;
        }
        if self.is_protected && current_time < self.protection_ends_at {
            return false;
        }
        let time_since_feeding: i128 = current_time as i128 - self.last_fed_at as i128;
        if time_since_feeding < PREY_COOLDOWN as i128 {
            return false;
        }
        true
    }

    /// Fails with `FishAlreadyDead` unless the fish holds shares.
    pub fn ensure_alive(&self) -> (r: Result<(), ErrorCode>)
        ensures
            r == (if self.share > 0 { Ok::<(), ErrorCode>(()) } else { Err(ErrorCode::FishAlreadyDead) }),
    {
        if self.share > 0 {
            Ok(())
        } else {
            Err(ErrorCode::FishAlreadyDead)
        }
    }

    /// Fails with `FishAlreadyDead` unless the fish holds no shares.
    pub fn ensure_dead(&self) -> (r: Result<(), ErrorCode>)
        ensures
            r == (if self.share == 0 { Ok::<(), ErrorCode>(()) } else { Err(ErrorCode::FishAlreadyDead) }),
    {
        if self.share == 0 {
            Ok(())
        } else {
            Err(ErrorCode::FishAlreadyDead)
        }
    }

    /// Fails with `NotFishOwner` unless `owner` owns the fish.
    pub fn ensure_owned_by(&self, owner: &PlayerKey) -> (r: Result<(), ErrorCode>)
        ensures
            r == (if self.owner.bytes@ == owner.bytes@ {
                Ok::<(), ErrorCode>(())
            } else {
                Err(ErrorCode::NotFishOwner)
            }),
    {
        if self.owner.same_as(owner) {
            Ok(())
        } else {
            Err(ErrorCode::NotFishOwner)
        }
    }
}

} // verus!
