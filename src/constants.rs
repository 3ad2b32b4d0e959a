use vstd::prelude::*;

verus! {

/// Length of one day, in seconds.
pub const DAY_DURATION: i64 = 86_400;
/// Feeding percentage, in basis points, while the ocean is calm (5%).
pub const CALM_FEEDING_BPS: u16 = 500;
/// Feeding percentage, in basis points, while a storm rages (10%).
pub const STORM_FEEDING_BPS: u16 = 1000;
/// Chance of a storm, out of 1000 rolls (25%).
pub const INITIAL_STORM_PROBABILITY_BPS: u16 = 250;

/// Smallest accepted deposit when a fish is created (0.01 of the native unit).
pub const MIN_DEPOSIT_LAMPORTS: u64 = 10_000_000;
/// Smallest accepted feeding payment.
pub const MIN_FEED_LAMPORTS: u64 = 10_000_000;
/// Feeding commission is the amount divided by this (10%).
pub const FEED_COMMISSION_DIVISOR: u64 = 10;
/// Commissions are split in halves between pool and operator.
pub const FEE_SPLIT_DIVISOR: u64 = 2;
/// Each of the two creation fees is the deposit divided by this (5%).
pub const CREATION_FEE_DIVISOR: u64 = 20;
/// One whole in basis points.
pub const BASIS_POINTS_DIVISOR: u64 = 10_000;
/// Exit fee component, in basis points (5%), charged once to the pool and once to the operator.
pub const EXIT_FEE_BPS: u64 = 500;
/// Floor on the price of a hunting mark (0.01 of the native unit).
pub const MIN_MARK_COST_LAMPORTS: u64 = 10_000_000;

/// A mark may be placed at most this long before the prey becomes huntable.
pub const PLACEMENT_WINDOW_SECONDS: i64 = 10_800;
/// Within this long of the prey becoming huntable, a mark costs the higher rate.
pub const HIGH_RATE_THRESHOLD_SECONDS: i64 = 1_800;
/// How long a mark keeps others away once the prey has become huntable.
pub const EXCLUSIVITY_SECONDS: i64 = 1_200;

/// A new fish cannot be hunted for this long.
pub const PROTECTION_PERIOD: i64 = 7 * DAY_DURATION;
/// A new fish cannot hunt for this long.
pub const CREATION_HUNTING_COOLDOWN: i64 = 2 * DAY_DURATION;
/// After a hunt, the hunter rests this long.
pub const POST_HUNT_COOLDOWN: i64 = 2 * DAY_DURATION;
/// A fish becomes prey once this long has passed since it was last fed.
pub const PREY_COOLDOWN: i64 = 7 * DAY_DURATION;
/// After feeding, a fish cannot hunt for this long.
pub const FEEDING_COOLDOWN: i64 = 2 * DAY_DURATION;
/// Alias of the exclusivity window used by fish records.
pub const MARK_EXCLUSIVITY_PERIOD: i64 = EXCLUSIVITY_SECONDS;

} // verus!
