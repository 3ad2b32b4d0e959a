//! Shared-pool creature game: pooled share ledger, creature lifecycle,
//! hunting-mark reservations and the daily calm/storm scheduler.
pub mod conservation;
pub mod constants;
pub mod errors;
pub mod events;
pub mod finance;
pub mod fish;
pub mod hunt;
pub mod marks;
pub mod math;
pub mod names;
pub mod ocean;
pub mod operations;
pub mod scheduler;
