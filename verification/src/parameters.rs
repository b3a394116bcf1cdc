//! Network parameters of the proof of work.

use vstd::prelude::*;

verus! {

/// This factor N controls the bound of each difficulty adjustment: the new
/// difficulty lies in [(1 - 1/N) * D, (1 + 1/N) * D] for the old difficulty D.
pub const DIFFICULTY_ADJUSTMENT_FACTOR: usize = 2;

/// Number of blocks between two difficulty adjustments.
pub const DIFFICULTY_ADJUSTMENT_EPOCH_PERIOD: u64 = 5000;

/// Target time between two blocks, in microseconds.
pub const TARGET_AVERAGE_BLOCK_GENERATION_PERIOD: u64 = 500000;

/// Difficulty of the first epoch.
pub const INITIAL_DIFFICULTY: u64 = 20_000_000_000;

} // verus!
