//! The fixed pacing of the effect. All durations are in milliseconds.

use vstd::prelude::*;

verus! {

/// Shortest reveal delay that a character can be given.
pub const MIN_DELAY_MS: u64 = 500;

/// Upper bound (exclusive) of the reveal delays.
pub const MAX_DELAY_MS: u64 = 5000;

/// Pause after each masked character while the mask is first laid down.
pub const MASK_CHAR_PAUSE_MS: u64 = 4;

/// Pause that stands in for the key press when the effect starts by itself.
pub const AUTO_START_PAUSE_MS: u64 = 1000;

/// How long the jumble phase lasts.
pub const JUMBLE_TOTAL_MS: u64 = 2000;

/// Pause after each frame of the jumble phase.
pub const JUMBLE_INTERVAL_MS: u64 = 35;

/// Number of frames of the jumble phase: its duration divided by the pause
/// after each frame, rounded down.
pub const JUMBLE_FRAMES: u64 = JUMBLE_TOTAL_MS / JUMBLE_INTERVAL_MS;

/// Pause after each frame of the reveal phase, and the amount by which a
/// frame shortens every pending delay.
pub const REVEAL_INTERVAL_MS: u64 = 150;

/// Number of reveal frames after which the longest delay that the planner
/// hands out has run out: that delay divided by the frame interval, rounded
/// up.
pub const MAX_REVEAL_FRAMES: u64 = (MAX_DELAY_MS - 1 + REVEAL_INTERVAL_MS - 1)
    / REVEAL_INTERVAL_MS;

/// A character whose remaining delay is below this is nearly due.
pub const NEARLY_DUE_MS: u64 = 500;

} // verus!
