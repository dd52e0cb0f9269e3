//! Protocol constants of the Whirlpool program.

use vstd::prelude::*;

verus! {

/// Number of ticks stored in one tick array.
pub const TICK_ARRAY_SIZE: usize = 88;

/// Number of reward slots carried by every tick.
pub const NUM_REWARDS: usize = 3;

/// First seed of every tick-array address: the ASCII text `tick_array`.
pub const TICK_ARRAY_SEED: [u8; 10] = [116, 105, 99, 107, 95, 97, 114, 114, 97, 121];

/// Address of the Whirlpool program,
/// `whirLbMiicVdio4qvUfM5KAg6Ct8VwpYzGff3uctyCc` in base 58.
pub const WHIRLPOOL_PROGRAM_ID: [u8; 32] = [
    14, 3, 104, 95, 142, 144, 144, 83, 228, 88, 18, 28, 102, 245, 167, 106,
    237, 199, 112, 106, 161, 28, 130, 248, 170, 149, 42, 143, 43, 120, 121, 169,
];

} // verus!
