use vstd::prelude::*;

verus! {

/// How many enemies a spawn produces (on average) during the first waves.
pub const ENEMY_SPAWN_COUNT: i32 = 2;

/// Every this many waves, each spawn produces one more enemy.
pub const WAVE_SPAWN_COUNT_BONUS_INTERVAL: i32 = 2;

/// Enemies move at a speed drawn from this range (pixels per second; the
/// upper bound is excluded).
pub const ENEMY_SPEED_MIN: i32 = 40;

pub const ENEMY_SPEED_MAX: i32 = 90;

/// Enemy run animations play at a rate drawn from this range (frames per
/// second; the upper bound is excluded).
pub const ENEMY_ANIMATION_FPS_MIN: i32 = 8;

pub const ENEMY_ANIMATION_FPS_MAX: i32 = 16;

} // verus!
