//! Game-wide constants: screen size, formation extent, sound cues and
//! timing values shared by several modules.

use vstd::prelude::*;

verus! {

/// Screen width in pixels.
pub const WIDTH: i32 = 224;

/// Screen height in pixels.
pub const HEIGHT: i32 = 288;

/// Number of formation columns.
pub const X_COUNT: usize = 10;

/// Number of formation rows.
pub const Y_COUNT: usize = 6;

/// Sprite rotation granularity used when drawing enemies.
pub const ANGLE_DIV: i32 = 16;

/// Number of troop slots a leader can hold.
pub const MAX_TROOPS: usize = 3;

/// Ticks enemy shooting stays paused after an Owl is destroyed.
pub const OWL_DESTROY_SHOT_WAIT: u32 = 180;

/// Alive-enemy count at or under which the stage enters rush mode.
pub const RUSH_THRESHOLD: u32 = 5;

/// Number of ships the player starts with.
pub const DEFAULT_LEFT_SHIP: u32 = 3;

/// Sound channel for jingles.
pub const CH_JINGLE: u32 = 0;

/// Sound channel for explosions.
pub const CH_BOMB: u32 = 1;

/// Sound cue played when an enemy starts an attack run.
pub const SE_ATTACK_START: u32 = 1;

/// Sound cue played while the stage indicator counts flags.
pub const SE_COUNT_STAGE: u32 = 2;

} // verus!
