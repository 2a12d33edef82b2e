use vstd::prelude::*;

verus! {

/// Width of the play area, in world units.
pub const GAME_AREA_WIDTH: i64 = 400;

/// Height of the play area, in world units.
pub const GAME_AREA_HEIGHT: i64 = 400;

/// Distance the head travels per tick at the start of a game.
pub const GAME_AREA_STEP: i64 = 5;

/// Side of the square footprint of the head, of a segment and of the food.
pub const BLOCK_SIZE: i64 = 20;

/// Half the footprint: the offset of the vertical wrap thresholds.
pub const HALF_BLOCK: i64 = 10;

/// Largest width or height of a play area.
pub const AREA_LIMIT: i64 = 0x4000_0000;

/// Largest magnitude of a step.
pub const STEP_LIMIT: i64 = 0x4000_0000;

/// Largest magnitude of any coordinate held by a game.
pub const COORD_LIMIT: i64 = 0x4000_0000_0000;

} // verus!
