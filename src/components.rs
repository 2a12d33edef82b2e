use vstd::prelude::*;

use crate::constants::GAME_AREA_STEP;

verus! {

/// Marks the play area.
#[derive(Debug)]
pub struct Board;

/// Marks a body segment.
#[derive(Debug)]
pub struct Snake;

/// Marks the head.
#[derive(Debug)]
pub struct SnakeHead;

/// Marks the food.
#[derive(Debug)]
pub struct Block;

/// A point of the play area, in world units.
#[derive(Clone, Copy, Debug, PartialEq, Eq, Structural)]
pub struct Position {
    pub x: i64,
    pub y: i64,
}

/// Number of food items on the board: 0 when the slot is empty, 1 when occupied.
#[derive(Clone, Copy, Debug, PartialEq, Eq, Structural)]
pub struct BlockCount(pub usize);

/// The end of the body chain: `None` is the head itself, `Some(i)` the segment
/// at index `i`.
#[derive(Clone, Copy, Debug, PartialEq, Eq, Structural)]
pub struct LastEntity {
    pub block: Option<usize>,
}

/// The heading of the head.
#[derive(Clone, Copy, Debug, PartialEq, Eq, Structural)]
pub enum SnakeDirection {
    Left,
    Right,
    Up,
    Down,
}

/// Distance the head travels per tick.
#[derive(Clone, Copy, Debug, PartialEq, Eq, Structural)]
pub struct GameStep(pub i64);

impl Default for GameStep {
    fn default() -> (r: GameStep)
        ensures
            r.0 == GAME_AREA_STEP,
    {
        GameStep(GAME_AREA_STEP)
    }
}

} // verus!
