use vstd::prelude::*;

use crate::components::{Position, SnakeDirection};
use crate::constants::{AREA_LIMIT, COORD_LIMIT, HALF_BLOCK, STEP_LIMIT};

verus! {

/// The head's coordinates after one step of `step` units along `d`, in a play
/// area of `width` by `height` centred on the origin. A horizontal move that
/// crosses an edge lands on the opposite edge; a vertical move wraps at
/// thresholds shifted by half a block.
pub open spec fn next_head(p: Position, d: SnakeDirection, step: int, width: int, height: int) -> (int, int) {
    let hw = width / 2;
    let hh = height / 2;
    match d {
        SnakeDirection::Left => {
            let x = p.x - step;
            (if x < -hw { hw } else { x }, p.y as int)
        },
        SnakeDirection::Right => {
            let x = p.x + step;
            (if x > hw { -hw } else { x }, p.y as int)
        },
        SnakeDirection::Up => {
            let y = p.y + step;
            (p.x as int, if y > hh - HALF_BLOCK { -hh + HALF_BLOCK } else { y })
        },
        SnakeDirection::Down => {
            let y = p.y - step;
            (p.x as int, if y < -hh - HALF_BLOCK { hh + HALF_BLOCK } else { y })
        },
    }
}

/// Whether a step of `step` from `p` in an area of `width` by `height` can be
/// computed in machine integers.
pub open spec fn step_in_range(p: Position, step: int, width: int, height: int) -> bool {
    &&& -COORD_LIMIT <= p.x <= COORD_LIMIT
    &&& -COORD_LIMIT <= p.y <= COORD_LIMIT
    &&& -STEP_LIMIT <= step <= STEP_LIMIT
    &&& 0 < width <= AREA_LIMIT
    &&& 0 < height <= AREA_LIMIT
}

/// Moves a head at `p` one step of `step` units along `d`, wrapping at the
/// edges of a `width` by `height` area.
pub fn snakehead_step(p: Position, d: SnakeDirection, step: i64, width: i64, height: i64) -> (r: Position)
    requires
        step_in_range(p, step as int, width as int, height as int),
    ensures
        (r.x as int, r.y as int) == next_head(p, d, step as int, width as int, height as int),
{
    let hw = width / 2;
    let hh = height / 2;
    match d {
        SnakeDirection::Left => {
            let x = p.x - step;
            Position { x: if x < -hw { hw } else { x }, y: p.y }
        },
        SnakeDirection::Right => {
            let x = p.x + step;
            Position { x: if x > hw { -hw } else { x }, y: p.y }
        },
        SnakeDirection::Up => {
            let y = p.y + step;
            Position { x: p.x, y: if y > hh - HALF_BLOCK { -hh + HALF_BLOCK } else { y } }
        },
        SnakeDirection::Down => {
            let y = p.y - step;
            Position { x: p.x, y: if y < -hh - HALF_BLOCK { hh + HALF_BLOCK } else { y } }
        },
    }
}

/// The heading after one frame of key presses: the presses are applied in the
/// order left, right, up, down, each overwriting the last, and no press keeps
/// the current heading.
pub open spec fn heading_after(current: SnakeDirection, left: bool, right: bool, up: bool, down: bool) -> SnakeDirection {
    if down {
        SnakeDirection::Down
    } else if up {
        SnakeDirection::Up
    } else if right {
        SnakeDirection::Right
    } else if left {
        SnakeDirection::Left
    } else {
        current
    }
}

/// Applies one frame of directional key presses to `current`.
pub fn pressed_direction(current: SnakeDirection, left: bool, right: bool, up: bool, down: bool) -> (r: SnakeDirection)
    ensures
        r == heading_after(current, left, right, up, down),
{
    let mut d = current;
    if left {
        d = SnakeDirection::Left;
    }
    if right {
        d = SnakeDirection::Right;
    }
    if up {
        d = SnakeDirection::Up;
    }
    if down {
        d = SnakeDirection::Down;
    }
    d
}

/// The chain `s` after one follow pass led by `leader` over its first `n`
/// segments: segment 0 takes the leader's position, segment `k` the position
/// segment `k - 1` held before the pass, and the segments from `n` on stay.
pub open spec fn followed(s: Seq<Position>, leader: Position, n: int) -> Seq<Position> {
    Seq::new(s.len(), |k: int| if k < n { if k == 0 { leader } else { s[k - 1] } } else { s[k] })
}

/// Runs one follow pass led by `leader` over the first `n` segments of `segments`.
pub fn follow(segments: &mut Vec<Position>, leader: Position, n: usize)
    requires
        n <= old(segments).len(),
    ensures
        final(segments)@ == followed(old(segments)@, leader, n as int),
{
    let ghost before = segments@;
    let mut prev = leader;
    let mut i: usize = 0;
    while i < n
        invariant
            i <= n <= before.len(),
            segments@.len() == before.len(),
            prev == (if i == 0 { leader } else { before[i - 1] }),
            forall|k: int| 0 <= k < i ==> segments@[k] == followed(before, leader, n as int)[k],
            forall|k: int| i <= k < before.len() ==> segments@[k] == before[k],
        decreases n - i,
    {
        let cur = segments[i];
        segments.set(i, prev);
        prev = cur;
        i = i + 1;
    }
    assert(segments@ =~= followed(before, leader, n as int));
}

} // verus!
