use vstd::prelude::*;

use crate::components::{Position, SnakeDirection};
use crate::constants::{BLOCK_SIZE, HALF_BLOCK};
use crate::game::{Game, GameView};
use crate::motion::{next_head, step_in_range};

verus! {

/// Whether `d` moves along the x axis.
pub open spec fn is_horizontal(d: SnakeDirection) -> bool {
    d is Left || d is Right
}

/// The sign of a move along `d` on its axis.
pub open spec fn sign_of(d: SnakeDirection) -> int {
    if d is Right || d is Up { 1 } else { -1 }
}

/// The coordinate of `p` on the axis `d` moves along.
pub open spec fn on_axis(p: Position, d: SnakeDirection) -> int {
    if is_horizontal(d) { p.x as int } else { p.y as int }
}

/// The coordinate of `p` on the other axis.
pub open spec fn off_axis(p: Position, d: SnakeDirection) -> int {
    if is_horizontal(d) { p.y as int } else { p.x as int }
}

/// Whether an unwrapped coordinate `v` reached by moving along `d` lies past
/// the wrap threshold of that move.
pub open spec fn past_threshold(d: SnakeDirection, v: int, width: int, height: int) -> bool {
    match d {
        SnakeDirection::Left => v < -(width / 2),
        SnakeDirection::Right => v > width / 2,
        SnakeDirection::Up => v > height / 2 - HALF_BLOCK,
        SnakeDirection::Down => v < -(height / 2) - HALF_BLOCK,
    }
}

/// Where a move along `d` that passes its threshold lands.
pub open spec fn wrap_target(d: SnakeDirection, width: int, height: int) -> int {
    match d {
        SnakeDirection::Left => width / 2,
        SnakeDirection::Right => -(width / 2),
        SnakeDirection::Up => -(height / 2) + HALF_BLOCK,
        SnakeDirection::Down => height / 2 + HALF_BLOCK,
    }
}

/// One head step, for each of the four headings, keeps the coordinate off the
/// heading's axis and moves the one on it by exactly `step` in the heading's
/// sign; it wraps exactly when that lands past the heading's threshold, and
/// then lands on the opposite wrap target.
pub proof fn lemma_step_moves_one_axis(p: Position, d: SnakeDirection, step: int, width: int, height: int)
    requires
        step_in_range(p, step, width, height),
    ensures
        ({
            let (x, y) = next_head(p, d, step, width, height);
            let q = Position { x: x as i64, y: y as i64 };
            let raw = on_axis(p, d) + sign_of(d) * step;
            &&& off_axis(q, d) == off_axis(p, d)
            &&& !past_threshold(d, raw, width, height) ==> on_axis(q, d) - on_axis(p, d) == sign_of(d) * step
            &&& past_threshold(d, raw, width, height) ==> on_axis(q, d) == wrap_target(d, width, height)
        }),
{
    assert(width / 2 <= width && height / 2 <= height);
}

/// At every state a well-formed game can be in, the food slot is occupied
/// exactly when food is present and empty exactly when it is absent.
pub proof fn lemma_food_slot_matches_food(g: Game)
    requires
        g.wf(),
    ensures
        (g.block_count.0 == 1) == (g.food is Some),
        (g.block_count.0 == 0) == (g.food is None),
{
}

/// After `n` successive hits the body has gained exactly `n` segments, each
/// one block above the one before it (the first above the old tail), the
/// segments already there are kept, and the step has shrunk by `n` units,
/// stopping at `min_step`.
pub proof fn lemma_growth_count(v: GameView, n: nat)
    requires
        v.min_step <= v.step,
        v.tail().y + BLOCK_SIZE * n <= i64::MAX,
    ensures
        ({
            let r = v.grown_times(n);
            &&& r.body.len() == v.body.len() + n
            &&& forall|i: int| 0 <= i < v.body.len() ==> r.body[i] == v.body[i]
            &&& forall|i: int| 0 <= i < n ==> #[trigger] r.body[v.body.len() + i] == (Position {
                x: v.tail().x,
                y: (v.tail().y + BLOCK_SIZE * (i + 1)) as i64,
            })
            &&& r.step == (if v.step - n >= v.min_step { v.step - n } else { v.min_step as int })
            &&& r.head == v.head
            &&& n > 0 ==> r.food is None
        }),
    decreases n,
{
    if n > 0 {
        let g = v.grown();
        assert(g.tail() == v.next_segment());
        lemma_growth_count(g, (n - 1) as nat);
        let r = v.grown_times(n);
        assert forall|i: int| 0 <= i < n implies #[trigger] r.body[v.body.len() + i] == (Position {
            x: v.tail().x,
            y: (v.tail().y + BLOCK_SIZE * (i + 1)) as i64,
        }) by {
            if i == 0 {
                assert(g.body[v.body.len() as int] == v.next_segment());
            } else {
                assert(r.body[g.body.len() + (i - 1)] == r.body[v.body.len() + i]);
            }
        }
        assert forall|i: int| 0 <= i < v.body.len() implies r.body[i] == v.body[i] by {
            assert(g.body[i] == v.body[i]);
        }
    }
}

/// Starting from an empty body, `n` hits give a chain of exactly `n`
/// segments: the first one block above the head, each next one block above
/// the one before it; the step has shrunk by `n` units, stopping at `min_step`.
pub proof fn lemma_growth_from_empty(v: GameView, n: nat)
    requires
        v.body.len() == 0,
        v.min_step <= v.step,
        v.head.y + BLOCK_SIZE * n <= i64::MAX,
    ensures
        ({
            let r = v.grown_times(n);
            &&& r.body.len() == n
            &&& n > 0 ==> r.body[0] == (Position { x: v.head.x, y: (v.head.y + BLOCK_SIZE) as i64 })
            &&& forall|i: int| 0 < i < n ==> #[trigger] r.body[i] == (Position {
                x: r.body[i - 1].x,
                y: (r.body[i - 1].y + BLOCK_SIZE) as i64,
            })
            &&& r.step == (if v.step - n >= v.min_step { v.step - n } else { v.min_step as int })
        }),
{
    lemma_growth_count(v, n);
    let r = v.grown_times(n);
    if n > 0 {
        assert(r.body[0int + 0] == r.body[0]);
    }
    assert forall|i: int| 0 < i < n implies #[trigger] r.body[i] == (Position {
        x: r.body[i - 1].x,
        y: (r.body[i - 1].y + BLOCK_SIZE) as i64,
    }) by {
        assert(r.body[0int + i] == r.body[i]);
        assert(r.body[0int + (i - 1)] == r.body[i - 1]);
    }
}

/// In one tick every segment that existed before it takes the position the
/// segment ahead of it held before the tick; the first segment takes the
/// head's position after the head's step. A segment appended in the tick
/// keeps its place until the next one.
pub proof fn lemma_follow_one_tick_behind(v: GameView)
    ensures
        forall|k: int| 1 <= k < v.body.len() ==> #[trigger] v.ticked().body[k] == v.body[k - 1],
        v.body.len() > 0 ==> v.ticked().body[0] == v.ticked().head,
        v.ticked().head == v.moved().head,
        v.ticked().body.len() == v.body.len() + (if v.moved().hits_food() { 1int } else { 0 }),
{
    let c = v.moved().collided();
    assert forall|k: int| 1 <= k < v.body.len() implies #[trigger] v.ticked().body[k] == v.body[k - 1] by {
        assert(c.body[k - 1] == v.body[k - 1]);
    }
}

} // verus!
