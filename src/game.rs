use vstd::prelude::*;

use rand::Rng;

use crate::components::{BlockCount, GameStep, LastEntity, Position, SnakeDirection};
use crate::constants::{AREA_LIMIT, BLOCK_SIZE, COORD_LIMIT, HALF_BLOCK, STEP_LIMIT};
use crate::motion::{follow, followed, heading_after, next_head, pressed_direction, snakehead_step};

verus! {

/// Whether two blocks centred on `a` and `b` overlap: their centres are less
/// than one block apart on both axes.
pub open spec fn blocks_overlap(a: Position, b: Position) -> bool {
    &&& -BLOCK_SIZE < a.x - b.x < BLOCK_SIZE
    &&& -BLOCK_SIZE < a.y - b.y < BLOCK_SIZE
}

/// Tests whether two blocks centred on `a` and `b` overlap.
pub fn collide_blocks(a: Position, b: Position) -> (r: bool)
    requires
        -COORD_LIMIT <= a.x <= COORD_LIMIT,
        -COORD_LIMIT <= a.y <= COORD_LIMIT,
        -COORD_LIMIT <= b.x <= COORD_LIMIT,
        -COORD_LIMIT <= b.y <= COORD_LIMIT,
    ensures
        r == blocks_overlap(a, b),
{
    let dx = a.x - b.x;
    let dy = a.y - b.y;
    -BLOCK_SIZE < dx && dx < BLOCK_SIZE && -BLOCK_SIZE < dy && dy < BLOCK_SIZE
}

/// Whether a coordinate pair lies within the bounds every game keeps.
pub open spec fn in_coord_range(p: Position) -> bool {
    -COORD_LIMIT <= p.x <= COORD_LIMIT && -COORD_LIMIT <= p.y <= COORD_LIMIT
}

/// Half the extent of the area food spawns in along an axis of length
/// `len`: the half-length shrunk by a factor of 2.1, rounded toward zero.
pub open spec fn spawn_half(len: int) -> int {
    len * 10 / 21
}

/// Whether `p` lies in the spawn area of a `width` by `height` play area.
pub open spec fn in_spawn_area(p: Position, width: int, height: int) -> bool {
    &&& -spawn_half(width) <= p.x < spawn_half(width)
    &&& -spawn_half(height) <= p.y < spawn_half(height)
}

/// Relies on rand's `thread_rng` and `Rng::gen_range`: for an exclusive
/// integer range `low..high` it returns a value in `[low, high)`, and it
/// panics when the range is empty.
#[verifier::external_body]
fn random_in(low: i64, high: i64) -> (r: i64)
    requires
        low < high,
    ensures
        low <= r < high,
{
    rand::thread_rng().gen_range(low..high)
}

/// The abstract state of a game.
pub struct GameView {
    pub head: Position,
    pub body: Seq<Position>,
    pub food: Option<Position>,
    pub direction: SnakeDirection,
    pub step: i64,
    pub min_step: i64,
    pub width: i64,
    pub height: i64,
}

impl GameView {
    /// The end of the chain: the last segment, or the head when there is none.
    pub open spec fn tail(self) -> Position {
        if self.body.len() == 0 { self.head } else { self.body.last() }
    }

    /// Where a new segment is placed: one block above the current tail.
    pub open spec fn next_segment(self) -> Position {
        Position { x: self.tail().x, y: (self.tail().y + BLOCK_SIZE) as i64 }
    }

    /// The step after one food is eaten: one unit less, but never below `min_step`.
    pub open spec fn reduced_step(self) -> i64 {
        if self.step > self.min_step { (self.step - 1) as i64 } else { self.step }
    }

    /// The state after one step of the head along the current heading.
    pub open spec fn moved(self) -> GameView {
        let (x, y) = next_head(self.head, self.direction, self.step as int, self.width as int, self.height as int);
        GameView { head: Position { x: x as i64, y: y as i64 }, ..self }
    }

    /// Whether the head currently overlaps the food.
    pub open spec fn hits_food(self) -> bool {
        self.food is Some && blocks_overlap(self.head, self.food->0)
    }

    /// The state after the head eats the food: the food is gone, a segment is
    /// appended above the tail, and the step shrinks.
    pub open spec fn grown(self) -> GameView {
        GameView {
            body: self.body.push(self.next_segment()),
            food: None,
            step: self.reduced_step(),
            ..self
        }
    }

    /// The state after collision resolution: grown on a hit, unchanged otherwise.
    pub open spec fn collided(self) -> GameView {
        if self.hits_food() { self.grown() } else { self }
    }

    /// The state after the first `n` segments follow the head one place.
    pub open spec fn followed_by(self, n: int) -> GameView {
        GameView { body: followed(self.body, self.head, n), ..self }
    }

    /// The state after one tick: move, resolve a collision, then let the
    /// segments that existed before the tick follow.
    pub open spec fn ticked(self) -> GameView {
        self.moved().collided().followed_by(self.body.len() as int)
    }

    /// The state after `n` successive hits, with nothing else between them.
    pub open spec fn grown_times(self, n: nat) -> GameView
        decreases n,
    {
        if n == 0 { self } else { self.grown().grown_times((n - 1) as nat) }
    }
}

/// A running game: the head, the body chain, the food slot, the heading and
/// the step, on a `width` by `height` area centred on the origin. Each food
/// eaten shrinks the step by one unit down to `min_step`, a floor chosen when
/// the game is made.
pub struct Game {
    pub head: Position,
    pub segments: Vec<Position>,
    pub food: Option<Position>,
    pub block_count: BlockCount,
    pub last: LastEntity,
    pub direction: SnakeDirection,
    pub step: GameStep,
    pub min_step: i64,
    pub width: i64,
    pub height: i64,
}

impl View for Game {
    type V = GameView;

    open spec fn view(&self) -> GameView {
        GameView {
            head: self.head,
            body: self.segments@,
            food: self.food,
            direction: self.direction,
            step: self.step.0,
            min_step: self.min_step,
            width: self.width,
            height: self.height,
        }
    }
}

impl Game {
    /// The food slot agrees with the food: occupied exactly when food is present.
    pub open spec fn food_slot_consistent(&self) -> bool {
        self.block_count.0 == (if self.food is Some { 1usize } else { 0usize })
    }

    /// The tail reference points at the last segment, or at the head when the
    /// body is empty.
    pub open spec fn tail_reference_consistent(&self) -> bool {
        self.last.block == (if self.segments@.len() == 0 {
            None::<usize>
        } else {
            Some((self.segments@.len() - 1) as usize)
        })
    }

    /// The head stays within the box that the wrap rules keep it in.
    pub open spec fn head_in_area(&self) -> bool {
        let hw = self.width / 2;
        let hh = self.height / 2;
        &&& -hw <= self.head.x <= hw
        &&& -hh - HALF_BLOCK <= self.head.y <= hh + HALF_BLOCK
    }

    /// The state every operation keeps: an area at least one block across,
    /// a step between `min_step` and the step limit with `min_step` never
    /// negative (so the head never stalls below zero or reverses), the head
    /// inside its wrap box, all coordinates in range, and the food slot and
    /// the tail reference in agreement with the food and the body.
    pub open spec fn wf(&self) -> bool {
        &&& BLOCK_SIZE <= self.width <= AREA_LIMIT
        &&& BLOCK_SIZE <= self.height <= AREA_LIMIT
        &&& 0 <= self.min_step <= self.step.0 <= STEP_LIMIT
        &&& self.head_in_area()
        &&& forall|i: int| 0 <= i < self.segments@.len() ==> in_coord_range(#[trigger] self.segments@[i])
        &&& self.food matches Some(f) ==> in_coord_range(f)
        &&& self.food_slot_consistent()
        &&& self.tail_reference_consistent()
    }

    /// Whether a segment can still be appended above the tail without leaving
    /// the coordinate range.
    pub open spec fn room_to_grow(&self) -> bool {
        self@.tail().y + BLOCK_SIZE <= COORD_LIMIT
    }

    /// A new game: the head at the origin heading up, no body, no food.
    pub fn new(width: i64, height: i64, step: i64, min_step: i64) -> (g: Game)
        requires
            BLOCK_SIZE <= width <= AREA_LIMIT,
            BLOCK_SIZE <= height <= AREA_LIMIT,
            0 <= min_step <= step <= STEP_LIMIT,
        ensures
            g.wf(),
            g@ == (GameView {
                head: Position { x: 0, y: 0 },
                body: Seq::empty(),
                food: None,
                direction: SnakeDirection::Up,
                step,
                min_step,
                width,
                height,
            }),
    {
        let g = Game {
            head: Position { x: 0, y: 0 },
            segments: Vec::new(),
            food: None,
            block_count: BlockCount(0),
            last: LastEntity { block: None },
            direction: SnakeDirection::Up,
            step: GameStep(step),
            min_step,
            width,
            height,
        };
        assert(g.segments@ =~= Seq::empty());
        g
    }

    /// Applies one frame of directional key presses: the last of left, right,
    /// up, down that was pressed becomes the heading.
    pub fn keyboard(&mut self, left: bool, right: bool, up: bool, down: bool)
        requires
            old(self).wf(),
        ensures
            final(self).wf(),
            final(self)@ == (GameView {
                direction: heading_after(old(self).direction, left, right, up, down),
                ..old(self)@
            }),
    {
        self.direction = pressed_direction(self.direction, left, right, up, down);
    }

    /// Moves the head one step along the heading, wrapping at the edges.
    pub fn snakehead_movement(&mut self)
        requires
            old(self).wf(),
        ensures
            final(self).wf(),
            final(self)@ == old(self)@.moved(),
    {
        self.head = snakehead_step(self.head, self.direction, self.step.0, self.width, self.height);
    }

    /// Lets every segment take the place the one ahead of it held, the first
    /// one taking the head's place.
    pub fn snake_movement(&mut self)
        requires
            old(self).wf(),
        ensures
            final(self).wf(),
            final(self)@ == old(self)@.followed_by(old(self)@.body.len() as int),
    {
        let n = self.segments.len();
        self.follow_first(n);
    }

    fn follow_first(&mut self, n: usize)
        requires
            old(self).wf(),
            n <= old(self).segments@.len(),
        ensures
            final(self).wf(),
            final(self)@ == old(self)@.followed_by(n as int),
    {
        let ghost before = self.segments@;
        follow(&mut self.segments, self.head, n);
        assert forall|i: int| 0 <= i < self.segments@.len() implies in_coord_range(#[trigger] self.segments@[i]) by {
            if i < n && i > 0 {
                assert(in_coord_range(before[i - 1]));
            } else if i >= n {
                assert(in_coord_range(before[i]));
            }
        }
    }

    /// Resolves a collision between the head and the food. On a hit the food
    /// is removed, a segment is appended one block above the tail and the step
    /// shrinks by one unit (not below `min_step`); otherwise nothing changes.
    /// Returns whether the head hit the food.
    pub fn collide(&mut self) -> (hit: bool)
        requires
            old(self).wf(),
            old(self).room_to_grow(),
        ensures
            final(self).wf(),
            hit == old(self)@.hits_food(),
            final(self)@ == old(self)@.collided(),
    {
        match self.food {
            Some(f) => {
                if collide_blocks(self.head, f) {
                    let tail = match self.last.block {
                        Some(i) => self.segments[i],
                        None => self.head,
                    };
                    let seg = Position { x: tail.x, y: tail.y + BLOCK_SIZE };
                    self.segments.push(seg);
                    self.last = LastEntity { block: Some(self.segments.len() - 1) };
                    self.food = None;
                    self.block_count = BlockCount(0);
                    if self.step.0 > self.min_step {
                        self.step = GameStep(self.step.0 - 1);
                    }
                    true
                } else {
                    false
                }
            },
            None => false,
        }
    }

    /// Fills an empty food slot with food at `(x, y)`; an occupied slot is
    /// left as it is.
    pub fn place_food(&mut self, x: i64, y: i64)
        requires
            old(self).wf(),
            in_coord_range(Position { x, y }),
        ensures
            final(self).wf(),
            final(self)@ == (if old(self).food is None {
                GameView { food: Some(Position { x, y }), ..old(self)@ }
            } else {
                old(self)@
            }),
    {
        if self.block_count.0 == 0 {
            self.food = Some(Position { x, y });
            self.block_count = BlockCount(1);
        }
    }

    /// Whether a segment can be appended above the tail: the check a caller
    /// makes before `collide` or `tick`.
    pub fn can_grow(&self) -> (r: bool)
        requires
            self.wf(),
        ensures
            r == self.room_to_grow(),
    {
        let n = self.segments.len();
        if n == 0 {
            true
        } else {
            self.segments[n - 1].y <= COORD_LIMIT - BLOCK_SIZE
        }
    }

    /// Fills an empty food slot with food at a position drawn uniformly from
    /// the spawn area; an occupied slot is left as it is.
    pub fn block_spawn(&mut self)
        requires
            old(self).wf(),
        ensures
            final(self).wf(),
            old(self).food is Some ==> final(self)@ == old(self)@,
            old(self).food is None ==> {
                &&& final(self).food matches Some(f) && in_spawn_area(f, old(self).width as int, old(self).height as int)
                &&& final(self)@ == (GameView { food: final(self).food, ..old(self)@ })
            },
    {
        if self.block_count.0 == 0 {
            let mx = self.width * 10 / 21;
            let my = self.height * 10 / 21;
            let x = random_in(-mx, mx);
            let y = random_in(-my, my);
            self.place_food(x, y);
        }
    }

    /// One tick: the head steps, a collision with the food is resolved, and
    /// the segments that existed before the tick follow. Returns whether the
    /// head hit the food.
    pub fn tick(&mut self) -> (hit: bool)
        requires
            old(self).wf(),
            old(self).room_to_grow(),
        ensures
            final(self).wf(),
            hit == old(self)@.moved().hits_food(),
            final(self)@ == old(self)@.ticked(),
    {
        let n = self.segments.len();
        self.snakehead_movement();
        let hit = self.collide();
        self.follow_first(n);
        hit
    }
}

} // verus!
