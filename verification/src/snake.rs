//! The snake actor: head position, body, queued input and lifecycle flags.
//!
//! A body is stored as a sequence of travel directions.  Each entry is the
//! direction its segment was travelling, so the segment itself sits one cell
//! the opposite way from the cell in front of it; [`tail_point`] spells out
//! that displacement.  Times are integer microseconds.

use vstd::prelude::*;

use crate::point::Point;

verus! {

/// One of the four movement directions on the grid.
///
/// The grid uses screen coordinates: `Up` decreases `y`, `Down` increases it.
#[derive(Clone, Copy, PartialEq, Eq, Structural, Debug)]
pub enum Move {
    Up,
    Down,
    Left,
    Right,
}

/// Number of body segments a freshly created snake has.
pub const INITIAL_SEGMENTS: usize = 3;

/// Score a freshly created snake starts with.
pub const INITIAL_SCORE: u64 = 10;

/// Default time between movement steps, in microseconds.
pub const DEFAULT_MOVE_DELAY: u64 = 50000;

/// The direction exactly opposite to `m`.
pub open spec fn opposite(m: Move) -> Move {
    match m {
        Move::Up => Move::Down,
        Move::Down => Move::Up,
        Move::Left => Move::Right,
        Move::Right => Move::Left,
    }
}

/// The cell reached by moving one step from `p` in direction `m`.
pub open spec fn forward_step(p: Point, m: Move) -> Point {
    match m {
        Move::Up => Point { x: p.x, y: (p.y - 1) as i32 },
        Move::Down => Point { x: p.x, y: (p.y + 1) as i32 },
        Move::Left => Point { x: (p.x - 1) as i32, y: p.y },
        Move::Right => Point { x: (p.x + 1) as i32, y: p.y },
    }
}

/// The cell one step behind `p` for a segment travelling in direction `m`:
/// the geometric opposite of [`forward_step`].
pub open spec fn back_step(p: Point, m: Move) -> Point {
    match m {
        Move::Up => Point { x: p.x, y: (p.y + 1) as i32 },
        Move::Down => Point { x: p.x, y: (p.y - 1) as i32 },
        Move::Left => Point { x: (p.x + 1) as i32, y: p.y },
        Move::Right => Point { x: (p.x - 1) as i32, y: p.y },
    }
}

/// Absolute cell of the `i`-th body segment of a snake whose head is at
/// `pos`, walking back from the head one [`back_step`] per segment.
pub open spec fn tail_point(pos: Point, tail: Seq<Move>, i: int) -> Point
    recommends
        0 <= i < tail.len(),
    decreases i,
{
    if i <= 0 {
        back_step(pos, tail[0])
    } else {
        back_step(tail_point(pos, tail, i - 1), tail[i])
    }
}

/// The body sequence after one movement step in direction `m`: every entry
/// inherits the direction of its predecessor and the first entry becomes `m`.
pub open spec fn shifted_tail(tail: Seq<Move>, m: Move) -> Seq<Move>
    recommends
        tail.len() > 0,
{
    seq![m] + tail.drop_last()
}

/// The direction a new tail segment takes: the trailing direction of the
/// current body, or `Right` for an empty body.
pub open spec fn grow_dir(tail: Seq<Move>) -> Move {
    if tail.len() == 0 {
        Move::Right
    } else {
        tail.last()
    }
}

/// The direction queued after a request `m` arrives while the snake travels
/// in `current` with `next` already queued: a request for the exact reverse
/// of `current` is dropped, anything else replaces `next`.
pub open spec fn requested_next(current: Move, next: Move, m: Move) -> Move {
    if m == opposite(current) {
        next
    } else {
        m
    }
}

/// A single snake actor.
pub struct Snake {
    /// Current head cell.
    pub pos: Point,
    /// Travel direction of each body segment, head side first.
    pub tail: Vec<Move>,
    /// Direction committed at the last movement step.
    pub current_move: Move,
    /// Direction the next movement step will take.
    pub next_move: Move,
    /// Time between movement steps, in microseconds.
    pub move_delay: u64,
    /// Time accumulated since the last movement step, in microseconds.
    pub wait_time: u64,
    /// Current score.
    pub score: u64,
    /// Set once a collision has been detected; never cleared.
    pub dead: bool,
}

impl Snake {
    /// Structural invariant: the body never shrinks below its initial length.
    pub open spec fn wf(self) -> bool {
        self.tail@.len() >= INITIAL_SEGMENTS
    }

    /// The head is far enough from the numeric limits of the coordinate type
    /// for every body cell to be representable.
    pub open spec fn room(self) -> bool {
        &&& i32::MIN + self.tail@.len() <= self.pos.x <= i32::MAX - self.tail@.len()
        &&& i32::MIN + self.tail@.len() <= self.pos.y <= i32::MAX - self.tail@.len()
    }

    /// Whether accumulating `elapsed` more microseconds reaches the
    /// movement interval, so that an update performs a movement step.
    pub open spec fn ticks(self, elapsed: u64) -> bool {
        self.wait_time + elapsed >= self.move_delay
    }

    /// Head cell after an update that accumulates `elapsed` microseconds.
    pub open spec fn stepped_pos(self, elapsed: u64) -> Point {
        if self.ticks(elapsed) {
            forward_step(self.pos, self.next_move)
        } else {
            self.pos
        }
    }

    /// Body sequence after an update that accumulates `elapsed` microseconds.
    pub open spec fn stepped_tail(self, elapsed: u64) -> Seq<Move> {
        if self.ticks(elapsed) {
            shifted_tail(self.tail@, self.next_move)
        } else {
            self.tail@
        }
    }

    /// Whether the head lies inside the `[0, w) x [0, h)` grid.
    pub open spec fn in_bounds(self, w: u32, h: u32) -> bool {
        0 <= self.pos.x < w && 0 <= self.pos.y < h
    }

    /// Whether the head coincides with one of the given obstacle cells.
    pub open spec fn on_obstacle(self, walls: Seq<Point>) -> bool {
        exists|i: int| 0 <= i < walls.len() && walls[i] == self.pos
    }

    /// Initialises a snake with `INITIAL_SEGMENTS` segments starting with a
    /// specified start direction and speed (`move_delay` in microseconds).
    pub fn new(pos: Point, start_dir: Move, move_delay: u64) -> (s: Snake)
        ensures
            s.pos == pos,
            s.tail@ == seq![start_dir, start_dir, start_dir],
            s.current_move == start_dir,
            s.next_move == start_dir,
            s.move_delay == move_delay,
            s.wait_time == 0,
            s.score == INITIAL_SCORE,
            s.dead == false,
            s.wf(),
    {
        let mut tail: Vec<Move> = Vec::new();
        tail.push(start_dir);
        tail.push(start_dir);
        tail.push(start_dir);
        proof {
            assert(tail@ =~= seq![start_dir, start_dir, start_dir]);
        }
        Snake {
            pos,
            tail,
            current_move: start_dir,
            next_move: start_dir,
            move_delay,
            wait_time: 0,
            score: INITIAL_SCORE,
            dead: false,
        }
    }

    /// Initialises a snake with default speed and direction.
    pub fn new_with_defaults(pos: Point) -> (s: Snake)
        ensures
            s.pos == pos,
            s.tail@ == seq![Move::Right, Move::Right, Move::Right],
            s.current_move == Move::Right,
            s.next_move == Move::Right,
            s.move_delay == DEFAULT_MOVE_DELAY,
            s.wait_time == 0,
            s.score == INITIAL_SCORE,
            s.dead == false,
            s.wf(),
    {
        Snake::new(pos, Move::Right, DEFAULT_MOVE_DELAY)
    }

    /// Adds a new segment to the end of the snake, extending the tail in the
    /// direction the tail was already moving.
    pub fn add_segment(&mut self)
        ensures
            final(self).tail@ == old(self).tail@.push(grow_dir(old(self).tail@)),
            final(self).tail@.len() == old(self).tail@.len() + 1,
            final(self).pos == old(self).pos,
            final(self).current_move == old(self).current_move,
            final(self).next_move == old(self).next_move,
            final(self).move_delay == old(self).move_delay,
            final(self).wait_time == old(self).wait_time,
            final(self).score == old(self).score,
            final(self).dead == old(self).dead,
    {
        let last = if self.tail.len() > 0 {
            self.tail[self.tail.len() - 1]
        } else {
            Move::Right
        };
        self.tail.push(last);
    }

    /// Updates the snake's position based on the amount of time (in
    /// microseconds) elapsed since the last update.  Time accumulates until
    /// it reaches the movement interval; the interval is then subtracted
    /// (leftover time is kept, not reset) and the head advances one cell in
    /// the queued direction while the body shifts one slot toward the tail.
    pub fn update(&mut self, elapsed_time: u64)
        requires
            old(self).wf(),
            old(self).wait_time + elapsed_time <= u64::MAX,
            old(self).ticks(elapsed_time) ==> i32::MIN < old(self).pos.x < i32::MAX
                && i32::MIN < old(self).pos.y < i32::MAX,
        ensures
            final(self).pos == old(self).stepped_pos(elapsed_time),
            final(self).tail@ == old(self).stepped_tail(elapsed_time),
            final(self).wait_time == if old(self).ticks(elapsed_time) {
                old(self).wait_time + elapsed_time - old(self).move_delay
            } else {
                old(self).wait_time + elapsed_time
            },
            final(self).current_move == if old(self).ticks(elapsed_time) {
                old(self).next_move
            } else {
                old(self).current_move
            },
            final(self).next_move == old(self).next_move,
            final(self).move_delay == old(self).move_delay,
            final(self).score == old(self).score,
            final(self).dead == old(self).dead,
            final(self).wf(),
    {
        self.wait_time = self.wait_time + elapsed_time;
        if self.wait_time >= self.move_delay {
            self.wait_time = self.wait_time - self.move_delay;

            // Move the head based on the direction
            match self.next_move {
                Move::Up => self.pos.y = self.pos.y - 1,
                Move::Down => self.pos.y = self.pos.y + 1,
                Move::Left => self.pos.x = self.pos.x - 1,
                Move::Right => self.pos.x = self.pos.x + 1,
            }

            // Move the rest of the components
            let ghost tail0 = self.tail@;
            let ghost snap = *self;
            let mut i: usize = self.tail.len() - 1;
            while 1 <= i
                invariant
                    0 <= i < tail0.len(),
                    self.tail@.len() == tail0.len(),
                    forall|j: int| i < j < tail0.len() ==> self.tail@[j] == tail0[j - 1],
                    forall|j: int| 0 <= j <= i ==> self.tail@[j] == tail0[j],
                    self.pos == snap.pos,
                    self.current_move == snap.current_move,
                    self.next_move == snap.next_move,
                    self.move_delay == snap.move_delay,
                    self.wait_time == snap.wait_time,
                    self.score == snap.score,
                    self.dead == snap.dead,
                decreases i,
            {
                let v = self.tail[i - 1];
                self.tail[i] = v;
                i = i - 1;
            }
            let m = self.next_move;
            self.tail[0] = m;
            proof {
                assert(self.tail@ =~= shifted_tail(tail0, m));
            }

            self.current_move = self.next_move;
        }
    }

    /// Checks for collision with the map edges and any obstacle cells.
    /// Returns true exactly when the head lies outside `[0, map_width) x
    /// [0, map_height)` or coincides with one of the obstacles.
    pub fn check_collision(&self, map_width: u32, map_height: u32, walls: &[Point]) -> (r: bool)
        requires
            map_width <= i32::MAX as u32,
            map_height <= i32::MAX as u32,
        ensures
            r == (!self.in_bounds(map_width, map_height) || self.on_obstacle(walls@)),
    {
        // Check map bounds
        if self.pos.x < 0 || self.pos.y < 0 || self.pos.x >= map_width as i32 || self.pos.y
            >= map_height as i32 {
            return true;
        }

        // Check obstacles
        let mut i: usize = 0;
        while i < walls.len()
            invariant
                0 <= i <= walls@.len(),
                forall|j: int| 0 <= j < i ==> walls@[j] != self.pos,
            decreases walls@.len() - i,
        {
            if self.pos == walls[i] {
                return true;
            }
            i = i + 1;
        }

        false
    }

    /// Converts the tail of the snake to the vector of its absolute cells,
    /// ordered from the segment behind the head outward.
    pub fn tail_to_points(&self) -> (r: Vec<Point>)
        requires
            self.room(),
        ensures
            r@.len() == self.tail@.len(),
            forall|i: int|
                0 <= i < self.tail@.len() ==> r@[i] == tail_point(self.pos, self.tail@, i),
    {
        let mut acc: Vec<Point> = Vec::with_capacity(self.tail.len());

        // A segment's direction points from the segment toward the cell in
        // front of it, so each cell lies one step the opposite way.
        let mut next = self.pos;
        let mut i: usize = 0;
        while i < self.tail.len()
            invariant
                0 <= i <= self.tail@.len(),
                self.room(),
                acc@.len() == i,
                forall|j: int| 0 <= j < i ==> acc@[j] == tail_point(self.pos, self.tail@, j),
                next == if i == 0 {
                    self.pos
                } else {
                    tail_point(self.pos, self.tail@, i - 1)
                },
                self.pos.x - i <= next.x <= self.pos.x + i,
                self.pos.y - i <= next.y <= self.pos.y + i,
            decreases self.tail@.len() - i,
        {
            let seg = self.tail[i];
            next = match seg {
                Move::Up => next.add(Point::new(0, 1)),
                Move::Down => next.add(Point::new(0, -1)),
                Move::Left => next.add(Point::new(1, 0)),
                Move::Right => next.add(Point::new(-1, 0)),
            };
            acc.push(next);
            i = i + 1;
        }
        acc
    }

    /// Gets the position of the snake's head.
    pub fn get_head(&self) -> (p: Point)
        ensures
            p == self.pos,
    {
        self.pos
    }

    /// Sets the snake's next move, unless the request is the exact reverse
    /// of the current direction, in which case it is dropped.
    pub fn set_move(&mut self, next_move: Move)
        ensures
            final(self).next_move == requested_next(
                old(self).current_move,
                old(self).next_move,
                next_move,
            ),
            next_move == opposite(old(self).current_move) ==> *final(self) == *old(self),
            final(self).pos == old(self).pos,
            final(self).tail@ == old(self).tail@,
            final(self).current_move == old(self).current_move,
            final(self).move_delay == old(self).move_delay,
            final(self).wait_time == old(self).wait_time,
            final(self).score == old(self).score,
            final(self).dead == old(self).dead,
    {
        if !is_opposite(self.current_move, next_move) {
            self.next_move = next_move;
        }
    }
}

/// Every body cell lies within `i + 1` steps of the head, so a head that
/// satisfies [`Snake::room`] keeps the whole walk free of numeric overflow.
pub proof fn lemma_tail_point_in_range(pos: Point, tail: Seq<Move>, i: int)
    requires
        0 <= i < tail.len(),
        i32::MIN + tail.len() <= pos.x <= i32::MAX - tail.len(),
        i32::MIN + tail.len() <= pos.y <= i32::MAX - tail.len(),
    ensures
        pos.x - (i + 1) <= tail_point(pos, tail, i).x <= pos.x + (i + 1),
        pos.y - (i + 1) <= tail_point(pos, tail, i).y <= pos.y + (i + 1),
    decreases i,
{
    if i > 0 {
        lemma_tail_point_in_range(pos, tail, i - 1);
    }
}

/// After a movement step in direction `m`, the body cells are exactly the
/// old head cell followed by all but the last of the old body cells: the
/// body slides one cell along the path the head has taken.
pub proof fn lemma_shifted_tail_points(pos: Point, tail: Seq<Move>, m: Move, i: int)
    requires
        0 <= i < tail.len(),
        i32::MIN + tail.len() + 1 <= pos.x <= i32::MAX - tail.len() - 1,
        i32::MIN + tail.len() + 1 <= pos.y <= i32::MAX - tail.len() - 1,
    ensures
        tail_point(forward_step(pos, m), shifted_tail(tail, m), i) == if i == 0 {
            pos
        } else {
            tail_point(pos, tail, i - 1)
        },
    decreases i,
{
    let pos2 = forward_step(pos, m);
    let tail2 = shifted_tail(tail, m);
    assert(tail2.len() == tail.len());
    if i == 0 {
        assert(back_step(pos2, m) == pos);
    } else {
        lemma_shifted_tail_points(pos, tail, m, i - 1);
        assert(tail2[i] == tail[i - 1]);
        if i > 1 {
            lemma_tail_point_in_range(pos, tail, i - 2);
        }
    }
}

/// LAW: a movement step at exactly the movement interval, with no direction
/// change queued, advances the head one cell in the current direction and
/// leaves the body length unchanged.
pub proof fn lemma_interval_tick(s: Snake)
    requires
        s.wf(),
        s.next_move == s.current_move,
    ensures
        s.ticks(s.move_delay),
        s.stepped_pos(s.move_delay) == forward_step(s.pos, s.current_move),
        s.stepped_tail(s.move_delay) == shifted_tail(s.tail@, s.current_move),
        s.stepped_tail(s.move_delay).len() == s.tail@.len(),
{
}

/// LAW: requesting the exact reverse of the current direction is a no-op:
/// the queued direction is unchanged, so a subsequent movement step still
/// moves in the original direction.
pub proof fn lemma_reverse_request_is_noop(s: Snake, m: Move, elapsed: u64)
    requires
        m == opposite(s.current_move),
        s.ticks(elapsed),
    ensures
        requested_next(s.current_move, s.next_move, m) == s.next_move,
        s.next_move == s.current_move ==> s.stepped_pos(elapsed) == forward_step(
            s.pos,
            s.current_move,
        ),
{
}

/// Decides whether `b` is the exact reverse of `a`.
pub fn is_opposite(a: Move, b: Move) -> (r: bool)
    ensures
        r == (b == opposite(a)),
{
    match (a, b) {
        (Move::Up, Move::Down) => true,
        (Move::Down, Move::Up) => true,
        (Move::Left, Move::Right) => true,
        (Move::Right, Move::Left) => true,
        _ => false,
    }
}

} // verus!
