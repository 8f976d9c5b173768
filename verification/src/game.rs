//! The game world: the snakes, the fruit, the grid bounds, and the
//! per-tick update loop that moves snakes, flags collisions and relocates
//! the fruit away from occupied cells.

use vstd::prelude::*;

use rand::Rng;

use crate::point::Point;
use crate::snake::{grow_dir, requested_next, tail_point, Move, Snake};

verus! {

/// Score reward for eating a fruit.
pub const FRUIT_SCORE: u64 = 10;

/// Number of random placements tried when relocating the fruit before the
/// search falls back to a deterministic scan of the grid.  Relocation must
/// provably terminate, so rejection sampling cannot retry forever.
pub const FRUIT_SAMPLE_TRIES: u32 = 1024;

/// Whether the cell `q` is the head cell or one of the body cells of a
/// snake whose head is at `pos` with body `tail`.
pub open spec fn cell_of_snake(pos: Point, tail: Seq<Move>, q: Point) -> bool {
    q == pos || exists|i: int| 0 <= i < tail.len() && tail_point(pos, tail, i) == q
}

/// Whether the cell `q` is occupied by any of the given snakes.
pub open spec fn occupied(snakes: Seq<Snake>, q: Point) -> bool {
    exists|k: int|
        0 <= k < snakes.len() && cell_of_snake(snakes[k].pos, snakes[k].tail@, q)
}

/// Whether every cell of the `w x h` grid is occupied by some snake, so
/// that no free cell for the fruit exists.
pub open spec fn grid_covered(snakes: Seq<Snake>, w: u32, h: u32) -> bool {
    forall|q: Point| 0 <= q.x < w && 0 <= q.y < h ==> #[trigger] occupied(snakes, q)
}

/// Whether a snake collides after one update accumulating `elapsed`
/// microseconds: its head leaves the `w x h` grid or lands on one of its
/// own body cells.
pub open spec fn step_collides(s: Snake, elapsed: u64, w: u32, h: u32) -> bool {
    let p = s.stepped_pos(elapsed);
    let t = s.stepped_tail(elapsed);
    !(0 <= p.x < w && 0 <= p.y < h) || exists|i: int| 0 <= i < t.len() && tail_point(p, t, i) == p
}

/// How one world tick transforms a single snake: time accumulates and may
/// trigger a movement step, a collision of the stepped head marks the snake
/// dead, and eating a fruit appends one segment and pays `FRUIT_SCORE`.
pub open spec fn snake_ticked(s0: Snake, s1: Snake, elapsed: u64, w: u32, h: u32) -> bool {
    &&& s1.pos == s0.stepped_pos(elapsed)
    &&& s1.next_move == s0.next_move
    &&& s1.current_move == if s0.ticks(elapsed) {
        s0.next_move
    } else {
        s0.current_move
    }
    &&& s1.move_delay == s0.move_delay
    &&& s1.wait_time == if s0.ticks(elapsed) {
        s0.wait_time + elapsed - s0.move_delay
    } else {
        s0.wait_time + elapsed
    }
    &&& s1.dead == (s0.dead || step_collides(s0, elapsed, w, h))
    &&& (s1.tail@ == s0.stepped_tail(elapsed) || s1.tail@ == s0.stepped_tail(elapsed).push(
        grow_dir(s0.stepped_tail(elapsed)),
    ))
    &&& s1.score == s0.score + FRUIT_SCORE * (s1.tail@.len() - s0.stepped_tail(elapsed).len())
}

/// How one world tick affects a snake under the tick-while-dead setting:
/// with `tick_dead` set (the classic behavior) every snake is processed;
/// without it a dead snake is left untouched.
pub open spec fn snake_world_ticked(
    s0: Snake,
    s1: Snake,
    elapsed: u64,
    w: u32,
    h: u32,
    tick_dead: bool,
) -> bool {
    if !tick_dead && s0.dead {
        s1 == s0
    } else {
        snake_ticked(s0, s1, elapsed, w, h)
    }
}

/// The game world.
pub struct Game {
    /// The actors, processed in order on every tick.
    pub snakes: Vec<Snake>,
    /// Current fruit cell.
    pub fruit: Point,
    /// Grid width, in cells.
    pub width: u32,
    /// Grid height, in cells.
    pub height: u32,
    /// Side length of one cell, in pixels; only a renderer interprets it.
    pub grid_size: u32,
    /// Whether dead snakes still receive ticks and keep moving, as the
    /// classic behavior has it; clear it to freeze a snake once it dies.
    pub tick_dead: bool,
}

impl Game {
    /// The grid has at least one cell and its bounds fit the coordinate type.
    pub open spec fn grid_wf(self) -> bool {
        &&& 1 <= self.width <= i32::MAX as u32
        &&& 1 <= self.height <= i32::MAX as u32
    }

    /// Every snake satisfies its own structural invariant.
    pub open spec fn snakes_wf(self) -> bool {
        forall|k: int| 0 <= k < self.snakes@.len() ==> (#[trigger] self.snakes@[k]).wf()
    }

    /// The fruit lies inside the grid.
    pub open spec fn fruit_in_grid(self) -> bool {
        0 <= self.fruit.x < self.width && 0 <= self.fruit.y < self.height
    }

    /// The fruit does not coincide with any snake's head or body cell.
    pub open spec fn fruit_free(self) -> bool {
        !occupied(self.snakes@, self.fruit)
    }

    /// No free cell for the fruit exists.
    pub open spec fn grid_full(self) -> bool {
        grid_covered(self.snakes@, self.width, self.height)
    }

    /// Well-formedness of a world at rest between ticks.
    pub open spec fn wf(self) -> bool {
        &&& self.grid_wf()
        &&& self.snakes_wf()
        &&& self.fruit_in_grid()
        &&& self.fruit_free()
    }

    /// Whether the world processes a given snake on a tick.
    pub open spec fn processes(self, s: Snake) -> bool {
        self.tick_dead || !s.dead
    }

    /// Every snake's head is far enough from the numeric limits of the
    /// coordinate type for its body walk to be representable.
    pub open spec fn snakes_roomy(self) -> bool {
        forall|k: int| 0 <= k < self.snakes@.len() ==> (#[trigger] self.snakes@[k]).room()
    }

    /// One snake admits a full tick without numeric overflow: its time
    /// accumulator, its score and its coordinates all have headroom.
    pub open spec fn snake_tick_safe(s: Snake, elapsed: u64) -> bool {
        &&& s.wait_time + elapsed <= u64::MAX
        &&& s.score + FRUIT_SCORE <= u64::MAX
        &&& i32::MIN + s.tail@.len() + 2 <= s.pos.x <= i32::MAX - s.tail@.len() - 2
        &&& i32::MIN + s.tail@.len() + 2 <= s.pos.y <= i32::MAX - s.tail@.len() - 2
    }

    /// Every snake admits a full tick without numeric overflow.
    pub open spec fn tick_safe(self, elapsed: u64) -> bool {
        forall|k: int|
            0 <= k < self.snakes@.len() ==> Game::snake_tick_safe(
                #[trigger] self.snakes@[k],
                elapsed,
            )
    }

    /// Initialises the game: one default snake and a fruit placed on a
    /// cell the snake does not occupy, whenever such a cell exists.
    pub fn new(width: u32, height: u32, grid_size: u32) -> (g: Game)
        requires
            1 <= width <= i32::MAX as u32,
            1 <= height <= i32::MAX as u32,
        ensures
            g.width == width,
            g.height == height,
            g.grid_size == grid_size,
            g.snakes@.len() == 1,
            g.snakes@[0].pos == (Point { x: 5, y: 5 }),
            g.snakes@[0].tail@ == seq![Move::Right, Move::Right, Move::Right],
            g.snakes@[0].current_move == Move::Right,
            g.snakes@[0].next_move == Move::Right,
            g.snakes@[0].move_delay == crate::snake::DEFAULT_MOVE_DELAY,
            g.snakes@[0].wait_time == 0,
            g.snakes@[0].score == crate::snake::INITIAL_SCORE,
            g.snakes@[0].dead == false,
            g.tick_dead == true,
            g.wf(),
    {
        let snake = Snake::new_with_defaults(Point::new(5, 5));
        let mut snakes: Vec<Snake> = Vec::new();
        snakes.push(snake);
        let mut game = Game { snakes, fruit: Point::new(0, 0), width, height, grid_size, tick_dead: true };
        game.new_fruit();
        proof {
            // The default snake's cells all lie on the row y == 5, so the
            // cell (0, 0) is always free and the grid cannot be full.
            let q = Point { x: 0, y: 0 };
            let s = game.snakes@[0];
            assert(!occupied(game.snakes@, q)) by {
                reveal_with_fuel(tail_point, 4);
                if occupied(game.snakes@, q) {
                    let k = choose|k: int|
                        0 <= k < game.snakes@.len() && cell_of_snake(
                            game.snakes@[k].pos,
                            game.snakes@[k].tail@,
                            q,
                        );
                    assert(k == 0);
                    let i = choose|i: int|
                        0 <= i < s.tail@.len() && tail_point(s.pos, s.tail@, i) == q;
                    assert(tail_point(s.pos, s.tail@, 0) == (Point { x: 4, y: 5 }));
                    assert(tail_point(s.pos, s.tail@, 1) == (Point { x: 3, y: 5 }));
                    assert(tail_point(s.pos, s.tail@, 2) == (Point { x: 2, y: 5 }));
                    assert(false);
                }
            }
            assert(!game.grid_full()) by {
                if game.grid_full() {
                    assert(occupied(game.snakes@, q));
                }
            }
        }
        game
    }

    /// Builds a game around a caller-supplied snake: the deterministic
    /// counterpart of [`Game::new`] for seeded or scripted setups.
    pub fn with_snake(snake: Snake, width: u32, height: u32, grid_size: u32) -> (g: Game)
        requires
            1 <= width <= i32::MAX as u32,
            1 <= height <= i32::MAX as u32,
            snake.wf(),
            snake.room(),
        ensures
            g.width == width,
            g.height == height,
            g.grid_size == grid_size,
            g.snakes@ == seq![snake],
            g.tick_dead == true,
            g.grid_wf(),
            g.snakes_wf(),
            g.fruit_in_grid(),
            g.fruit_free() || g.grid_full(),
    {
        let mut snakes: Vec<Snake> = Vec::new();
        snakes.push(snake);
        let mut game = Game { snakes, fruit: Point::new(0, 0), width, height, grid_size, tick_dead: true };
        proof {
            assert(game.snakes@ =~= seq![snake]);
        }
        game.new_fruit();
        game
    }

    /// Forwards a direction intent to the first snake; a request for the
    /// exact reverse of its current direction is dropped.
    pub fn handle_input(&mut self, dir: Move)
        requires
            old(self).snakes@.len() >= 1,
        ensures
            final(self).snakes@.len() == old(self).snakes@.len(),
            final(self).snakes@[0].next_move == requested_next(
                old(self).snakes@[0].current_move,
                old(self).snakes@[0].next_move,
                dir,
            ),
            final(self).snakes@[0].pos == old(self).snakes@[0].pos,
            final(self).snakes@[0].tail@ == old(self).snakes@[0].tail@,
            final(self).snakes@[0].current_move == old(self).snakes@[0].current_move,
            final(self).snakes@[0].move_delay == old(self).snakes@[0].move_delay,
            final(self).snakes@[0].wait_time == old(self).snakes@[0].wait_time,
            final(self).snakes@[0].score == old(self).snakes@[0].score,
            final(self).snakes@[0].dead == old(self).snakes@[0].dead,
            forall|k: int|
                1 <= k < old(self).snakes@.len() ==> final(self).snakes@[k] == old(
                    self,
                ).snakes@[k],
            final(self).fruit == old(self).fruit,
            final(self).width == old(self).width,
            final(self).height == old(self).height,
            final(self).grid_size == old(self).grid_size,
            final(self).tick_dead == old(self).tick_dead,
            old(self).wf() ==> final(self).wf(),
    {
        self.snakes[0].set_move(dir);
        proof {
            assert forall|q: Point| occupied(self.snakes@, q) implies occupied(
                old(self).snakes@,
                q,
            ) by {
                let k = choose|k: int|
                    0 <= k < self.snakes@.len() && cell_of_snake(
                        self.snakes@[k].pos,
                        self.snakes@[k].tail@,
                        q,
                    );
                assert(cell_of_snake(old(self).snakes@[k].pos, old(self).snakes@[k].tail@, q));
            }
        }
    }

    /// Updates the game using the time (in microseconds) elapsed since the
    /// last update.  Each snake in order accumulates the time and possibly
    /// steps; a snake whose head leaves the grid or lands on its own body
    /// is marked dead (dead snakes still tick while `tick_dead` is set); a
    /// snake whose head reaches the fruit scores, grows by one segment, and
    /// the fruit is relocated.
    pub fn update(&mut self, elapsed_time: u64)
        requires
            old(self).wf(),
            old(self).tick_safe(elapsed_time),
        ensures
            final(self).width == old(self).width,
            final(self).height == old(self).height,
            final(self).grid_size == old(self).grid_size,
            final(self).snakes@.len() == old(self).snakes@.len(),
            final(self).tick_dead == old(self).tick_dead,
            final(self).grid_wf(),
            final(self).snakes_wf(),
            final(self).fruit_in_grid(),
            forall|k: int|
                0 <= k < old(self).snakes@.len() ==> snake_world_ticked(
                    #[trigger] old(self).snakes@[k],
                    final(self).snakes@[k],
                    elapsed_time,
                    old(self).width,
                    old(self).height,
                    old(self).tick_dead,
                ),
            old(self).snakes@.len() >= 1 ==> final(self).snakes@[0].tail@.len() == old(
                self,
            ).snakes@[0].tail@.len() + (if old(self).processes(old(self).snakes@[0]) && old(
                self,
            ).snakes@[0].stepped_pos(elapsed_time) == old(self).fruit {
                1int
            } else {
                0int
            }),
            (old(self).snakes@.len() == 1 && !(old(self).processes(old(self).snakes@[0]) && old(
                self,
            ).snakes@[0].stepped_pos(elapsed_time) == old(self).fruit)) ==> final(self).fruit
                == old(self).fruit && final(self).fruit_free(),
            old(self).snakes@.len() == 1 ==> final(self).fruit_free() || final(self).grid_full(),
    {
        let w = self.width;
        let h = self.height;
        let tick_dead = self.tick_dead;
        let mut i: usize = 0;
        while i < self.snakes.len()
            invariant
                w == old(self).width,
                h == old(self).height,
                tick_dead == old(self).tick_dead,
                self.width == old(self).width,
                self.height == old(self).height,
                self.grid_size == old(self).grid_size,
                self.tick_dead == old(self).tick_dead,
                old(self).wf(),
                old(self).tick_safe(elapsed_time),
                0 <= i <= old(self).snakes@.len(),
                self.snakes@.len() == old(self).snakes@.len(),
                forall|k: int|
                    i <= k < old(self).snakes@.len() ==> self.snakes@[k] == old(self).snakes@[k],
                forall|k: int|
                    0 <= k < i ==> snake_world_ticked(
                        #[trigger] old(self).snakes@[k],
                        self.snakes@[k],
                        elapsed_time,
                        old(self).width,
                        old(self).height,
                        old(self).tick_dead,
                    ),
                self.snakes_wf(),
                self.snakes_roomy(),
                self.fruit_in_grid(),
                i == 0 ==> self.fruit == old(self).fruit,
                (i >= 1 && old(self).snakes@.len() >= 1) ==> self.snakes@[0].tail@.len() == old(
                    self,
                ).snakes@[0].tail@.len() + (if old(self).processes(old(self).snakes@[0]) && old(
                    self,
                ).snakes@[0].stepped_pos(elapsed_time) == old(self).fruit {
                    1int
                } else {
                    0int
                }),
                (i >= 1 && old(self).snakes@.len() == 1 && !(old(self).processes(
                    old(self).snakes@[0],
                ) && old(self).snakes@[0].stepped_pos(elapsed_time) == old(self).fruit))
                    ==> self.fruit == old(self).fruit && self.fruit_free(),
                (i >= 1 && old(self).snakes@.len() == 1) ==> self.fruit_free()
                    || self.grid_full(),
            decreases old(self).snakes@.len() - i,
        {
            let ghost s0 = self.snakes@[i as int];
            if !tick_dead && self.snakes[i].dead {
                i = i + 1;
                continue ;
            }
            self.snakes[i].update(elapsed_time);
            let ghost s1 = self.snakes@[i as int];

            let pts = self.snakes[i].tail_to_points();
            let collision = self.snakes[i].check_collision(w, h, pts.as_slice());
            proof {
                assert(collision == step_collides(s0, elapsed_time, w, h)) by {
                    if s1.on_obstacle(pts@) {
                        let j = choose|j: int| 0 <= j < pts@.len() && pts@[j] == s1.pos;
                        assert(tail_point(s1.pos, s1.tail@, j) == s1.pos);
                    }
                    if exists|j: int|
                        0 <= j < s1.tail@.len() && tail_point(s1.pos, s1.tail@, j) == s1.pos {
                        let j = choose|j: int|
                            0 <= j < s1.tail@.len() && tail_point(s1.pos, s1.tail@, j) == s1.pos;
                        assert(pts@[j] == s1.pos);
                    }
                }
            }
            if collision {
                self.snakes[i].dead = true;
            }
            let ghost s2 = self.snakes@[i as int];

            let head = self.snakes[i].get_head();
            if head == self.fruit {
                let new_score = self.snakes[i].score + FRUIT_SCORE;
                self.snakes[i].score = new_score;
                self.snakes[i].add_segment();
                self.new_fruit();
            } else {
                proof {
                    // The snake occupies at most its new head cell beyond
                    // what it occupied before the step, so a fruit that was
                    // free and is not the new head stays free.
                    if occupied(self.snakes@, self.fruit) && !occupied(
                        old(self).snakes@,
                        self.fruit,
                    ) && i == 0 {
                        let k = choose|k: int|
                            0 <= k < self.snakes@.len() && cell_of_snake(
                                self.snakes@[k].pos,
                                self.snakes@[k].tail@,
                                self.fruit,
                            );
                        if k == 0 {
                            lemma_step_occupies(s0, s2.pos, s2.tail@, elapsed_time, self.fruit);
                            assert(cell_of_snake(
                                old(self).snakes@[0].pos,
                                old(self).snakes@[0].tail@,
                                self.fruit,
                            ));
                        } else {
                            assert(cell_of_snake(
                                old(self).snakes@[k].pos,
                                old(self).snakes@[k].tail@,
                                self.fruit,
                            ));
                        }
                        assert(false);
                    }
                }
            }
            i = i + 1;
        }
    }

    /// Generates a random point on the grid.
    fn rand_grid_point(&self) -> (p: Point)
        requires
            self.grid_wf(),
        ensures
            0 <= p.x < self.width,
            0 <= p.y < self.height,
    {
        let x = random_u32() % self.width;
        let y = random_u32() % self.height;
        Point::new(x as i32, y as i32)
    }

    /// Moves the fruit to a cell no snake occupies, keeping the current
    /// cell when it is already free.  Random cells are tried first; if the
    /// grid is so crowded that none of them is free, the first free cell in
    /// scan order is taken.  Only a grid without any free cell leaves the
    /// fruit on an occupied cell.
    pub fn new_fruit(&mut self)
        requires
            old(self).grid_wf(),
            old(self).fruit_in_grid(),
            old(self).snakes_roomy(),
        ensures
            final(self).snakes@ == old(self).snakes@,
            final(self).width == old(self).width,
            final(self).height == old(self).height,
            final(self).grid_size == old(self).grid_size,
            final(self).tick_dead == old(self).tick_dead,
            final(self).fruit_in_grid(),
            final(self).fruit_free() || final(self).grid_full(),
    {
        // Collect every cell occupied by a snake's head or body.
        let mut walls: Vec<Point> = Vec::new();
        let mut k: usize = 0;
        while k < self.snakes.len()
            invariant
                *self == *old(self),
                old(self).grid_wf(),
                old(self).fruit_in_grid(),
                old(self).snakes_roomy(),
                0 <= k <= old(self).snakes@.len(),
                forall|q: Point|
                    #[trigger] walls@.contains(q) <==> exists|j: int|
                        0 <= j < k && cell_of_snake(old(self).snakes@[j].pos, old(self).snakes@[j].tail@, q),
            decreases old(self).snakes@.len() - k,
        {
            let ghost walls_before = walls@;
            let ghost s = old(self).snakes@[k as int];
            let mut pts = self.snakes[k].tail_to_points();
            walls.append(&mut pts);
            walls.push(self.snakes[k].get_head());
            proof {
                assert forall|q: Point| #[trigger] walls@.contains(q) implies exists|j: int|
                    0 <= j < k + 1 && cell_of_snake(old(self).snakes@[j].pos, old(self).snakes@[j].tail@, q) by {
                    let idx = choose|idx: int| 0 <= idx < walls@.len() && walls@[idx] == q;
                    if idx < walls_before.len() {
                        assert(walls_before.contains(q));
                    } else if idx < walls@.len() - 1 {
                        assert(tail_point(s.pos, s.tail@, idx - walls_before.len()) == q);
                        assert(cell_of_snake(s.pos, s.tail@, q));
                    } else {
                        assert(q == s.pos);
                        assert(cell_of_snake(s.pos, s.tail@, q));
                    }
                }
                assert forall|q: Point|
                    exists|j: int|
                        0 <= j < k + 1 && cell_of_snake(
                            old(self).snakes@[j].pos,
                            old(self).snakes@[j].tail@,
                            q,
                        ) implies #[trigger] walls@.contains(q) by {
                    let j = choose|j: int|
                        0 <= j < k + 1 && cell_of_snake(old(self).snakes@[j].pos, old(self).snakes@[j].tail@, q);
                    if j < k {
                        assert(walls_before.contains(q));
                        let idx = choose|idx: int|
                            0 <= idx < walls_before.len() && walls_before[idx] == q;
                        assert(walls@[idx] == q);
                    } else {
                        if q == s.pos {
                            assert(walls@[walls@.len() - 1] == q);
                        } else {
                            let i = choose|i: int|
                                0 <= i < s.tail@.len() && tail_point(s.pos, s.tail@, i) == q;
                            assert(walls@[walls_before.len() + i] == q);
                        }
                    }
                }
            }
            k = k + 1;
        }

        // Try random cells first, keeping the current fruit when free.
        let mut tries: u32 = 0;
        while tries < FRUIT_SAMPLE_TRIES
            invariant
                self.snakes@ == old(self).snakes@,
                self.width == old(self).width,
                self.height == old(self).height,
                self.grid_size == old(self).grid_size,
                self.tick_dead == old(self).tick_dead,
                self.grid_wf(),
                self.fruit_in_grid(),
                forall|q: Point| #[trigger] walls@.contains(q) <==> occupied(old(self).snakes@, q),
            decreases FRUIT_SAMPLE_TRIES - tries,
        {
            if !contains_point(&walls, self.fruit) {
                return ;
            }
            self.fruit = self.rand_grid_point();
            tries = tries + 1;
        }

        // Fall back to the first free cell in scan order, if one exists.
        let mut x: u32 = 0;
        while x < self.width
            invariant
                self.snakes@ == old(self).snakes@,
                self.width == old(self).width,
                self.height == old(self).height,
                self.grid_size == old(self).grid_size,
                self.tick_dead == old(self).tick_dead,
                self.grid_wf(),
                self.fruit_in_grid(),
                0 <= x <= self.width,
                forall|q: Point| #[trigger] walls@.contains(q) <==> occupied(old(self).snakes@, q),
                forall|q: Point|
                    0 <= q.x < x && 0 <= q.y < self.height ==> #[trigger] occupied(old(self).snakes@, q),
            decreases self.width - x,
        {
            let mut y: u32 = 0;
            while y < self.height
                invariant
                    self.snakes@ == old(self).snakes@,
                    self.width == old(self).width,
                    self.height == old(self).height,
                    self.grid_size == old(self).grid_size,
                    self.tick_dead == old(self).tick_dead,
                    self.grid_wf(),
                    self.fruit_in_grid(),
                    0 <= x < self.width,
                    0 <= y <= self.height,
                    forall|q: Point| #[trigger] walls@.contains(q) <==> occupied(old(self).snakes@, q),
                    forall|q: Point|
                        0 <= q.x < x && 0 <= q.y < self.height ==> #[trigger] occupied(
                            old(self).snakes@,
                            q,
                        ),
                    forall|q: Point|
                        q.x == x && 0 <= q.y < y ==> #[trigger] occupied(old(self).snakes@, q),
                decreases self.height - y,
            {
                let p = Point::new(x as i32, y as i32);
                if !contains_point(&walls, p) {
                    self.fruit = p;
                    return ;
                }
                y = y + 1;
            }
            x = x + 1;
        }

        // Every cell is occupied: the fruit has nowhere free to go.
    }
}

/// LAW: a movement step can newly occupy only the snake's new head cell:
/// every other cell it occupies afterwards was occupied before, because
/// the body slides one cell along the path the head has taken.
pub proof fn lemma_step_occupies(s0: Snake, pos1: Point, tail1: Seq<Move>, elapsed: u64, q: Point)
    requires
        s0.wf(),
        i32::MIN + s0.tail@.len() + 1 <= s0.pos.x <= i32::MAX - s0.tail@.len() - 1,
        i32::MIN + s0.tail@.len() + 1 <= s0.pos.y <= i32::MAX - s0.tail@.len() - 1,
        pos1 == s0.stepped_pos(elapsed),
        tail1 == s0.stepped_tail(elapsed),
        cell_of_snake(pos1, tail1, q),
    ensures
        q == pos1 || cell_of_snake(s0.pos, s0.tail@, q),
{
    if s0.ticks(elapsed) && q != pos1 {
        let i = choose|i: int| 0 <= i < tail1.len() && tail_point(pos1, tail1, i) == q;
        crate::snake::lemma_shifted_tail_points(s0.pos, s0.tail@, s0.next_move, i);
        if i > 0 {
            assert(tail_point(s0.pos, s0.tail@, i - 1) == q);
        }
    }
}

/// Decides whether `p` occurs among `walls`.
fn contains_point(walls: &Vec<Point>, p: Point) -> (r: bool)
    ensures
        r == walls@.contains(p),
{
    let mut i: usize = 0;
    while i < walls.len()
        invariant
            0 <= i <= walls@.len(),
            forall|j: int| 0 <= j < i ==> walls@[j] != p,
        decreases walls@.len() - i,
    {
        if walls[i] == p {
            return true;
        }
        i = i + 1;
    }
    false
}

/// Relies on `rand::thread_rng` and `rand::Rng::gen` for a pseudo-random
/// `u32`; nothing is assumed of the value drawn.
#[verifier::external_body]
fn random_u32() -> u32 {
    rand::thread_rng().gen()
}

} // verus!
