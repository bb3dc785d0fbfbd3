//! The snake arena simulation: a tick-gated, multi-segment creature moving
//! through the bounded grid, with collision, growth, food, and scoring rules.
//!
//! Segment entities live in an arena of records indexed by stable integer
//! identifiers; the chain is an ordered sequence of those identifiers, head
//! first. Events are explicit per-tick message lists, drained by their single
//! consumer within the tick that produced them.

use vstd::prelude::*;
use vstd::pervasive::VecAdditionalExecFns;

use crate::GameState;
use crate::Meowney;
use crate::clock::TickClock;
use crate::grid::ARENA_HEIGHT;
use crate::grid::ARENA_WIDTH;
use crate::grid::Direction;
use crate::grid::Position;
use crate::grid::in_bounds;
use crate::grid::opposite_spec;
use crate::grid::position_in_bounds;
use crate::grid::step;
use crate::grid::step_x;
use crate::grid::step_y;
use crate::random::gen_range_i32;

verus! {

/// Milliseconds between simulation ticks.
pub const TICK_INTERVAL_MS: u64 = 200;

/// The fixed-interval timer gating how often the simulation advances.
#[derive(Clone, Copy, Debug, PartialEq, Eq, Structural)]
pub struct MoveTimer(pub TickClock);

/// The head's state: it owns the current heading.
#[derive(Clone, Copy, Debug, PartialEq, Eq, Structural)]
pub struct SnakeHead {
    pub direction: Direction,
}

/// One segment record in the entity arena: its grid cell plus a liveness
/// tombstone (records are never removed, only marked dead at teardown).
#[derive(Clone, Copy, Debug, PartialEq, Eq, Structural)]
pub struct SnakeSegment {
    pub position: Position,
    pub live: bool,
}

/// Ordered chain of segment identifiers, head at index 0.
#[derive(Debug, PartialEq, Eq)]
pub struct SnakeSegments(pub Vec<usize>);

/// Where the tail was before this tick's shift, so a newly grown segment can
/// be placed exactly where the old tail vacated.
#[derive(Clone, Copy, Debug, PartialEq, Eq, Structural)]
pub struct LastTailPosition(pub Option<Position>);

/// Growth signal: the head ate the food this tick.
#[derive(Clone, Copy, Debug, PartialEq, Eq, Structural)]
pub struct SnakeGrowth;

/// Request to place a new food item.
#[derive(Clone, Copy, Debug, PartialEq, Eq, Structural)]
pub struct SpawnFood;

/// Termination signal: the head left the arena or hit the chain.
#[derive(Clone, Copy, Debug, PartialEq, Eq, Structural)]
pub struct SnakeGameOver;

/// The live food item, at most one at a time.
#[derive(Clone, Copy, Debug, PartialEq, Eq, Structural)]
pub struct Food {
    pub position: Position,
}

/// The whole arena simulation context, rebuilt on every entry into the scene.
#[derive(Debug, PartialEq, Eq)]
pub struct SnakeGame {
    /// Arena of segment records; a segment identifier is an index here.
    pub records: Vec<SnakeSegment>,
    /// The creature, as identifiers into `records`, head first.
    pub segments: SnakeSegments,
    /// The head's heading, applied once per tick.
    pub head: SnakeHead,
    /// Snapshot of the cell the tail vacated this tick.
    pub last_tail_position: LastTailPosition,
    /// The live food item, if any.
    pub food: Option<Food>,
    /// Gates all simulation-advancing phases.
    pub move_timer: MoveTimer,
    /// Pending growth signals, drained by `snake_growth`.
    pub growth_events: Vec<SnakeGrowth>,
    /// Pending spawn requests, drained by `food_spawner`.
    pub spawn_food_events: Vec<SpawnFood>,
    /// Pending termination signals, drained by `game_over`.
    pub game_over_events: Vec<SnakeGameOver>,
    /// The owning scene state; phases run only in `PostOffice`.
    pub state: GameState,
}

impl SnakeGame {
    /// Every chain identifier refers to a live record, and no identifier
    /// appears twice.
    pub open spec fn ids_ok(self) -> bool {
        &&& forall|i: int|
            0 <= i < self.segments.0@.len() ==> (#[trigger] self.segments.0@[i])
                < self.records@.len()
        &&& forall|i: int|
            0 <= i < self.segments.0@.len()
                ==> self.records@[#[trigger] self.segments.0@[i] as int].live
        &&& forall|i: int, j: int|
            0 <= i < j < self.segments.0@.len() ==> self.segments.0@[i]
                != self.segments.0@[j]
    }

    /// Structural well-formedness: valid chain identifiers, a well-formed
    /// timer, and — while the arena scene is active — a chain of at least a
    /// head and one body segment.
    pub open spec fn wf(self) -> bool {
        &&& self.ids_ok()
        &&& self.move_timer.0.wf()
        &&& self.state == GameState::PostOffice ==> self.segments.0@.len() >= 2
    }

    /// The chain's committed coordinates, head first.
    pub open spec fn chain(self) -> Seq<Position> {
        self.segments.0@.map_values(|id: usize| self.records@[id as int].position)
    }

    /// The head's committed coordinate.
    pub open spec fn head_position(self) -> Position {
        self.chain()[0]
    }

    /// A fresh arena with the given chain coordinates (head first) and
    /// heading, ready to tick: no pending events, no food, no tail snapshot.
    pub fn with_chain(positions: Vec<Position>, direction: Direction) -> (g: SnakeGame)
        requires
            positions@.len() >= 2,
        ensures
            g.wf(),
            g.state == GameState::PostOffice,
            g.chain() == positions@,
            g.segments.0@.len() == positions@.len(),
            g.head == (SnakeHead { direction }),
            g.last_tail_position == LastTailPosition(None::<Position>),
            g.food is None,
            g.move_timer == (MoveTimer(
                TickClock { interval_ms: TICK_INTERVAL_MS, elapsed_ms: 0 },
            )),
            g.growth_events@.len() == 0,
            g.spawn_food_events@.len() == 0,
            g.game_over_events@.len() == 0,
    {
        let n = positions.len();
        let mut records: Vec<SnakeSegment> = Vec::new();
        let mut ids: Vec<usize> = Vec::new();
        let mut i: usize = 0;
        while i < n
            invariant
                i <= n,
                n == positions@.len(),
                records@.len() == i,
                ids@.len() == i,
                forall|j: int| 0 <= j < i ==> (#[trigger] ids@[j]) == j,
                forall|j: int|
                    0 <= j < i ==> (#[trigger] records@[j]) == (SnakeSegment {
                        position: positions@[j],
                        live: true,
                    }),
            decreases n - i,
        {
            records.push(SnakeSegment { position: positions[i], live: true });
            ids.push(i);
            i += 1;
        }
        let g = SnakeGame {
            records,
            segments: SnakeSegments(ids),
            head: SnakeHead { direction },
            last_tail_position: LastTailPosition(None),
            food: None,
            move_timer: MoveTimer(TickClock::new(TICK_INTERVAL_MS)),
            growth_events: Vec::new(),
            spawn_food_events: Vec::new(),
            game_over_events: Vec::new(),
            state: GameState::PostOffice,
        };
        proof {
            assert(g.chain() =~= positions@);
        }
        g
    }
}

/// The directional keys held this frame.
#[derive(Clone, Copy, Debug, PartialEq, Eq, Structural)]
pub struct HeldKeys {
    pub left: bool,
    pub down: bool,
    pub up: bool,
    pub right: bool,
}

/// The heading after one input update: the held key with the highest priority
/// (left, then down, then up, then right) proposes a heading — none held
/// keeps the current one — and a proposal that is the exact opposite of the
/// current heading is rejected, retaining the current heading.
pub open spec fn next_direction(current: Direction, keys: HeldKeys) -> Direction {
    let candidate = if keys.left {
        Direction::Left
    } else if keys.down {
        Direction::Down
    } else if keys.up {
        Direction::Up
    } else if keys.right {
        Direction::Right
    } else {
        current
    };
    if candidate == opposite_spec(current) {
        current
    } else {
        candidate
    }
}

/// The stored heading after feeding a whole sequence of frame inputs to
/// [`next_direction`], oldest first.
pub open spec fn headings_after(start: Direction, inputs: Seq<HeldKeys>) -> Direction
    decreases inputs.len(),
{
    if inputs.len() == 0 {
        start
    } else {
        next_direction(headings_after(start, inputs.drop_last()), inputs.last())
    }
}

/// No-reversal law, one step: whatever keys are held, the heading after an
/// input update is never the opposite of the heading before it.
pub proof fn lemma_no_reversal(current: Direction, keys: HeldKeys)
    ensures
        next_direction(current, keys) != opposite_spec(current),
{
}

/// No-reversal law, whole runs: for every sequence of heading inputs, the
/// stored heading is never set to the opposite of its immediately prior value.
pub proof fn lemma_no_reversal_sequence(start: Direction, inputs: Seq<HeldKeys>)
    ensures
        forall|i: int|
            0 <= i < inputs.len() ==> headings_after(start, #[trigger] inputs.take(i + 1))
                != opposite_spec(headings_after(start, inputs.take(i))),
{
    assert forall|i: int|
        0 <= i < inputs.len() implies headings_after(start, #[trigger] inputs.take(i + 1))
        != opposite_spec(headings_after(start, inputs.take(i))) by {
        let upto = inputs.take(i + 1);
        assert(upto.drop_last() =~= inputs.take(i));
        assert(upto.last() == inputs[i]);
        lemma_no_reversal(headings_after(start, inputs.take(i)), inputs[i]);
    }
}

impl SnakeGame {
    /// Apply this frame's directional key state to the head's heading. Runs
    /// off the tick gate and touches nothing but the stored heading.
    pub fn update_head_direction(&mut self, keys: HeldKeys)
        ensures
            *final(self) == (SnakeGame {
                head: SnakeHead { direction: next_direction(old(self).head.direction, keys) },
                ..*old(self)
            }),
    {
        let current = self.head.direction;
        let dir = if keys.left {
            Direction::Left
        } else if keys.down {
            Direction::Down
        } else if keys.up {
            Direction::Up
        } else if keys.right {
            Direction::Right
        } else {
            current
        };
        if dir != current.opposite() {
            self.head.direction = dir;
        }
    }
}

/// The cell one step from `p` along `d`, as a coordinate value. Meaningful
/// where the step cannot overflow, as from an in-bounds cell.
pub open spec fn stepped(p: Position, d: Direction) -> Position {
    Position { x: step_x(p, d) as i32, y: step_y(p, d) as i32 }
}

/// The chain after one rigid shift: the head at the newly computed cell, each
/// body segment at the pre-tick coordinate of the segment ahead of it.
pub open spec fn shifted_chain(pre: Seq<Position>, new_head: Position) -> Seq<Position> {
    Seq::new(pre.len(), |i: int| if i == 0 { new_head } else { pre[i - 1] })
}

/// Rigid-chain law: after a movement tick, every segment sits either on the
/// newly computed head cell or on a cell some segment occupied before the
/// tick — no coordinate is fabricated mid-chain.
pub proof fn lemma_rigid_chain(pre: Seq<Position>, new_head: Position)
    ensures
        forall|i: int|
            0 <= i < pre.len() ==> (#[trigger] shifted_chain(pre, new_head)[i]) == new_head
                || pre.contains(shifted_chain(pre, new_head)[i]),
{
    assert forall|i: int|
        0 <= i < pre.len() implies (#[trigger] shifted_chain(pre, new_head)[i]) == new_head
        || pre.contains(shifted_chain(pre, new_head)[i]) by {
        if i != 0 {
            assert(shifted_chain(pre, new_head)[i] == pre[i - 1]);
            assert(pre.contains(pre[i - 1]));
        }
    }
}

impl SnakeGame {
    /// Advance the tick clock by `delta_ms` and, when a full interval has
    /// accumulated, move the creature one cell: the head steps along the
    /// current heading, each body segment inherits the pre-tick cell of the
    /// segment ahead of it, the vacated tail cell is snapshotted, and a
    /// termination event is emitted for a head outside the arena and for a
    /// head on any pre-tick segment cell (both may fire in one tick).
    pub fn move_snake(&mut self, delta_ms: u64) -> (moved: bool)
        requires
            old(self).wf(),
            old(self).state == GameState::PostOffice,
            in_bounds(old(self).head_position()),
            old(self).move_timer.0.elapsed_ms + delta_ms <= u64::MAX,
        ensures
            final(self).wf(),
            moved == old(self).move_timer.0.fires(delta_ms),
            final(self).move_timer.0.interval_ms == old(self).move_timer.0.interval_ms,
            final(self).segments.0@ == old(self).segments.0@,
            final(self).records@.len() == old(self).records@.len(),
            final(self).head == old(self).head,
            final(self).food == old(self).food,
            final(self).growth_events@ == old(self).growth_events@,
            final(self).spawn_food_events@ == old(self).spawn_food_events@,
            final(self).state == old(self).state,
            !moved ==> *final(self) == (SnakeGame {
                move_timer: final(self).move_timer,
                ..*old(self)
            }),
            moved ==> {
                let pre = old(self).chain();
                let nh = stepped(old(self).head_position(), old(self).head.direction);
                &&& final(self).chain() == shifted_chain(pre, nh)
                &&& final(self).head_position() == nh
                &&& final(self).last_tail_position == LastTailPosition(
                    Some(pre[pre.len() - 1]),
                )
                &&& final(self).game_over_events@.len() == old(self).game_over_events@.len() + (
                if !in_bounds(nh) {
                    1int
                } else {
                    0int
                }) + (if pre.contains(nh) {
                    1int
                } else {
                    0int
                })
            },
    {
        let ready = self.move_timer.0.tick(delta_ms);
        if !ready {
            return false;
        }
        let ghost pre = old(self).chain();
        let n = self.segments.0.len();

        // Snapshot every segment's coordinate, in chain order, before
        // mutating anything.
        let mut snapshot: Vec<Position> = Vec::new();
        let mut i: usize = 0;
        while i < n
            invariant
                old(self).wf(),
                i <= n,
                n == self.segments.0@.len(),
                self.segments.0@ == old(self).segments.0@,
                self.records@ == old(self).records@,
                snapshot@.len() == i,
                forall|j: int| 0 <= j < i ==> snapshot@[j] == old(self).chain()[j],
            decreases n - i,
        {
            let id = self.segments.0[i];
            snapshot.push(self.records[id].position);
            i += 1;
        }
        proof {
            assert(snapshot@ =~= pre);
        }

        // Move the head one cell along the current heading.
        let head_id = self.segments.0[0];
        let new_head = step(snapshot[0], self.head.direction);
        self.records.set(head_id, SnakeSegment { position: new_head, live: true });
        proof {
            assert(new_head == stepped(pre[0], old(self).head.direction));
            assert forall|j: int| 1 <= j < n implies self.chain()[j] == pre[j] by {
                assert(old(self).segments.0@[j] != old(self).segments.0@[0]);
            }
            assert(self.chain()[0] == new_head);
        }

        // Wall check: a head outside the arena terminates the run.
        if !position_in_bounds(new_head) {
            self.game_over_events.push(SnakeGameOver);
        }
        // Self check: a head on any pre-tick segment cell terminates the run.
        if contains_position(&snapshot, new_head) {
            self.game_over_events.push(SnakeGameOver);
        }
        let ghost events_now = self.game_over_events@;

        // Shift the body: each body segment inherits the pre-tick coordinate
        // of the segment ahead of it.
        let mut k: usize = 1;
        while k < n
            invariant
                old(self).wf(),
                1 <= k <= n,
                n == self.segments.0@.len(),
                snapshot@ == old(self).chain(),
                snapshot@.len() == n,
                self.segments.0@ == old(self).segments.0@,
                self.records@.len() == old(self).records@.len(),
                self.chain()[0] == stepped(old(self).chain()[0], old(self).head.direction),
                forall|j: int| 1 <= j < k ==> self.chain()[j] == snapshot@[j - 1],
                forall|j: int| k <= j < n ==> self.chain()[j] == snapshot@[j],
                forall|i2: int|
                    0 <= i2 < n
                        ==> self.records@[#[trigger] self.segments.0@[i2] as int].live,
                self.head == old(self).head,
                self.food == old(self).food,
                self.growth_events@ == old(self).growth_events@,
                self.spawn_food_events@ == old(self).spawn_food_events@,
                self.game_over_events@ == events_now,
                self.state == old(self).state,
                self.last_tail_position == old(self).last_tail_position,
                self.move_timer.0.wf(),
                self.move_timer.0.interval_ms == old(self).move_timer.0.interval_ms,
            decreases n - k,
        {
            let ghost prev_chain = self.chain();
            let id = self.segments.0[k];
            self.records.set(id, SnakeSegment { position: snapshot[k - 1], live: true });
            proof {
                assert forall|j: int|
                    0 <= j < n && j != k implies self.chain()[j] == prev_chain[j] by {
                    assert(old(self).segments.0@[j] != old(self).segments.0@[k as int]);
                }
                assert(self.chain()[k as int] == snapshot@[k - 1]);
                assert forall|j: int|
                    1 <= j < k + 1 implies self.chain()[j] == snapshot@[j - 1] by {
                    if j != k {
                        assert(prev_chain[j] == snapshot@[j - 1]);
                        assert(self.chain()[j] == prev_chain[j]);
                    }
                }
                assert forall|j: int|
                    k + 1 <= j < n implies self.chain()[j] == snapshot@[j] by {
                    assert(prev_chain[j] == snapshot@[j]);
                    assert(self.chain()[j] == prev_chain[j]);
                }
            }
            k += 1;
        }

        // The tail's previous coordinate becomes the new snapshot.
        self.last_tail_position = LastTailPosition(Some(snapshot[n - 1]));
        proof {
            let nh = stepped(pre[0], old(self).head.direction);
            assert(self.chain() =~= shifted_chain(pre, nh));
        }
        true
    }
}

/// Score banked for a run that ends with `n` segments: the two segments
/// present at spawn do not count, and a shorter chain banks nothing rather
/// than decrementing the running total.
pub open spec fn score_spec(n: int) -> int {
    if n >= 2 {
        n - 2
    } else {
        0
    }
}

impl SnakeGame {
    /// Eating check, run each gated tick right after movement: when the
    /// head's new coordinate exactly matches the live food's, the food is
    /// despawned and one growth signal is emitted.
    pub fn snake_eating(&mut self)
        requires
            old(self).wf(),
            old(self).state == GameState::PostOffice,
        ensures
            final(self).wf(),
            if old(self).food matches Some(f) && f.position == old(self).head_position() {
                *final(self) == (SnakeGame {
                    food: None,
                    growth_events: final(self).growth_events,
                    ..*old(self)
                }) && final(self).growth_events@ == old(self).growth_events@.push(SnakeGrowth)
            } else {
                *final(self) == *old(self)
            },
    {
        let head_id = self.segments.0[0];
        let head_pos = self.records[head_id].position;
        let ate = match self.food {
            Some(f) => f.position == head_pos,
            None => false,
        };
        if ate {
            self.food = None;
            self.growth_events.push(SnakeGrowth);
        }
    }

    /// Growth, run on at least one pending growth signal: append exactly one
    /// segment at the snapshotted last tail position, then request exactly
    /// one food spawn — however many signals were pending (multiple
    /// simultaneous eats must not double-grow).
    pub fn snake_growth(&mut self)
        requires
            old(self).wf(),
            old(self).state == GameState::PostOffice,
            old(self).growth_events@.len() > 0 ==> old(self).last_tail_position.0 is Some,
        ensures
            final(self).wf(),
            old(self).growth_events@.len() == 0 ==> *final(self) == *old(self),
            old(self).growth_events@.len() > 0 ==> {
                let p = old(self).last_tail_position.0->0;
                &&& final(self).chain() == old(self).chain().push(p)
                &&& final(self).segments.0@.len() == old(self).segments.0@.len() + 1
                &&& final(self).growth_events@.len() == 0
                &&& final(self).spawn_food_events@ == old(self).spawn_food_events@.push(
                    SpawnFood,
                )
                &&& final(self).head == old(self).head
                &&& final(self).food == old(self).food
                &&& final(self).last_tail_position == old(self).last_tail_position
                &&& final(self).game_over_events@ == old(self).game_over_events@
                &&& final(self).state == old(self).state
                &&& final(self).move_timer == old(self).move_timer
            },
    {
        if self.growth_events.len() > 0 {
            self.growth_events.clear();
            if let Some(p) = self.last_tail_position.0 {
                let new_id = self.records.len();
                self.records.push(SnakeSegment { position: p, live: true });
                self.segments.0.push(new_id);
                self.spawn_food_events.push(SpawnFood);
                proof {
                    assert forall|j: int|
                        0 <= j < old(self).segments.0@.len()
                            implies self.chain()[j] == old(self).chain()[j] by {
                        assert(old(self).segments.0@[j] < new_id);
                    }
                    assert(self.chain() =~= old(self).chain().push(p));
                }
            }
        }
    }

    /// Place the food item at `p`, replacing any live food. The spawner calls
    /// this with a random cell; it holds for every cell handed to it.
    pub fn spawn_food_at(&mut self, p: Position)
        ensures
            *final(self) == (SnakeGame { food: Some(Food { position: p }), ..*old(self) }),
    {
        self.food = Some(Food { position: p });
    }

    /// Food spawner, run on at least one pending spawn request: drains the
    /// requests and places the food at a pseudo-random cell inside the arena.
    /// The cell is deliberately not checked against occupied chain cells —
    /// food may legally appear on the creature's body.
    pub fn food_spawner(&mut self)
        requires
            old(self).wf(),
            old(self).state == GameState::PostOffice,
        ensures
            final(self).wf(),
            old(self).spawn_food_events@.len() == 0 ==> *final(self) == *old(self),
            old(self).spawn_food_events@.len() > 0 ==> {
                &&& final(self).food matches Some(f) && in_bounds(f.position)
                &&& final(self).spawn_food_events@.len() == 0
                &&& final(self).chain() == old(self).chain()
                &&& final(self).segments.0@ == old(self).segments.0@
                &&& final(self).records@ == old(self).records@
                &&& final(self).head == old(self).head
                &&& final(self).last_tail_position == old(self).last_tail_position
                &&& final(self).growth_events@ == old(self).growth_events@
                &&& final(self).game_over_events@ == old(self).game_over_events@
                &&& final(self).state == old(self).state
                &&& final(self).move_timer == old(self).move_timer
            },
    {
        if self.spawn_food_events.len() > 0 {
            self.spawn_food_events.clear();
            let x = gen_range_i32(-ARENA_WIDTH, ARENA_WIDTH);
            let y = gen_range_i32(-ARENA_HEIGHT, ARENA_HEIGHT);
            self.spawn_food_at(Position { x, y });
        }
    }

    /// Game-over handler, run on at least one pending termination signal:
    /// despawn the food and every chain segment, bank the score — segments
    /// beyond the two present at spawn — into the running total, reset the
    /// chain and tail snapshot, and hand control back to the outdoor scene.
    pub fn game_over(&mut self, meowney: &mut Meowney)
        requires
            old(self).wf(),
            old(self).state == GameState::PostOffice,
            old(meowney).0 + old(self).segments.0@.len() <= u32::MAX,
        ensures
            final(self).wf(),
            old(self).game_over_events@.len() == 0 ==> *final(self) == *old(self)
                && *final(meowney) == *old(meowney),
            old(self).game_over_events@.len() > 0 ==> {
                &&& final(meowney).0 == old(meowney).0 + score_spec(
                    old(self).segments.0@.len() as int,
                )
                &&& final(self).state == GameState::Outside
                &&& final(self).segments.0@.len() == 0
                &&& final(self).food is None
                &&& final(self).last_tail_position == LastTailPosition(None::<Position>)
                &&& final(self).growth_events@.len() == 0
                &&& final(self).spawn_food_events@.len() == 0
                &&& final(self).game_over_events@.len() == 0
                &&& forall|i: int|
                    0 <= i < old(self).segments.0@.len() ==> !final(self).records@[#[trigger] old(
                        self,
                    ).segments.0@[i] as int].live
                &&& final(self).move_timer == old(self).move_timer
            },
    {
        if self.game_over_events.len() > 0 {
            // Despawn the food entity, if present.
            self.food = None;
            // Despawn every segment in the chain, counting them.
            let n = self.segments.0.len();
            let mut i: usize = 0;
            while i < n
                invariant
                    old(self).wf(),
                    i <= n,
                    n == self.segments.0@.len(),
                    self.segments.0@ == old(self).segments.0@,
                    self.records@.len() == old(self).records@.len(),
                    forall|j: int|
                        0 <= j < i ==> !self.records@[#[trigger] self.segments.0@[j] as int].live,
                    self.head == old(self).head,
                    self.food is None,
                    self.last_tail_position == old(self).last_tail_position,
                    self.growth_events@ == old(self).growth_events@,
                    self.spawn_food_events@ == old(self).spawn_food_events@,
                    self.game_over_events@ == old(self).game_over_events@,
                    self.state == old(self).state,
                    self.move_timer == old(self).move_timer,
                decreases n - i,
            {
                let ghost prev_records = self.records@;
                let id = self.segments.0[i];
                let rec = self.records[id];
                self.records.set(id, SnakeSegment { position: rec.position, live: false });
                proof {
                    assert forall|j: int|
                        0 <= j < i implies !self.records@[#[trigger] self.segments.0@[j] as int].live by {
                        if self.segments.0@[j] != self.segments.0@[i as int] {
                            assert(self.records@[self.segments.0@[j] as int]
                                == prev_records[self.segments.0@[j] as int]);
                        }
                    }
                }
                i += 1;
            }
            // Bank the score: the two segments present at spawn don't count.
            let earned = n - 2;
            assert(earned <= u32::MAX);
            meowney.0 = meowney.0 + (earned as u32);
            // Tear the arena state down and hand control back.
            self.segments.0.clear();
            self.last_tail_position = LastTailPosition(None);
            self.growth_events.clear();
            self.spawn_food_events.clear();
            self.game_over_events.clear();
            self.state = GameState::Outside;
        }
    }
}

impl SnakeGame {
    /// One frame of the arena: feed `delta_ms` of wall-clock time to the tick
    /// clock and, when a full interval has accumulated, run one gated
    /// simulation tick in the fixed order — movement, collision, eating,
    /// growth, food spawn, game over. Heading updates are the only operation
    /// that runs off this gate.
    ///
    /// Event queues are drained within the tick that filled them, so a tick
    /// starts with no pending growth or termination signals (a spawn request
    /// may carry over from scene entry).
    pub fn tick(&mut self, delta_ms: u64, meowney: &mut Meowney) -> (moved: bool)
        requires
            old(self).wf(),
            old(self).state == GameState::PostOffice,
            in_bounds(old(self).head_position()),
            old(self).growth_events@.len() == 0,
            old(self).game_over_events@.len() == 0,
            old(self).move_timer.0.elapsed_ms + delta_ms <= u64::MAX,
            old(meowney).0 + old(self).segments.0@.len() + 1 <= u32::MAX,
        ensures
            final(self).wf(),
            moved == old(self).move_timer.0.fires(delta_ms),
            final(self).move_timer.0.interval_ms == old(self).move_timer.0.interval_ms,
            !moved ==> *final(self) == (SnakeGame {
                move_timer: final(self).move_timer,
                ..*old(self)
            }) && *final(meowney) == *old(meowney),
            moved ==> {
                let pre = old(self).chain();
                let nh = stepped(old(self).head_position(), old(self).head.direction);
                let terminated = !in_bounds(nh) || pre.contains(nh);
                let ate = old(self).food matches Some(f) && f.position == nh;
                &&& final(self).growth_events@.len() == 0
                &&& final(self).spawn_food_events@.len() == 0
                &&& final(self).game_over_events@.len() == 0
                &&& (terminated ==> {
                    &&& final(self).state == GameState::Outside
                    &&& final(self).segments.0@.len() == 0
                    &&& final(meowney).0 == old(meowney).0 + score_spec(
                        pre.len() + (if ate {
                            1int
                        } else {
                            0int
                        }),
                    )
                    &&& final(self).food is None
                })
                &&& (!terminated ==> {
                    &&& final(self).state == GameState::PostOffice
                    &&& *final(meowney) == *old(meowney)
                    &&& final(self).chain() == (if ate {
                        shifted_chain(pre, nh).push(pre[pre.len() - 1])
                    } else {
                        shifted_chain(pre, nh)
                    })
                    &&& final(self).head_position() == nh
                    &&& in_bounds(final(self).head_position())
                    &&& final(self).head == old(self).head
                    &&& final(self).last_tail_position == LastTailPosition(
                        Some(pre[pre.len() - 1]),
                    )
                    &&& ((ate || old(self).spawn_food_events@.len() > 0)
                        ==> (final(self).food matches Some(f2) && in_bounds(f2.position)))
                    &&& ((!ate && old(self).spawn_food_events@.len() == 0)
                        ==> final(self).food == old(self).food)
                })
            },
    {
        let moved = self.move_snake(delta_ms);
        if moved {
            self.snake_eating();
            self.snake_growth();
            self.food_spawner();
            self.game_over(meowney);
        }
        moved
    }
}

/// Whether `v` holds `p`.
fn contains_position(v: &Vec<Position>, p: Position) -> (r: bool)
    ensures
        r == v@.contains(p),
{
    let n = v.len();
    let mut i: usize = 0;
    while i < n
        invariant
            i <= n,
            n == v@.len(),
            forall|j: int| 0 <= j < i ==> v@[j] != p,
        decreases n - i,
    {
        if v[i] == p {
            assert(v@[i as int] == p);
            return true;
        }
        i += 1;
    }
    false
}

/// Build the arena as it stands on entry into the scene: a head and one body
/// segment, both at (3, 2), heading up, a 200 ms repeating tick timer, and
/// one pending food-spawn request.
pub fn setup() -> (g: SnakeGame)
    ensures
        g.wf(),
        g.state == GameState::PostOffice,
        g.chain() == seq![Position { x: 3, y: 2 }, Position { x: 3, y: 2 }],
        g.segments.0@.len() == 2,
        g.head == (SnakeHead { direction: Direction::Up }),
        g.last_tail_position == LastTailPosition(None::<Position>),
        g.food is None,
        g.move_timer == (MoveTimer(TickClock { interval_ms: TICK_INTERVAL_MS, elapsed_ms: 0 })),
        g.growth_events@.len() == 0,
        g.spawn_food_events@.len() == 1,
        g.game_over_events@.len() == 0,
{
    let mut positions: Vec<Position> = Vec::new();
    positions.push(Position { x: 3, y: 2 });
    positions.push(Position { x: 3, y: 2 });
    let mut g = SnakeGame::with_chain(positions, Direction::Up);
    g.spawn_food_events.push(SpawnFood);
    proof {
        assert(g.chain() =~= seq![Position { x: 3, y: 2 }, Position { x: 3, y: 2 }]);
    }
    g
}

} // verus!
