//! The snake simulation: one owned state advanced once per fixed tick.

use crate::direction::{dx, dy, opposite, resolve_inputs, Direction};
use crate::geometry::{in_playfield, on_grid, wrap_coord, GridPosition, CELL_SIZE, HALF_HEIGHT, HALF_WIDTH};
use crate::placement::{occupies, random_free_position};
use rand::rngs::ThreadRng;
use vstd::prelude::*;

verus! {

/// The cell where the head starts.
pub open spec fn spawn_head() -> GridPosition {
    GridPosition { x: 0, y: 0 }
}

/// The cell where the single starting body segment sits.
pub open spec fn spawn_tail() -> GridPosition {
    GridPosition { x: 0, y: -20i32 }
}

/// The body after every segment has taken the place of the one before it,
/// the first one taking the head's place.
pub open spec fn shifted_body(head: GridPosition, body: Seq<GridPosition>) -> Seq<GridPosition> {
    Seq::new(body.len(), |i: int| if i == 0 { head } else { body[i - 1] })
}

/// The cell that a movement step leaves empty: the tail's, or the head's
/// when there is no body.
pub open spec fn vacated_cell(head: GridPosition, body: Seq<GridPosition>) -> GridPosition {
    if body.len() == 0 {
        head
    } else {
        body.last()
    }
}

/// The body after the self-collision check: gone when the head is on it.
pub open spec fn after_crash_check(head: GridPosition, body: Seq<GridPosition>) -> Seq<GridPosition> {
    if body.contains(head) {
        Seq::empty()
    } else {
        body
    }
}

/// The cells a relocated apple must avoid: the two spawn cells, the head,
/// and the segment nearest the head.
pub open spec fn apple_may_land(p: GridPosition, head: GridPosition, body: Seq<GridPosition>) -> bool {
    &&& on_grid(p)
    &&& p != spawn_head()
    &&& p != spawn_tail()
    &&& p != head
    &&& body.len() > 0 ==> p != body[0]
}

/// Head, heading, body segments from the one nearest the head to the tail,
/// and the apple.
pub struct Game {
    pub head: GridPosition,
    pub direction: Direction,
    pub body: Vec<GridPosition>,
    pub apple: GridPosition,
}

impl Game {
    /// Every position lies in the playfield.
    pub open spec fn wf(&self) -> bool {
        &&& in_playfield(self.head)
        &&& in_playfield(self.apple)
        &&& forall|i: int| 0 <= i < self.body@.len() ==> in_playfield(#[trigger] self.body@[i])
    }

    /// Whether every position lies in the playfield.
    pub fn is_well_formed(&self) -> (r: bool)
        ensures
            r == self.wf(),
    {
        if !self.head.in_playfield() || !self.apple.in_playfield() {
            return false;
        }
        let mut i: usize = 0;
        while i < self.body.len()
            invariant
                i <= self.body@.len(),
                forall|j: int| 0 <= j < i ==> in_playfield(#[trigger] self.body@[j]),
            decreases self.body@.len() - i,
        {
            if !self.body[i].in_playfield() {
                return false;
            }
            i = i + 1;
        }
        true
    }

    /// The starting state: head at the origin heading up, one segment just
    /// below it, and the apple at `apple`.
    pub fn new(apple: GridPosition) -> (g: Game)
        requires
            in_playfield(apple),
        ensures
            g.head == spawn_head(),
            g.direction == Direction::Up,
            g.body@ == seq![spawn_tail()],
            g.apple == apple,
            g.wf(),
    {
        let mut body: Vec<GridPosition> = Vec::new();
        body.push(GridPosition { x: 0, y: -CELL_SIZE });
        Game { head: GridPosition { x: 0, y: 0 }, direction: Direction::Up, body, apple }
    }

    /// The starting state with the apple on a random cell other than the two
    /// spawn cells.
    pub fn setup(rng: &mut ThreadRng) -> (g: Game)
        ensures
            g.head == spawn_head(),
            g.direction == Direction::Up,
            g.body@ == seq![spawn_tail()],
            apple_may_land(g.apple, g.head, g.body@),
            g.wf(),
    {
        let mut reserved: Vec<GridPosition> = Vec::new();
        reserved.push(GridPosition { x: 0, y: 0 });
        reserved.push(GridPosition { x: 0, y: -CELL_SIZE });
        let apple = random_free_position(rng, &reserved);
        proof {
            assert(reserved@.contains(reserved@[0]));
            assert(reserved@.contains(reserved@[1]));
        }
        Game::new(apple)
    }

    /// Applies the pressed direction keys, in the order given, to the
    /// heading: a key for the opposite of the heading the tick started with
    /// is ignored, and the last other key wins.
    pub fn handle_input(&mut self, pressed: &Vec<Direction>)
        ensures
            final(self).direction == resolve_inputs(old(self).direction, pressed@),
            final(self).direction != opposite(old(self).direction),
            final(self).head == old(self).head,
            final(self).body@ == old(self).body@,
            final(self).apple == old(self).apple,
    {
        self.direction = self.direction.apply_inputs(pressed);
    }

    /// Moves the head one cell along the heading; every body segment takes
    /// the position its predecessor held before the step. Returns the cell
    /// left empty by the step.
    pub fn move_snake(&mut self) -> (vacated: GridPosition)
        requires
            old(self).wf(),
        ensures
            old(self).direction == Direction::Up ==> final(self).head.x == old(self).head.x
                && final(self).head.y == old(self).head.y + CELL_SIZE,
            old(self).direction == Direction::Down ==> final(self).head.x == old(self).head.x
                && final(self).head.y == old(self).head.y - CELL_SIZE,
            old(self).direction == Direction::Left ==> final(self).head.x == old(self).head.x
                - CELL_SIZE && final(self).head.y == old(self).head.y,
            old(self).direction == Direction::Right ==> final(self).head.x == old(self).head.x
                + CELL_SIZE && final(self).head.y == old(self).head.y,
            final(self).head.x == old(self).head.x + dx(old(self).direction),
            final(self).head.y == old(self).head.y + dy(old(self).direction),
            final(self).body@.len() == old(self).body@.len(),
            forall|i: int|
                0 <= i < final(self).body@.len() ==> #[trigger] final(self).body@[i] == if i == 0 {
                    old(self).head
                } else {
                    old(self).body@[i - 1]
                },
            final(self).body@ == shifted_body(old(self).head, old(self).body@),
            vacated == vacated_cell(old(self).head, old(self).body@),
            in_playfield(vacated),
            final(self).direction == old(self).direction,
            final(self).apple == old(self).apple,
            in_playfield(final(self).apple),
            forall|i: int| 0 <= i < final(self).body@.len() ==> in_playfield(#[trigger] final(self).body@[i]),
    {
        let start = self.head;
        self.head = match self.direction {
            Direction::Up => GridPosition { x: start.x, y: start.y + CELL_SIZE },
            Direction::Down => GridPosition { x: start.x, y: start.y - CELL_SIZE },
            Direction::Left => GridPosition { x: start.x - CELL_SIZE, y: start.y },
            Direction::Right => GridPosition { x: start.x + CELL_SIZE, y: start.y },
        };
        let mut last = start;
        let mut i: usize = 0;
        while i < self.body.len()
            invariant
                i <= self.body@.len(),
                self.body@.len() == old(self).body@.len(),
                self.head.x == old(self).head.x + dx(old(self).direction),
                self.head.y == old(self).head.y + dy(old(self).direction),
                self.direction == old(self).direction,
                self.apple == old(self).apple,
                start == old(self).head,
                old(self).wf(),
                last == if i == 0 { start } else { old(self).body@[i - 1] },
                forall|j: int| 0 <= j < i ==> #[trigger] self.body@[j] == if j == 0 {
                    start
                } else {
                    old(self).body@[j - 1]
                },
                forall|j: int| i <= j < self.body@.len() ==> #[trigger] self.body@[j] == old(self).body@[j],
            decreases self.body@.len() - i,
        {
            let here = self.body[i];
            self.body[i] = last;
            last = here;
            i = i + 1;
        }
        proof {
            assert(self.body@ =~= shifted_body(old(self).head, old(self).body@));
            assert forall|j: int| 0 <= j < self.body@.len() implies in_playfield(#[trigger] self.body@[j]) by {
                if j > 0 {
                    assert(in_playfield(old(self).body@[j - 1]));
                }
            }
            if old(self).body@.len() > 0 {
                assert(in_playfield(old(self).body@[old(self).body@.len() - 1]));
            }
        }
        last
    }

    /// Wraps the head to the opposite edge on each axis on which it has left
    /// the playfield; the other axis keeps its coordinate.
    pub fn wrap_head(&mut self)
        ensures
            final(self).head.x == wrap_coord(old(self).head.x as int, HALF_WIDTH as int),
            final(self).head.y == wrap_coord(old(self).head.y as int, HALF_HEIGHT as int),
            old(self).head.x > HALF_WIDTH ==> final(self).head.x == -HALF_WIDTH,
            old(self).head.x < -HALF_WIDTH ==> final(self).head.x == HALF_WIDTH,
            old(self).head.y > HALF_HEIGHT ==> final(self).head.y == -HALF_HEIGHT,
            old(self).head.y < -HALF_HEIGHT ==> final(self).head.y == HALF_HEIGHT,
            -HALF_WIDTH <= old(self).head.x <= HALF_WIDTH ==> final(self).head.x == old(self).head.x,
            -HALF_HEIGHT <= old(self).head.y <= HALF_HEIGHT ==> final(self).head.y == old(self).head.y,
            in_playfield(final(self).head),
            final(self).direction == old(self).direction,
            final(self).body@ == old(self).body@,
            final(self).apple == old(self).apple,
    {
        self.head = self.head.wrapped();
    }

    /// Clears the whole body when the head lies on one of its segments.
    /// Returns whether it did.
    pub fn check_self_collision(&mut self) -> (crashed: bool)
        ensures
            crashed == old(self).body@.contains(old(self).head),
            crashed ==> final(self).body@.len() == 0,
            final(self).body@ == after_crash_check(old(self).head, old(self).body@),
            final(self).head == old(self).head,
            final(self).direction == old(self).direction,
            final(self).apple == old(self).apple,
    {
        let crashed = occupies(&self.body, self.head);
        if crashed {
            self.body.clear();
            assert(self.body@ =~= Seq::<GridPosition>::empty());
        }
        crashed
    }

    /// Appends a segment at `tail` and moves the apple to `new_apple`.
    pub fn grow(&mut self, tail: GridPosition, new_apple: GridPosition)
        requires
            old(self).wf(),
            in_playfield(tail),
            in_playfield(new_apple),
        ensures
            final(self).body@ == old(self).body@.push(tail),
            final(self).body@.len() == old(self).body@.len() + 1,
            final(self).apple == new_apple,
            final(self).head == old(self).head,
            final(self).direction == old(self).direction,
            final(self).wf(),
    {
        self.body.push(tail);
        self.apple = new_apple;
    }

    /// Self-collision, then the apple: when the head lies on the apple, the
    /// apple moves to a random cell allowed by `apple_may_land` and a segment
    /// is appended at `vacated`, the cell the last step left empty. Returns
    /// whether the apple was eaten.
    pub fn check_collisions(&mut self, vacated: GridPosition, rng: &mut ThreadRng) -> (ate: bool)
        requires
            old(self).wf(),
            in_playfield(vacated),
        ensures
            ate == (old(self).head == old(self).apple),
            ate ==> final(self).body@ == after_crash_check(old(self).head, old(self).body@).push(vacated),
            ate ==> final(self).body@.len() == after_crash_check(old(self).head, old(self).body@).len() + 1,
            ate ==> apple_may_land(final(self).apple, final(self).head, final(self).body@),
            !ate ==> final(self).body@ == after_crash_check(old(self).head, old(self).body@),
            !ate ==> final(self).apple == old(self).apple,
            final(self).head == old(self).head,
            final(self).direction == old(self).direction,
            final(self).wf(),
    {
        self.check_self_collision();
        assert(self.wf()) by {
            assert forall|i: int| 0 <= i < self.body@.len() implies in_playfield(#[trigger] self.body@[i]) by {
                assert(self.body@[i] == old(self).body@[i]);
            }
        }
        if self.head == self.apple {
            let first = if self.body.len() > 0 {
                self.body[0]
            } else {
                vacated
            };
            let mut reserved: Vec<GridPosition> = Vec::new();
            reserved.push(GridPosition { x: 0, y: 0 });
            reserved.push(GridPosition { x: 0, y: -CELL_SIZE });
            reserved.push(self.head);
            reserved.push(first);
            let apple = random_free_position(rng, &reserved);
            proof {
                assert(reserved@.contains(reserved@[0]));
                assert(reserved@.contains(reserved@[1]));
                assert(reserved@.contains(reserved@[2]));
                assert(reserved@.contains(reserved@[3]));
            }
            self.grow(vacated, apple);
            proof {
                assert(self.body@[0] == first);
            }
            true
        } else {
            false
        }
    }

    /// One fixed tick: input, movement, wrap-around, then collisions.
    pub fn tick(&mut self, pressed: &Vec<Direction>, rng: &mut ThreadRng)
        requires
            old(self).wf(),
        ensures
            final(self).direction == resolve_inputs(old(self).direction, pressed@),
            final(self).direction != opposite(old(self).direction),
            final(self).head.x == wrap_coord(
                old(self).head.x + dx(final(self).direction),
                HALF_WIDTH as int,
            ),
            final(self).head.y == wrap_coord(
                old(self).head.y + dy(final(self).direction),
                HALF_HEIGHT as int,
            ),
            final(self).head == old(self).apple ==> final(self).body@ == after_crash_check(
                final(self).head,
                shifted_body(old(self).head, old(self).body@),
            ).push(vacated_cell(old(self).head, old(self).body@)),
            final(self).head == old(self).apple ==> apple_may_land(
                final(self).apple,
                final(self).head,
                final(self).body@,
            ),
            final(self).head != old(self).apple ==> final(self).body@ == after_crash_check(
                final(self).head,
                shifted_body(old(self).head, old(self).body@),
            ),
            final(self).head != old(self).apple ==> final(self).apple == old(self).apple,
            final(self).wf(),
    {
        self.handle_input(pressed);
        let vacated = self.move_snake();
        self.wrap_head();
        self.check_collisions(vacated, rng);
    }
}

} // verus!
