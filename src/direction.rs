//! Heading of the snake and the rule that turns key presses into a heading.

use crate::geometry::CELL_SIZE;
use vstd::prelude::*;

verus! {

#[derive(Clone, Copy, Debug, PartialEq, Eq, Structural)]
pub enum Direction {
    Up,
    Down,
    Left,
    Right,
}

/// The direction pointing the other way.
pub open spec fn opposite(d: Direction) -> Direction {
    match d {
        Direction::Up => Direction::Down,
        Direction::Down => Direction::Up,
        Direction::Left => Direction::Right,
        Direction::Right => Direction::Left,
    }
}

/// Horizontal displacement, in world units, of one step in direction `d`.
pub open spec fn dx(d: Direction) -> int {
    match d {
        Direction::Left => -CELL_SIZE,
        Direction::Right => CELL_SIZE as int,
        _ => 0,
    }
}

/// Vertical displacement, in world units, of one step in direction `d`.
pub open spec fn dy(d: Direction) -> int {
    match d {
        Direction::Up => CELL_SIZE as int,
        Direction::Down => -CELL_SIZE,
        _ => 0,
    }
}

/// The heading after the keys `pressed` of one tick, taken in order. Each
/// key is judged against `start`, the heading at the start of the tick: the
/// key for the opposite of `start` is ignored, and the last other key wins.
pub open spec fn resolve_inputs(start: Direction, pressed: Seq<Direction>) -> Direction
    decreases pressed.len(),
{
    if pressed.len() == 0 {
        start
    } else if pressed.last() == opposite(start) {
        resolve_inputs(start, pressed.drop_last())
    } else {
        pressed.last()
    }
}

impl Direction {
    pub fn opposite(self) -> (r: Direction)
        ensures
            r == opposite(self),
    {
        match self {
            Direction::Up => Direction::Down,
            Direction::Down => Direction::Up,
            Direction::Left => Direction::Right,
            Direction::Right => Direction::Left,
        }
    }

    /// Applies the pressed direction keys of one tick in the order given:
    /// a key for the opposite of `self` is ignored, and the last other key
    /// wins. The result is never the opposite of `self`.
    pub fn apply_inputs(self, pressed: &Vec<Direction>) -> (r: Direction)
        ensures
            r == resolve_inputs(self, pressed@),
            r != opposite(self),
    {
        let back = self.opposite();
        let mut current = self;
        let mut i: usize = 0;
        while i < pressed.len()
            invariant
                i <= pressed@.len(),
                back == opposite(self),
                current == resolve_inputs(self, pressed@.subrange(0, i as int)),
            decreases pressed@.len() - i,
        {
            proof {
                assert(pressed@.subrange(0, i as int + 1).drop_last() =~= pressed@.subrange(0, i as int));
            }
            if pressed[i] != back {
                current = pressed[i];
            }
            i = i + 1;
        }
        proof {
            assert(pressed@.subrange(0, i as int) =~= pressed@);
            lemma_no_reversal(self, pressed@);
        }
        current
    }
}

/// Whatever keys are pressed, and in whatever order, one tick never turns
/// the heading to its opposite.
pub proof fn lemma_no_reversal(d: Direction, pressed: Seq<Direction>)
    ensures
        resolve_inputs(d, pressed) != opposite(d),
    decreases pressed.len(),
{
    if pressed.len() > 0 {
        lemma_no_reversal(d, pressed.drop_last());
    }
}

/// A single key for the opposite of the heading leaves the heading unchanged.
pub proof fn lemma_reversal_refused(d: Direction)
    ensures
        resolve_inputs(d, seq![opposite(d)]) == d,
{
    let one = seq![opposite(d)];
    assert(one.drop_last() =~= Seq::<Direction>::empty());
    assert(resolve_inputs(d, one.drop_last()) == d);
    assert(one.last() == opposite(d));
}

/// A step moves exactly one cell along exactly one axis, the axis and sign
/// of the direction.
pub proof fn lemma_step_is_one_cell(d: Direction)
    ensures
        (dx(d) == 0) != (dy(d) == 0),
        d == Direction::Up ==> dx(d) == 0 && dy(d) == CELL_SIZE,
        d == Direction::Down ==> dx(d) == 0 && dy(d) == -CELL_SIZE,
        d == Direction::Left ==> dx(d) == -CELL_SIZE && dy(d) == 0,
        d == Direction::Right ==> dx(d) == CELL_SIZE && dy(d) == 0,
{
}

} // verus!
