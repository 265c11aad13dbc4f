//! Cells and headings: the value types every other part of the engine works on.

use vstd::prelude::*;

verus! {

/// Width of the arena, in cells. The playable x coordinates are `0 .. ARENA_WIDTH`.
pub const ARENA_WIDTH: u32 = 10;

/// Height of the arena, in cells. The playable y coordinates are `0 .. ARENA_HEIGHT`.
pub const ARENA_HEIGHT: u32 = 10;

/// A cell coordinate on the grid. A plain value: copied freely, equal by (x, y).
#[derive(Copy, Clone, PartialEq, Eq, Hash, Debug, Structural)]
pub struct Position {
    pub x: i32,
    pub y: i32,
}

/// One of the four cardinal headings the snake can move along.
#[derive(Copy, Clone, PartialEq, Eq, Hash, Debug, Structural)]
pub enum Direction {
    Left,
    Up,
    Right,
    Down,
}

impl Direction {
    /// The 180-degree reversal of a heading.
    pub open spec fn spec_opposite(self) -> Direction {
        match self {
            Direction::Left => Direction::Right,
            Direction::Right => Direction::Left,
            Direction::Up => Direction::Down,
            Direction::Down => Direction::Up,
        }
    }

    /// Returns the 180-degree-reversed heading.
    pub fn opposite(self) -> (r: Direction)
        ensures
            r == self.spec_opposite(),
    {
        match self {
            Direction::Left => Direction::Right,
            Direction::Right => Direction::Left,
            Direction::Up => Direction::Down,
            Direction::Down => Direction::Up,
        }
    }
}

/// Reversing a heading twice yields the original heading.
pub proof fn lemma_opposite_involution(d: Direction)
    ensures
        d.spec_opposite().spec_opposite() == d,
{
}

/// The heading adopted for a tick: the requested one, unless nothing was
/// requested or the request would reverse the current heading, in which case
/// the current heading is retained.
pub open spec fn spec_resolve_input(current: Direction, requested: Option<Direction>) -> Direction {
    match requested {
        Some(d) => if d == current.spec_opposite() {
            current
        } else {
            d
        },
        None => current,
    }
}

/// Resolves a directional input against the reversal rule: a request for the
/// opposite of the current heading is rejected and the current heading kept.
pub fn resolve_input(current: Direction, requested: Option<Direction>) -> (r: Direction)
    ensures
        r == spec_resolve_input(current, requested),
{
    match requested {
        Some(d) => {
            if d == current.opposite() {
                current
            } else {
                d
            }
        },
        None => current,
    }
}

/// Requesting the exact reversal of the current heading never changes it.
pub proof fn lemma_reversal_rejected(current: Direction)
    ensures
        spec_resolve_input(current, Some(current.spec_opposite())) == current,
{
}

/// Whether moving one cell along `d` from `p` stays within the machine range
/// of the coordinates.
pub open spec fn can_translate(p: Position, d: Direction) -> bool {
    match d {
        Direction::Left => p.x > i32::MIN,
        Direction::Right => p.x < i32::MAX,
        Direction::Up => p.y < i32::MAX,
        Direction::Down => p.y > i32::MIN,
    }
}

/// The cell one step along `d` from `p`:
/// Left is x-1, Right is x+1, Up is y+1, Down is y-1.
pub open spec fn spec_translate(p: Position, d: Direction) -> Position {
    match d {
        Direction::Left => Position { x: (p.x - 1) as i32, y: p.y },
        Direction::Right => Position { x: (p.x + 1) as i32, y: p.y },
        Direction::Up => Position { x: p.x, y: (p.y + 1) as i32 },
        Direction::Down => Position { x: p.x, y: (p.y - 1) as i32 },
    }
}

/// Moves a position one cell along a heading.
pub fn translate(p: Position, d: Direction) -> (r: Position)
    requires
        can_translate(p, d),
    ensures
        r == spec_translate(p, d),
{
    match d {
        Direction::Left => Position { x: p.x - 1, y: p.y },
        Direction::Right => Position { x: p.x + 1, y: p.y },
        Direction::Up => Position { x: p.x, y: p.y + 1 },
        Direction::Down => Position { x: p.x, y: p.y - 1 },
    }
}

} // verus!
