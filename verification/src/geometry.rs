//! Plain value types of the grid: cells, headings and unit steps.

use vstd::prelude::*;

verus! {

/// A cell of the grid, addressed by column `x` and row `y`.
#[derive(Copy, Clone, Debug, PartialEq, Eq, Hash, Structural)]
pub struct Position {
    pub x: i32,
    pub y: i32,
}

/// One of the four headings a snake can travel in.
#[derive(Copy, Clone, Debug, PartialEq, Eq, Hash, Structural)]
pub enum Direction {
    Up,
    Down,
    Left,
    Right,
}

impl Position {
    /// The cell at column `x`, row `y`.
    pub fn new(x: i32, y: i32) -> (p: Position)
        ensures
            p == (Position { x, y }),
    {
        Position { x, y }
    }

    /// Whether both coordinates lie in `[0, size)`.
    pub open spec fn within(self, size: int) -> bool {
        0 <= self.x < size && 0 <= self.y < size
    }

    /// Whether both coordinates lie in `[0, size)`.
    pub fn is_within(&self, size: i32) -> (inside: bool)
        ensures
            inside == self.within(size as int),
    {
        0 <= self.x && self.x < size && 0 <= self.y && self.y < size
    }
}

impl Direction {
    /// The unit step `(dx, dy)` of a heading; rows grow downwards.
    pub open spec fn spec_delta(self) -> (int, int) {
        match self {
            Direction::Up => (0, -1),
            Direction::Down => (0, 1),
            Direction::Left => (-1, 0),
            Direction::Right => (1, 0),
        }
    }

    /// The heading that points the other way.
    pub open spec fn spec_opposite(self) -> Direction {
        match self {
            Direction::Up => Direction::Down,
            Direction::Down => Direction::Up,
            Direction::Left => Direction::Right,
            Direction::Right => Direction::Left,
        }
    }

    /// Whether the heading runs along the columns (`Left` or `Right`).
    pub open spec fn spec_is_horizontal(self) -> bool {
        self == Direction::Left || self == Direction::Right
    }

    /// Whether two headings run along different axes.
    pub open spec fn spec_is_perpendicular(self, other: Direction) -> bool {
        self.spec_is_horizontal() != other.spec_is_horizontal()
    }

    /// The heading in effect after `requested` is asked of a snake that
    /// travels along `self`: the request wins unless it is a half turn.
    pub open spec fn spec_turn(self, requested: Direction) -> Direction {
        if requested == self.spec_opposite() {
            self
        } else {
            requested
        }
    }

    /// The heading that points the other way.
    pub fn opposite(self) -> (d: Direction)
        ensures
            d == self.spec_opposite(),
    {
        match self {
            Direction::Up => Direction::Down,
            Direction::Down => Direction::Up,
            Direction::Left => Direction::Right,
            Direction::Right => Direction::Left,
        }
    }

    /// Whether `other` is the half turn of `self`.
    pub fn is_opposite(self, other: Direction) -> (b: bool)
        ensures
            b == (other == self.spec_opposite()),
    {
        match (self, other) {
            (Direction::Up, Direction::Down) => true,
            (Direction::Down, Direction::Up) => true,
            (Direction::Left, Direction::Right) => true,
            (Direction::Right, Direction::Left) => true,
            _ => false,
        }
    }

    /// The heading in effect after `requested` is asked while travelling
    /// along `self`.
    pub fn turn(self, requested: Direction) -> (d: Direction)
        ensures
            d == self.spec_turn(requested),
    {
        if self.is_opposite(requested) {
            self
        } else {
            requested
        }
    }
}

/// The unit step `(dx, dy)` taken when travelling along `direction`.
pub fn delta_for(direction: Direction) -> (d: (i32, i32))
    ensures
        d.0 == direction.spec_delta().0,
        d.1 == direction.spec_delta().1,
{
    match direction {
        Direction::Up => (0, -1),
        Direction::Down => (0, 1),
        Direction::Left => (-1, 0),
        Direction::Right => (1, 0),
    }
}

/// A half turn is an involution and never a fixed point.
pub proof fn lemma_opposite_involution(d: Direction)
    ensures
        d.spec_opposite().spec_opposite() == d,
        d.spec_opposite() != d,
        !d.spec_is_perpendicular(d.spec_opposite()),
{
}

/// The step of a heading and the step of its half turn cancel out.
pub proof fn lemma_opposite_delta(d: Direction)
    ensures
        d.spec_opposite().spec_delta().0 == -d.spec_delta().0,
        d.spec_opposite().spec_delta().1 == -d.spec_delta().1,
{
}

/// A single turn never yields the half turn of the heading it started from.
pub proof fn lemma_turn_never_reverses(current: Direction, requested: Direction)
    ensures
        current.spec_turn(requested) != current.spec_opposite(),
{
}

/// Asking for the same heading twice changes nothing beyond the first request.
pub proof fn lemma_turn_idempotent(current: Direction, requested: Direction)
    ensures
        current.spec_turn(requested).spec_turn(requested) == current.spec_turn(requested),
{
}

} // verus!
