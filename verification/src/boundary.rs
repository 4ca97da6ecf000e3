//! What happens when the head would leave the arena.

use vstd::prelude::*;
use crate::geometry::{Direction, Position, delta_for};

verus! {

/// The rule applied to a head that steps over an edge of the arena.
#[derive(Copy, Clone, Debug, PartialEq, Eq, Structural)]
pub enum BoundaryPolicy {
    /// The arena is `size` cells wide and high; leaving it is fatal.
    Walled { size: i32 },
    /// Coordinates wrap modulo `modulus`; the snake re-enters from the
    /// opposite edge and no wall exists.
    Toroidal { modulus: i32 },
}

/// Why a move ended the game.
#[derive(Copy, Clone, Debug, PartialEq, Eq, Structural)]
pub enum CollisionKind {
    /// The head left the grid under a walled policy.
    WallCollision,
    /// The head landed on a segment of the snake's own body.
    SelfCollision,
}

/// Euclidean remainder of `value` by a positive `modulus`.
pub fn wrap_coordinate(value: i64, modulus: i32) -> (r: i32)
    requires
        modulus > 0,
    ensures
        r == (value as int) % (modulus as int),
        0 <= r < modulus,
{
    match value.checked_rem_euclid(modulus as i64) {
        Some(r) => r as i32,
        None => vstd::pervasive::unreached(),
    }
}

impl BoundaryPolicy {
    /// A policy is usable when its extent is positive.
    pub open spec fn wf(self) -> bool {
        match self {
            BoundaryPolicy::Walled { size } => size > 0,
            BoundaryPolicy::Toroidal { modulus } => modulus > 0,
        }
    }

    /// Where a head that reaches the raw coordinates `(x, y)` ends up, or
    /// `None` when it hits a wall.
    pub open spec fn spec_resolve(self, x: int, y: int) -> Option<Position> {
        match self {
            BoundaryPolicy::Walled { size } => {
                if 0 <= x < size && 0 <= y < size {
                    Some(Position { x: x as i32, y: y as i32 })
                } else {
                    None
                }
            },
            BoundaryPolicy::Toroidal { modulus } => Some(
                Position { x: (x % (modulus as int)) as i32, y: (y % (modulus as int)) as i32 },
            ),
        }
    }

    /// The cell one step from `from` along `direction` under this policy,
    /// or `None` when that step hits a wall.
    pub open spec fn spec_step(self, from: Position, direction: Direction) -> Option<Position> {
        self.spec_resolve(from.x + direction.spec_delta().0, from.y + direction.spec_delta().1)
    }

    /// Whether the usability condition of [`BoundaryPolicy::wf`] holds.
    pub fn is_valid(&self) -> (ok: bool)
        ensures
            ok == self.wf(),
    {
        match self {
            BoundaryPolicy::Walled { size } => *size > 0,
            BoundaryPolicy::Toroidal { modulus } => *modulus > 0,
        }
    }

    /// The cell one step from `from` along `direction`, or `None` when the
    /// step leaves a walled arena.
    pub fn step(&self, from: Position, direction: Direction) -> (next: Option<Position>)
        requires
            self.wf(),
        ensures
            next == self.spec_step(from, direction),
    {
        let (dx, dy) = delta_for(direction);
        let x: i64 = from.x as i64 + dx as i64;
        let y: i64 = from.y as i64 + dy as i64;
        match self {
            BoundaryPolicy::Walled { size } => {
                let limit: i64 = *size as i64;
                if 0 <= x && x < limit && 0 <= y && y < limit {
                    Some(Position { x: x as i32, y: y as i32 })
                } else {
                    None
                }
            },
            BoundaryPolicy::Toroidal { modulus } => Some(
                Position { x: wrap_coordinate(x, *modulus), y: wrap_coordinate(y, *modulus) },
            ),
        }
    }
}

/// Under a walled policy a step succeeds exactly when the plain sum of head
/// and unit step stays inside the arena, and then it is that sum.
pub proof fn lemma_walled_step(size: i32, from: Position, direction: Direction)
    requires
        size > 0,
    ensures
        ({
            let policy = BoundaryPolicy::Walled { size };
            let x = from.x + direction.spec_delta().0;
            let y = from.y + direction.spec_delta().1;
            match policy.spec_step(from, direction) {
                Some(p) => p.x == x && p.y == y && p.within(size as int),
                None => !(0 <= x < size && 0 <= y < size),
            }
        }),
{
}

/// Under a toroidal policy every step succeeds and lands inside
/// `[0, modulus)` on both axes, congruent to the plain sum.
pub proof fn lemma_toroidal_step(modulus: i32, from: Position, direction: Direction)
    requires
        modulus > 0,
    ensures
        ({
            let policy = BoundaryPolicy::Toroidal { modulus };
            let x = from.x + direction.spec_delta().0;
            let y = from.y + direction.spec_delta().1;
            match policy.spec_step(from, direction) {
                Some(p) => p.x == x % (modulus as int) && p.y == y % (modulus as int) && p.within(
                    modulus as int,
                ),
                None => false,
            }
        }),
{
}

} // verus!
