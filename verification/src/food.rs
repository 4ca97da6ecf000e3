//! Food placement: a cell of the grid that the snake does not cover.

use vstd::prelude::*;
use crate::geometry::Position;
use crate::snake::Snake;

verus! {

/// How many random cells [`place`] tries before it falls back to a scan of
/// the grid.
pub const SAMPLING_BUDGET: u32 = 256;

/// Whether `p` is a cell of the `grid_size` by `grid_size` grid that `body`
/// does not cover.
pub open spec fn is_free(grid_size: int, body: Seq<Position>, p: Position) -> bool {
    p.within(grid_size) && !body.contains(p)
}

/// Whether the grid has a cell that `body` does not cover.
pub open spec fn has_free_cell(grid_size: int, body: Seq<Position>) -> bool {
    exists|p: Position| #[trigger] is_free(grid_size, body, p)
}

/// Whether `p` comes before `q` when the grid is read row by row.
pub open spec fn precedes(p: Position, q: Position) -> bool {
    p.y < q.y || (p.y == q.y && p.x < q.x)
}

/// A uniformly drawn integer of `[0, bound)`, from `rand`'s thread-local
/// generator by `Rng::gen_range` on the half-open range `0..bound`.
///
/// The contract claims no more than the range: the value differs from call
/// to call. An empty range makes `gen_range` panic, hence the precondition.
#[verifier::external_body]
fn random_below(bound: i32) -> (r: i32)
    requires
        bound > 0,
    ensures
        0 <= r < bound,
{
    rand::Rng::gen_range(&mut rand::thread_rng(), 0..bound)
}

/// Whether `candidate` may hold food: it lies on the grid and off the snake.
pub fn is_free_cell(grid_size: i32, snake: &Snake, candidate: Position) -> (free: bool)
    ensures
        free == is_free(grid_size as int, snake@, candidate),
{
    candidate.is_within(grid_size) && !snake.occupies(candidate)
}

/// The first cell, reading the grid row by row from the top left, that the
/// snake does not cover; `None` exactly when it covers the whole grid.
pub fn first_free(grid_size: i32, snake: &Snake) -> (found: Option<Position>)
    ensures
        match found {
            Some(p) => {
                &&& is_free(grid_size as int, snake@, p)
                &&& forall|q: Position|
                    q.within(grid_size as int) && precedes(q, p) ==> #[trigger] snake@.contains(q)
            },
            None => !has_free_cell(grid_size as int, snake@),
        },
        found is Some <==> has_free_cell(grid_size as int, snake@),
{
    let mut y: i32 = 0;
    while y < grid_size
        invariant
            0 <= y,
            y <= grid_size || grid_size < 0,
            forall|q: Position|
                q.within(grid_size as int) && q.y < y ==> #[trigger] snake@.contains(q),
        decreases grid_size - y,
    {
        let mut x: i32 = 0;
        while x < grid_size
            invariant
                0 <= x <= grid_size,
                0 <= y < grid_size,
                forall|q: Position|
                    q.within(grid_size as int) && q.y < y ==> #[trigger] snake@.contains(q),
                forall|q: Position|
                    q.within(grid_size as int) && q.y == y && q.x < x ==> #[trigger] snake@.contains(
                        q,
                    ),
            decreases grid_size - x,
        {
            let cell = Position { x, y };
            if !snake.occupies(cell) {
                assert(is_free(grid_size as int, snake@, cell));
                return Some(cell);
            }
            assert forall|q: Position|
                q.within(grid_size as int) && q.y == y && q.x < x + 1 implies #[trigger] snake@.contains(
                q,
            ) by {
                if q.x == x {
                    assert(q == cell);
                }
            }
            x += 1;
        }
        y += 1;
    }
    assert forall|p: Position| !#[trigger] is_free(grid_size as int, snake@, p) by {
        if p.within(grid_size as int) {
            assert(snake@.contains(p));
        }
    }
    None
}

/// A cell for new food.
///
/// Draws cells of the grid uniformly at random until one is off the snake.
/// After [`SAMPLING_BUDGET`] draws without success the grid is scanned row
/// by row instead, so the search always ends: the result is `None` exactly
/// when the snake leaves no cell free.
pub fn place(grid_size: i32, snake: &Snake) -> (placed: Option<Position>)
    ensures
        match placed {
            Some(p) => is_free(grid_size as int, snake@, p),
            None => !has_free_cell(grid_size as int, snake@),
        },
        placed is Some <==> has_free_cell(grid_size as int, snake@),
{
    if grid_size <= 0 {
        assert forall|p: Position| !#[trigger] is_free(grid_size as int, snake@, p) by {}
        return None;
    }
    let mut attempts: u32 = 0;
    while attempts < SAMPLING_BUDGET
        invariant
            grid_size > 0,
        decreases SAMPLING_BUDGET - attempts,
    {
        let x: i32 = random_below(grid_size);
        let y: i32 = random_below(grid_size);
        let candidate = Position { x, y };
        if is_free_cell(grid_size, snake, candidate) {
            return Some(candidate);
        }
        attempts += 1;
    }
    first_free(grid_size, snake)
}

} // verus!
