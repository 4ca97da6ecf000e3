//! What a run of direction requests does to a heading.
//!
//! Each request is judged against the heading in effect when it arrives, so
//! a quarter turn followed by a second quarter turn can point the snake
//! back where it came from. The law at the end of this module says that
//! this is the only way to end up reversed.

use vstd::prelude::*;
use crate::geometry::Direction;

verus! {

/// The heading in effect after `requests` have been asked in order of a
/// snake that travels along `start`.
pub open spec fn heading_after(start: Direction, requests: Seq<Direction>) -> Direction
    decreases requests.len(),
{
    if requests.len() == 0 {
        start
    } else {
        heading_after(start, requests.drop_last()).spec_turn(requests.last())
    }
}

/// Whether the request at `at` is a quarter turn away from `start`, the
/// request right after it asks for the half turn of `start`, and no
/// quarter turn away from `start` follows.
pub open spec fn doubles_back_at(start: Direction, requests: Seq<Direction>, at: int) -> bool {
    &&& 0 <= at
    &&& at + 1 < requests.len()
    &&& start.spec_is_perpendicular(requests[at])
    &&& requests[at + 1] == start.spec_opposite()
    &&& forall|j: int|
        at + 1 < j < requests.len() ==> !start.spec_is_perpendicular(#[trigger] requests[j])
}

/// Whether `requests` lead a snake that travels along `start` through a
/// quarter turn into the half turn of `start`, and leave it there.
pub open spec fn doubles_back(start: Direction, requests: Seq<Direction>) -> bool {
    exists|at: int| #[trigger] doubles_back_at(start, requests, at)
}

/// The position of the last quarter turn away from `start` among
/// `requests`, or -1 when there is none.
pub open spec fn last_quarter_turn(start: Direction, requests: Seq<Direction>) -> int
    decreases requests.len(),
{
    if requests.len() == 0 {
        -1
    } else if start.spec_is_perpendicular(requests.last()) {
        requests.len() - 1
    } else {
        last_quarter_turn(start, requests.drop_last())
    }
}

/// `last_quarter_turn` is what its name says.
proof fn lemma_last_quarter_turn(start: Direction, requests: Seq<Direction>)
    ensures
        -1 <= last_quarter_turn(start, requests) < requests.len(),
        last_quarter_turn(start, requests) >= 0 ==> start.spec_is_perpendicular(
            requests[last_quarter_turn(start, requests)],
        ),
        forall|j: int|
            last_quarter_turn(start, requests) < j < requests.len()
                ==> !start.spec_is_perpendicular(#[trigger] requests[j]),
    decreases requests.len(),
{
    if requests.len() > 0 && !start.spec_is_perpendicular(requests.last()) {
        let front = requests.drop_last();
        lemma_last_quarter_turn(start, front);
        assert forall|j: int|
            last_quarter_turn(start, requests) < j < requests.len()
                implies !start.spec_is_perpendicular(#[trigger] requests[j]) by {
            if j < front.len() {
                assert(requests[j] == front[j]);
            }
        }
    }
}

/// The heading after a run of requests, read off the last quarter turn:
/// with none, the heading is still `start`; with the quarter turn last, the
/// heading runs across `start`; otherwise it is the request that came right
/// after the last quarter turn.
proof fn lemma_heading_by_last_quarter_turn(start: Direction, requests: Seq<Direction>)
    ensures
        ({
            let k = last_quarter_turn(start, requests);
            let h = heading_after(start, requests);
            &&& k == -1 ==> h == start
            &&& k == requests.len() - 1 && k >= 0 ==> start.spec_is_perpendicular(h)
            &&& 0 <= k < requests.len() - 1 ==> h == requests[k + 1]
        }),
    decreases requests.len(),
{
    if requests.len() > 0 {
        let front = requests.drop_last();
        lemma_heading_by_last_quarter_turn(start, front);
        lemma_last_quarter_turn(start, front);
        let k = last_quarter_turn(start, front);
        if 0 <= k < front.len() - 1 {
            assert(front[k + 1] == requests[k + 1]);
        }
    }
}

/// A run of direction requests leaves the snake heading the opposite way
/// from where it started exactly when the run doubles back: a quarter turn,
/// then at once the half turn of the starting heading, and no quarter turn
/// after that. In particular a run in which no quarter turn is followed at
/// once by that half turn never reverses the snake.
pub proof fn lemma_reversal_only_by_doubling_back(start: Direction, requests: Seq<Direction>)
    ensures
        heading_after(start, requests) == start.spec_opposite() <==> doubles_back(
            start,
            requests,
        ),
{
    lemma_last_quarter_turn(start, requests);
    lemma_heading_by_last_quarter_turn(start, requests);
    let k = last_quarter_turn(start, requests);
    if heading_after(start, requests) == start.spec_opposite() {
        assert(doubles_back_at(start, requests, k));
    }
    if doubles_back(start, requests) {
        let at = choose|at: int| #[trigger] doubles_back_at(start, requests, at);
        assert(at <= k);
        if k > at {
            if k == at + 1 {
                assert(!start.spec_is_perpendicular(requests[at + 1]));
            } else {
                assert(!start.spec_is_perpendicular(requests[k]));
            }
        }
        assert(k == at);
    }
}

/// One request alone never reverses the snake.
pub proof fn lemma_single_request_never_reverses(start: Direction, requested: Direction)
    ensures
        heading_after(start, seq![requested]) != start.spec_opposite(),
{
    let requests = seq![requested];
    assert(requests.drop_last().len() == 0);
    assert(heading_after(start, requests) == heading_after(start, requests.drop_last()).spec_turn(
        requests.last(),
    ));
}

/// Asking for the same heading any number of times in a row has the effect
/// of asking for it once.
pub proof fn lemma_repeated_request(start: Direction, requested: Direction, times: nat)
    requires
        times >= 1,
    ensures
        heading_after(start, Seq::new(times, |i: int| requested)) == start.spec_turn(requested),
    decreases times,
{
    let requests = Seq::new(times, |i: int| requested);
    let front = requests.drop_last();
    if times == 1 {
        assert(front.len() == 0);
    } else {
        assert(front =~= Seq::new((times - 1) as nat, |i: int| requested));
        lemma_repeated_request(start, requested, (times - 1) as nat);
    }
}

} // verus!
