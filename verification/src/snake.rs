//! The snake: an ordered body of cells, a heading, and the rules by which
//! it turns, moves, grows and runs into itself.

use std::collections::VecDeque;
use vstd::prelude::*;
use crate::boundary::{BoundaryPolicy, CollisionKind};
use crate::geometry::{Direction, Position};

verus! {

/// When running into one's own body counts as a collision.
#[derive(Copy, Clone, Debug, PartialEq, Eq, Structural)]
pub struct SelfCollisionRule {
    /// Whether self-collision is checked at all.
    pub enabled: bool,
    /// The shortest body, counted after the move, to which the check applies.
    pub min_length: usize,
}

impl SelfCollisionRule {
    /// Whether the check applies to a body of `len` segments.
    pub open spec fn applies(self, len: int) -> bool {
        self.enabled && len >= self.min_length
    }

    /// The rule with the given switch and threshold.
    pub fn new(enabled: bool, min_length: usize) -> (rule: SelfCollisionRule)
        ensures
            rule == (SelfCollisionRule { enabled, min_length }),
    {
        SelfCollisionRule { enabled, min_length }
    }

    /// The rule that checks bodies of every length.
    pub fn always() -> (rule: SelfCollisionRule)
        ensures
            rule == (SelfCollisionRule { enabled: true, min_length: 0 }),
            forall|len: int| 0 <= len ==> rule.applies(len),
    {
        SelfCollisionRule { enabled: true, min_length: 0 }
    }

    /// The rule that never reports a self-collision.
    pub fn never() -> (rule: SelfCollisionRule)
        ensures
            rule == (SelfCollisionRule { enabled: false, min_length: 0 }),
            forall|len: int| !rule.applies(len),
    {
        SelfCollisionRule { enabled: false, min_length: 0 }
    }

    /// Whether the check applies to a body of `len` segments.
    pub fn applies_to(&self, len: usize) -> (b: bool)
        ensures
            b == self.applies(len as int),
    {
        self.enabled && len >= self.min_length
    }
}

/// The body after a move onto `new_head`, head first: the new head is put
/// in front, and the last segment leaves unless the snake grows.
pub open spec fn moved_body(body: Seq<Position>, new_head: Position, grow: bool) -> Seq<Position> {
    if grow {
        seq![new_head] + body
    } else {
        seq![new_head] + body.drop_last()
    }
}

/// Whether the head of `body` also occurs among the segments behind it.
pub open spec fn hits_itself(body: Seq<Position>) -> bool {
    exists|i: int| 1 <= i < body.len() && #[trigger] body[i] == body[0]
}

/// A snake on the grid. Its view is the body, head first.
pub struct Snake {
    body: VecDeque<Position>,
    direction: Direction,
    rule: SelfCollisionRule,
}

impl View for Snake {
    type V = Seq<Position>;

    closed spec fn view(&self) -> Seq<Position> {
        self.body@
    }
}

impl Snake {
    /// The invariant of every snake: the body is never empty.
    pub open spec fn wf(&self) -> bool {
        self@.len() > 0
    }

    /// The heading the next move will follow.
    pub closed spec fn spec_direction(&self) -> Direction {
        self.direction
    }

    /// The self-collision rule the snake was made with.
    pub closed spec fn spec_rule(&self) -> SelfCollisionRule {
        self.rule
    }

    /// The foremost segment.
    pub open spec fn spec_head(&self) -> Position
        recommends
            self.wf(),
    {
        self@[0]
    }

    /// The cell the next move aims at under `boundary`, or `None` when that
    /// move would hit a wall.
    pub open spec fn spec_next_head(&self, boundary: BoundaryPolicy) -> Option<Position>
        recommends
            self.wf(),
    {
        boundary.spec_step(self.spec_head(), self.spec_direction())
    }

    /// A snake whose body is `initial_body`, head first, travelling along
    /// `initial_direction`, with self-collision checked at every length.
    pub fn new(initial_body: &[Position], initial_direction: Direction) -> (snake: Snake)
        requires
            initial_body@.len() > 0,
        ensures
            snake.wf(),
            snake@ == initial_body@,
            snake.spec_direction() == initial_direction,
            snake.spec_rule() == (SelfCollisionRule { enabled: true, min_length: 0 }),
    {
        Snake::with_rule(initial_body, initial_direction, SelfCollisionRule::always())
    }

    /// A snake whose body is `initial_body`, head first, travelling along
    /// `initial_direction`, with the given self-collision rule.
    pub fn with_rule(
        initial_body: &[Position],
        initial_direction: Direction,
        rule: SelfCollisionRule,
    ) -> (snake: Snake)
        requires
            initial_body@.len() > 0,
        ensures
            snake.wf(),
            snake@ == initial_body@,
            snake.spec_direction() == initial_direction,
            snake.spec_rule() == rule,
    {
        let mut body: VecDeque<Position> = VecDeque::new();
        let mut i: usize = 0;
        while i < initial_body.len()
            invariant
                i <= initial_body@.len(),
                body@ == initial_body@.subrange(0, i as int),
            decreases initial_body@.len() - i,
        {
            body.push_back(initial_body[i]);
            assert(body@ == initial_body@.subrange(0, i + 1));
            i += 1;
        }
        assert(body@ == initial_body@);
        Snake { body, direction: initial_direction, rule }
    }

    /// The foremost segment.
    pub fn head(&self) -> (p: Position)
        requires
            self.wf(),
        ensures
            p == self.spec_head(),
    {
        self.body[0]
    }

    /// The heading the next move will follow.
    pub fn direction(&self) -> (d: Direction)
        ensures
            d == self.spec_direction(),
    {
        self.direction
    }

    /// The self-collision rule the snake was made with.
    pub fn rule(&self) -> (r: SelfCollisionRule)
        ensures
            r == self.spec_rule(),
    {
        self.rule
    }

    /// The number of segments.
    pub fn len(&self) -> (n: usize)
        ensures
            n == self@.len(),
    {
        self.body.len()
    }

    /// The segments, head first.
    pub fn body(&self) -> (segments: Vec<Position>)
        ensures
            segments@ == self@,
    {
        let mut segments: Vec<Position> = Vec::new();
        let mut i: usize = 0;
        while i < self.body.len()
            invariant
                i <= self.body@.len(),
                segments@ == self.body@.subrange(0, i as int),
            decreases self.body@.len() - i,
        {
            segments.push(self.body[i]);
            assert(segments@ == self.body@.subrange(0, i + 1));
            i += 1;
        }
        assert(segments@ == self.body@);
        segments
    }

    /// Whether any segment lies on `p`.
    pub fn occupies(&self, p: Position) -> (found: bool)
        ensures
            found == self@.contains(p),
    {
        let mut i: usize = 0;
        while i < self.body.len()
            invariant
                i <= self.body@.len(),
                forall|j: int| 0 <= j < i ==> self.body@[j] != p,
            decreases self.body@.len() - i,
        {
            if self.body[i] == p {
                return true;
            }
            i += 1;
        }
        false
    }

    /// Takes up `requested` as the new heading, unless it is the half turn
    /// of the current one, in which case nothing changes.
    pub fn change_direction(&mut self, requested: Direction)
        ensures
            final(self).spec_direction() == old(self).spec_direction().spec_turn(requested),
            final(self).spec_direction() != old(self).spec_direction().spec_opposite(),
            final(self)@ == old(self)@,
            final(self).spec_rule() == old(self).spec_rule(),
    {
        self.direction = self.direction.turn(requested);
    }

    /// Whether the head also lies on a segment behind it.
    fn head_overlaps_body(&self) -> (overlap: bool)
        requires
            self.wf(),
        ensures
            overlap == hits_itself(self@),
    {
        let head = self.body[0];
        let mut i: usize = 1;
        while i < self.body.len()
            invariant
                1 <= i <= self.body@.len(),
                head == self.body@[0],
                forall|j: int| 1 <= j < i ==> self.body@[j] != head,
            decreases self.body@.len() - i,
        {
            if self.body[i] == head {
                return true;
            }
            i += 1;
        }
        false
    }

    /// Moves one cell along the current heading.
    ///
    /// The target cell is the head plus the unit step of the heading, as
    /// resolved by `boundary`. A step into a wall is refused and leaves the
    /// snake untouched. Otherwise the target becomes the new head, and the
    /// last segment leaves unless `grow` is set. If the self-collision rule
    /// applies to the body as it then stands and the new head lies on one of
    /// the segments behind it, the move is reported as a self-collision; the
    /// body keeps its final shape.
    pub fn advance(&mut self, grow: bool, boundary: BoundaryPolicy) -> (result: Result<
        (),
        CollisionKind,
    >)
        requires
            old(self).wf(),
            boundary.wf(),
        ensures
            final(self).wf(),
            final(self).spec_direction() == old(self).spec_direction(),
            final(self).spec_rule() == old(self).spec_rule(),
            match old(self).spec_next_head(boundary) {
                None => result == Err::<(), CollisionKind>(CollisionKind::WallCollision)
                    && final(self)@ == old(self)@,
                Some(target) => final(self)@ == moved_body(old(self)@, target, grow) && result == (
                if old(self).spec_rule().applies(final(self)@.len() as int) && hits_itself(
                    final(self)@,
                ) {
                    Err::<(), CollisionKind>(CollisionKind::SelfCollision)
                } else {
                    Ok::<(), CollisionKind>(())
                }),
            },
            result != Err::<(), CollisionKind>(CollisionKind::WallCollision) ==> {
                &&& Some(final(self).spec_head()) == old(self).spec_next_head(boundary)
                &&& final(self)@.len() == old(self)@.len() + (if grow {
                    1int
                } else {
                    0int
                })
            },
    {
        let head = self.head();
        match boundary.step(head, self.direction) {
            None => Err(CollisionKind::WallCollision),
            Some(target) => {
                self.body.push_front(target);
                if !grow {
                    self.body.pop_back();
                }
                assert(self.body@ =~= moved_body(old(self)@, target, grow));
                if self.rule.applies_to(self.body.len()) && self.head_overlaps_body() {
                    Err(CollisionKind::SelfCollision)
                } else {
                    Ok(())
                }
            },
        }
    }
}

/// A move keeps the length of the body, and a growing move adds exactly one
/// segment; either way the target cell becomes the head and the segments
/// that stay keep their order behind it.
pub proof fn lemma_moved_body_shape(body: Seq<Position>, target: Position, grow: bool)
    requires
        body.len() > 0,
    ensures
        moved_body(body, target, grow)[0] == target,
        !grow ==> moved_body(body, target, grow).len() == body.len(),
        grow ==> moved_body(body, target, grow).len() == body.len() + 1,
        forall|i: int|
            1 <= i < moved_body(body, target, grow).len() ==> moved_body(body, target, grow)[i]
                == body[i - 1],
{
}

/// A body without repeated cells stays without repeated cells across every
/// move whose new head does not land on a segment that remains.
pub proof fn lemma_move_keeps_segments_distinct(
    body: Seq<Position>,
    target: Position,
    grow: bool,
)
    requires
        body.len() > 0,
        body.no_duplicates(),
        !hits_itself(moved_body(body, target, grow)),
    ensures
        moved_body(body, target, grow).no_duplicates(),
{
    let after = moved_body(body, target, grow);
    assert forall|i: int, j: int| 0 <= i < after.len() && 0 <= j < after.len() && i != j implies after[i]
        != after[j] by {
        if i == 0 {
            assert(after[j] != after[0]);
        } else if j == 0 {
            assert(after[i] != after[0]);
        } else {
            assert(after[i] == body[i - 1]);
            assert(after[j] == body[j - 1]);
        }
    }
}

} // verus!
