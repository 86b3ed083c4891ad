//! The snake: an ordered body of cells, head first, plus the current
//! heading. Owns movement, growth and shrink, self-collision and
//! direction-change validation.

use std::collections::VecDeque;
use vstd::prelude::*;

use crate::direction::{dx, dy, opposite, opposite_spec, Direction};
use crate::point::{in_bounds, Point};

verus! {

/// Whether some segment of `body` occupies cell `p`.
pub open spec fn occupies(body: Seq<Point>, p: Point) -> bool {
    exists|i: int| 0 <= i < body.len() && body[i] == p
}

/// Whether the head (the first segment) reappears at some later index of
/// `body`: the snake has run into itself.
pub open spec fn hits_self(body: Seq<Point>) -> bool {
    exists|i: int| 1 <= i < body.len() && #[trigger] body[i] == body[0]
}

/// A body with no duplicate coordinates never registers a self collision,
/// so with its head on the board `check_collision` reports none: its
/// result equals `!in_bounds(body[0], ..) || hits_self(body)`, and both
/// disjuncts are false here. A head off the board still collides with the
/// wall, duplicates or not, which is why the head is required on it.
pub proof fn lemma_no_duplicates_no_self_collision(body: Seq<Point>, width: i32, height: i32)
    requires
        body.len() >= 1,
        in_bounds(body[0], width, height),
        forall|i: int, j: int| 0 <= i < j < body.len() ==> #[trigger] body[i] != #[trigger] body[j],
    ensures
        !(!in_bounds(body[0], width, height) || hits_self(body)),
{
}

/// The cell one step away from `p` in direction `d`.
pub open spec fn step_spec(p: Point, d: Direction) -> Point {
    Point { x: (p.x + dx(d)) as i32, y: (p.y + dy(d)) as i32 }
}

/// An ordered sequence of cells, front of the deque = head = most recently
/// added, and the current heading.
pub struct Snake {
    pub body: VecDeque<Point>,
    pub direction: Direction,
}

impl Snake {
    /// The body is never empty after construction.
    pub open spec fn wf(self) -> bool {
        self.body@.len() >= 1
    }

    /// The foremost segment, in the current direction of travel.
    pub open spec fn head_spec(self) -> Point {
        self.body@[0]
    }

    /// One step ahead of the head stays within the machine range of a
    /// coordinate, so the head can advance without wrapping.
    pub open spec fn can_advance(self) -> bool {
        &&& i32::MIN <= self.head_spec().x + dx(self.direction) <= i32::MAX
        &&& i32::MIN <= self.head_spec().y + dy(self.direction) <= i32::MAX
    }

    /// A one-segment snake at the given origin, heading Right.
    pub fn new(x: i32, y: i32) -> (s: Snake)
        ensures
            s.wf(),
            s.body@ == seq![Point { x, y }],
            s.direction == Direction::Right,
    {
        let mut body = VecDeque::new();
        body.push_back(Point { x, y });
        proof {
            assert(body@ =~= seq![Point { x, y }]);
        }
        Snake { body, direction: Direction::Right }
    }

    /// Prepends the cell one step ahead of the head in the current heading.
    /// The tail is not removed here: the "did not eat" path of `eat_food`
    /// is the sole place the body shrinks, so growth is achieved by simply
    /// skipping that removal.
    pub fn move_forward(&mut self)
        requires
            old(self).wf(),
            old(self).can_advance(),
        ensures
            final(self).wf(),
            final(self).direction == old(self).direction,
            final(self).body@ == seq![step_spec(old(self).head_spec(), old(self).direction)]
                + old(self).body@,
            final(self).head_spec() == step_spec(old(self).head_spec(), old(self).direction),
            final(self).body@.len() == old(self).body@.len() + 1,
    {
        let head = self.body[0];
        let new_head = match self.direction {
            Direction::Up => Point { x: head.x, y: head.y - 1 },
            Direction::Down => Point { x: head.x, y: head.y + 1 },
            Direction::Left => Point { x: head.x - 1, y: head.y },
            Direction::Right => Point { x: head.x + 1, y: head.y },
        };
        self.body.push_front(new_head);
    }

    /// Sets the heading to `new_direction` unless that is the exact
    /// opposite of the current heading, which is silently ignored: a
    /// designed rejection, not a failure. Any other heading, including the
    /// current one, is accepted.
    pub fn change_direction(&mut self, new_direction: Direction)
        ensures
            final(self).body == old(self).body,
            new_direction == opposite_spec(old(self).direction) ==> final(self).direction
                == old(self).direction,
            new_direction != opposite_spec(old(self).direction) ==> final(self).direction
                == new_direction,
    {
        let opp = opposite(self.direction);
        if new_direction != opp {
            self.direction = new_direction;
        }
    }

    /// True when the head lies outside `[0, width) x [0, height)` (wall
    /// collision) or coincides with a non-head segment (self collision).
    /// Index 0, the head itself, is excluded from the self scan.
    pub fn check_collision(&self, width: i32, height: i32) -> (r: bool)
        requires
            self.wf(),
        ensures
            r == (!in_bounds(self.head_spec(), width, height) || hits_self(self.body@)),
    {
        let head = self.body[0];

        if head.x < 0 || head.x >= width || head.y < 0 || head.y >= height {
            return true;
        }

        let mut i: usize = 1;
        while i < self.body.len()
            invariant
                1 <= i <= self.body@.len(),
                self.wf(),
                head == self.head_spec(),
                forall|j: int| 1 <= j < i ==> #[trigger] self.body@[j] != self.body@[0],
            decreases self.body@.len() - i,
        {
            if self.body[i] == head {
                return true;
            }
            i += 1;
        }

        false
    }

    /// True, with the body untouched, when the head sits on `food`;
    /// otherwise removes the tail (the oldest segment) and returns false.
    /// This is the sole place the body shrinks. A miss on a one-segment
    /// body would empty it, which the non-empty invariant forbids, hence
    /// the precondition.
    pub fn eat_food(&mut self, food: Point) -> (ate: bool)
        requires
            old(self).wf(),
            old(self).head_spec() == food || old(self).body@.len() >= 2,
        ensures
            final(self).wf(),
            ate == (old(self).head_spec() == food),
            ate ==> *final(self) == *old(self),
            !ate ==> final(self).body@ == old(self).body@.drop_last(),
            !ate ==> final(self).direction == old(self).direction,
            ate ==> final(self).body@.len() == old(self).body@.len(),
            !ate ==> final(self).body@.len() == old(self).body@.len() - 1,
    {
        let head = self.body[0];
        if head == food {
            true
        } else {
            self.body.pop_back();
            false
        }
    }
}

} // verus!
