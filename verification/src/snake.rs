//! The snake itself: an ordered sequence of body segments and a heading,
//! with the two operations that ever change the body — `step` and `grow`.

use vstd::prelude::*;

verus! {

use crate::grid::{Direction, Position, can_translate, spec_translate, translate};

/// The snake: `segments` holds every body cell, head first; `heading` is the
/// direction the head moves on the next step.
pub struct SnakeState {
    pub segments: Vec<Position>,
    pub heading: Direction,
}

impl SnakeState {
    /// A snake is well formed when it has at least one segment.
    pub open spec fn wf(self) -> bool {
        self.segments@.len() >= 1
    }

    /// The cell the head occupies.
    pub open spec fn head_pos(self) -> Position
        recommends
            self.wf(),
    {
        self.segments@[0]
    }

    /// The cell the tail occupies.
    pub open spec fn tail_pos(self) -> Position
        recommends
            self.wf(),
    {
        self.segments@.last()
    }

    /// Whether a step along `d` stays within the machine range of coordinates.
    pub open spec fn can_step(self, d: Direction) -> bool
        recommends
            self.wf(),
    {
        can_translate(self.head_pos(), d)
    }

    /// Builds a snake from explicit segments (head first) and a heading.
    pub fn new(segments: Vec<Position>, heading: Direction) -> (s: SnakeState)
        requires
            segments@.len() >= 1,
        ensures
            s.wf(),
            s.segments@ == segments@,
            s.heading == heading,
    {
        SnakeState { segments, heading }
    }

    /// Returns the cell the head occupies.
    pub fn head(&self) -> (p: Position)
        requires
            self.wf(),
        ensures
            p == self.head_pos(),
    {
        self.segments[0]
    }

    /// Advances the snake one cell along `heading`, adopting that heading.
    ///
    /// Every segment shifts to the position of its predecessor, the head moves
    /// to the adjacent cell, and the body length is unchanged. Returns the new
    /// head cell and the cell the tail vacated — the vacated cell must be
    /// captured here, before the shift overwrites it, because growth on the
    /// same tick inserts exactly there.
    pub fn step(&mut self, heading: Direction) -> (r: (Position, Position))
        requires
            old(self).wf(),
            old(self).can_step(heading),
        ensures
            final(self).wf(),
            final(self).heading == heading,
            final(self).segments@.len() == old(self).segments@.len(),
            final(self).segments@ == seq![spec_translate(old(self).head_pos(), heading)]
                + old(self).segments@.drop_last(),
            r.0 == spec_translate(old(self).head_pos(), heading),
            r.1 == old(self).tail_pos(),
    {
        let ghost orig = self.segments@;
        let new_head = translate(self.segments[0], heading);
        let len = self.segments.len();
        let vacated = self.segments[len - 1];
        let mut i: usize = len - 1;
        while i >= 1
            invariant
                i < len,
                len == self.segments@.len(),
                forall|j: int| i < j < len ==> self.segments@[j] == orig[j - 1],
                forall|j: int| 0 <= j <= i ==> self.segments@[j] == orig[j],
            decreases i,
        {
            let shifted = self.segments[i - 1];
            self.segments.set(i, shifted);
            i = i - 1;
        }
        self.segments.set(0, new_head);
        self.heading = heading;
        proof {
            assert(self.segments@ =~= seq![spec_translate(orig[0], heading)] + orig.drop_last());
        }
        (new_head, vacated)
    }

    /// Appends a new tail segment at `at`, which must be the cell the most
    /// recent `step` vacated. The body length increases by exactly one and the
    /// new segment becomes the tail.
    pub fn grow(&mut self, at: Position)
        ensures
            final(self).segments@ == old(self).segments@.push(at),
            final(self).segments@.len() == old(self).segments@.len() + 1,
            final(self).tail_pos() == at,
            final(self).heading == old(self).heading,
    {
        self.segments.push(at);
    }
}

} // verus!
