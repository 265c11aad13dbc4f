//! Boundary and self-collision detection for a proposed head position.

use vstd::prelude::*;

verus! {

use crate::grid::Position;

/// The terminal condition a tick detected: the head left the arena, or it
/// landed on a body cell. Absence of a collision is `Option::None`.
#[derive(Copy, Clone, PartialEq, Eq, Debug, Structural)]
pub enum CollisionKind {
    WallCollision,
    SelfCollision,
}

/// Whether `p` lies outside an arena of `width` by `height` cells.
pub open spec fn spec_hits_wall(p: Position, width: u32, height: u32) -> bool {
    p.x < 0 || p.y < 0 || p.x as int >= width as int || p.y as int >= height as int
}

/// Whether `p` lies inside an arena of `width` by `height` cells.
pub open spec fn in_arena(p: Position, width: u32, height: u32) -> bool {
    !spec_hits_wall(p, width, height)
}

/// The collision a proposed head position produces against the arena bounds
/// and against `body`, the pre-shift snapshot of the trailing segments.
/// A wall collision is reported when both conditions hold at once: either
/// report would be acceptable, but exactly one is ever produced.
pub open spec fn spec_check(
    new_head: Position,
    body: Seq<Position>,
    width: u32,
    height: u32,
) -> Option<CollisionKind> {
    if spec_hits_wall(new_head, width, height) {
        Some(CollisionKind::WallCollision)
    } else if body.contains(new_head) {
        Some(CollisionKind::SelfCollision)
    } else {
        None
    }
}

/// Evaluates a proposed head position against the arena bounds and the body.
///
/// `body` must be the positions of the trailing segments as they stood
/// *before* the step's shift: comparing against post-shift cells would
/// trivially compare the head with its own former cell.
pub fn check(new_head: Position, body: &Vec<Position>, width: u32, height: u32) -> (r: Option<
    CollisionKind,
>)
    ensures
        r == spec_check(new_head, body@, width, height),
{
    if new_head.x < 0 || new_head.y < 0 {
        return Some(CollisionKind::WallCollision);
    }
    if new_head.x as u32 >= width || new_head.y as u32 >= height {
        return Some(CollisionKind::WallCollision);
    }
    let mut i: usize = 0;
    while i < body.len()
        invariant
            0 <= i <= body@.len(),
            in_arena(new_head, width, height),
            forall|j: int| 0 <= j < i ==> body@[j] != new_head,
        decreases body@.len() - i,
    {
        if body[i] == new_head {
            proof {
                assert(body@.contains(new_head)) by {
                    assert(body@[i as int] == new_head);
                }
            }
            return Some(CollisionKind::SelfCollision);
        }
        i = i + 1;
    }
    None
}

} // verus!
