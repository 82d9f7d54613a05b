//! The interaction uniform: a small record, rewritten at most once per frame
//! by the single writer (the host input handler, between frames) and read by
//! every integrator invocation of the following dispatch.  Writer and readers
//! never overlap in time, so a plain value with a write-before-dispatch
//! discipline is the entire synchronization story.

use vstd::prelude::*;

verus! {

use crate::{COORD_LIMIT, SCALE};
use crate::particle::{domain_span, Vec2};

/// Grid size and pointer position, visible to every parallel invocation.
/// The pointer is tracked but exerts no force in the current integration
/// rule; it is threaded through for the rendering host.
#[derive(Clone, Copy, Debug, PartialEq, Eq, Structural)]
pub struct InteractionState {
    pub count: u32,
    pub pointer: Vec2,
}

impl InteractionState {
    /// The startup uniform: the grid size, and the pointer at the center of
    /// the domain.
    pub fn new(side_length: u32) -> (s: InteractionState)
        ensures
            s.count == side_length,
            s.pointer.x == domain_span(side_length) / 2,
            s.pointer.y == domain_span(side_length) / 2,
    {
        let center = (side_length as i64) * SCALE / 2;
        InteractionState { count: side_length, pointer: Vec2 { x: center, y: center } }
    }

    /// Overwrite the pointer; the frame's dispatch issued after this write
    /// observes exactly this value.
    pub fn set_pointer(&mut self, pointer: Vec2)
        ensures
            final(self).count == old(self).count,
            final(self).pointer == pointer,
    {
        self.pointer = pointer;
    }
}

/// Map a pointer position from presentation-surface coordinates (Y growing
/// downward) into the domain's upward axis: X is kept, Y is flipped across
/// the domain height.
pub fn flip_pointer_y(x: i64, y: i64, side_length: u32) -> (p: Vec2)
    requires
        -COORD_LIMIT <= y <= COORD_LIMIT,
    ensures
        p.x == x,
        p.y == domain_span(side_length) - y,
{
    let span = (side_length as i64) * SCALE;
    Vec2 { x, y: span - y }
}

} // verus!
