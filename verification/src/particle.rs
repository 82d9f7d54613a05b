//! One particle and the integration step that drives it.
//!
//! The step is stated once, as a pure function over unbounded integers
//! (`integrate_model`), and the executable update is proved to compute exactly
//! that function.  Every invocation is independent of every other particle,
//! which is what makes a one-invocation-per-particle parallel dispatch of this
//! same rule valid without synchronization.

use vstd::prelude::*;

verus! {

use crate::{COORD_LIMIT, GRAVITY, HALF_UNIT, SCALE};

/// A pair of fixed-point coordinates, in subunits (see [`crate::SCALE`]).
#[derive(Clone, Copy, Debug, PartialEq, Eq, Structural)]
pub struct Vec2 {
    pub x: i64,
    pub y: i64,
}

/// Ghost-level particle state over unbounded integers; the subject of the
/// integration specification and of the laws proved about it.
pub ghost struct ParticleModel {
    pub pos_x: int,
    pub pos_y: int,
    pub prev_x: int,
    pub prev_y: int,
}

/// One grid cell's moving point.  The implicit velocity is
/// `position - old_position`; there is no stored velocity.
#[derive(Clone, Copy, Debug, PartialEq, Eq, Structural)]
pub struct ParticleInstance {
    pub position: Vec2,
    pub old_position: Vec2,
}

impl View for ParticleInstance {
    type V = ParticleModel;

    open spec fn view(&self) -> ParticleModel {
        ParticleModel {
            pos_x: self.position.x as int,
            pos_y: self.position.y as int,
            prev_x: self.old_position.x as int,
            prev_y: self.old_position.y as int,
        }
    }
}

/// Width of the domain in subunits for a grid of `side_length` cells.
pub open spec fn domain_span(side_length: u32) -> int {
    (side_length as int) * (SCALE as int)
}

/// One semi-implicit Verlet step with boundary handling:
/// derive the velocity, apply gravity, advance the position, re-derive the
/// previous position so the new velocity is implied next step; clamp to the
/// floor at half a unit, re-deriving the previous y from the clamped
/// position so the clamp is stable — a particle arriving at rest implies
/// exactly the velocity that gravity cancels next step, and stays put; wrap
/// horizontally past half a unit outside either vertical edge, shifting both
/// positions by the whole span so the implied velocity crosses the seam
/// unchanged.
pub open spec fn integrate_model(m: ParticleModel, side_length: u32) -> ParticleModel {
    let vx = m.pos_x - m.prev_x;
    let vy = m.pos_y - m.prev_y - GRAVITY;
    let px = m.pos_x + vx;
    let py = m.pos_y + vy;
    let qx = px - vx;
    let qy = py - vy;
    let py_f = if py < HALF_UNIT { HALF_UNIT as int } else { py };
    let qy_f = if py < HALF_UNIT { HALF_UNIT + vy } else { qy };
    let span = domain_span(side_length);
    let px_l = if px < -HALF_UNIT { px + span } else { px };
    let qx_l = if px < -HALF_UNIT { qx + span } else { qx };
    let px_h = if px_l > span + HALF_UNIT { px_l - span } else { px_l };
    let qx_h = if px_l > span + HALF_UNIT { qx_l - span } else { qx_l };
    ParticleModel { pos_x: px_h, pos_y: py_f, prev_x: qx_h, prev_y: qy_f }
}

/// `integrate_model` applied `steps` times.
pub open spec fn integrate_model_n(m: ParticleModel, side_length: u32, steps: nat) -> ParticleModel
    decreases steps,
{
    if steps == 0 {
        m
    } else {
        integrate_model(integrate_model_n(m, side_length, (steps - 1) as nat), side_length)
    }
}

/// All four coordinates small enough that one step cannot overflow `i64`.
pub open spec fn model_in_bounds(m: ParticleModel) -> bool {
    &&& -COORD_LIMIT <= m.pos_x <= COORD_LIMIT
    &&& -COORD_LIMIT <= m.pos_y <= COORD_LIMIT
    &&& -COORD_LIMIT <= m.prev_x <= COORD_LIMIT
    &&& -COORD_LIMIT <= m.prev_y <= COORD_LIMIT
}

/// The raw per-instance record handed to rendering: the current position
/// alone, tightly packed, in subunits.
#[derive(Clone, Copy, Debug, PartialEq, Eq, Structural)]
pub struct RawParticleInstance {
    pub x: i64,
    pub y: i64,
}

impl ParticleInstance {
    /// A particle at rest: both positions at `(x, y)`, implied velocity zero.
    pub fn new(x: i64, y: i64) -> (p: ParticleInstance)
        ensures
            p@ == (ParticleModel { pos_x: x as int, pos_y: y as int, prev_x: x as int, prev_y: y as int }),
    {
        ParticleInstance {
            position: Vec2 { x, y },
            old_position: Vec2 { x, y },
        }
    }

    /// Whether one step from this state is safely inside `i64` arithmetic.
    pub fn in_bounds(&self) -> (r: bool)
        ensures
            r == model_in_bounds(self@),
    {
        -COORD_LIMIT <= self.position.x && self.position.x <= COORD_LIMIT
            && -COORD_LIMIT <= self.position.y && self.position.y <= COORD_LIMIT
            && -COORD_LIMIT <= self.old_position.x && self.old_position.x <= COORD_LIMIT
            && -COORD_LIMIT <= self.old_position.y && self.old_position.y <= COORD_LIMIT
    }

    /// One integration step; also refreshes the raw render record from the
    /// new position, as the sequential execution path does.
    pub fn update(&mut self, raw: &mut RawParticleInstance, side_length: u32)
        requires
            model_in_bounds(old(self)@),
        ensures
            final(self)@ == integrate_model(old(self)@, side_length),
            final(raw).x == final(self).position.x,
            final(raw).y == final(self).position.y,
    {
        let vx = self.position.x - self.old_position.x;
        let vy = self.position.y - self.old_position.y - GRAVITY;
        self.position.x = self.position.x + vx;
        self.position.y = self.position.y + vy;
        self.old_position.x = self.position.x - vx;
        self.old_position.y = self.position.y - vy;
        if self.position.y < HALF_UNIT {
            self.position.y = HALF_UNIT;
            self.old_position.y = HALF_UNIT + vy;
        }
        let span = (side_length as i64) * SCALE;
        if self.position.x < -HALF_UNIT {
            self.old_position.x = self.old_position.x + span;
            self.position.x = self.position.x + span;
        }
        if self.position.x > span + HALF_UNIT {
            self.old_position.x = self.old_position.x - span;
            self.position.x = self.position.x - span;
        }
        raw.x = self.position.x;
        raw.y = self.position.y;
    }

    /// The render record for the current state.
    pub fn raw(&self) -> (r: RawParticleInstance)
        ensures
            r.x == self.position.x,
            r.y == self.position.y,
    {
        RawParticleInstance { x: self.position.x, y: self.position.y }
    }
}

/// Floor invariant: a step never leaves a particle below half a unit,
/// whatever state it starts from.
pub proof fn lemma_floor_invariant(m: ParticleModel, side_length: u32)
    ensures
        integrate_model(m, side_length).pos_y >= HALF_UNIT,
{
}

/// Floor invariant after any positive number of steps.
pub proof fn lemma_floor_invariant_steps(m: ParticleModel, side_length: u32, steps: nat)
    requires
        steps >= 1,
    ensures
        integrate_model_n(m, side_length, steps).pos_y >= HALF_UNIT,
{
    lemma_floor_invariant(integrate_model_n(m, side_length, (steps - 1) as nat), side_length);
}

/// Horizontal range: starting inside the wraparound band with a horizontal
/// speed of at most one span, a step lands inside the band again.  The band
/// is closed on both sides: a particle exactly at `span + HALF_UNIT` is not
/// wrapped (the test is strict) and stays on the boundary.
pub proof fn lemma_wrap_range(m: ParticleModel, side_length: u32)
    requires
        -HALF_UNIT <= m.pos_x <= domain_span(side_length) + HALF_UNIT,
        -domain_span(side_length) <= m.pos_x - m.prev_x <= domain_span(side_length),
    ensures
        -HALF_UNIT <= integrate_model(m, side_length).pos_x
            <= domain_span(side_length) + HALF_UNIT,
{
}

/// Wraparound preserves the implied horizontal velocity exactly: both
/// positions are shifted by the same whole span, so the difference that the
/// next step reads as velocity is unchanged through the seam.
pub proof fn lemma_wrap_preserves_velocity(m: ParticleModel, side_length: u32)
    ensures
        integrate_model(m, side_length).pos_x - integrate_model(m, side_length).prev_x
            == m.pos_x - m.prev_x,
{
}

/// A particle at rest exactly on the floor is still on the floor after a
/// step: gravity pulls it under the floor and the clamp puts it back.
pub proof fn lemma_rest_on_floor_step(m: ParticleModel, side_length: u32)
    requires
        m.pos_y == HALF_UNIT,
        m.prev_y == HALF_UNIT,
    ensures
        integrate_model(m, side_length).pos_y == HALF_UNIT,
{
}

/// The clamp's resting cycle: on the floor with the previous y at most one
/// gravity unit below it, a step lands on the floor again with the previous
/// y in the same band.  The two resting states — previous y equal to the
/// floor, and one gravity unit under it — map to each other, so the clamp is
/// idempotent and a settled particle neither creeps nor gains energy.
pub proof fn lemma_rest_on_floor_cycle(m: ParticleModel, side_length: u32)
    requires
        m.pos_y == HALF_UNIT,
        HALF_UNIT - GRAVITY <= m.prev_y <= HALF_UNIT,
    ensures
        integrate_model(m, side_length).pos_y == HALF_UNIT,
        HALF_UNIT - GRAVITY <= integrate_model(m, side_length).prev_y <= HALF_UNIT,
{
}

/// Stability, no creep: a particle at rest exactly on the floor stays at the
/// floor height for every number of further steps, with gravity reapplied
/// and clamped each time.
pub proof fn lemma_rest_on_floor_indefinitely(m: ParticleModel, side_length: u32, steps: nat)
    requires
        m.pos_y == HALF_UNIT,
        m.prev_y == HALF_UNIT,
    ensures
        integrate_model_n(m, side_length, steps).pos_y == HALF_UNIT,
    decreases steps,
{
    if steps > 0 {
        lemma_floor_band_steps(m, side_length, steps);
    }
}

/// Induction carrier for [`lemma_rest_on_floor_indefinitely`]: the resting
/// band of [`lemma_rest_on_floor_cycle`] is preserved across any number of
/// steps.
pub proof fn lemma_floor_band_steps(m: ParticleModel, side_length: u32, steps: nat)
    requires
        m.pos_y == HALF_UNIT,
        HALF_UNIT - GRAVITY <= m.prev_y <= HALF_UNIT,
    ensures
        integrate_model_n(m, side_length, steps).pos_y == HALF_UNIT,
        HALF_UNIT - GRAVITY <= integrate_model_n(m, side_length, steps).prev_y <= HALF_UNIT,
    decreases steps,
{
    if steps > 0 {
        lemma_floor_band_steps(m, side_length, (steps - 1) as nat);
        lemma_rest_on_floor_cycle(
            integrate_model_n(m, side_length, (steps - 1) as nat),
            side_length,
        );
    }
}

/// A particle at rest exactly on the high wraparound threshold does not
/// oscillate: the wrap test is strict, so with no horizontal velocity both
/// positions stay on the seam.
pub proof fn lemma_high_edge_rest_stable(m: ParticleModel, side_length: u32)
    requires
        m.prev_x == m.pos_x,
        m.pos_x == domain_span(side_length) + HALF_UNIT,
    ensures
        integrate_model(m, side_length).pos_x == m.pos_x,
        integrate_model(m, side_length).prev_x == m.pos_x,
{
}

} // verus!
