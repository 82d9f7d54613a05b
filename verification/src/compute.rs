//! The dispatch coordinator: owns the state buffer and the interaction
//! uniform, sizes the parallel work-grid from the particle grid dimension,
//! and runs one full pass per frame.
//!
//! Per-frame order, within one command sequence: the uniform write is
//! submitted first, then the compute pass over the full work-grid, then the
//! draw that consumes the same buffer — so the renderer of frame N always
//! observes the integrator's output for frame N.  In this sequential
//! execution the order is the order of the method calls; a parallel backend
//! gets the same guarantee from its command-sequence ordering.

use vstd::prelude::*;

verus! {

use crate::HALF_UNIT;
use crate::grid::{initial_model, ParticleGrid};
use crate::interaction::InteractionState;
use crate::particle::{domain_span, integrate_model, model_in_bounds, RawParticleInstance, Vec2};

/// Owner of the per-run buffers: the particle state buffer and the
/// interaction uniform.
pub struct ParticleCompute {
    pub grid: ParticleGrid,
    pub uniforms: InteractionState,
}

impl ParticleCompute {
    /// The uniform advertises the grid dimension, and the population is
    /// small enough to be counted in a `u32`.
    pub open spec fn wf(self) -> bool {
        &&& self.grid.wf()
        &&& self.uniforms.count == self.grid.side_length
        &&& (self.grid.side_length as int) * (self.grid.side_length as int) <= u32::MAX as int
    }

    /// One coordinator per run: the full cell-centered population at rest,
    /// and the pointer at the domain center.
    pub fn new(side_length: u32) -> (c: ParticleCompute)
        requires
            (side_length as int) * (side_length as int) <= u32::MAX as int,
        ensures
            c.wf(),
            c.grid.side_length == side_length,
            forall|i: int|
                0 <= i < c.grid.particles@.len() ==> c.grid.particles@[i]@ == initial_model(
                    i,
                    side_length,
                ),
            c.uniforms.count == side_length,
            c.uniforms.pointer.x == domain_span(side_length) / 2,
            c.uniforms.pointer.y == domain_span(side_length) / 2,
    {
        ParticleCompute {
            grid: ParticleGrid::new(side_length),
            uniforms: InteractionState::new(side_length),
        }
    }

    /// One invocation per particle: the whole population.
    pub fn particle_count(&self) -> (count: u32)
        requires
            self.wf(),
        ensures
            count as int == (self.grid.side_length as int) * (self.grid.side_length as int),
            count as int == self.grid.particles@.len(),
    {
        self.grid.side_length * self.grid.side_length
    }

    /// The work-grid shape for one compute pass: `side × side × 1`
    /// invocations, exactly one per particle.
    pub fn workgroup_dims(&self) -> (d: (u32, u32, u32))
        ensures
            d.0 == self.grid.side_length,
            d.1 == self.grid.side_length,
            d.2 == 1,
            (d.0 as int) * (d.1 as int) * (d.2 as int) == (self.grid.side_length as int) * (
            self.grid.side_length as int),
    {
        (self.grid.side_length, self.grid.side_length, 1)
    }

    /// Overwrite the uniform's pointer for the coming frame; particle state
    /// is untouched.  Called strictly before that frame's `compute`, so
    /// every invocation of the pass reads this value.
    pub fn mouse(&mut self, pointer: Vec2)
        ensures
            final(self).uniforms.count == old(self).uniforms.count,
            final(self).uniforms.pointer == pointer,
            final(self).grid == old(self).grid,
            old(self).wf() ==> final(self).wf(),
    {
        self.uniforms.set_pointer(pointer);
    }

    /// One frame's compute pass: every particle advances by exactly one
    /// integration step, in place, and the uniform is read, never written.
    /// The pass runs only when every particle is within overflow-safe
    /// bounds; otherwise the buffer is left untouched and the frame reports
    /// failure.
    pub fn compute(&mut self) -> (ok: bool)
        ensures
            final(self).uniforms == old(self).uniforms,
            final(self).grid.side_length == old(self).grid.side_length,
            final(self).grid.particles@.len() == old(self).grid.particles@.len(),
            old(self).wf() ==> final(self).wf(),
            ok == (forall|i: int|
                0 <= i < old(self).grid.particles@.len() ==> model_in_bounds(
                    old(self).grid.particles@[i]@,
                )),
            ok ==> forall|i: int|
                0 <= i < old(self).grid.particles@.len() ==> final(self).grid.particles@[i]@
                    == integrate_model(old(self).grid.particles@[i]@, old(self).grid.side_length),
            ok ==> forall|i: int|
                0 <= i < final(self).grid.particles@.len()
                    ==> final(self).grid.particles@[i]@.pos_y >= HALF_UNIT,
            !ok ==> final(self).grid.particles@ == old(self).grid.particles@,
    {
        self.grid.step_all()
    }

    /// The per-instance stream the draw call consumes, taken from the same
    /// buffer the pass wrote: one record per particle, in index order.
    pub fn instance_stream(&self) -> (out: Vec<RawParticleInstance>)
        ensures
            out@.len() == self.grid.particles@.len(),
            forall|i: int|
                0 <= i < out@.len() ==> out@[i].x == self.grid.particles@[i].position.x
                    && out@[i].y == self.grid.particles@[i].position.y,
    {
        self.grid.instance_stream()
    }
}

} // verus!
