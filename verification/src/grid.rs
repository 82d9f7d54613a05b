//! The state buffer: a flat, fixed-population array of particles, one per
//! cell of a square grid, created once at cell centers with zero implied
//! velocity and updated in place every frame.
//!
//! Updating in place is sound because each particle's next state depends only
//! on its own prior state, so no read/write hazard exists between elements —
//! the same fact that lets a parallel backend run one invocation per particle
//! over this very buffer.

use vstd::prelude::*;

verus! {

use vstd::arithmetic::div_mod::lemma_fundamental_div_mod_converse;

use crate::{HALF_UNIT, SCALE};
use crate::particle::{
    domain_span, integrate_model, model_in_bounds, ParticleInstance, ParticleModel,
    RawParticleInstance,
};

/// The startup state of particle `i` in a grid of `side_length` cells: at
/// rest at the center of cell `(i / side_length, i % side_length)`, row-major.
pub open spec fn initial_model(i: int, side_length: u32) -> ParticleModel {
    let cx = (i / (side_length as int)) * (SCALE as int) + HALF_UNIT;
    let cy = (i % (side_length as int)) * (SCALE as int) + HALF_UNIT;
    ParticleModel { pos_x: cx, pos_y: cy, prev_x: cx, prev_y: cy }
}

/// Ownership container for all particles of one run.
pub struct ParticleGrid {
    pub side_length: u32,
    pub particles: Vec<ParticleInstance>,
}

impl ParticleGrid {
    /// Exactly one particle per cell.
    pub open spec fn wf(self) -> bool {
        self.particles@.len() == (self.side_length as int) * (self.side_length as int)
    }

    /// The fixed population, created once: cell-centered, at rest.
    pub fn new(side_length: u32) -> (grid: ParticleGrid)
        requires
            (side_length as int) * (side_length as int) <= usize::MAX as int,
        ensures
            grid.wf(),
            grid.side_length == side_length,
            forall|i: int|
                0 <= i < grid.particles@.len() ==> grid.particles@[i]@ == initial_model(
                    i,
                    side_length,
                ),
    {
        let n = side_length as usize;
        let mut particles: Vec<ParticleInstance> = Vec::new();
        let mut row: usize = 0;
        while row < n
            invariant
                row <= n,
                n == side_length as int,
                particles@.len() == row * n,
                forall|i: int|
                    0 <= i < particles@.len() ==> particles@[i]@ == initial_model(
                        i,
                        side_length,
                    ),
            decreases n - row,
        {
            let mut col: usize = 0;
            while col < n
                invariant
                    row < n,
                    col <= n,
                    n == side_length as int,
                    particles@.len() == row * n + col,
                    forall|i: int|
                        0 <= i < particles@.len() ==> particles@[i]@ == initial_model(
                            i,
                            side_length,
                        ),
                decreases n - col,
            {
                let cx = (row as i64) * SCALE + HALF_UNIT;
                let cy = (col as i64) * SCALE + HALF_UNIT;
                let p = ParticleInstance::new(cx, cy);
                proof {
                    lemma_fundamental_div_mod_converse(
                        (row * n + col) as int,
                        n as int,
                        row as int,
                        col as int,
                    );
                }
                particles.push(p);
                col = col + 1;
            }
            row = row + 1;
            proof {
                assert((row - 1) * (n as int) + n == row * (n as int)) by (nonlinear_arith);
            }
        }
        ParticleGrid { side_length, particles }
    }

    /// One full pass over the buffer, the sequential execution of the
    /// per-frame dispatch: every particle advances by exactly one
    /// `integrate_model` step, in place.
    ///
    /// The pass runs only when every particle's coordinates are small enough
    /// for overflow-free arithmetic (`model_in_bounds`); otherwise it leaves
    /// the buffer untouched and reports failure.  After a successful pass
    /// every particle sits at or above the floor.
    pub fn step_all(&mut self) -> (ok: bool)
        ensures
            final(self).side_length == old(self).side_length,
            final(self).particles@.len() == old(self).particles@.len(),
            ok == (forall|i: int|
                0 <= i < old(self).particles@.len() ==> model_in_bounds(
                    old(self).particles@[i]@,
                )),
            ok ==> forall|i: int|
                0 <= i < old(self).particles@.len() ==> final(self).particles@[i]@
                    == integrate_model(old(self).particles@[i]@, old(self).side_length),
            ok ==> forall|i: int|
                0 <= i < final(self).particles@.len() ==> final(self).particles@[i]@.pos_y
                    >= HALF_UNIT,
            !ok ==> final(self).particles@ == old(self).particles@,
    {
        let n = self.particles.len();
        let mut i: usize = 0;
        while i < n
            invariant
                i <= n,
                n == self.particles@.len(),
                *self == *old(self),
                forall|j: int| 0 <= j < i ==> model_in_bounds(self.particles@[j]@),
            decreases n - i,
        {
            if !self.particles[i].in_bounds() {
                proof {
                    assert(!model_in_bounds(old(self).particles@[i as int]@));
                }
                return false;
            }
            i = i + 1;
        }
        let side = self.side_length;
        let mut i: usize = 0;
        while i < n
            invariant
                i <= n,
                n == self.particles@.len(),
                self.particles@.len() == old(self).particles@.len(),
                self.side_length == old(self).side_length,
                side == old(self).side_length,
                forall|j: int|
                    0 <= j < n ==> model_in_bounds(old(self).particles@[j]@),
                forall|j: int|
                    i <= j < n ==> self.particles@[j] == old(self).particles@[j],
                forall|j: int|
                    0 <= j < i ==> self.particles@[j]@ == integrate_model(
                        old(self).particles@[j]@,
                        old(self).side_length,
                    ),
            decreases n - i,
        {
            let mut p = self.particles[i];
            let mut raw = RawParticleInstance { x: 0, y: 0 };
            p.update(&mut raw, side);
            self.particles.set(i, p);
            i = i + 1;
        }
        proof {
            assert forall|j: int|
                0 <= j < self.particles@.len() implies self.particles@[j]@.pos_y
                >= HALF_UNIT by {
                crate::particle::lemma_floor_invariant(
                    old(self).particles@[j]@,
                    old(self).side_length,
                );
            }
        }
        true
    }

    /// The per-instance data consumed by rendering: one record per particle,
    /// in index order, the current position projected and nothing more.
    pub fn instance_stream(&self) -> (out: Vec<RawParticleInstance>)
        ensures
            out@.len() == self.particles@.len(),
            forall|i: int|
                0 <= i < out@.len() ==> out@[i].x == self.particles@[i].position.x
                    && out@[i].y == self.particles@[i].position.y,
    {
        let mut out: Vec<RawParticleInstance> = Vec::new();
        let mut i: usize = 0;
        while i < self.particles.len()
            invariant
                i <= self.particles@.len(),
                out@.len() == i,
                forall|j: int|
                    0 <= j < i ==> out@[j].x == self.particles@[j].position.x && out@[j].y
                        == self.particles@[j].position.y,
            decreases self.particles@.len() - i,
        {
            out.push(self.particles[i].raw());
            i = i + 1;
        }
        out
    }
}

/// The initial layout is inside the domain: every cell center of a grid of
/// `side_length` cells lies within the wraparound band horizontally and at or
/// above the floor vertically, with coordinates far under the overflow bound.
pub proof fn lemma_initial_model_in_domain(i: int, side_length: u32)
    requires
        0 <= i < (side_length as int) * (side_length as int),
    ensures
        model_in_bounds(initial_model(i, side_length)),
        -HALF_UNIT <= initial_model(i, side_length).pos_x <= domain_span(side_length)
            + HALF_UNIT,
        initial_model(i, side_length).pos_y >= HALF_UNIT,
{
    let n = side_length as int;
    assert(n >= 1) by (nonlinear_arith)
        requires
            0 <= i < n * n,
            n >= 0,
    ;
    assert(0 <= i / n <= n - 1) by (nonlinear_arith)
        requires
            0 <= i < n * n,
            n >= 1,
    ;
    assert(0 <= i % n <= n - 1) by (nonlinear_arith)
        requires
            0 <= i,
            n >= 1,
    ;
    assert((i / n) * (SCALE as int) <= (n - 1) * (SCALE as int)) by (nonlinear_arith)
        requires
            0 <= i / n <= n - 1,
    ;
    assert((i % n) * (SCALE as int) <= (n - 1) * (SCALE as int)) by (nonlinear_arith)
        requires
            0 <= i % n <= n - 1,
    ;
}

} // verus!
