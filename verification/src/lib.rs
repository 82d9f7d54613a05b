//! Core of a 2-D particle simulation: a dense grid of point particles falling
//! under constant gravity inside a square domain, advanced once per frame by
//! semi-implicit Verlet integration with a floor clamp and horizontal
//! wraparound.
//!
//! Coordinates are fixed-point: one domain unit is `SCALE` subunits, so the
//! gravity decrement (0.01 units), the floor height (0.5 units) and the
//! cell-centered initial layout (k + 0.5 units) are all exact integers and the
//! per-step arithmetic carries no rounding at all.  A host front end converts
//! subunits to whatever floating-point format its renderer wants.

use vstd::prelude::*;

pub mod particle;
pub mod grid;
pub mod interaction;
pub mod compute;
pub mod frame;
pub mod fps;

verus! {

/// Subunits per domain unit.
pub const SCALE: i64 = 100;

/// Gravity decrement per step, in subunits: 0.01 domain units.
pub const GRAVITY: i64 = 1;

/// Half a domain unit, in subunits.  It is the floor height (particles are
/// kept at `y >= 0.5`), the wraparound margin around the vertical domain
/// edges, and the offset of a cell center from the cell's corner.
pub const HALF_UNIT: i64 = 50;

/// Bound on particle coordinates under which one integration step provably
/// stays inside `i64` (with generous slack: intermediate values stay under
/// roughly eight times this bound).
pub const COORD_LIMIT: i64 = 0x4000_0000_0000;

} // verus!
