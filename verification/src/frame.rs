//! Per-frame decisions at the presentation boundary: how the host reacts to
//! the outcome of a draw attempt, and how surface sizes are validated.
//!
//! The taxonomy: a transient loss of the presentation target is recovered by
//! reconfiguring against the last known size; resource exhaustion terminates
//! the run; a timeout drops the frame's presentation only — simulation state
//! already advanced is kept, never rolled back.

use vstd::prelude::*;

verus! {

/// The ways a draw attempt can fail, as the presentation backend reports
/// them.  The host converts its backend's error type into this one.
#[derive(Clone, Copy, Debug, PartialEq, Eq, Structural)]
pub enum SurfaceError {
    /// The presentation target was lost; transient.
    Lost,
    /// The presentation target no longer matches the surface; transient.
    Outdated,
    /// Resource exhaustion; fatal.
    OutOfMemory,
    /// Acquiring the presentation target timed out; the frame is dropped.
    Timeout,
}

/// What the frame loop does next after a draw attempt.
#[derive(Clone, Copy, Debug, PartialEq, Eq, Structural)]
pub enum FrameAction {
    /// The frame presented; carry on.
    Proceed,
    /// Re-establish the presentation target's configuration and retry on the
    /// next frame.
    Reconfigure,
    /// Unrecoverable; halt the frame loop.
    Exit,
    /// Skip this frame's presentation; simulation state is unaffected.
    SkipFrame,
}

/// The reaction owed to each outcome of a draw attempt.
pub open spec fn frame_action_spec(r: Result<(), SurfaceError>) -> FrameAction {
    match r {
        Ok(()) => FrameAction::Proceed,
        Err(SurfaceError::Lost) => FrameAction::Reconfigure,
        Err(SurfaceError::Outdated) => FrameAction::Reconfigure,
        Err(SurfaceError::OutOfMemory) => FrameAction::Exit,
        Err(SurfaceError::Timeout) => FrameAction::SkipFrame,
    }
}

/// Decide the frame loop's next move from a draw attempt's outcome.
pub fn frame_action(r: &Result<(), SurfaceError>) -> (a: FrameAction)
    ensures
        a == frame_action_spec(*r),
{
    match r {
        Ok(()) => FrameAction::Proceed,
        Err(SurfaceError::Lost) => FrameAction::Reconfigure,
        Err(SurfaceError::Outdated) => FrameAction::Reconfigure,
        Err(SurfaceError::OutOfMemory) => FrameAction::Exit,
        Err(SurfaceError::Timeout) => FrameAction::SkipFrame,
    }
}

/// A presentation surface size in pixels.
#[derive(Clone, Copy, Debug, PartialEq, Eq, Structural)]
pub struct SurfaceSize {
    pub width: u32,
    pub height: u32,
}

/// Substitute for a degenerate startup size: a zero width or height is
/// replaced by this fixed minimum in both dimensions.
pub const MIN_SURFACE_DIM: u32 = 100;

/// The size the surface is first configured with: the requested size, unless
/// either dimension is zero, in which case the fixed minimum is used instead
/// of rejecting the window.
pub fn initial_size(requested: SurfaceSize) -> (s: SurfaceSize)
    ensures
        requested.width == 0 || requested.height == 0 ==> s == (SurfaceSize {
            width: MIN_SURFACE_DIM,
            height: MIN_SURFACE_DIM,
        }),
        requested.width != 0 && requested.height != 0 ==> s == requested,
{
    if requested.width == 0 || requested.height == 0 {
        SurfaceSize { width: MIN_SURFACE_DIM, height: MIN_SURFACE_DIM }
    } else {
        requested
    }
}

/// The size the surface holds after a resize notification: a notification
/// with a zero width or height is ignored — the prior configured size stands,
/// with no state mutation — while any other size replaces it.
pub fn apply_resize(current: SurfaceSize, requested: SurfaceSize) -> (s: SurfaceSize)
    ensures
        requested.width == 0 || requested.height == 0 ==> s == current,
        requested.width != 0 && requested.height != 0 ==> s == requested,
{
    if requested.width == 0 || requested.height == 0 {
        current
    } else {
        requested
    }
}

} // verus!
