//! Dimensions of the drawable surface and the errors a render call can meet.

use vstd::prelude::*;

verus! {

/// Width and height of the window, the surface configuration, or a
/// size-derived render target, in pixels.
#[derive(Clone, Copy, Debug, PartialEq, Eq, Structural)]
pub struct Extent {
    pub width: u32,
    pub height: u32,
}

impl Extent {
    /// A drawable extent: the surface cannot be configured with a zero side.
    pub open spec fn spec_is_drawable(self) -> bool {
        self.width > 0 && self.height > 0
    }

    /// Runtime check matching `spec_is_drawable`.
    pub fn is_drawable(&self) -> (r: bool)
        ensures
            r == self.spec_is_drawable(),
    {
        self.width > 0 && self.height > 0
    }
}

/// The ways acquiring the next drawable image can fail.
#[derive(Clone, Copy, Debug, PartialEq, Eq, Structural)]
pub enum SurfaceError {
    /// The surface was lost and must be reconfigured.
    Lost,
    /// The surface no longer matches the window and must be reconfigured.
    Outdated,
    /// Allocation failed; the program must terminate.
    OutOfMemory,
    /// The image took too long; skip this frame and go on.
    Timeout,
}

/// What the event loop must do after a render call fails.
#[derive(Clone, Copy, Debug, PartialEq, Eq, Structural)]
pub enum ErrorDirective {
    /// Reconfigure the surface to the stored size and retry next frame.
    Reconfigure,
    /// Terminate the event loop.
    Exit,
    /// Drop this frame and go on to the next one.
    SkipFrame,
}

/// How each surface error is handled at the render-call boundary:
/// lost or outdated surfaces are reconfigured and retried, running out of
/// memory is fatal, and a timeout only costs the frame.
pub open spec fn spec_error_directive(e: SurfaceError) -> ErrorDirective {
    match e {
        SurfaceError::Lost => ErrorDirective::Reconfigure,
        SurfaceError::Outdated => ErrorDirective::Reconfigure,
        SurfaceError::OutOfMemory => ErrorDirective::Exit,
        SurfaceError::Timeout => ErrorDirective::SkipFrame,
    }
}

/// Decides the response to a failed render call. No error crosses past this
/// boundary: recoverable ones cost at most a frame, out-of-memory ends the
/// program.
pub fn error_directive(e: SurfaceError) -> (r: ErrorDirective)
    ensures
        r == spec_error_directive(e),
{
    match e {
        SurfaceError::Lost => ErrorDirective::Reconfigure,
        SurfaceError::Outdated => ErrorDirective::Reconfigure,
        SurfaceError::OutOfMemory => ErrorDirective::Exit,
        SurfaceError::Timeout => ErrorDirective::SkipFrame,
    }
}

} // verus!
