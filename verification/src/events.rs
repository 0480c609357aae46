use vstd::prelude::*;

verus! {

/// The window events the render loop reacts to. Everything else the loop
/// receives is `Other` and is ignored.
#[derive(Clone, Copy, Debug, PartialEq, Eq, Structural)]
pub enum WindowEvent {
    /// The escape key was pressed.
    EscapePressed,
    /// The framebuffer changed to the given width and height, in pixels.
    FramebufferSize(i32, i32),
    /// The window was moved.
    Moved,
    /// Any other event.
    Other,
}

/// What the host must do after the state has absorbed a window event.
#[derive(Clone, Copy, Debug, PartialEq, Eq, Structural)]
pub enum EventAction {
    /// Mark the window as closing; the loop ends at its next check.
    CloseRequested,
    /// Create a fresh surface; when `reconfigured` is set, also apply the
    /// current surface configuration to it.
    RebuildSurface { reconfigured: bool },
    /// Nothing to do.
    Ignored,
}

/// The ways acquiring the next frame can fail.
#[derive(Clone, Copy, Debug, PartialEq, Eq, Structural)]
pub enum SurfaceError {
    /// A timeout while waiting for the next frame.
    Timeout,
    /// The surface no longer matches the window and must be updated.
    Outdated,
    /// The surface was lost and must be recreated.
    Lost,
    /// No memory left for a new frame.
    OutOfMemory,
    /// Any other acquisition failure.
    Other,
}

/// What the host must do after a frame could not be presented.
#[derive(Clone, Copy, Debug, PartialEq, Eq, Structural)]
pub enum RecoveryAction {
    /// Create a fresh surface; when `reconfigured` is set, also apply the
    /// current surface configuration to it.
    RebuildSurface { reconfigured: bool },
    /// The failure is not recoverable here; report it and carry on.
    ReportError,
}

/// The two surface errors the loop recovers from by rebuilding the surface.
pub open spec fn error_is_recoverable(e: SurfaceError) -> bool {
    e == SurfaceError::Lost || e == SurfaceError::Outdated
}

pub fn recoverable(e: SurfaceError) -> (r: bool)
    ensures
        r == error_is_recoverable(e),
{
    match e {
        SurfaceError::Lost => true,
        SurfaceError::Outdated => true,
        _ => false,
    }
}

} // verus!
