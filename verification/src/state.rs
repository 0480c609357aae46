use vstd::prelude::*;

use crate::events::EventAction;
use crate::events::RecoveryAction;
use crate::events::SurfaceError;
use crate::events::WindowEvent;
use crate::events::error_is_recoverable;
use crate::events::recoverable;

verus! {

/// A framebuffer size may be applied to the surface only when both
/// dimensions are strictly positive.
pub open spec fn size_is_usable(width: i32, height: i32) -> bool {
    width > 0 && height > 0
}

pub fn usable_size(width: i32, height: i32) -> (r: bool)
    ensures
        r == size_is_usable(width, height),
{
    width > 0 && height > 0
}

/// What the render loop tracks of the window and its surface: the last
/// framebuffer size, the extent the surface is configured with, and whether
/// the loop should stop.
#[derive(Clone, Copy, Debug)]
pub struct State {
    /// Last framebuffer size reported by the window, in pixels.
    pub size: (i32, i32),
    /// Width the surface is configured with, in pixels.
    pub config_width: u32,
    /// Height the surface is configured with, in pixels.
    pub config_height: u32,
    /// Whether the loop should stop at its next check.
    pub should_close: bool,
}

impl State {
    /// The state after a resize to `new_size`: the size and the configured
    /// extent follow it when it is usable; otherwise nothing changes.
    pub open spec fn resized(self, new_size: (i32, i32)) -> State {
        if size_is_usable(new_size.0, new_size.1) {
            State {
                size: new_size,
                config_width: new_size.0 as u32,
                config_height: new_size.1 as u32,
                ..self
            }
        } else {
            self
        }
    }

    /// A state is well formed when the configured extent mirrors the stored
    /// framebuffer size.  `new` establishes this and every transition keeps
    /// it.
    pub open spec fn wf(self) -> bool {
        self.config_width == self.size.0 as u32 && self.config_height == self.size.1 as u32
    }

    pub fn new(framebuffer_size: (i32, i32)) -> (s: State)
        requires
            0 <= framebuffer_size.0,
            0 <= framebuffer_size.1,
        ensures
            s.size == framebuffer_size,
            s.config_width == framebuffer_size.0 as u32,
            s.config_height == framebuffer_size.1 as u32,
            !s.should_close,
            s.wf(),
    {
        State {
            size: framebuffer_size,
            config_width: framebuffer_size.0 as u32,
            config_height: framebuffer_size.1 as u32,
            should_close: false,
        }
    }

    /// Apply a new framebuffer size.  A size with a non-positive dimension is
    /// ignored.  Returns whether the surface must be reconfigured.
    pub fn resize(&mut self, new_size: (i32, i32)) -> (reconfigure: bool)
        ensures
            *final(self) == old(self).resized(new_size),
            reconfigure == size_is_usable(new_size.0, new_size.1),
    {
        if new_size.0 > 0 && new_size.1 > 0 {
            self.size = new_size;
            self.config_width = new_size.0 as u32;
            self.config_height = new_size.1 as u32;
            true
        } else {
            false
        }
    }

    /// Absorb one window event and say what the host must do: escape closes
    /// the window, a framebuffer change applies the new size, a move keeps
    /// the current size; either of the last two has the surface rebuilt.
    pub fn handle_event(&mut self, event: WindowEvent) -> (a: EventAction)
        ensures
            *final(self) == (match event {
                WindowEvent::EscapePressed => (State { should_close: true, ..*old(self) }),
                WindowEvent::FramebufferSize(w, h) => old(self).resized((w, h)),
                WindowEvent::Moved => old(self).resized(old(self).size),
                WindowEvent::Other => *old(self),
            }),
            a == (match event {
                WindowEvent::EscapePressed => EventAction::CloseRequested,
                WindowEvent::FramebufferSize(w, h) => (EventAction::RebuildSurface {
                    reconfigured: size_is_usable(w, h),
                }),
                WindowEvent::Moved => (EventAction::RebuildSurface {
                    reconfigured: size_is_usable(old(self).size.0, old(self).size.1),
                }),
                WindowEvent::Other => EventAction::Ignored,
            }),
    {
        match event {
            WindowEvent::EscapePressed => {
                self.should_close = true;
                EventAction::CloseRequested
            }
            WindowEvent::FramebufferSize(w, h) => {
                let reconfigured = self.resize((w, h));
                EventAction::RebuildSurface { reconfigured }
            }
            WindowEvent::Moved => {
                let current = self.size;
                let reconfigured = self.resize(current);
                EventAction::RebuildSurface { reconfigured }
            }
            WindowEvent::Other => EventAction::Ignored,
        }
    }

    /// Decide what to do when acquiring the next frame failed: a lost or
    /// outdated surface is rebuilt at the current size; any other error is
    /// only reported.
    pub fn handle_render_error(&mut self, error: SurfaceError) -> (a: RecoveryAction)
        ensures
            *final(self) == (if error_is_recoverable(error) {
                old(self).resized(old(self).size)
            } else {
                *old(self)
            }),
            a == (if error_is_recoverable(error) {
                (RecoveryAction::RebuildSurface {
                    reconfigured: size_is_usable(old(self).size.0, old(self).size.1),
                })
            } else {
                RecoveryAction::ReportError
            }),
    {
        if recoverable(error) {
            let current = self.size;
            let reconfigured = self.resize(current);
            RecoveryAction::RebuildSurface { reconfigured }
        } else {
            RecoveryAction::ReportError
        }
    }
}

/// A resize keeps a state well formed: either the size and the extent move
/// together, or nothing moves.
pub proof fn lemma_resized_preserves_wf(s: State, new_size: (i32, i32))
    requires
        s.wf(),
    ensures
        s.resized(new_size).wf(),
{
}

/// Applying the same size twice is the same as applying it once.
pub proof fn lemma_resized_idempotent(s: State, new_size: (i32, i32))
    ensures
        s.resized(new_size).resized(new_size) == s.resized(new_size),
{
}

/// On a well-formed state, a resize to the current size changes nothing;
/// this is why recovering from a lost surface may replay the stored size.
pub proof fn lemma_resized_current_is_stutter(s: State)
    requires
        s.wf(),
    ensures
        s.resized(s.size) == s,
{
}

} // verus!
