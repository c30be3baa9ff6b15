//! The overlay's reactions to compositor and frame events, and the steps of
//! its event loop, as a state machine on plain values.

use vstd::prelude::*;

use crate::capabilities::AlphaMode;
use crate::surface::{SurfaceSettings, clamp_extent};

verus! {

/// Width used when the compositor leaves the width to the client.
pub const DEFAULT_WIDTH: u32 = 1920;

/// Height used when the compositor leaves the height to the client.
pub const DEFAULT_HEIGHT: u32 = 1080;

/// Pause between two redraws of the running overlay, in milliseconds
/// (roughly sixty frames a second).
pub const FRAME_INTERVAL_MS: u64 = 16;

/// A size proposed by the compositor, where zero leaves the choice to the
/// client and the client picks `fallback`.
pub open spec fn configured_extent(proposed: u32, fallback: u32) -> u32 {
    if proposed == 0 {
        fallback
    } else {
        proposed
    }
}

/// What came of asking the surface for the texture of the next frame.
#[derive(Clone, Copy, Debug, PartialEq, Eq, Structural)]
pub enum AcquireOutcome {
    Ready,
    Timeout,
    Outdated,
    Lost,
    OutOfMemory,
}

/// What the program does after asking for the next frame's texture.
#[derive(Clone, Copy, Debug, PartialEq, Eq, Structural)]
pub enum FrameAction {
    /// Draw the frame with these shader globals and present it.
    Draw(FrameGlobals),
    /// The surface settings were resized: configure the surface with them;
    /// no frame this time.
    Reconfigure,
    /// No frame this time.
    Skip,
    /// Report that the surface ran out of memory; the overlay will exit.
    Exit,
}

/// The integer part of the shader's globals for one frame; the program adds
/// the animation time.
#[derive(Clone, Copy, Debug, PartialEq, Eq, Structural)]
pub struct FrameGlobals {
    pub width: u32,
    pub height: u32,
    /// 1 where the shader premultiplies its colours by alpha, 0 otherwise.
    pub premultiply_alpha: u32,
}

/// How the event loop waits for compositor events.
#[derive(Clone, Copy, Debug, PartialEq, Eq, Structural)]
pub enum DispatchMode {
    /// Block until the compositor sends events (nothing to draw yet).
    Blocking,
    /// Handle the events already queued, then go on drawing.
    Pending,
}

/// An event the overlay reacts to.
#[derive(Clone, Copy, Debug, PartialEq, Eq, Structural)]
pub enum Event {
    /// The compositor proposed a size for the layer surface.
    Configure { width: u32, height: u32 },
    /// The compositor closed the layer surface.
    Closed,
    /// The surface answered a request for the next frame's texture.
    Acquired(AcquireOutcome),
}

/// The state of the overlay.
#[derive(Clone, Copy, Debug, PartialEq, Eq, Structural)]
pub struct Overlay {
    /// Size of the layer surface; zero until the compositor configures it.
    pub width: u32,
    pub height: u32,
    pub should_exit: bool,
    pub surface: SurfaceSettings,
}

/// The shader globals of a frame drawn in state `s`.
pub open spec fn globals_of(s: Overlay) -> FrameGlobals {
    FrameGlobals {
        width: s.width,
        height: s.height,
        premultiply_alpha: if s.surface.alpha_mode == AlphaMode::PreMultiplied {
            1
        } else {
            0
        },
    }
}

impl Overlay {
    pub open spec fn wf(self) -> bool {
        self.surface.wf()
    }

    /// The state after the compositor proposed `width` x `height`.
    pub open spec fn after_configure(self, width: u32, height: u32) -> Overlay {
        let w = configured_extent(width, DEFAULT_WIDTH);
        let h = configured_extent(height, DEFAULT_HEIGHT);
        Overlay { width: w, height: h, surface: self.surface.resized(w, h), ..self }
    }

    /// The state after the compositor closed the surface.
    pub open spec fn after_close(self) -> Overlay {
        Overlay { should_exit: true, ..self }
    }

    /// The state after the surface answered a texture request with `o`.
    pub open spec fn after_acquire(self, o: AcquireOutcome) -> Overlay {
        match o {
            AcquireOutcome::Lost | AcquireOutcome::Outdated => Overlay {
                surface: self.surface.resized(self.width, self.height),
                ..self
            },
            AcquireOutcome::OutOfMemory => Overlay { should_exit: true, ..self },
            _ => self,
        }
    }

    /// What the program does when the surface answered a texture request with `o`.
    pub open spec fn acquire_action(self, o: AcquireOutcome) -> FrameAction {
        match o {
            AcquireOutcome::Ready => FrameAction::Draw(globals_of(self)),
            AcquireOutcome::Lost | AcquireOutcome::Outdated => FrameAction::Reconfigure,
            AcquireOutcome::Timeout => FrameAction::Skip,
            AcquireOutcome::OutOfMemory => FrameAction::Exit,
        }
    }

    /// The state after event `e`.
    pub open spec fn next(self, e: Event) -> Overlay {
        match e {
            Event::Configure { width, height } => self.after_configure(width, height),
            Event::Closed => self.after_close(),
            Event::Acquired(o) => self.after_acquire(o),
        }
    }

    /// The overlay before the compositor configured it, with the surface
    /// settings it starts with.
    pub fn new(surface: SurfaceSettings) -> (s: Overlay)
        requires
            surface.wf(),
        ensures
            s.width == 0,
            s.height == 0,
            !s.should_exit,
            s.surface == surface,
            s.wf(),
    {
        Overlay { width: 0, height: 0, should_exit: false, surface }
    }

    /// The compositor proposed `width` x `height` (zero: the client's choice).
    /// The overlay takes the proposed size, or 1920 x 1080 where the
    /// compositor left it open, and resizes its surface settings to match.
    /// The program then makes the surface click-through, configures the
    /// surface and draws a frame.
    pub fn configure(&mut self, width: u32, height: u32)
        requires
            old(self).wf(),
        ensures
            *final(self) == old(self).after_configure(width, height),
            final(self).wf(),
    {
        self.width = if width == 0 { DEFAULT_WIDTH } else { width };
        self.height = if height == 0 { DEFAULT_HEIGHT } else { height };
        let w = self.width;
        let h = self.height;
        self.surface.resize(w, h);
    }

    /// The compositor closed the surface: the overlay exits.
    pub fn close(&mut self)
        ensures
            *final(self) == old(self).after_close(),
            final(self).should_exit,
            final(self).width == old(self).width,
            final(self).height == old(self).height,
            final(self).surface == old(self).surface,
    {
        self.should_exit = true;
    }

    /// Whether a frame is to be drawn at all: only once the surface has a size.
    pub fn wants_frame(&self) -> (b: bool)
        ensures
            b == (self.width != 0 && self.height != 0),
    {
        self.width != 0 && self.height != 0
    }

    /// The surface answered the request for the next frame's texture with
    /// `outcome`. A ready texture is drawn; a lost or outdated surface is
    /// resized to the overlay's size and reconfigured; a timeout skips the
    /// frame; running out of memory makes the overlay exit.
    pub fn after_texture_request(&mut self, outcome: AcquireOutcome) -> (a: FrameAction)
        requires
            old(self).wf(),
            old(self).width != 0,
            old(self).height != 0,
        ensures
            *final(self) == old(self).after_acquire(outcome),
            a == old(self).acquire_action(outcome),
            final(self).wf(),
            final(self).width == old(self).width,
            final(self).height == old(self).height,
            outcome == AcquireOutcome::OutOfMemory ==> a == FrameAction::Exit
                && final(self).should_exit && final(self).surface == old(self).surface,
            outcome == AcquireOutcome::Timeout ==> a == FrameAction::Skip && *final(self) == *old(
                self,
            ),
            outcome == AcquireOutcome::Ready ==> a == FrameAction::Draw(
                FrameGlobals {
                    width: old(self).width,
                    height: old(self).height,
                    premultiply_alpha: if old(self).surface.alpha_mode == AlphaMode::PreMultiplied {
                        1u32
                    } else {
                        0u32
                    },
                },
            ) && *final(self) == *old(self),
            (outcome == AcquireOutcome::Lost || outcome == AcquireOutcome::Outdated) ==> a
                == FrameAction::Reconfigure && final(self).surface.width == old(self).width
                && final(self).surface.height == old(self).height && final(self).should_exit
                == old(self).should_exit,
    {
        match outcome {
            AcquireOutcome::Ready => FrameAction::Draw(self.frame_globals()),
            AcquireOutcome::Lost | AcquireOutcome::Outdated => {
                let w = self.width;
                let h = self.height;
                self.surface.resize(w, h);
                FrameAction::Reconfigure
            },
            AcquireOutcome::Timeout => FrameAction::Skip,
            AcquireOutcome::OutOfMemory => {
                self.should_exit = true;
                FrameAction::Exit
            },
        }
    }

    /// The shader globals of a frame drawn now.
    pub fn frame_globals(&self) -> (g: FrameGlobals)
        ensures
            g == globals_of(*self),
    {
        let premultiply: u32 = if self.surface.premultiply_alpha() { 1 } else { 0 };
        FrameGlobals { width: self.width, height: self.height, premultiply_alpha: premultiply }
    }

    /// How the event loop waits for events: blocking until the surface has a
    /// size, then only handling what is queued between frames.
    pub fn dispatch_mode(&self) -> (m: DispatchMode)
        ensures
            m == (if self.width == 0 || self.height == 0 {
                DispatchMode::Blocking
            } else {
                DispatchMode::Pending
            }),
    {
        if self.width == 0 || self.height == 0 {
            DispatchMode::Blocking
        } else {
            DispatchMode::Pending
        }
    }

    /// Whether the event loop draws the next frame after handling the queued
    /// events: unless the overlay is exiting.
    pub fn renders_after_dispatch(&self) -> (b: bool)
        ensures
            b == !self.should_exit,
    {
        !self.should_exit
    }

    /// Whether the event loop ends.
    pub fn should_stop(&self) -> (b: bool)
        ensures
            b == self.should_exit,
    {
        self.should_exit
    }
}

} // verus!
