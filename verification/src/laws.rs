//! Properties of the overlay's state machine over single events and over
//! whole runs of events.

use vstd::prelude::*;

use crate::capabilities::AlphaMode;
use crate::overlay::{
    AcquireOutcome, DEFAULT_HEIGHT, DEFAULT_WIDTH, Event, FrameAction, FrameGlobals, Overlay,
    globals_of,
};
use crate::surface::SurfaceSettings;

verus! {

/// The state reached from `s` by handling `events` in order.
pub open spec fn run(s: Overlay, events: Seq<Event>) -> Overlay
    decreases events.len(),
{
    if events.len() == 0 {
        s
    } else {
        run(s.next(events[0]), events.drop_first())
    }
}

/// Once the overlay is exiting, no sequence of events brings it back.
pub proof fn law_exit_is_final(s: Overlay, events: Seq<Event>)
    requires
        s.should_exit,
    ensures
        run(s, events).should_exit,
    decreases events.len(),
{
    if events.len() > 0 {
        law_exit_is_final(s.next(events[0]), events.drop_first());
    }
}

/// Only the compositor closing the surface, or the surface running out of
/// memory, makes the overlay exit.
pub proof fn law_exit_causes(s: Overlay, e: Event)
    requires
        !s.should_exit,
        s.next(e).should_exit,
    ensures
        e == Event::Closed || e == Event::Acquired(AcquireOutcome::OutOfMemory),
{
}

/// Every event keeps the surface settings at least one pixel in each
/// direction, whatever the compositor proposes.
pub proof fn law_surface_never_empty(s: Overlay, events: Seq<Event>)
    requires
        s.wf(),
    ensures
        run(s, events).wf(),
    decreases events.len(),
{
    if events.len() > 0 {
        law_surface_never_empty(s.next(events[0]), events.drop_first());
    }
}

/// Once the overlay has a size, it keeps one: the event loop never blocks
/// again and frames go on being drawn.
pub proof fn law_sized_stays_sized(s: Overlay, events: Seq<Event>)
    requires
        s.width != 0,
        s.height != 0,
    ensures
        run(s, events).width != 0,
        run(s, events).height != 0,
    decreases events.len(),
{
    if events.len() > 0 {
        law_sized_stays_sized(s.next(events[0]), events.drop_first());
    }
}

/// A configure gives the overlay the proposed size, or the default where the
/// compositor left it open, and sizes the surface to match; it does not
/// change whether the overlay is exiting.
pub proof fn law_configure_sizes_surface(s: Overlay, width: u32, height: u32)
    ensures
        s.after_configure(width, height).width == (if width == 0 {
            DEFAULT_WIDTH
        } else {
            width
        }),
        s.after_configure(width, height).height == (if height == 0 {
            DEFAULT_HEIGHT
        } else {
            height
        }),
        s.after_configure(width, height).width != 0,
        s.after_configure(width, height).height != 0,
        s.after_configure(width, height).surface.width == s.after_configure(width, height).width,
        s.after_configure(width, height).surface.height == s.after_configure(width, height).height,
        s.after_configure(width, height).should_exit == s.should_exit,
{
}

/// Repeating a configure with the same proposal changes nothing.
pub proof fn law_configure_idempotent(s: Overlay, width: u32, height: u32)
    ensures
        s.after_configure(width, height).after_configure(width, height) == s.after_configure(
            width,
            height,
        ),
{
}

/// A lost or outdated surface is resized to the overlay's size; the overlay
/// itself is unchanged.
pub proof fn law_reconfigure_restores_size(s: Overlay, o: AcquireOutcome)
    requires
        s.width != 0,
        s.height != 0,
        o == AcquireOutcome::Lost || o == AcquireOutcome::Outdated,
    ensures
        s.after_acquire(o).surface.width == s.width,
        s.after_acquire(o).surface.height == s.height,
        s.after_acquire(o).width == s.width,
        s.after_acquire(o).height == s.height,
        s.after_acquire(o).should_exit == s.should_exit,
        s.acquire_action(o) == FrameAction::Reconfigure,
{
}

/// A frame is drawn exactly when the texture is ready, with the overlay's
/// size as resolution; the shader premultiplies alpha exactly when the
/// surface's alpha mode asks for it.
pub proof fn law_draw_only_when_ready(s: Overlay, o: AcquireOutcome)
    ensures
        (s.acquire_action(o) is Draw) <==> o == AcquireOutcome::Ready,
        o == AcquireOutcome::Ready ==> s.acquire_action(o) == FrameAction::Draw(globals_of(s)),
        globals_of(s).width == s.width && globals_of(s).height == s.height,
        globals_of(s).premultiply_alpha == 1 || globals_of(s).premultiply_alpha == 0,
        (globals_of(s).premultiply_alpha == 1) <==> s.surface.alpha_mode
            == crate::capabilities::AlphaMode::PreMultiplied,
{
}

/// When the compositor closes the surface the overlay exits, whatever its
/// state, and nothing else about it changes.
pub proof fn law_close_exits(s: Overlay)
    ensures
        s.after_close().should_exit,
        s.after_close().width == s.width,
        s.after_close().height == s.height,
        s.after_close().surface == s.surface,
{
}

/// When the surface runs out of memory the overlay reports it and exits,
/// whatever its state; its size and surface settings stay as they were.
pub proof fn law_out_of_memory_exits(s: Overlay)
    ensures
        s.acquire_action(AcquireOutcome::OutOfMemory) == FrameAction::Exit,
        s.after_acquire(AcquireOutcome::OutOfMemory).should_exit,
        s.after_acquire(AcquireOutcome::OutOfMemory).width == s.width,
        s.after_acquire(AcquireOutcome::OutOfMemory).height == s.height,
        s.after_acquire(AcquireOutcome::OutOfMemory).surface == s.surface,
{
}

/// A timeout skips the frame and changes nothing, whatever the state.
pub proof fn law_timeout_skips(s: Overlay)
    ensures
        s.acquire_action(AcquireOutcome::Timeout) == FrameAction::Skip,
        s.after_acquire(AcquireOutcome::Timeout) == s,
{
}

/// A ready texture is drawn at the overlay's size, premultiplied exactly
/// when the alpha mode is PreMultiplied, and changes nothing.
pub proof fn law_ready_draws(s: Overlay)
    ensures
        s.acquire_action(AcquireOutcome::Ready) == FrameAction::Draw(
            FrameGlobals {
                width: s.width,
                height: s.height,
                premultiply_alpha: if s.surface.alpha_mode == AlphaMode::PreMultiplied {
                    1u32
                } else {
                    0u32
                },
            },
        ),
        s.after_acquire(AcquireOutcome::Ready) == s,
{
}

/// Resizing sets each extent to the requested one, or to one pixel where the
/// request is zero, whatever the previous extent; nothing else changes.
pub proof fn law_resize_extent(s: SurfaceSettings, width: u32, height: u32)
    ensures
        s.resized(width, height).width == (if width == 0 {
            1
        } else {
            width
        }),
        s.resized(width, height).height == (if height == 0 {
            1
        } else {
            height
        }),
        s.resized(width, height).format_index == s.format_index,
        s.resized(width, height).present_mode == s.present_mode,
        s.resized(width, height).alpha_mode == s.alpha_mode,
        s.resized(width, height).desired_maximum_frame_latency == s.desired_maximum_frame_latency,
{
}

/// Two resizes to the same request give the same settings, whatever the
/// extent before each: the result depends on the request alone.
pub proof fn law_resize_forgets_old_extent(s: SurfaceSettings, t: SurfaceSettings, width: u32, height: u32)
    requires
        s.format_index == t.format_index,
        s.present_mode == t.present_mode,
        s.alpha_mode == t.alpha_mode,
        s.desired_maximum_frame_latency == t.desired_maximum_frame_latency,
    ensures
        s.resized(width, height) == t.resized(width, height),
{
}

} // verus!
