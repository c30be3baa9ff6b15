use wayland_shadow_overlay::capabilities::{AlphaMode, PresentMode};
use wayland_shadow_overlay::layer::{KeyboardInteractivity, Layer, LayerSettings};
use wayland_shadow_overlay::overlay::{
    AcquireOutcome, DispatchMode, FrameAction, FrameGlobals, Overlay, DEFAULT_HEIGHT,
    DEFAULT_WIDTH, FRAME_INTERVAL_MS,
};
use wayland_shadow_overlay::surface::SurfaceSettings;

fn fresh(alpha: AlphaMode) -> Overlay {
    let s = SurfaceSettings::from_capabilities(&vec![wgpu::TextureFormat::Bgra8UnormSrgb], &vec![alpha], &vec![PresentMode::Fifo]);
    Overlay::new(s)
}

#[test]
fn starts_unsized_and_blocking() {
    let o = fresh(AlphaMode::Opaque);
    assert_eq!((o.width, o.height), (0, 0));
    assert!(!o.should_exit);
    assert!(!o.wants_frame());
    assert_eq!(o.dispatch_mode(), DispatchMode::Blocking);
    assert!(!o.should_stop());
}

#[test]
fn configure_takes_proposed_size() {
    let mut o = fresh(AlphaMode::Opaque);
    o.configure(2560, 1440);
    assert_eq!((o.width, o.height), (2560, 1440));
    assert_eq!((o.surface.width, o.surface.height), (2560, 1440));
    assert!(o.wants_frame());
    assert_eq!(o.dispatch_mode(), DispatchMode::Pending);
}

#[test]
fn configure_zero_uses_defaults() {
    let mut o = fresh(AlphaMode::Opaque);
    o.configure(0, 0);
    assert_eq!((o.width, o.height), (1920, 1080));
    assert_eq!((DEFAULT_WIDTH, DEFAULT_HEIGHT), (1920, 1080));
    let mut o = fresh(AlphaMode::Opaque);
    o.configure(0, 900);
    assert_eq!((o.width, o.height), (1920, 900));
    let mut o = fresh(AlphaMode::Opaque);
    o.configure(1280, 0);
    assert_eq!((o.width, o.height), (1280, 1080));
}

#[test]
fn configure_twice_same_as_once() {
    let mut a = fresh(AlphaMode::Opaque);
    a.configure(0, 700);
    let once = a;
    a.configure(0, 700);
    assert_eq!(a, once);
}

#[test]
fn ready_texture_is_drawn() {
    let mut o = fresh(AlphaMode::PreMultiplied);
    o.configure(800, 600);
    let before = o;
    let act = o.after_texture_request(AcquireOutcome::Ready);
    assert_eq!(
        act,
        FrameAction::Draw(FrameGlobals { width: 800, height: 600, premultiply_alpha: 1 })
    );
    assert_eq!(o, before);
}

#[test]
fn draw_without_premultiply() {
    let mut o = fresh(AlphaMode::PostMultiplied);
    o.configure(640, 480);
    assert_eq!(
        o.frame_globals(),
        FrameGlobals { width: 640, height: 480, premultiply_alpha: 0 }
    );
}

#[test]
fn lost_and_outdated_reconfigure() {
    for outcome in [AcquireOutcome::Lost, AcquireOutcome::Outdated] {
        let mut o = fresh(AlphaMode::Opaque);
        o.configure(1024, 768);
        o.surface.resize(1, 1);
        let act = o.after_texture_request(outcome);
        assert_eq!(act, FrameAction::Reconfigure);
        assert_eq!((o.surface.width, o.surface.height), (1024, 768));
        assert!(!o.should_exit);
    }
}

#[test]
fn timeout_skips_frame() {
    let mut o = fresh(AlphaMode::Opaque);
    o.configure(1024, 768);
    let before = o;
    assert_eq!(o.after_texture_request(AcquireOutcome::Timeout), FrameAction::Skip);
    assert_eq!(o, before);
}

#[test]
fn out_of_memory_exits() {
    let mut o = fresh(AlphaMode::Opaque);
    o.configure(1024, 768);
    assert_eq!(o.after_texture_request(AcquireOutcome::OutOfMemory), FrameAction::Exit);
    assert!(o.should_exit);
    assert!(o.should_stop());
    assert!(!o.renders_after_dispatch());
}

#[test]
fn close_exits() {
    let mut o = fresh(AlphaMode::Opaque);
    o.configure(1024, 768);
    assert!(o.renders_after_dispatch());
    o.close();
    assert!(o.should_exit);
    assert!(o.should_stop());
    assert!(!o.renders_after_dispatch());
}

#[test]
fn exit_survives_later_events() {
    let mut o = fresh(AlphaMode::Opaque);
    o.close();
    o.configure(300, 200);
    assert!(o.should_exit);
    let _ = o.after_texture_request(AcquireOutcome::Ready);
    let _ = o.after_texture_request(AcquireOutcome::Lost);
    assert!(o.should_exit);
}

#[test]
fn sized_overlay_stays_sized() {
    let mut o = fresh(AlphaMode::Opaque);
    o.configure(0, 0);
    let _ = o.after_texture_request(AcquireOutcome::Outdated);
    o.configure(5, 0);
    let _ = o.after_texture_request(AcquireOutcome::Timeout);
    assert!(o.wants_frame());
    assert_eq!(o.dispatch_mode(), DispatchMode::Pending);
    assert!(o.surface.width >= 1 && o.surface.height >= 1);
}

#[test]
fn frame_interval_is_sixteen_ms() {
    assert_eq!(FRAME_INTERVAL_MS, 16);
}

#[test]
fn layer_settings_cover_output() {
    let s = LayerSettings::overlay();
    assert_eq!(s.layer, Layer::Overlay);
    assert!(s.anchor_top && s.anchor_bottom && s.anchor_left && s.anchor_right);
    assert_eq!((s.width, s.height), (0, 0));
    assert_eq!(s.exclusive_zone, 0);
    assert_eq!(s.keyboard_interactivity, KeyboardInteractivity::NoFocus);
}
