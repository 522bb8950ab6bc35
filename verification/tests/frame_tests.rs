use scene_renderer::camera::Camera;
use scene_renderer::fx::{Fx, SCALE};
use scene_renderer::frame::{
    aspect_for, step, FrameAction, FrameState, RenderContext,
};
use scene_renderer::surface::{
    classify, AcquireError, DepthTarget, PresentMode, Severity, SurfaceConfig, TextureFormat,
};
use scene_renderer::vec3::Vec3;

fn units(n: i64) -> Fx {
    Fx { raw: n * SCALE }
}

fn v3u(x: i64, y: i64, z: i64) -> Vec3 {
    Vec3 { x: units(x), y: units(y), z: units(z) }
}

fn test_camera() -> Camera {
    Camera::new(
        v3u(0, 1, 2),
        v3u(0, 0, 0),
        v3u(0, 1, 0),
        units(1),
        units(45),
        Fx { raw: 6554 },
        units(100),
    )
}

fn test_config(w: u32, h: u32) -> SurfaceConfig {
    SurfaceConfig::new(w, h, TextureFormat::Bgra8UnormSrgb, PresentMode::AutoNoVsync)
}

#[test]
fn severity_taxonomy() {
    assert_eq!(classify(AcquireError::Timeout), Severity::RecoverablePerFrame);
    assert_eq!(classify(AcquireError::Outdated), Severity::RecoverableStructural);
    assert_eq!(classify(AcquireError::Lost), Severity::Fatal);
    assert_eq!(classify(AcquireError::OutOfMemory), Severity::Fatal);
}

#[test]
fn happy_path_walks_the_cycle() {
    let (s1, a1) = step(FrameState::Idle, scene_renderer::frame::FrameEvent::StartTick);
    assert_eq!(s1, FrameState::Acquiring);
    assert_eq!(a1, FrameAction::AcquireTarget);
    let (s2, a2) = step(s1, scene_renderer::frame::FrameEvent::Acquired);
    assert_eq!(s2, FrameState::Recording);
    assert_eq!(a2, FrameAction::BeginPass);
    let (s3, a3) = step(s2, scene_renderer::frame::FrameEvent::PassRecorded);
    assert_eq!(s3, FrameState::Submitted);
    assert_eq!(a3, FrameAction::SubmitCommands);
    let (s4, a4) = step(s3, scene_renderer::frame::FrameEvent::SubmitDone);
    assert_eq!(s4, FrameState::Presented);
    assert_eq!(a4, FrameAction::PresentFrame);
    let (s5, a5) = step(s4, scene_renderer::frame::FrameEvent::PresentDone);
    assert_eq!(s5, FrameState::Idle);
    assert_eq!(a5, FrameAction::FinishTick);
}

#[test]
fn timeout_skips_frame_and_stays_ready() {
    let (s, a) = step(
        FrameState::Acquiring,
        scene_renderer::frame::FrameEvent::AcquireFailed(AcquireError::Timeout),
    );
    assert_eq!(s, FrameState::Idle);
    assert_eq!(a, FrameAction::SkipFrame);
}

#[test]
fn lost_surface_aborts() {
    let (s, a) = step(
        FrameState::Acquiring,
        scene_renderer::frame::FrameEvent::AcquireFailed(AcquireError::Lost),
    );
    assert_eq!(s, FrameState::Idle);
    assert_eq!(a, FrameAction::Abort);
}

#[test]
fn device_error_discards_frame_without_presenting() {
    let (s, a) = step(FrameState::Recording, scene_renderer::frame::FrameEvent::DeviceError);
    assert_eq!(s, FrameState::Idle);
    assert_eq!(a, FrameAction::SkipFrame);
    let (s2, a2) = step(FrameState::Submitted, scene_renderer::frame::FrameEvent::DeviceError);
    assert_eq!(s2, FrameState::Idle);
    assert_eq!(a2, FrameAction::SkipFrame);
}

#[test]
fn resize_sequence_restores_consistency_and_acquires() {
    // An Outdated acquire forces the resize detour.
    let (s1, a1) = step(
        FrameState::Acquiring,
        scene_renderer::frame::FrameEvent::AcquireFailed(AcquireError::Outdated),
    );
    assert_eq!(s1, FrameState::Resizing);
    assert_eq!(a1, FrameAction::Reconfigure);

    // Apply the resize: configuration, depth target and camera aspect move
    // together.
    let mut ctx = RenderContext::new(test_config(800, 600), test_camera());
    ctx.apply_resize(1024, 768);
    assert_eq!(ctx.config.width, 1024);
    assert_eq!(ctx.config.height, 768);
    assert_eq!(ctx.depth.width, 1024);
    assert_eq!(ctx.depth.height, 768);
    assert_eq!(ctx.depth.format, TextureFormat::Depth32Float);
    assert_eq!(ctx.camera.aspect.raw, aspect_for(1024, 768).raw);

    // The machine returns to Idle and the next tick acquires again.
    let (s2, _) = step(s1, scene_renderer::frame::FrameEvent::ResizeApplied);
    assert_eq!(s2, FrameState::Idle);
    let (s3, a3) = step(s2, scene_renderer::frame::FrameEvent::StartTick);
    assert_eq!(s3, FrameState::Acquiring);
    assert_eq!(a3, FrameAction::AcquireTarget);
    let (s4, _) = step(s3, scene_renderer::frame::FrameEvent::Acquired);
    assert_eq!(s4, FrameState::Recording);
}

#[test]
fn configure_is_idempotent() {
    let mut a = test_config(640, 480);
    let mut b = test_config(640, 480);
    a.configure(800, 600);
    b.configure(800, 600);
    b.configure(800, 600);
    assert_eq!(a, b);
}

#[test]
fn depth_target_sized_to_configuration() {
    let cfg = test_config(1920, 1080);
    let d = DepthTarget::create_for(&cfg);
    assert_eq!(d.width, 1920);
    assert_eq!(d.height, 1080);
    assert_eq!(d.format, TextureFormat::Depth32Float);
}

#[test]
fn aspect_ratio_matches_drawable() {
    let a = aspect_for(1280, 720);
    let expected = 1280.0 / 720.0;
    let got = a.raw as f64 / SCALE as f64;
    assert!((got - expected).abs() < 0.001);
}

#[test]
fn unexpected_event_changes_nothing() {
    let (s, a) = step(FrameState::Idle, scene_renderer::frame::FrameEvent::SubmitDone);
    assert_eq!(s, FrameState::Idle);
    assert_eq!(a, FrameAction::NoAction);
}
