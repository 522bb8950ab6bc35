//! The per-frame render state machine and the render context it protects.
//! Each tick walks Idle -> Acquiring -> Recording -> Submitted -> Presented
//! and back; a stale surface detours through Resizing, where the surface is
//! reconfigured, the depth target recreated and the camera aspect updated
//! as one step, before the next acquire.

use crate::camera::{cam_wf, Camera, CAM_LIM};
use crate::fx::{fx_div, fx_div_ok, lemma_mul_mag, tz_div, Fx, SCALE};
use crate::surface::{depth_matches, AcquireError, DepthTarget, SurfaceConfig};
use vstd::arithmetic::div_mod::{
    lemma_div_is_ordered, lemma_div_multiples_vanish, lemma_div_non_zero,
};
use vstd::prelude::*;

verus! {

#[derive(Clone, Copy, Debug, PartialEq, Eq, Structural)]
pub enum FrameState {
    Idle,
    Acquiring,
    Recording,
    Submitted,
    Presented,
    Resizing,
}

/// What the outside world reports to the state machine.
#[derive(Clone, Copy, Debug, PartialEq, Eq, Structural)]
pub enum FrameEvent {
    StartTick,
    Acquired,
    AcquireFailed(AcquireError),
    PassRecorded,
    SubmitDone,
    PresentDone,
    ResizeApplied,
    DeviceError,
}

/// What the render loop must do next.
#[derive(Clone, Copy, Debug, PartialEq, Eq, Structural)]
pub enum FrameAction {
    AcquireTarget,
    BeginPass,
    SubmitCommands,
    PresentFrame,
    Reconfigure,
    SkipFrame,
    Abort,
    FinishTick,
    NoAction,
}

/// The whole transition table. A stale acquire moves to Resizing and asks
/// for a reconfiguration; a timeout skips the frame; a lost surface (or
/// exhausted memory) aborts; a device error while recording or submitting
/// abandons the frame without presenting. An event that does not belong to
/// the state leaves it unchanged.
pub open spec fn next_spec(s: FrameState, e: FrameEvent) -> (FrameState, FrameAction) {
    match (s, e) {
        (FrameState::Idle, FrameEvent::StartTick) => (FrameState::Acquiring, FrameAction::AcquireTarget),
        (FrameState::Acquiring, FrameEvent::Acquired) => (FrameState::Recording, FrameAction::BeginPass),
        (FrameState::Acquiring, FrameEvent::AcquireFailed(AcquireError::Outdated)) => (
            FrameState::Resizing,
            FrameAction::Reconfigure,
        ),
        (FrameState::Acquiring, FrameEvent::AcquireFailed(AcquireError::Timeout)) => (
            FrameState::Idle,
            FrameAction::SkipFrame,
        ),
        (FrameState::Acquiring, FrameEvent::AcquireFailed(AcquireError::Lost)) => (
            FrameState::Idle,
            FrameAction::Abort,
        ),
        (FrameState::Acquiring, FrameEvent::AcquireFailed(AcquireError::OutOfMemory)) => (
            FrameState::Idle,
            FrameAction::Abort,
        ),
        (FrameState::Resizing, FrameEvent::ResizeApplied) => (FrameState::Idle, FrameAction::SkipFrame),
        (FrameState::Recording, FrameEvent::PassRecorded) => (
            FrameState::Submitted,
            FrameAction::SubmitCommands,
        ),
        (FrameState::Recording, FrameEvent::DeviceError) => (FrameState::Idle, FrameAction::SkipFrame),
        (FrameState::Submitted, FrameEvent::SubmitDone) => (
            FrameState::Presented,
            FrameAction::PresentFrame,
        ),
        (FrameState::Submitted, FrameEvent::DeviceError) => (FrameState::Idle, FrameAction::SkipFrame),
        (FrameState::Presented, FrameEvent::PresentDone) => (FrameState::Idle, FrameAction::FinishTick),
        _ => (s, FrameAction::NoAction),
    }
}

/// One step of the machine.
pub fn step(s: FrameState, e: FrameEvent) -> (r: (FrameState, FrameAction))
    ensures
        r == next_spec(s, e),
{
    match (s, e) {
        (FrameState::Idle, FrameEvent::StartTick) => (FrameState::Acquiring, FrameAction::AcquireTarget),
        (FrameState::Acquiring, FrameEvent::Acquired) => (FrameState::Recording, FrameAction::BeginPass),
        (FrameState::Acquiring, FrameEvent::AcquireFailed(AcquireError::Outdated)) => (
            FrameState::Resizing,
            FrameAction::Reconfigure,
        ),
        (FrameState::Acquiring, FrameEvent::AcquireFailed(AcquireError::Timeout)) => (
            FrameState::Idle,
            FrameAction::SkipFrame,
        ),
        (FrameState::Acquiring, FrameEvent::AcquireFailed(AcquireError::Lost)) => (
            FrameState::Idle,
            FrameAction::Abort,
        ),
        (FrameState::Acquiring, FrameEvent::AcquireFailed(AcquireError::OutOfMemory)) => (
            FrameState::Idle,
            FrameAction::Abort,
        ),
        (FrameState::Resizing, FrameEvent::ResizeApplied) => (FrameState::Idle, FrameAction::SkipFrame),
        (FrameState::Recording, FrameEvent::PassRecorded) => (
            FrameState::Submitted,
            FrameAction::SubmitCommands,
        ),
        (FrameState::Recording, FrameEvent::DeviceError) => (FrameState::Idle, FrameAction::SkipFrame),
        (FrameState::Submitted, FrameEvent::SubmitDone) => (
            FrameState::Presented,
            FrameAction::PresentFrame,
        ),
        (FrameState::Submitted, FrameEvent::DeviceError) => (FrameState::Idle, FrameAction::SkipFrame),
        (FrameState::Presented, FrameEvent::PresentDone) => (FrameState::Idle, FrameAction::FinishTick),
        _ => (s, FrameAction::NoAction),
    }
}

/// The aspect ratio of a drawable size, in fixed point.
pub open spec fn aspect_of(width: int, height: int) -> int {
    fx_div(width * SCALE, height * SCALE)
}

/// The aspect ratio as a scalar; positive and bounded for any drawable size
/// this renderer accepts.
pub fn aspect_for(width: u32, height: u32) -> (r: Fx)
    requires
        0 < width <= 16384,
        0 < height <= 16384,
        width <= 1024 * height,
    ensures
        r.raw == aspect_of(width as int, height as int),
        0 < r.raw <= CAM_LIM,
{
    let w = Fx::from_units(width as i32);
    let h = Fx::from_units(height as i32);
    proof {
        let s = SCALE as int;
        let p = width as int * s * s;
        let d = height as int * s;
        lemma_mul_mag(width as int, s, 16384, s);
        lemma_mul_mag(width as int * s, s, 16384 * s, s);
        lemma_mul_mag(height as int, s, 16384, s);
        assert(p == (width as int * s) * s);
        assert(d >= s) by (nonlinear_arith)
            requires
                height as int >= 1,
                s > 0,
                d == height as int * s,
        ;
        assert(p >= d) by (nonlinear_arith)
            requires
                width as int >= 1,
                height as int <= 16384,
                s == 65536,
                p == width as int * s * s,
                d == height as int * s,
        ;
        lemma_div_non_zero(p, d);
        assert(p <= 0x400_0000 * d) by (nonlinear_arith)
            requires
                width as int <= 1024 * height as int,
                s == 65536,
                p == width as int * s * s,
                d == height as int * s,
                0x400_0000 == 1024 * s,
        ;
        lemma_div_is_ordered(p, 0x400_0000 * d, d);
        lemma_div_multiples_vanish(0x400_0000, d);
        assert(tz_div(p, d) == p / d);
        assert(fx_div_ok(w.raw as int, h.raw as int));
    }
    match w.over(h) {
        Some(a) => a,
        None => Fx { raw: SCALE },
    }
}

/// Everything a resize must keep consistent: the surface configuration, the
/// depth target sized to it, the camera's aspect ratio, and the frame
/// machine's state.
pub struct RenderContext {
    pub config: SurfaceConfig,
    pub depth: DepthTarget,
    pub camera: Camera,
    pub frame: FrameState,
}

/// The context invariant: the depth target serves the current
/// configuration and the camera's aspect ratio is the drawable's.
pub open spec fn ctx_wf(c: RenderContext) -> bool {
    &&& 0 < c.config.width <= 16384
    &&& 0 < c.config.height <= 16384
    &&& c.config.width <= 1024 * c.config.height
    &&& depth_matches(c.depth, c.config)
    &&& cam_wf(c.camera)
    &&& c.camera.aspect.raw == aspect_of(c.config.width as int, c.config.height as int)
}

impl RenderContext {
    /// Assemble a consistent context: depth target created for the
    /// configuration and the camera's aspect taken from the drawable size.
    pub fn new(config: SurfaceConfig, camera: Camera) -> (r: RenderContext)
        requires
            0 < config.width <= 16384,
            0 < config.height <= 16384,
            config.width <= 1024 * config.height,
            cam_wf(camera),
        ensures
            ctx_wf(r),
            r.config == config,
            r.frame == FrameState::Idle,
            r.camera.eye == camera.eye && r.camera.target == camera.target && r.camera.up
                == camera.up && r.camera.fovy == camera.fovy && r.camera.znear == camera.znear
                && r.camera.zfar == camera.zfar,
    {
        let depth = DepthTarget::create_for(&config);
        let mut camera = camera;
        let aspect = aspect_for(config.width, config.height);
        camera.on_resize(aspect);
        RenderContext { config, depth, camera, frame: FrameState::Idle }
    }

    /// The resize protocol, applied as one step: reconfigure the surface,
    /// recreate the depth target for the new configuration, and update the
    /// camera's aspect ratio. Nothing else about the camera changes.
    pub fn apply_resize(&mut self, width: u32, height: u32)
        requires
            0 < width <= 16384,
            0 < height <= 16384,
            width <= 1024 * height,
            cam_wf(old(self).camera),
        ensures
            ctx_wf(*final(self)),
            final(self).config.width == width,
            final(self).config.height == height,
            final(self).config.format == old(self).config.format,
            final(self).config.present_mode == old(self).config.present_mode,
            depth_matches(final(self).depth, final(self).config),
            final(self).camera.aspect.raw == aspect_of(width as int, height as int),
            final(self).camera.eye == old(self).camera.eye,
            final(self).camera.target == old(self).camera.target,
            final(self).camera.up == old(self).camera.up,
            final(self).camera.fovy == old(self).camera.fovy,
            final(self).camera.znear == old(self).camera.znear,
            final(self).camera.zfar == old(self).camera.zfar,
            final(self).frame == old(self).frame,
    {
        self.config.configure(width, height);
        self.depth = DepthTarget::create_for(&self.config);
        let aspect = aspect_for(width, height);
        self.camera.on_resize(aspect);
    }
}

/// The resize protocol of the state machine: a stale acquire detours
/// through Resizing with a Reconfigure action, applying the resize returns
/// to Idle with the frame skipped, and the next tick acquires again.
pub proof fn lemma_resize_protocol()
    ensures
        next_spec(FrameState::Acquiring, FrameEvent::AcquireFailed(AcquireError::Outdated)) == (
            FrameState::Resizing,
            FrameAction::Reconfigure,
        ),
        next_spec(FrameState::Resizing, FrameEvent::ResizeApplied) == (
            FrameState::Idle,
            FrameAction::SkipFrame,
        ),
        next_spec(FrameState::Idle, FrameEvent::StartTick) == (
            FrameState::Acquiring,
            FrameAction::AcquireTarget,
        ),
        next_spec(FrameState::Acquiring, FrameEvent::Acquired) == (
            FrameState::Recording,
            FrameAction::BeginPass,
        ),
{
}

/// The happy path of one tick: acquire, record, submit, present, and back
/// to Idle.
pub proof fn lemma_frame_cycle()
    ensures
        next_spec(FrameState::Idle, FrameEvent::StartTick).0 == FrameState::Acquiring,
        next_spec(FrameState::Acquiring, FrameEvent::Acquired).0 == FrameState::Recording,
        next_spec(FrameState::Recording, FrameEvent::PassRecorded).0 == FrameState::Submitted,
        next_spec(FrameState::Submitted, FrameEvent::SubmitDone).0 == FrameState::Presented,
        next_spec(FrameState::Presented, FrameEvent::PresentDone).0 == FrameState::Idle,
{
}

} // verus!
