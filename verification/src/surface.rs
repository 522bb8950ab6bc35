//! The presentation surface's configuration, the depth target sized to it,
//! and the error taxonomy of the per-frame acquire: which failures are
//! absorbed for a frame, which force a reconfiguration, and which are fatal.

use vstd::prelude::*;

verus! {

#[derive(Clone, Copy, Debug, PartialEq, Eq, Structural)]
pub enum TextureFormat {
    Bgra8UnormSrgb,
    Rgba8UnormSrgb,
    Depth32Float,
}

#[derive(Clone, Copy, Debug, PartialEq, Eq, Structural)]
pub enum PresentMode {
    AutoNoVsync,
    AutoVsync,
    Fifo,
}

/// Why an acquire of the next presentable target failed.
#[derive(Clone, Copy, Debug, PartialEq, Eq, Structural)]
pub enum AcquireError {
    Lost,
    Outdated,
    Timeout,
    OutOfMemory,
}

/// How a failure is to be handled.
#[derive(Clone, Copy, Debug, PartialEq, Eq, Structural)]
pub enum Severity {
    RecoverablePerFrame,
    RecoverableStructural,
    Fatal,
}

/// The taxonomy: a timeout skips the frame, staleness forces a
/// reconfiguration before the next acquire, losing the surface (or memory)
/// is fatal.
pub open spec fn severity_spec(e: AcquireError) -> Severity {
    match e {
        AcquireError::Timeout => Severity::RecoverablePerFrame,
        AcquireError::Outdated => Severity::RecoverableStructural,
        AcquireError::Lost => Severity::Fatal,
        AcquireError::OutOfMemory => Severity::Fatal,
    }
}

pub fn classify(e: AcquireError) -> (r: Severity)
    ensures
        r == severity_spec(e),
{
    match e {
        AcquireError::Timeout => Severity::RecoverablePerFrame,
        AcquireError::Outdated => Severity::RecoverableStructural,
        AcquireError::Lost => Severity::Fatal,
        AcquireError::OutOfMemory => Severity::Fatal,
    }
}

/// The surface configuration: format, drawable size and present mode.
#[derive(Clone, Copy, Debug, PartialEq, Eq, Structural)]
pub struct SurfaceConfig {
    pub width: u32,
    pub height: u32,
    pub format: TextureFormat,
    pub present_mode: PresentMode,
}

impl SurfaceConfig {
    pub fn new(width: u32, height: u32, format: TextureFormat, present_mode: PresentMode) -> (r:
        SurfaceConfig)
        requires
            width > 0,
            height > 0,
        ensures
            r.width == width && r.height == height && r.format == format && r.present_mode
                == present_mode,
    {
        SurfaceConfig { width, height, format, present_mode }
    }

    /// Rebind to the requested dimensions; format and present mode are kept.
    /// Idempotent: configuring twice with the same size is the same as once.
    pub fn configure(&mut self, width: u32, height: u32)
        requires
            width > 0,
            height > 0,
        ensures
            final(self).width == width,
            final(self).height == height,
            final(self).format == old(self).format,
            final(self).present_mode == old(self).present_mode,
    {
        self.width = width;
        self.height = height;
    }
}

/// Configuring is idempotent: after a configure, the configuration is a
/// function of the requested size and the kept format and present mode
/// alone, so configuring again with the same size changes nothing.
pub proof fn lemma_configure_idempotent(a: SurfaceConfig, b: SurfaceConfig, width: u32, height: u32)
    requires
        a.width == width,
        a.height == height,
        b.width == width,
        b.height == height,
        a.format == b.format,
        a.present_mode == b.present_mode,
    ensures
        a == b,
{
}

/// The depth buffer, sized exactly to the surface it serves.
#[derive(Clone, Copy, Debug, PartialEq, Eq, Structural)]
pub struct DepthTarget {
    pub width: u32,
    pub height: u32,
    pub format: TextureFormat,
}

/// The depth target serves this configuration: same dimensions, depth
/// format.
pub open spec fn depth_matches(d: DepthTarget, c: SurfaceConfig) -> bool {
    &&& d.width == c.width
    &&& d.height == c.height
    &&& d.format == TextureFormat::Depth32Float
}

impl DepthTarget {
    /// A fresh depth target sized exactly to the configuration; a resize
    /// recreates it rather than resizing in place.
    pub fn create_for(config: &SurfaceConfig) -> (r: DepthTarget)
        ensures
            depth_matches(r, *config),
    {
        DepthTarget {
            width: config.width,
            height: config.height,
            format: TextureFormat::Depth32Float,
        }
    }
}

} // verus!
