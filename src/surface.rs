use vstd::prelude::*;

verus! {

/// The fatal conditions of the rendering lifecycle.
#[derive(Clone, Copy, Debug, PartialEq, Eq, Structural)]
pub enum LifecycleError {
    AdapterUnavailable,
    DeviceRequestFailed,
    ShaderCompileError,
    PipelineLinkError,
    SurfaceAcquireFailed,
    ConfigurationRejected,
}

/// What a surface reports it supports for a given adapter, each list in the
/// order the platform returned it. Each entry is a code chosen by the caller
/// for one format, presentation mode or alpha mode.
#[derive(Debug)]
pub struct Capabilities {
    pub formats: Vec<u32>,
    pub present_modes: Vec<u32>,
    pub alpha_modes: Vec<u32>,
}

/// The configuration applied to a presentable surface.
#[derive(Clone, Copy, Debug, PartialEq, Eq, Structural)]
pub struct SurfaceConfig {
    pub format: u32,
    pub width: u32,
    pub height: u32,
    pub present_mode: u32,
    pub alpha_mode: u32,
}

/// A window size that may be applied to a surface.
pub open spec fn size_ok(width: u32, height: u32) -> bool {
    width > 0 && height > 0
}

/// Capabilities that offer at least one choice of each kind.
pub open spec fn caps_usable(caps: Capabilities) -> bool {
    &&& caps.formats@.len() > 0
    &&& caps.present_modes@.len() > 0
    &&& caps.alpha_modes@.len() > 0
}

/// The configuration built from `caps` for a window of the given size: the
/// first format, presentation mode and alpha mode offered. Rejected when a
/// list is empty or the size has a zero dimension.
pub open spec fn configured(caps: Capabilities, width: u32, height: u32) -> Result<
    SurfaceConfig,
    LifecycleError,
> {
    if caps_usable(caps) && size_ok(width, height) {
        Ok(
            SurfaceConfig {
                format: caps.formats@[0],
                width,
                height,
                present_mode: caps.present_modes@[0],
                alpha_mode: caps.alpha_modes@[0],
            },
        )
    } else {
        Err(LifecycleError::ConfigurationRejected)
    }
}

/// `c` after a window resize: the new size when both dimensions are non-zero,
/// `c` itself otherwise.
pub open spec fn resized(c: SurfaceConfig, width: u32, height: u32) -> SurfaceConfig {
    if size_ok(width, height) {
        SurfaceConfig { width, height, ..c }
    } else {
        c
    }
}

impl SurfaceConfig {
    /// Builds the configuration for a window of `width` x `height` from what
    /// the surface supports, taking the first entry of each list.
    pub fn configure(caps: &Capabilities, width: u32, height: u32) -> (r: Result<
        SurfaceConfig,
        LifecycleError,
    >)
        ensures
            r == configured(*caps, width, height),
    {
        if caps.formats.len() == 0 || caps.present_modes.len() == 0 || caps.alpha_modes.len()
            == 0 || width == 0 || height == 0 {
            return Err(LifecycleError::ConfigurationRejected);
        }
        Ok(
            SurfaceConfig {
                format: caps.formats[0],
                width,
                height,
                present_mode: caps.present_modes[0],
                alpha_mode: caps.alpha_modes[0],
            },
        )
    }

    /// Records a new window size. A size with a zero dimension is ignored.
    /// Returns whether the configuration must be applied again.
    pub fn resize(&mut self, width: u32, height: u32) -> (r: bool)
        ensures
            r == size_ok(width, height),
            *final(self) == resized(*old(self), width, height),
    {
        if width == 0 || height == 0 {
            return false;
        }
        self.width = width;
        self.height = height;
        true
    }
}

/// Applying the size a configuration already has changes nothing, whether
/// the configuration was just built for that size or resized to it before.
pub proof fn lemma_reconfigure_same_size(caps: Capabilities, width: u32, height: u32)
    requires
        size_ok(width, height),
    ensures
        configured(caps, width, height) matches Ok(c) ==> resized(c, width, height) == c,
        forall|c: SurfaceConfig|
            #![trigger resized(c, width, height)]
            resized(resized(c, width, height), width, height) == resized(c, width, height),
{
}

} // verus!
