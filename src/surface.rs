//! The presentation surface: the window's last known size and the
//! configuration last applied to the surface.

use vstd::prelude::*;

verus! {

/// A window size in physical pixels.
#[derive(Clone, Copy, Debug, PartialEq, Eq, Structural)]
pub struct PhysicalSize {
    pub width: u32,
    pub height: u32,
}

impl PhysicalSize {
    /// A size with no area: the window is minimized or not laid out yet.
    pub open spec fn is_zero_area(self) -> bool {
        self.width == 0 || self.height == 0
    }

    pub fn new(width: u32, height: u32) -> (r: PhysicalSize)
        ensures
            r.width == width,
            r.height == height,
    {
        PhysicalSize { width, height }
    }

    /// Whether a surface of this size can be configured.
    pub fn has_area(&self) -> (r: bool)
        ensures
            r == !self.is_zero_area(),
    {
        self.width > 0 && self.height > 0
    }
}

/// How presented frames are paced.
#[derive(Clone, Copy, Debug, PartialEq, Eq, Structural)]
pub enum PresentMode {
    /// Frames wait for vertical blank; never tears.
    Fifo,
    /// The newest frame replaces a waiting one at vertical blank.
    Mailbox,
    /// Frames are shown at once; may tear.
    Immediate,
}

/// The configuration applied to the surface: its image size and pacing.
/// The images are always used as render attachments.
#[derive(Clone, Copy, Debug, PartialEq, Eq, Structural)]
pub struct SurfaceConfig {
    pub width: u32,
    pub height: u32,
    pub present_mode: PresentMode,
}

impl SurfaceConfig {
    /// The configuration for a window of `size`: its size, paced to vertical blank.
    pub open spec fn for_size(size: PhysicalSize) -> SurfaceConfig {
        SurfaceConfig { width: size.width, height: size.height, present_mode: PresentMode::Fifo }
    }

    pub fn new(size: PhysicalSize) -> (r: SurfaceConfig)
        ensures
            r == SurfaceConfig::for_size(size),
    {
        SurfaceConfig { width: size.width, height: size.height, present_mode: PresentMode::Fifo }
    }

    /// This configuration with its image size replaced by `size`.
    pub open spec fn resized(self, size: PhysicalSize) -> SurfaceConfig {
        SurfaceConfig { width: size.width, height: size.height, ..self }
    }
}

/// What the library knows of the presentation surface.
#[derive(Clone, Copy, Debug, PartialEq, Eq, Structural)]
pub struct SurfaceState {
    /// The last window size that had an area (or the size at creation).
    pub size: PhysicalSize,
    /// The configuration last applied to the surface.
    pub config: SurfaceConfig,
}

impl SurfaceState {
    /// The configuration always has the stored window size.
    pub open spec fn wf(self) -> bool {
        self.config.width == self.size.width && self.config.height == self.size.height
    }

    /// The state after a reconfiguration to `new_size`: a size without area
    /// changes nothing; any other size is stored and applied.
    pub open spec fn reconfigured(self, new_size: PhysicalSize) -> SurfaceState {
        if new_size.is_zero_area() {
            self
        } else {
            SurfaceState { size: new_size, config: self.config.resized(new_size) }
        }
    }

    /// The state of a surface first configured for a window of `size`.
    pub fn new(size: PhysicalSize) -> (r: SurfaceState)
        ensures
            r.wf(),
            r.size == size,
            r.config == SurfaceConfig::for_size(size),
    {
        SurfaceState { size, config: SurfaceConfig::new(size) }
    }

    /// Takes a new window size. Returns the configuration that the surface
    /// must now be configured with, or `None` where `new_size` has no area,
    /// in which case nothing is changed.
    pub fn reconfigure(&mut self, new_size: PhysicalSize) -> (r: Option<SurfaceConfig>)
        requires
            old(self).wf(),
        ensures
            final(self).wf(),
            *final(self) == old(self).reconfigured(new_size),
            new_size.is_zero_area() ==> *final(self) == *old(self) && r is None,
            !new_size.is_zero_area() ==> final(self).size == new_size
                && final(self).config == old(self).config.resized(new_size)
                && r == Some(final(self).config),
    {
        if new_size.has_area() {
            self.size = new_size;
            self.config.width = new_size.width;
            self.config.height = new_size.height;
            Some(self.config)
        } else {
            None
        }
    }
}

/// Reconfiguring twice with one size gives the same state, and asks for the
/// same configuration, as reconfiguring once.
pub proof fn lemma_reconfigure_idempotent(s: SurfaceState, size: PhysicalSize)
    requires
        s.wf(),
    ensures
        s.reconfigured(size).reconfigured(size) == s.reconfigured(size),
        s.reconfigured(size).wf(),
{
}

/// A size without area leaves the stored size and configuration as they were.
pub proof fn lemma_zero_area_keeps_configuration(s: SurfaceState, size: PhysicalSize)
    requires
        s.wf(),
        size.width == 0 || size.height == 0,
    ensures
        s.reconfigured(size).config == s.config,
        s.reconfigured(size).size == s.size,
{
}

/// Reconfiguring to the size already stored changes nothing.
pub proof fn lemma_reconfigure_current_size(s: SurfaceState)
    requires
        s.wf(),
    ensures
        s.reconfigured(s.size) == s,
{
}

} // verus!
