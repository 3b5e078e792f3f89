//! The model of the presentable surface's configuration: the extent the
//! surface is (re)configured with. The GPU handles themselves live outside
//! the library; the library decides what the configuration must be and when
//! it must be reapplied.

use vstd::prelude::*;

verus! {

/// The stored surface configuration: the drawable extent in pixels. The
/// pixel format, FIFO presentation and alpha mode are fixed at startup and
/// never change, so only the extent is modelled.
#[derive(Clone, Copy, PartialEq, Eq, Structural, Debug)]
pub struct SurfaceConfig {
    pub width: u32,
    pub height: u32,
}

impl SurfaceConfig {
    /// The configuration after a resize: a zero-area size is ignored (it
    /// would fault at the backend), any other size replaces the extent.
    pub open spec fn spec_reconfigured(self, width: u32, height: u32) -> SurfaceConfig {
        if width > 0 && height > 0 {
            SurfaceConfig { width, height }
        } else {
            self
        }
    }

    /// Record a new drawable size. Returns whether the stored configuration
    /// changed in a way the caller must reapply to the surface; a zero-area
    /// size is ignored entirely.
    pub fn reconfigure(&mut self, width: u32, height: u32) -> (apply: bool)
        ensures
            *final(self) == old(self).spec_reconfigured(width, height),
            apply == (width > 0 && height > 0),
    {
        if width > 0 && height > 0 {
            self.width = width;
            self.height = height;
            true
        } else {
            false
        }
    }
}

/// Reconfiguring is idempotent: repeating a resize with the same extent
/// leaves the stored configuration exactly where the first one put it.
pub proof fn lemma_reconfigure_idempotent(c: SurfaceConfig, width: u32, height: u32)
    ensures
        c.spec_reconfigured(width, height).spec_reconfigured(width, height) == c.spec_reconfigured(
            width,
            height,
        ),
{
}

} // verus!
