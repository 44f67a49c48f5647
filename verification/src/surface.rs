//! Presentation-surface configuration and the resize rule.

use vstd::prelude::*;

verus! {

/// Width and height, in pixels, of the swap target bound to the window.
///
/// A surface may never be configured with a zero dimension, so both
/// fields stay strictly positive from construction on; a resize request
/// with a zero dimension is ignored rather than applied.
#[derive(Clone, Copy, PartialEq, Eq, Structural, Debug)]
pub struct SurfaceConfig {
    pub width: u32,
    pub height: u32,
}

impl SurfaceConfig {
    /// Both dimensions are strictly positive.
    pub open spec fn wf(self) -> bool {
        self.width > 0 && self.height > 0
    }

    /// The configuration after a resize request: a request with a zero
    /// dimension is ignored, any other request replaces both
    /// dimensions.
    pub open spec fn resize_spec(self, new_width: u32, new_height: u32) -> SurfaceConfig {
        if new_width > 0 && new_height > 0 {
            SurfaceConfig { width: new_width, height: new_height }
        } else {
            self
        }
    }

    /// Builds the initial configuration from the window's inner size.
    pub fn new(width: u32, height: u32) -> (c: Self)
        requires
            width > 0,
            height > 0,
        ensures
            c.width == width,
            c.height == height,
            c.wf(),
    {
        SurfaceConfig { width, height }
    }

    /// Applies a resize request: a request with a zero dimension is a
    /// no-op, any other request replaces both dimensions.  Returns
    /// whether the surface must be reconfigured against the device.
    pub fn resize(&mut self, new_width: u32, new_height: u32) -> (reconfigure: bool)
        requires
            old(self).wf(),
        ensures
            final(self).wf(),
            *final(self) == old(self).resize_spec(new_width, new_height),
            new_width > 0 && new_height > 0 ==> final(self).width == new_width
                && final(self).height == new_height,
            new_width == 0 || new_height == 0 ==> *final(self) == *old(self),
            reconfigure == (new_width > 0 && new_height > 0),
    {
        if new_width != 0 && new_height != 0 {
            self.width = new_width;
            self.height = new_height;
            true
        } else {
            false
        }
    }
}

} // verus!
