//! The clear color, held as exact rational channels.
//!
//! The render pass clears the frame to a color whose red and green
//! channels follow the cursor: red is the cursor's x position over the
//! surface width, green its y position over the surface height.  Each
//! channel is kept as a numerator and denominator, so those quotients
//! are stated and tested exactly; the host divides once, when it hands
//! the color to the graphics device.

use vstd::prelude::*;

use crate::surface::SurfaceConfig;

verus! {

/// One color channel, the quotient `num / den` with `den` nonzero.
#[derive(Clone, Copy, PartialEq, Eq, Structural, Debug)]
pub struct ColorChannel {
    pub num: u32,
    pub den: u32,
}

impl ColorChannel {
    pub open spec fn wf(self) -> bool {
        self.den > 0
    }

    /// The channel of a whole value, `v / 1`.
    pub open spec fn whole(v: u32) -> ColorChannel {
        ColorChannel { num: v, den: 1 }
    }
}

/// The color the render pass clears the frame to, one rational per
/// channel in the order red, green, blue, alpha.
#[derive(Clone, Copy, PartialEq, Eq, Structural, Debug)]
pub struct ClearColor {
    pub r: ColorChannel,
    pub g: ColorChannel,
    pub b: ColorChannel,
    pub a: ColorChannel,
}

impl ClearColor {
    pub open spec fn wf(self) -> bool {
        self.r.wf() && self.g.wf() && self.b.wf() && self.a.wf()
    }

    /// The color the renderer starts with, before any cursor movement:
    /// (1/10, 2/10, 3/10, 1).
    pub open spec fn startup() -> ClearColor {
        ClearColor {
            r: ColorChannel { num: 1, den: 10 },
            g: ColorChannel { num: 2, den: 10 },
            b: ColorChannel { num: 3, den: 10 },
            a: ColorChannel::whole(1),
        }
    }

    /// The color after a cursor move: red and green are the cursor's
    /// position normalized by the surface size, blue and alpha are 1.
    pub open spec fn from_cursor_spec(x: u32, y: u32, config: SurfaceConfig) -> ClearColor {
        ClearColor {
            r: ColorChannel { num: x, den: config.width },
            g: ColorChannel { num: y, den: config.height },
            b: ColorChannel::whole(1),
            a: ColorChannel::whole(1),
        }
    }

    pub fn initial() -> (c: ClearColor)
        ensures
            c == ClearColor::startup(),
            c.wf(),
    {
        ClearColor {
            r: ColorChannel { num: 1, den: 10 },
            g: ColorChannel { num: 2, den: 10 },
            b: ColorChannel { num: 3, den: 10 },
            a: ColorChannel { num: 1, den: 1 },
        }
    }

    pub fn from_cursor(x: u32, y: u32, config: &SurfaceConfig) -> (c: ClearColor)
        requires
            config.wf(),
        ensures
            c == ClearColor::from_cursor_spec(x, y, *config),
            c.wf(),
    {
        ClearColor {
            r: ColorChannel { num: x, den: config.width },
            g: ColorChannel { num: y, den: config.height },
            b: ColorChannel { num: 1, den: 1 },
            a: ColorChannel { num: 1, den: 1 },
        }
    }
}

} // verus!
