//! The 8-bit sRGB input and its linearized form.
use crate::binary32::in_unit_interval;
use crate::transfer::{linear_bits, linearizes};
use crate::utils::linearize_channel;
use vstd::prelude::*;
use vstd::std_specs::convert::{FromSpecImpl, IntoSpec};

verus! {

/// sRGB color, in the 0-255 range.
#[derive(Debug, Copy, Clone)]
pub struct sRGB {
    pub r: u8,
    pub g: u8,
    pub b: u8,
}

impl Default for sRGB {
    /// Black.
    fn default() -> (out: sRGB)
        ensures
            out == (sRGB { r: 0, g: 0, b: 0 }),
    {
        sRGB { r: 0, g: 0, b: 0 }
    }
}

impl From<[u8; 3]> for sRGB {
    /// Takes red, green and blue in this order.
    fn from(rgb: [u8; 3]) -> (out: sRGB)
        ensures
            out == (sRGB { r: rgb[0], g: rgb[1], b: rgb[2] }),
    {
        sRGB { r: rgb[0], g: rgb[1], b: rgb[2] }
    }
}

impl FromSpecImpl<[u8; 3]> for sRGB {
    open spec fn obeys_from_spec() -> bool {
        true
    }

    open spec fn from_spec(rgb: [u8; 3]) -> sRGB {
        sRGB { r: rgb[0], g: rgb[1], b: rgb[2] }
    }
}

impl From<(u8, u8, u8)> for sRGB {
    /// Takes red, green and blue in this order.
    fn from(rgb: (u8, u8, u8)) -> (out: sRGB)
        ensures
            out == (sRGB { r: rgb.0, g: rgb.1, b: rgb.2 }),
    {
        sRGB { r: rgb.0, g: rgb.1, b: rgb.2 }
    }
}

impl FromSpecImpl<(u8, u8, u8)> for sRGB {
    open spec fn obeys_from_spec() -> bool {
        true
    }

    open spec fn from_spec(rgb: (u8, u8, u8)) -> sRGB {
        sRGB { r: rgb.0, g: rgb.1, b: rgb.2 }
    }
}

/// Linearized RGB, scaled from sRGB. Each channel is a binary32 bit pattern.
#[derive(Debug, Copy, Clone)]
pub struct LinearRGB {
    pub r: u32,
    pub g: u32,
    pub b: u32,
}

impl LinearRGB {
    /// Whether every channel holds a value from 0.0 to 1.0.
    pub open spec fn is_normalized(&self) -> bool {
        in_unit_interval(self.r) && in_unit_interval(self.g) && in_unit_interval(self.b)
    }

    /// What linearizing `srgb` gives.
    pub open spec fn of(srgb: sRGB) -> LinearRGB {
        LinearRGB { r: linear_bits(srgb.r), g: linear_bits(srgb.g), b: linear_bits(srgb.b) }
    }
}

impl Default for LinearRGB {
    /// Black: the pattern of 0.0 in every channel.
    fn default() -> (out: LinearRGB)
        ensures
            out == (LinearRGB { r: 0, g: 0, b: 0 }),
    {
        LinearRGB { r: 0, g: 0, b: 0 }
    }
}

impl From<&sRGB> for LinearRGB {
    /// Linearizes each channel by the table.
    fn from(srgb: &sRGB) -> (out: LinearRGB)
        ensures
            out == LinearRGB::of(*srgb),
            out.is_normalized(),
            linearizes(srgb.r as int, out.r),
            linearizes(srgb.g as int, out.g),
            linearizes(srgb.b as int, out.b),
    {
        LinearRGB {
            r: linearize_channel(srgb.r),
            g: linearize_channel(srgb.g),
            b: linearize_channel(srgb.b),
        }
    }
}

impl FromSpecImpl<&sRGB> for LinearRGB {
    open spec fn obeys_from_spec() -> bool {
        true
    }

    open spec fn from_spec(srgb: &sRGB) -> LinearRGB {
        LinearRGB::of(*srgb)
    }
}

impl<T: Into<sRGB>> From<T> for LinearRGB {
    /// Converts to sRGB first, then linearizes.
    ///
    /// The result is the linearization of a color that the conversion of
    /// `T` may give for `rgb`, and of the one color that it gives wherever
    /// that conversion says which it is.
    fn from(rgb: T) -> (out: LinearRGB)
        ensures
            <T as IntoSpec<sRGB>>::obeys_into_spec() ==> out == LinearRGB::of(
                <T as IntoSpec<sRGB>>::into_spec(rgb),
            ),
            exists|srgb: sRGB|
                call_ensures(<T as Into<sRGB>>::into, (rgb,), srgb) && out == LinearRGB::of(srgb),
            out.is_normalized(),
    {
        let srgb: sRGB = rgb.into();
        LinearRGB::from(&srgb)
    }
}

impl<T: Into<sRGB>> FromSpecImpl<T> for LinearRGB {
    open spec fn obeys_from_spec() -> bool {
        <T as IntoSpec<sRGB>>::obeys_into_spec()
    }

    open spec fn from_spec(rgb: T) -> LinearRGB {
        LinearRGB::of(<T as IntoSpec<sRGB>>::into_spec(rgb))
    }
}

} // verus!
