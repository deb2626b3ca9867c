//! RGBA colors in fixed-point units: `FX_ONE` is full intensity.

use vstd::prelude::*;
use crate::fx::FX_ONE;

verus! {

/// An RGBA color; each channel is a fixed-point intensity where `FX_ONE`
/// stands for 1.0.
#[derive(Clone, Copy, PartialEq, Eq, Structural, Debug)]
pub struct Color {
    pub r: i64,
    pub g: i64,
    pub b: i64,
    pub a: i64,
}

impl Color {
    /// An opaque color from three channels (alpha is full).
    pub fn from_rgb(r: i64, g: i64, b: i64) -> (c: Color)
        ensures
            c == (Color { r, g, b, a: FX_ONE }),
    {
        Color { r, g, b, a: FX_ONE }
    }
}

} // verus!
