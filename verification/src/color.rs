//! Opaque colours and the modulation that a renderer applies to an image.

use vstd::prelude::*;

verus! {

/// An opaque colour: red, green and blue, each from 0 to 255.
#[derive(Clone, Copy, Debug, PartialEq, Eq, Structural)]
pub struct Color {
    pub r: u8,
    pub g: u8,
    pub b: u8,
}

/// What a renderer multiplies an image by when it draws it. The image's
/// stored pixels are never touched.
#[derive(Clone, Copy, Debug, PartialEq, Eq, Structural)]
pub struct Modulation {
    /// Factor for the three colour channels; white leaves them as they are.
    pub tint: Color,
    /// Factor for the opacity; 255 leaves it as it is.
    pub alpha: u8,
}

impl Color {
    /// The colour with these three channels.
    pub fn rgb(r: u8, g: u8, b: u8) -> (c: Color)
        ensures
            c == (Color { r, g, b }),
    {
        Color { r, g, b }
    }

    /// White: as a tint it changes nothing.
    pub fn white() -> (c: Color)
        ensures
            c == (Color { r: 255, g: 255, b: 255 }),
    {
        Color { r: 255, g: 255, b: 255 }
    }

    /// Black.
    pub fn black() -> (c: Color)
        ensures
            c == (Color { r: 0, g: 0, b: 0 }),
    {
        Color { r: 0, g: 0, b: 0 }
    }

    /// The colour that marks transparent pixels in an image file: cyan.
    pub fn color_key() -> (c: Color)
        ensures
            c == (Color { r: 0, g: 255, b: 255 }),
    {
        Color { r: 0, g: 0xff, b: 0xff }
    }
}

impl Modulation {
    /// The modulation that draws an image as it is stored.
    pub open spec fn spec_identity() -> Modulation {
        Modulation { tint: Color { r: 255, g: 255, b: 255 }, alpha: 255 }
    }

    /// The modulation that draws an image as it is stored: a white tint at
    /// full opacity.
    pub fn identity() -> (m: Modulation)
        ensures
            m == Self::spec_identity(),
    {
        Modulation { tint: Color { r: 255, g: 255, b: 255 }, alpha: 255 }
    }
}

} // verus!
