use vstd::prelude::*;

verus! {

/// One opaque pixel: red, green and blue samples of eight bits each.
#[derive(Clone, Copy, Debug, PartialEq, Eq, Structural)]
pub struct Rgb {
    pub r: u8,
    pub g: u8,
    pub b: u8,
}

/// One pixel with transparency: red, green, blue and alpha samples.
#[derive(Clone, Copy, Debug, PartialEq, Eq, Structural)]
pub struct Rgba {
    pub r: u8,
    pub g: u8,
    pub b: u8,
    pub a: u8,
}

/// Perceptual brightness of a pixel: the BT.709 weighting of its three
/// samples in ten-thousandths, rounded down.
pub open spec fn luma_of(p: Rgb) -> int {
    (2126 * p.r + 7152 * p.g + 722 * p.b) / 10000
}

/// Calls `image::Pixel::to_luma` on an `image::Rgb<u8>`.
///
/// Trusted: for 8-bit samples the image crate weighs red, green and blue by
/// 2126, 7152 and 722, adds them up in 32 bits and divides by 10000 with the
/// remainder dropped.
#[verifier::external_body]
fn to_luma(p: Rgb) -> (l: u8)
    ensures
        l as int == luma_of(p),
{
    image::Pixel::to_luma(&image::Rgb([p.r, p.g, p.b])).0[0]
}

impl Rgb {
    /// Pure white.
    pub open spec fn white() -> Rgb {
        Rgb { r: 255, g: 255, b: 255 }
    }

    /// Pure black.
    pub open spec fn black() -> Rgb {
        Rgb { r: 0, g: 0, b: 0 }
    }

    /// The brightness of this pixel.
    pub fn luma(&self) -> (l: u8)
        ensures
            l as int == luma_of(*self),
    {
        to_luma(*self)
    }
}

} // verus!
