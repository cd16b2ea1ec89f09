use vstd::prelude::*;
use crate::blend::{color_pixel, color_pixel_spec, grey_pixel, grey_pixel_spec};
use crate::factor::Factor;
use crate::pixel::{Rgb, Rgba};
use crate::raster::{lemma_index_in_bounds, lemma_index_unique, Image, ImageView, Layout};

verus! {

/// Which transform is applied to each pair of pixels, and with which factors.
#[derive(Clone, Copy, Debug, PartialEq, Eq, Structural)]
pub enum Blend {
    /// The greyscale transform.
    Grey { white_light: Factor, black_light: Factor },
    /// The colour transform. Both saturations lie between zero and one.
    Color { white_light: Factor, black_light: Factor, white_color: Factor, black_color: Factor },
}

impl Blend {
    /// The saturations, where there are any, lie between zero and one.
    pub open spec fn valid(self) -> bool {
        match self {
            Blend::Grey { .. } => true,
            Blend::Color { white_color, black_color, .. } => white_color.is_fraction()
                && black_color.is_fraction(),
        }
    }

    /// The composite of one pair of pixels.
    pub open spec fn pixel_spec(self, white: Rgb, black: Rgb) -> Rgba {
        match self {
            Blend::Grey { white_light, black_light } => grey_pixel_spec(
                white,
                black,
                white_light,
                black_light,
            ),
            Blend::Color { white_light, black_light, white_color, black_color } => color_pixel_spec(
                white,
                black,
                white_light,
                black_light,
                white_color,
                black_color,
            ),
        }
    }

    /// Tells whether the saturations, where there are any, lie between zero
    /// and one.
    pub fn is_valid(&self) -> (yes: bool)
        ensures
            yes == self.valid(),
    {
        match self {
            Blend::Grey { .. } => true,
            Blend::Color { white_color, black_color, .. } => white_color.in_unit_range()
                && black_color.in_unit_range(),
        }
    }

    /// Computes the composite of one pair of pixels.
    pub fn pixel(&self, white: Rgb, black: Rgb) -> (out: Rgba)
        requires
            self.valid(),
        ensures
            out == self.pixel_spec(white, black),
    {
        match self {
            Blend::Grey { white_light, black_light } => grey_pixel(
                white,
                black,
                *white_light,
                *black_light,
            ),
            Blend::Color { white_light, black_light, white_color, black_color } => color_pixel(
                white,
                black,
                *white_light,
                *black_light,
                *white_color,
                *black_color,
            ),
        }
    }
}

/// The pair of pixels that enters the transform in column `x` of row `y`.
/// With the checkerboard on, the black pixel gives way to pure white where
/// `x + y` is even, and the white pixel to pure black where it is odd.
pub open spec fn substituted(on: bool, x: int, y: int, white: Rgb, black: Rgb) -> (Rgb, Rgb) {
    if !on {
        (white, black)
    } else if (x + y) % 2 == 0 {
        (white, Rgb::white())
    } else {
        (Rgb::black(), black)
    }
}

/// Computes the pair of pixels that enters the transform.
pub fn substitute(on: bool, x: u32, y: u32, white: Rgb, black: Rgb) -> (pair: (Rgb, Rgb))
    ensures
        pair == substituted(on, x as int, y as int, white, black),
{
    if !on {
        (white, black)
    } else if ((x as u64) + (y as u64)) % 2 == 0 {
        (white, Rgb { r: 255, g: 255, b: 255 })
    } else {
        (Rgb { r: 0, g: 0, b: 0 }, black)
    }
}

/// The pixel of the composite in column `x` of row `y`.
pub open spec fn composite_at(
    white: ImageView,
    black: ImageView,
    blend: Blend,
    checkboard: bool,
    x: int,
    y: int,
) -> Rgba {
    let pair = substituted(checkboard, x, y, white.rgb_at(x, y), black.rgb_at(x, y));
    blend.pixel_spec(pair.0, pair.1)
}

/// `out` is the composite of `white` and `black`: an RGBA image of their
/// size, each pixel of it made of the two pixels in its place.
pub open spec fn composite_of(
    out: ImageView,
    white: ImageView,
    black: ImageView,
    blend: Blend,
    checkboard: bool,
) -> bool {
    &&& out.wf()
    &&& out.layout == Layout::Rgba8
    &&& out.width == white.width
    &&& out.height == white.height
    &&& forall|x: int, y: int|
        white.contains(x, y) ==> #[trigger] out.rgba_at(x, y) == composite_at(
            white,
            black,
            blend,
            checkboard,
            x,
            y,
        )
}

/// Composes two RGB images of one size, pixel by pixel.
pub fn compose(white: &Image, black: &Image, blend: &Blend, checkboard: bool) -> (out: Image)
    requires
        blend.valid(),
        white@.is_rgb8(),
        black@.is_rgb8(),
        white@.width == black@.width,
        white@.height == black@.height,
    ensures
        composite_of(out@, white@, black@, *blend, checkboard),
{
    let width = white.width();
    let height = black.height();
    let wdata = white.as_raw();
    let bdata = black.as_raw();
    let n = white.pixel_count();
    let mut data: Vec<u8> = Vec::new();
    let mut x: u32 = 0;
    let mut y: u32 = 0;
    let mut i: usize = 0;
    let len = wdata.len();
    assert(n > 0 ==> width > 0) by (nonlinear_arith)
        requires
            n == width * height,
    ;
    while i < n
        invariant
            len == 3 * n,
            blend.valid(),
            white@.wf(),
            black@.wf(),
            white@.is_rgb8(),
            black@.is_rgb8(),
            white@.width == width == black@.width,
            white@.height == height == black@.height,
            wdata@ == white@.samples,
            bdata@ == black@.samples,
            n == width * height,
            3 * n == wdata@.len() == bdata@.len(),
            i <= n,
            i == y * width + x,
            i < n ==> x < width,
            data@.len() == 4 * i,
            forall|xx: int, yy: int|
                white@.contains(xx, yy) && white@.index_of(xx, yy) < i ==> #[trigger] (ImageView {
                    width: width as nat,
                    height: height as nat,
                    layout: Layout::Rgba8,
                    samples: data@,
                }).rgba_at(xx, yy) == composite_at(white@, black@, *blend, checkboard, xx, yy),
        decreases n - i,
    {
        assert(y < height) by (nonlinear_arith)
            requires
                y * width + x < width * height,
                0 <= x < width,
                0 <= y,
                0 <= height,
        ;
        let wp = Rgb { r: wdata[3 * i], g: wdata[3 * i + 1], b: wdata[3 * i + 2] };
        let bp = Rgb { r: bdata[3 * i], g: bdata[3 * i + 1], b: bdata[3 * i + 2] };
        assert(wp == white@.rgb_at(x as int, y as int));
        assert(bp == black@.rgb_at(x as int, y as int));
        let (w, b) = substitute(checkboard, x, y, wp, bp);
        let p = blend.pixel(w, b);
        assert(p == composite_at(white@, black@, *blend, checkboard, x as int, y as int));
        let ghost before = data@;
        data.push(p.r);
        data.push(p.g);
        data.push(p.b);
        data.push(p.a);
        proof {
            let now = ImageView {
                width: width as nat,
                height: height as nat,
                layout: Layout::Rgba8,
                samples: data@,
            };
            let then = ImageView {
                width: width as nat,
                height: height as nat,
                layout: Layout::Rgba8,
                samples: before,
            };
            assert forall|xx: int, yy: int|
                white@.contains(xx, yy) && white@.index_of(xx, yy) < i + 1 implies #[trigger] now.rgba_at(
                xx,
                yy,
            ) == composite_at(white@, black@, *blend, checkboard, xx, yy) by {
                if white@.index_of(xx, yy) < i {
                    lemma_index_in_bounds(width as int, height as int, xx, yy);
                    assert(now.rgba_at(xx, yy) == then.rgba_at(xx, yy));
                } else {
                    lemma_index_unique(width as int, xx, yy, x as int, y as int);
                    assert(now.rgba_at(xx, yy) == p);
                }
            }
        }
        i = i + 1;
        if x + 1 == width {
            x = 0;
            y = y + 1;
            assert(i == y * width + x) by (nonlinear_arith)
                requires
                    i == (y - 1) * width + (width - 1) + 1,
                    x == 0,
            ;
        } else {
            x = x + 1;
        }
    }
    let out = Image::from_parts(width, height, Layout::Rgba8, data);
    proof {
        assert forall|xx: int, yy: int| white@.contains(xx, yy) implies #[trigger] out@.rgba_at(
            xx,
            yy,
        ) == composite_at(white@, black@, *blend, checkboard, xx, yy) by {
            lemma_index_in_bounds(width as int, height as int, xx, yy);
        }
    }
    out
}

} // verus!
