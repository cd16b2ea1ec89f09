use vstd::prelude::*;
use crate::error::TankError;
use crate::pixel::{Rgb, Rgba};

verus! {

/// How the samples of an image are grouped into pixels.
#[derive(Clone, Copy, Debug, PartialEq, Eq, Structural)]
pub enum Layout {
    /// Three samples of eight bits: red, green, blue.
    Rgb8,
    /// Four samples of eight bits: red, green, blue, alpha.
    Rgba8,
}

impl Layout {
    /// The number of samples in one pixel.
    pub open spec fn channels(self) -> nat {
        match self {
            Layout::Rgb8 => 3,
            Layout::Rgba8 => 4,
        }
    }

    /// The number of samples in one pixel.
    pub fn channel_count(self) -> (n: usize)
        ensures
            n == self.channels(),
    {
        match self {
            Layout::Rgb8 => 3,
            Layout::Rgba8 => 4,
        }
    }
}

/// What an image is, mathematically: its size, its layout and its samples,
/// row after row from the top, each row from the left.
pub struct ImageView {
    pub width: nat,
    pub height: nat,
    pub layout: Layout,
    pub samples: Seq<u8>,
}

impl ImageView {
    /// The sample count fits the size and the layout.
    pub open spec fn wf(self) -> bool {
        &&& self.width <= u32::MAX
        &&& self.height <= u32::MAX
        &&& self.samples.len() == self.width * self.height * self.layout.channels()
    }

    /// The image holds 8-bit RGB pixels.
    pub open spec fn is_rgb8(self) -> bool {
        self.layout == Layout::Rgb8
    }

    /// The image has a pixel in column `x` of row `y`.
    pub open spec fn contains(self, x: int, y: int) -> bool {
        0 <= x < self.width && 0 <= y < self.height
    }

    /// The place of the pixel in column `x` of row `y`, counted in pixels.
    pub open spec fn index_of(self, x: int, y: int) -> int {
        y * self.width + x
    }

    /// The pixel in column `x` of row `y` of an RGB image.
    pub open spec fn rgb_at(self, x: int, y: int) -> Rgb {
        let i = 3 * self.index_of(x, y);
        Rgb { r: self.samples[i], g: self.samples[i + 1], b: self.samples[i + 2] }
    }

    /// The pixel in column `x` of row `y` of an RGBA image.
    pub open spec fn rgba_at(self, x: int, y: int) -> Rgba {
        let i = 4 * self.index_of(x, y);
        Rgba {
            r: self.samples[i],
            g: self.samples[i + 1],
            b: self.samples[i + 2],
            a: self.samples[i + 3],
        }
    }
}

/// A pixel inside an image has its place before the image's pixel count.
pub proof fn lemma_index_in_bounds(width: int, height: int, x: int, y: int)
    requires
        0 <= x < width,
        0 <= y < height,
    ensures
        0 <= y * width + x < width * height,
{
    assert(0 <= y * width + x < width * height) by (nonlinear_arith)
        requires
            0 <= x < width,
            0 <= y < height,
    ;
}

/// Two pixels of one image that share a place are the same pixel.
pub proof fn lemma_index_unique(width: int, x1: int, y1: int, x2: int, y2: int)
    requires
        0 <= x1 < width,
        0 <= x2 < width,
        y1 * width + x1 == y2 * width + x2,
    ensures
        x1 == x2,
        y1 == y2,
{
    assert(y1 == y2) by (nonlinear_arith)
        requires
            0 <= x1 < width,
            0 <= x2 < width,
            y1 * width + x1 == y2 * width + x2,
    ;
}

/// An image in memory. Its sample count always fits its size and layout.
#[derive(Debug)]
pub struct Image {
    width: u32,
    height: u32,
    layout: Layout,
    data: Vec<u8>,
}

impl View for Image {
    type V = ImageView;

    closed spec fn view(&self) -> ImageView {
        ImageView {
            width: self.width as nat,
            height: self.height as nat,
            layout: self.layout,
            samples: self.data@,
        }
    }
}

impl Image {
    #[verifier::type_invariant]
    spec fn inv(self) -> bool {
        self.data@.len() == self.width * self.height * self.layout.channels()
    }

    /// Makes an image of `width` by `height` pixels from its samples. The
    /// samples are taken as they are when there are exactly as many as the
    /// size and the layout ask for; any other count is refused.
    pub fn from_raw(width: u32, height: u32, layout: Layout, data: Vec<u8>) -> (r: Result<
        Image,
        TankError,
    >)
        ensures
            r.is_ok() <==> data@.len() == width * height * layout.channels(),
            r matches Ok(img) ==> img@ == (ImageView {
                width: width as nat,
                height: height as nat,
                layout,
                samples: data@,
            }) && img@.wf(),
            r matches Err(e) ==> e == TankError::UnsupportedFormat,
    {
        assert(0 <= width * height <= 0xFFFF_FFFF * 0xFFFF_FFFF) by (nonlinear_arith)
            requires
                0 <= width <= 0xFFFF_FFFF,
                0 <= height <= 0xFFFF_FFFF,
        ;
        let pixels: u128 = (width as u128) * (height as u128);
        let wanted: u128 = pixels * (layout.channel_count() as u128);
        if data.len() as u128 == wanted {
            Ok(Image { width, height, layout, data })
        } else {
            Err(TankError::UnsupportedFormat)
        }
    }

    /// Makes an image from parts that are known to fit.
    pub(crate) fn from_parts(width: u32, height: u32, layout: Layout, data: Vec<u8>) -> (img: Image)
        requires
            data@.len() == width * height * layout.channels(),
        ensures
            img@ == (ImageView {
                width: width as nat,
                height: height as nat,
                layout,
                samples: data@,
            }),
            img@.wf(),
    {
        Image { width, height, layout, data }
    }

    /// The number of pixels in a row.
    pub fn width(&self) -> (w: u32)
        ensures
            w == self@.width,
            self@.wf(),
    {
        proof {
            use_type_invariant(self);
        }
        self.width
    }

    /// The number of rows.
    pub fn height(&self) -> (h: u32)
        ensures
            h == self@.height,
            self@.wf(),
    {
        proof {
            use_type_invariant(self);
        }
        self.height
    }

    /// How the samples are grouped.
    pub fn layout(&self) -> (l: Layout)
        ensures
            l == self@.layout,
    {
        self.layout
    }

    /// The samples, row after row.
    pub fn as_raw(&self) -> (s: &Vec<u8>)
        ensures
            s@ == self@.samples,
            self@.wf(),
    {
        proof {
            use_type_invariant(self);
        }
        &self.data
    }

    /// Gives the samples away.
    pub fn into_raw(self) -> (s: Vec<u8>)
        ensures
            s@ == self@.samples,
    {
        self.data
    }

    /// A copy of the image.
    pub fn duplicate(&self) -> (copy: Image)
        ensures
            copy@ == self@,
    {
        proof {
            use_type_invariant(self);
        }
        let data = self.data.clone();
        assert(data@ =~= self.data@);
        Image { width: self.width, height: self.height, layout: self.layout, data }
    }

    /// The number of pixels.
    pub(crate) fn pixel_count(&self) -> (n: usize)
        ensures
            n == self@.width * self@.height,
            n * self@.layout.channels() == self@.samples.len(),
    {
        let len = self.data.len();
        proof {
            use_type_invariant(self);
            let c = self.layout.channels() as int;
            let n = self.width * self.height;
            assert(0 <= n <= n * c) by (nonlinear_arith)
                requires
                    c >= 1,
                    n == self.width * self.height,
                    self.width >= 0,
                    self.height >= 0,
            ;
            assert(len == n * c);
        }
        (self.width as usize) * (self.height as usize)
    }

    /// The place of the first sample of the pixel in column `x` of row `y`.
    fn offset(&self, x: u32, y: u32) -> (i: usize)
        requires
            self@.contains(x as int, y as int),
        ensures
            i == self@.layout.channels() * self@.index_of(x as int, y as int),
            i + self@.layout.channels() <= self@.samples.len() <= usize::MAX,
    {
        let n = self.pixel_count();
        proof {
            lemma_index_in_bounds(self.width as int, self.height as int, x as int, y as int);
        }
        let k: usize = (y as usize) * (self.width as usize) + (x as usize);
        let c = self.layout.channel_count();
        let len = self.data.len();
        assert(0 <= c * k && c * k + c <= n * c) by (nonlinear_arith)
            requires
                0 <= k < n,
                c >= 0,
        ;
        c * k
    }

    /// The pixel in column `x` of row `y`, where the image holds RGB pixels
    /// and has such a pixel.
    pub fn rgb_at(&self, x: u32, y: u32) -> (p: Option<Rgb>)
        ensures
            p.is_some() <==> self@.is_rgb8() && self@.contains(x as int, y as int),
            p matches Some(v) ==> v == self@.rgb_at(x as int, y as int),
    {
        match self.layout {
            Layout::Rgb8 => {
                if x < self.width && y < self.height {
                    let i = self.offset(x, y);
                    Some(Rgb { r: self.data[i], g: self.data[i + 1], b: self.data[i + 2] })
                } else {
                    None
                }
            },
            Layout::Rgba8 => None,
        }
    }

    /// The pixel in column `x` of row `y`, where the image holds RGBA pixels
    /// and has such a pixel.
    pub fn rgba_at(&self, x: u32, y: u32) -> (p: Option<Rgba>)
        ensures
            p.is_some() <==> !self@.is_rgb8() && self@.contains(x as int, y as int),
            p matches Some(v) ==> v == self@.rgba_at(x as int, y as int),
    {
        match self.layout {
            Layout::Rgb8 => None,
            Layout::Rgba8 => {
                if x < self.width && y < self.height {
                    let i = self.offset(x, y);
                    Some(
                        Rgba {
                            r: self.data[i],
                            g: self.data[i + 1],
                            b: self.data[i + 2],
                            a: self.data[i + 3],
                        },
                    )
                } else {
                    None
                }
            },
        }
    }
}

} // verus!
