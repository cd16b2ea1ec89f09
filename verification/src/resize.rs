use vstd::prelude::*;
use crate::raster::{Image, ImageView, Layout};

verus! {

/// The most pixels along one axis that an image may have, before or after,
/// when it is resampled. The image crate places its samples in single
/// precision, which is exact enough up to this size.
pub const AXIS_LIMIT: u32 = 0x10_0000;

/// The most source pixels that may fall into one pixel of a thumbnail: the
/// image crate adds up their samples in 32 bits.
pub const BLOCK_LIMIT: u64 = 0x100_0000;

/// What `image::DynamicImage::thumbnail_exact` returns: the samples of the
/// image of `nwidth` by `nheight` pixels that it makes of the image of `width`
/// by `height` pixels with these `samples`, `channels` to a pixel.
pub uninterp spec fn thumbnail_samples(
    channels: nat,
    width: nat,
    height: nat,
    samples: Seq<u8>,
    nwidth: nat,
    nheight: nat,
) -> Seq<u8>;

/// The sizes on which a thumbnail can be had: a target that is smaller on
/// both axes, no axis beyond [`AXIS_LIMIT`], and no more than
/// [`BLOCK_LIMIT`] source pixels to one target pixel.
pub open spec fn thumbnail_admits(width: nat, height: nat, nwidth: nat, nheight: nat) -> bool {
    &&& nwidth < width <= AXIS_LIMIT
    &&& nheight < height <= AXIS_LIMIT
    &&& (nwidth == 0 || nheight == 0 || (width / nwidth + 4) * (height / nheight + 4)
        <= BLOCK_LIMIT)
}

/// The sizes on which cubic resampling can be had: no axis beyond
/// [`AXIS_LIMIT`], and both the result and the intermediate image, which has
/// the old width, the new height and sixteen bytes to a pixel, small enough
/// to be allocated.
pub open spec fn catmull_rom_admits(
    channels: nat,
    width: nat,
    height: nat,
    nwidth: nat,
    nheight: nat,
) -> bool {
    &&& width <= AXIS_LIMIT
    &&& height <= AXIS_LIMIT
    &&& nwidth <= AXIS_LIMIT
    &&& nheight <= AXIS_LIMIT
    &&& 16 * width * nheight <= isize::MAX
    &&& channels * nwidth * nheight <= isize::MAX
}

/// Calls `image::DynamicImage::thumbnail_exact` on an image built from the
/// samples, and hands back the samples of the result.
///
/// Trusted: the result is a function of the arguments alone, and holds one
/// pixel for each place of the new size. The precondition keeps away from
/// the sizes on which the image crate can overflow its 32-bit sums.
#[verifier::external_body]
fn thumbnail_exact(
    layout: Layout,
    width: u32,
    height: u32,
    data: &Vec<u8>,
    nwidth: u32,
    nheight: u32,
) -> (out: Vec<u8>)
    requires
        data@.len() == width * height * layout.channels(),
        thumbnail_admits(width as nat, height as nat, nwidth as nat, nheight as nat),
    ensures
        out@ == thumbnail_samples(
            layout.channels(),
            width as nat,
            height as nat,
            data@,
            nwidth as nat,
            nheight as nat,
        ),
        out@.len() == nwidth * nheight * layout.channels(),
{
    let src = match layout {
        Layout::Rgb8 => image::DynamicImage::ImageRgb8(
            image::RgbImage::from_raw(width, height, data.clone()).unwrap(),
        ),
        Layout::Rgba8 => image::DynamicImage::ImageRgba8(
            image::RgbaImage::from_raw(width, height, data.clone()).unwrap(),
        ),
    };
    src.thumbnail_exact(nwidth, nheight).into_bytes()
}

/// Calls `image::DynamicImage::resize_exact` with the Catmull-Rom filter on
/// an image built from the samples, and hands back the samples of the result.
///
/// Trusted: the result holds one pixel for each place of the new size.
/// Nothing is said of the samples: the image crate works them out in single
/// precision, with operations whose rounding may differ from one machine to
/// the next. The precondition keeps away from the sizes that the image crate
/// cannot allocate.
#[verifier::external_body]
fn resize_exact_catmull_rom(
    layout: Layout,
    width: u32,
    height: u32,
    data: &Vec<u8>,
    nwidth: u32,
    nheight: u32,
) -> (out: Vec<u8>)
    requires
        data@.len() == width * height * layout.channels(),
        catmull_rom_admits(
            layout.channels(),
            width as nat,
            height as nat,
            nwidth as nat,
            nheight as nat,
        ),
    ensures
        out@.len() == nwidth * nheight * layout.channels(),
{
    let src = match layout {
        Layout::Rgb8 => image::DynamicImage::ImageRgb8(
            image::RgbImage::from_raw(width, height, data.clone()).unwrap(),
        ),
        Layout::Rgba8 => image::DynamicImage::ImageRgba8(
            image::RgbaImage::from_raw(width, height, data.clone()).unwrap(),
        ),
    };
    src.resize_exact(nwidth, nheight, image::imageops::CatmullRom).into_bytes()
}

/// `out` is `src` brought to `nwidth` by `nheight` pixels: an image of that
/// size in the layout of `src`. Where the target is smaller on both axes,
/// its samples are those of the fast thumbnail; where the target is the size
/// that `src` has already, they are those of `src`. In every other case the
/// image is resampled with the Catmull-Rom filter, and the samples are
/// whatever the resampling gave.
pub open spec fn is_resized(src: ImageView, nwidth: nat, nheight: nat, out: ImageView) -> bool {
    &&& out.width == nwidth
    &&& out.height == nheight
    &&& out.layout == src.layout
    &&& out.samples.len() == nwidth * nheight * src.layout.channels()
    &&& (nwidth < src.width && nheight < src.height ==> out.samples == thumbnail_samples(
        src.layout.channels(),
        src.width,
        src.height,
        src.samples,
        nwidth,
        nheight,
    ))
    &&& (nwidth == src.width && nheight == src.height ==> out.samples == src.samples)
}

/// The targets to which an image can be brought.
pub open spec fn resize_admits(src: ImageView, nwidth: nat, nheight: nat) -> bool {
    if nwidth < src.width && nheight < src.height {
        thumbnail_admits(src.width, src.height, nwidth, nheight)
    } else if nwidth != src.width || nheight != src.height {
        catmull_rom_admits(src.layout.channels(), src.width, src.height, nwidth, nheight)
    } else {
        true
    }
}

/// An image brought to the size that it has already is the image itself.
pub proof fn lemma_resized_same(src: ImageView, out: ImageView)
    requires
        src.wf(),
        is_resized(src, src.width, src.height, out),
    ensures
        out == src,
        out.wf(),
{
}

/// Tells whether `src` can be brought to `nwidth` by `nheight` pixels.
pub fn can_resize(src: &Image, nwidth: u32, nheight: u32) -> (yes: bool)
    ensures
        yes == resize_admits(src@, nwidth as nat, nheight as nat),
{
    let width = src.width();
    let height = src.height();
    if nwidth < width && nheight < height {
        if width > AXIS_LIMIT || height > AXIS_LIMIT {
            false
        } else if nwidth == 0 || nheight == 0 {
            true
        } else {
            let across: u64 = (width / nwidth) as u64 + 4;
            let down: u64 = (height / nheight) as u64 + 4;
            assert(0 <= across * down <= 0x1_0000_0000 * 0x1_0000_0000) by (nonlinear_arith)
                requires
                    0 <= across <= 0x1_0000_0000,
                    0 <= down <= 0x1_0000_0000,
            ;
            (across as u128) * (down as u128) <= BLOCK_LIMIT as u128
        }
    } else if nwidth != width || nheight != height {
        if width > AXIS_LIMIT || height > AXIS_LIMIT || nwidth > AXIS_LIMIT || nheight
            > AXIS_LIMIT {
            false
        } else {
            let channels = src.layout().channel_count() as u64;
            assert(0 <= width * nheight <= 0x10_0000 * 0x10_0000) by (nonlinear_arith)
                requires
                    0 <= width <= 0x10_0000,
                    0 <= nheight <= 0x10_0000,
            ;
            assert(0 <= nwidth * nheight <= 0x10_0000 * 0x10_0000) by (nonlinear_arith)
                requires
                    0 <= nwidth <= 0x10_0000,
                    0 <= nheight <= 0x10_0000,
            ;
            let scratch: u64 = 16 * ((width as u64) * (nheight as u64));
            let result: u64 = channels * ((nwidth as u64) * (nheight as u64));
            assert(scratch == 16 * width * nheight) by (nonlinear_arith)
                requires
                    scratch == 16 * (width * nheight),
            ;
            assert(result == channels * nwidth * nheight) by (nonlinear_arith)
                requires
                    result == channels * (nwidth * nheight),
            ;
            let most: u64 = isize::MAX as u64;
            scratch <= most && result <= most
        }
    } else {
        true
    }
}

/// Brings an image to `nwidth` by `nheight` pixels.
pub fn resize(src: &Image, nwidth: u32, nheight: u32) -> (out: Image)
    requires
        resize_admits(src@, nwidth as nat, nheight as nat),
    ensures
        is_resized(src@, nwidth as nat, nheight as nat, out@),
        out@.wf(),
{
    let width = src.width();
    let height = src.height();
    let layout = src.layout();
    if nwidth < width && nheight < height {
        let data = thumbnail_exact(layout, width, height, src.as_raw(), nwidth, nheight);
        Image::from_parts(nwidth, nheight, layout, data)
    } else if nwidth != width || nheight != height {
        let data = resize_exact_catmull_rom(layout, width, height, src.as_raw(), nwidth, nheight);
        Image::from_parts(nwidth, nheight, layout, data)
    } else {
        src.duplicate()
    }
}

} // verus!
