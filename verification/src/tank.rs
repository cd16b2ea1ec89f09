use vstd::prelude::*;
use crate::compose::{compose, composite_of, Blend};
use crate::error::TankError;
use crate::factor::Factor;
use crate::raster::{Image, ImageView, Layout};
use crate::resize::{can_resize, is_resized, resize, resize_admits};

verus! {

/// How the two source images are brought to one size before they are
/// composed.
#[derive(Clone, Copy, Debug, PartialEq, Eq, Structural)]
pub enum Resize {
    /// Leave both images as they are.
    No,
    /// Bring both images to the smaller of the two widths and the smaller of
    /// the two heights.
    Auto,
    /// Bring both images to this width and height.
    To(u32, u32),
}

/// The smaller of two sizes.
pub open spec fn smaller(a: nat, b: nat) -> nat {
    if a <= b {
        a
    } else {
        b
    }
}

/// The size that the policy asks for, or nothing where it asks for none.
pub open spec fn target_of(white: ImageView, black: ImageView, policy: Resize) -> Option<
    (nat, nat),
> {
    match policy {
        Resize::No => None,
        Resize::Auto => Some(
            (smaller(white.width, black.width), smaller(white.height, black.height)),
        ),
        Resize::To(w, h) => Some((w as nat, h as nat)),
    }
}

/// `white_after` and `black_after` are the two images once the policy has
/// been applied: the images themselves where it asks for no size, else each
/// image brought to the size that it asks for.
pub open spec fn is_reconciled(
    white: ImageView,
    black: ImageView,
    policy: Resize,
    white_after: ImageView,
    black_after: ImageView,
) -> bool {
    match target_of(white, black, policy) {
        None => white_after == white && black_after == black,
        Some(size) => is_resized(white, size.0, size.1, white_after) && is_resized(
            black,
            size.0,
            size.1,
            black_after,
        ),
    }
}

/// The policies that can be applied to two images: those whose target both
/// images can be brought to.
pub open spec fn reconcile_admits(white: ImageView, black: ImageView, policy: Resize) -> bool {
    match target_of(white, black, policy) {
        None => true,
        Some(size) => resize_admits(white, size.0, size.1) && resize_admits(
            black,
            size.0,
            size.1,
        ),
    }
}

/// Whether the two images have one size once the policy has been applied:
/// always where it asks for a size, and where it asks for none, if they have
/// one size as they are.
pub open spec fn sizes_agree(white: ImageView, black: ImageView, policy: Resize) -> bool {
    policy == Resize::No ==> white.width == black.width && white.height == black.height
}

/// Why a request is turned down, if it is. Sizes that differ come first,
/// then a source that is not 8-bit RGB, then saturations out of range.
pub open spec fn verdict(white: ImageView, black: ImageView, blend: Blend, policy: Resize) -> Option<
    TankError,
> {
    if !sizes_agree(white, black, policy) {
        Some(TankError::SizeMismatch)
    } else if !white.is_rgb8() || !black.is_rgb8() {
        Some(TankError::UnsupportedFormat)
    } else if !blend.valid() {
        Some(TankError::InvalidParameter)
    } else {
        None
    }
}

/// What a request does. Where the verdict is an error, that error is
/// returned and both images stay as they were. Else the policy is applied to
/// the images, and the composite of the two, as the policy left them, is
/// returned.
pub open spec fn outcome_of(
    r: Result<Image, TankError>,
    white: ImageView,
    black: ImageView,
    white_after: ImageView,
    black_after: ImageView,
    blend: Blend,
    checkboard: bool,
    policy: Resize,
) -> bool {
    match verdict(white, black, blend, policy) {
        Some(e) => r == Err::<Image, TankError>(e) && white_after == white && black_after
            == black,
        None => {
            &&& is_reconciled(white, black, policy, white_after, black_after)
            &&& r matches Ok(out) && composite_of(
                out@,
                white_after,
                black_after,
                blend,
                checkboard,
            )
        },
    }
}

/// The automatic policy leaves both images with the smaller of the two
/// widths and the smaller of the two heights, and an explicit target leaves
/// both with exactly that size, whatever their sizes were.
pub proof fn lemma_reconciled_size(
    white: ImageView,
    black: ImageView,
    policy: Resize,
    white_after: ImageView,
    black_after: ImageView,
)
    requires
        is_reconciled(white, black, policy, white_after, black_after),
    ensures
        policy == Resize::Auto ==> white_after.width == smaller(white.width, black.width)
            && black_after.width == smaller(white.width, black.width) && white_after.height
            == smaller(white.height, black.height) && black_after.height == smaller(
            white.height,
            black.height,
        ),
        policy matches Resize::To(w, h) ==> white_after.width == w && black_after.width == w
            && white_after.height == h && black_after.height == h,
        policy != Resize::No ==> white_after.width == black_after.width && white_after.height
            == black_after.height,
        white_after.layout == white.layout,
        black_after.layout == black.layout,
{
}

/// A composite has the size of the two images as the policy left them.
pub proof fn lemma_output_size(
    r: Result<Image, TankError>,
    white: ImageView,
    black: ImageView,
    white_after: ImageView,
    black_after: ImageView,
    blend: Blend,
    checkboard: bool,
    policy: Resize,
)
    requires
        outcome_of(r, white, black, white_after, black_after, blend, checkboard, policy),
        r.is_ok(),
    ensures
        r.unwrap()@.width == white_after.width,
        r.unwrap()@.width == black_after.width,
        r.unwrap()@.height == white_after.height,
        r.unwrap()@.height == black_after.height,
        policy == Resize::No ==> r.unwrap()@.width == white.width && r.unwrap()@.height
            == white.height,
        policy == Resize::Auto ==> r.unwrap()@.width == smaller(white.width, black.width)
            && r.unwrap()@.height == smaller(white.height, black.height),
        policy matches Resize::To(w, h) ==> r.unwrap()@.width == w && r.unwrap()@.height == h,
{
    lemma_reconciled_size(white, black, policy, white_after, black_after);
}

/// Two RGB images of one size are composed without resizing, whatever the
/// light factors are: the composite has their size, and is made of the two
/// images as they were.
pub proof fn lemma_equal_rgb_inputs_compose(
    r: Result<Image, TankError>,
    white: ImageView,
    black: ImageView,
    white_after: ImageView,
    black_after: ImageView,
    blend: Blend,
    checkboard: bool,
)
    requires
        white.is_rgb8(),
        black.is_rgb8(),
        white.width == black.width,
        white.height == black.height,
        blend.valid(),
        outcome_of(r, white, black, white_after, black_after, blend, checkboard, Resize::No),
    ensures
        r.is_ok(),
        r.unwrap()@.width == white.width,
        r.unwrap()@.height == white.height,
        composite_of(r.unwrap()@, white, black, blend, checkboard),
{
}

/// Two images of different sizes are refused without resizing, whatever
/// else is asked; nothing is composed, and both images stay as they were.
pub proof fn lemma_mismatch_is_refused(
    r: Result<Image, TankError>,
    white: ImageView,
    black: ImageView,
    white_after: ImageView,
    black_after: ImageView,
    blend: Blend,
    checkboard: bool,
)
    requires
        white.width != black.width || white.height != black.height,
        outcome_of(r, white, black, white_after, black_after, blend, checkboard, Resize::No),
    ensures
        r == Err::<Image, TankError>(TankError::SizeMismatch),
        white_after == white,
        black_after == black,
{
}

/// The smaller width and the smaller height of two images.
fn common_size(white: &Image, black: &Image) -> (size: (u32, u32))
    ensures
        size.0 == smaller(white@.width, black@.width),
        size.1 == smaller(white@.height, black@.height),
{
    let ww = white.width();
    let bw = black.width();
    let wh = white.height();
    let bh = black.height();
    (
        if ww <= bw {
            ww
        } else {
            bw
        },
        if wh <= bh {
            wh
        } else {
            bh
        },
    )
}

/// Tells whether the policy can be applied to two images.
pub fn can_reconcile(white: &Image, black: &Image, policy: Resize) -> (yes: bool)
    ensures
        yes == reconcile_admits(white@, black@, policy),
{
    match policy {
        Resize::No => true,
        Resize::Auto => {
            let (w, h) = common_size(white, black);
            can_resize(white, w, h) && can_resize(black, w, h)
        },
        Resize::To(w, h) => can_resize(white, w, h) && can_resize(black, w, h),
    }
}

/// Two source images, to be composed into one that shows the first over a
/// white backdrop and the second over a black one.
#[derive(Debug)]
pub struct MirageTank {
    white_img: Image,
    black_img: Image,
}

impl MirageTank {
    /// The image for the white backdrop.
    pub closed spec fn white(&self) -> ImageView {
        self.white_img@
    }

    /// The image for the black backdrop.
    pub closed spec fn black(&self) -> ImageView {
        self.black_img@
    }

    /// Takes the two source images.
    pub fn new(white_img: Image, black_img: Image) -> (tank: Self)
        ensures
            tank.white() == white_img@,
            tank.black() == black_img@,
    {
        Self { white_img, black_img }
    }

    /// The image for the white backdrop, as it is now.
    pub fn white_img(&self) -> (img: &Image)
        ensures
            img@ == self.white(),
    {
        &self.white_img
    }

    /// The image for the black backdrop, as it is now.
    pub fn black_img(&self) -> (img: &Image)
        ensures
            img@ == self.black(),
    {
        &self.black_img
    }

    /// Tells whether the policy can be applied to the two images.
    pub fn can_reconcile(&self, policy: Resize) -> (yes: bool)
        ensures
            yes == reconcile_admits(self.white(), self.black(), policy),
    {
        can_reconcile(&self.white_img, &self.black_img, policy)
    }

    /// Brings both images to the smaller of their widths and the smaller of
    /// their heights.
    pub fn resize_auto(&mut self)
        requires
            reconcile_admits(old(self).white(), old(self).black(), Resize::Auto),
        ensures
            is_reconciled(
                old(self).white(),
                old(self).black(),
                Resize::Auto,
                final(self).white(),
                final(self).black(),
            ),
            final(self).white().width == smaller(old(self).white().width, old(self).black().width),
            final(self).black().width == smaller(old(self).white().width, old(self).black().width),
            final(self).white().height == smaller(
                old(self).white().height,
                old(self).black().height,
            ),
            final(self).black().height == smaller(
                old(self).white().height,
                old(self).black().height,
            ),
    {
        let (width, height) = common_size(&self.white_img, &self.black_img);
        let white = resize(&self.white_img, width, height);
        let black = resize(&self.black_img, width, height);
        self.white_img = white;
        self.black_img = black;
    }

    /// Brings both images to `width` by `height` pixels.
    pub fn resize_to(&mut self, width: u32, height: u32)
        requires
            reconcile_admits(old(self).white(), old(self).black(), Resize::To(width, height)),
        ensures
            is_reconciled(
                old(self).white(),
                old(self).black(),
                Resize::To(width, height),
                final(self).white(),
                final(self).black(),
            ),
            final(self).white().width == width,
            final(self).black().width == width,
            final(self).white().height == height,
            final(self).black().height == height,
    {
        let white = resize(&self.white_img, width, height);
        let black = resize(&self.black_img, width, height);
        self.white_img = white;
        self.black_img = black;
    }

    /// Applies the policy and composes the two images with the given
    /// transform. A request that is turned down leaves both images as they
    /// were.
    pub fn run(&mut self, blend: Blend, checkboard: bool, policy: Resize) -> (r: Result<
        Image,
        TankError,
    >)
        requires
            verdict(old(self).white(), old(self).black(), blend, policy).is_none()
                ==> reconcile_admits(old(self).white(), old(self).black(), policy),
        ensures
            outcome_of(
                r,
                old(self).white(),
                old(self).black(),
                final(self).white(),
                final(self).black(),
                blend,
                checkboard,
                policy,
            ),
    {
        let same = match policy {
            Resize::No => self.white_img.width() == self.black_img.width()
                && self.white_img.height() == self.black_img.height(),
            _ => true,
        };
        if !same {
            return Err(TankError::SizeMismatch);
        }
        let rgb = match (self.white_img.layout(), self.black_img.layout()) {
            (Layout::Rgb8, Layout::Rgb8) => true,
            _ => false,
        };
        if !rgb {
            return Err(TankError::UnsupportedFormat);
        }
        if !blend.is_valid() {
            return Err(TankError::InvalidParameter);
        }
        match policy {
            Resize::No => {},
            Resize::Auto => self.resize_auto(),
            Resize::To(w, h) => self.resize_to(w, h),
        }
        Ok(compose(&self.white_img, &self.black_img, &blend, checkboard))
    }

    /// Composes the two images in greyscale.
    pub fn grey_car(
        &mut self,
        white_light: Factor,
        black_light: Factor,
        checkboard: bool,
        resize: Resize,
    ) -> (r: Result<Image, TankError>)
        requires
            verdict(
                old(self).white(),
                old(self).black(),
                Blend::Grey { white_light, black_light },
                resize,
            ).is_none() ==> reconcile_admits(old(self).white(), old(self).black(), resize),
        ensures
            outcome_of(
                r,
                old(self).white(),
                old(self).black(),
                final(self).white(),
                final(self).black(),
                Blend::Grey { white_light, black_light },
                checkboard,
                resize,
            ),
    {
        self.run(Blend::Grey { white_light, black_light }, checkboard, resize)
    }

    /// Composes the two images in colour. `white_color` and `black_color`
    /// say how much of each image's colour is kept; both lie between zero
    /// and one.
    pub fn color_car(
        &mut self,
        white_light: Factor,
        black_light: Factor,
        checkboard: bool,
        resize: Resize,
        white_color: Factor,
        black_color: Factor,
    ) -> (r: Result<Image, TankError>)
        requires
            verdict(
                old(self).white(),
                old(self).black(),
                Blend::Color { white_light, black_light, white_color, black_color },
                resize,
            ).is_none() ==> reconcile_admits(old(self).white(), old(self).black(), resize),
        ensures
            outcome_of(
                r,
                old(self).white(),
                old(self).black(),
                final(self).white(),
                final(self).black(),
                Blend::Color { white_light, black_light, white_color, black_color },
                checkboard,
                resize,
            ),
    {
        self.run(
            Blend::Color { white_light, black_light, white_color, black_color },
            checkboard,
            resize,
        )
    }
}

/// The transform that a request asks for: the colour transform where
/// `colorful` is set, the greyscale transform where it is not.
pub open spec fn chosen_blend(
    colorful: bool,
    white_light: Factor,
    black_light: Factor,
    white_color: Factor,
    black_color: Factor,
) -> Blend {
    if colorful {
        Blend::Color { white_light, black_light, white_color, black_color }
    } else {
        Blend::Grey { white_light, black_light }
    }
}

/// Composes two images in one call, in colour or in greyscale. The
/// saturations count only in colour.
pub fn generate(
    wimg: Image,
    bimg: Image,
    wlight: Factor,
    blight: Factor,
    wcolor: Factor,
    bcolor: Factor,
    resize: Resize,
    colorful: bool,
    checkboard: bool,
) -> (r: Result<Image, TankError>)
    requires
        verdict(wimg@, bimg@, chosen_blend(colorful, wlight, blight, wcolor, bcolor), resize).is_none()
            ==> reconcile_admits(wimg@, bimg@, resize),
    ensures
        exists|white_after: ImageView, black_after: ImageView|
            outcome_of(
                r,
                wimg@,
                bimg@,
                white_after,
                black_after,
                chosen_blend(colorful, wlight, blight, wcolor, bcolor),
                checkboard,
                resize,
            ),
{
    let mut tank = MirageTank::new(wimg, bimg);
    let r = if colorful {
        tank.color_car(wlight, blight, checkboard, resize, wcolor, bcolor)
    } else {
        tank.grey_car(wlight, blight, checkboard, resize)
    };
    assert(outcome_of(
        r,
        wimg@,
        bimg@,
        tank.white(),
        tank.black(),
        chosen_blend(colorful, wlight, blight, wcolor, bcolor),
        checkboard,
        resize,
    ));
    r
}

} // verus!
