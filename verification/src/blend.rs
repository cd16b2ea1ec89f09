use vstd::prelude::*;
use crate::arith::{
    clamp, lemma_div_at_least, lemma_div_at_most, max_of, min_of, round_div, unit_ratio_255,
};
use crate::factor::{Factor, SCALE};
use crate::pixel::{luma_of, Rgb, Rgba};

verus! {

/// The largest magnitude that [`unit_ratio`] takes.
const RATIO_LIMIT: i128 = 0x1_0000_0000_0000_0000_0000_0000;

/// Computes [`unit_ratio_255`] in machine integers.
fn unit_ratio(n: i128, d: i128) -> (s: u8)
    requires
        -RATIO_LIMIT <= n <= RATIO_LIMIT,
        -RATIO_LIMIT <= d <= RATIO_LIMIT,
    ensures
        s as int == unit_ratio_255(n as int, d as int),
{
    if d == 0 {
        return 0;
    }
    // Flip both signs when the divisor is negative: the ratio stays.
    let (num, den): (i128, i128) = if d > 0 {
        (n, d)
    } else {
        (-n, -d)
    };
    assert(-255 * n == 255 * (-n));
    assert(unit_ratio_255(n as int, d as int) == clamp(
        round_div(255 * num, den as int),
        0,
        255,
    ));
    if num <= 0 {
        proof {
            lemma_div_at_most(2 * (255 * num) + den, 2 * den, 0);
        }
        0
    } else if num >= den {
        proof {
            lemma_div_at_least(2 * (255 * num) + den, 2 * den, 255);
        }
        255
    } else {
        let q: i128 = (510 * num + den) / (2 * den);
        proof {
            lemma_div_at_least(2 * (255 * num) + den, 2 * den, 0);
            lemma_div_at_most(2 * (255 * num) + den, 2 * den, 255);
        }
        q as u8
    }
}

/// Alpha of the greyscale composite, in steps of 1/65536, before rounding:
/// 255 less the lit white brightness plus the lit black brightness, held
/// between 0 and 255.
pub open spec fn grey_alpha_num(lw: int, lb: int, white_light: int, black_light: int) -> int {
    clamp(255 * SCALE - lw * white_light + lb * black_light, 0, 255 * SCALE)
}

/// Alpha sample of the greyscale composite.
pub open spec fn grey_alpha(lw: int, lb: int, white_light: int, black_light: int) -> int {
    round_div(grey_alpha_num(lw, lb, white_light, black_light), SCALE as int)
}

/// Grey sample of the greyscale composite: the lit black brightness over
/// alpha, on the scale of 0 to 255; zero where alpha is zero.
pub open spec fn grey_level(lw: int, lb: int, white_light: int, black_light: int) -> int {
    unit_ratio_255(lb * black_light, grey_alpha_num(lw, lb, white_light, black_light))
}

/// The greyscale composite of one pair of pixels.
pub open spec fn grey_pixel_spec(white: Rgb, black: Rgb, white_light: Factor, black_light: Factor) -> Rgba {
    let lw = luma_of(white);
    let lb = luma_of(black);
    let v = grey_level(lw, lb, white_light.raw as int, black_light.raw as int);
    let a = grey_alpha(lw, lb, white_light.raw as int, black_light.raw as int);
    Rgba { r: v as u8, g: v as u8, b: v as u8, a: a as u8 }
}

/// Both samples of the greyscale composite lie between 0 and 255, whatever
/// the brightnesses and the light factors are.
pub proof fn lemma_grey_in_range(lw: int, lb: int, white_light: int, black_light: int)
    ensures
        0 <= grey_level(lw, lb, white_light, black_light) <= 255,
        0 <= grey_alpha(lw, lb, white_light, black_light) <= 255,
{
    let a = grey_alpha_num(lw, lb, white_light, black_light);
    lemma_div_at_least(2 * a + SCALE, 2 * SCALE, 0);
    lemma_div_at_most(2 * a + SCALE, 2 * SCALE, 255);
}

/// The samples of the greyscale composite are the grey level, three times,
/// and alpha: nothing is lost where they are stored in eight bits.
pub proof fn lemma_grey_pixel_samples(white: Rgb, black: Rgb, white_light: Factor, black_light: Factor)
    ensures
        ({
            let p = grey_pixel_spec(white, black, white_light, black_light);
            let lw = luma_of(white);
            let lb = luma_of(black);
            &&& p.r == grey_level(lw, lb, white_light.raw as int, black_light.raw as int)
            &&& p.g == p.r
            &&& p.b == p.r
            &&& p.a == grey_alpha(lw, lb, white_light.raw as int, black_light.raw as int)
        }),
{
    lemma_grey_in_range(
        luma_of(white),
        luma_of(black),
        white_light.raw as int,
        black_light.raw as int,
    );
}

/// Computes the greyscale composite of one pair of pixels.
pub fn grey_pixel(white: Rgb, black: Rgb, white_light: Factor, black_light: Factor) -> (out: Rgba)
    ensures
        out == grey_pixel_spec(white, black, white_light, black_light),
{
    let lw: i64 = white.luma() as i64;
    let lb: i64 = black.luma() as i64;
    let wl: i64 = white_light.raw as i64;
    let bl: i64 = black_light.raw as i64;
    assert(-255 * 0x8000_0000 <= lw * wl <= 255 * 0x8000_0000) by (nonlinear_arith)
        requires
            0 <= lw <= 255,
            -0x8000_0000 <= wl <= 0x8000_0000,
    ;
    assert(-255 * 0x8000_0000 <= lb * bl <= 255 * 0x8000_0000) by (nonlinear_arith)
        requires
            0 <= lb <= 255,
            -0x8000_0000 <= bl <= 0x8000_0000,
    ;
    let wc: i64 = lw * wl;
    let bc: i64 = lb * bl;
    let full: i64 = 255 * (SCALE as i64);
    let sum: i64 = full - wc + bc;
    let alpha: i64 = if sum < 0 {
        0
    } else if sum > full {
        full
    } else {
        sum
    };
    assert(alpha == grey_alpha_num(lw as int, lb as int, wl as int, bl as int));
    let v = unit_ratio(bc as i128, alpha as i128);
    let a: i64 = (2 * alpha + (SCALE as i64)) / (2 * (SCALE as i64));
    proof {
        lemma_grey_in_range(lw as int, lb as int, wl as int, bl as int);
    }
    Rgba { r: v, g: v, b: v, a: a as u8 }
}

/// One squared: the denominator of a product of two factors.
pub const SCALE_SQUARED: i64 = 0x1_0000_0000;

/// The denominator of the colour alpha: ten thousand, for the brightness
/// weights, times the denominator of a product of two factors.
pub const ALPHA_SCALE: i64 = 10000 * 0x1_0000_0000;

/// One lit sample of the colour composite, in steps of 1/65536 squared: the
/// sample `ch` and the brightness `l` of its pixel, blended by the saturation
/// `sat`, then scaled by `light`.
pub open spec fn mix(ch: int, l: int, sat: int, light: int) -> int {
    (ch * sat + l * (SCALE - sat)) * light
}

/// Alpha of the colour composite before rounding, in steps of
/// 1/(10000 * 65536 * 65536). `w` and `b` hold the three lit samples of the
/// white and of the black pixel. Alpha is the weighted brightness of
/// `255 - w + b`, raised to the largest lit black sample where that is
/// larger, and held at 255 from above.
pub open spec fn color_alpha_num(w: (int, int, int), b: (int, int, int)) -> int {
    let d0 = 255 * SCALE_SQUARED - w.0 + b.0;
    let d1 = 255 * SCALE_SQUARED - w.1 + b.1;
    let d2 = 255 * SCALE_SQUARED - w.2 + b.2;
    let weighted = 2126 * d0 + 7152 * d1 + 722 * d2;
    let peak = max_of(b.0, max_of(b.1, b.2));
    min_of(max_of(weighted, 10000 * peak), 255 * ALPHA_SCALE)
}

/// Alpha sample of the colour composite: alpha rounded, and zero where alpha
/// is negative.
pub open spec fn color_alpha(w: (int, int, int), b: (int, int, int)) -> int {
    round_div(max_of(color_alpha_num(w, b), 0), ALPHA_SCALE as int)
}

/// One colour sample of the composite: the lit black sample `bc` over alpha,
/// on the scale of 0 to 255; zero where alpha is zero.
pub open spec fn color_channel(bc: int, w: (int, int, int), b: (int, int, int)) -> int {
    unit_ratio_255(10000 * bc, color_alpha_num(w, b))
}

/// The three lit samples of a pixel.
pub open spec fn lit(p: Rgb, sat: Factor, light: Factor) -> (int, int, int) {
    let l = luma_of(p);
    (
        mix(p.r as int, l, sat.raw as int, light.raw as int),
        mix(p.g as int, l, sat.raw as int, light.raw as int),
        mix(p.b as int, l, sat.raw as int, light.raw as int),
    )
}

/// The colour composite of one pair of pixels.
pub open spec fn color_pixel_spec(
    white: Rgb,
    black: Rgb,
    white_light: Factor,
    black_light: Factor,
    white_color: Factor,
    black_color: Factor,
) -> Rgba {
    let w = lit(white, white_color, white_light);
    let b = lit(black, black_color, black_light);
    Rgba {
        r: color_channel(b.0, w, b) as u8,
        g: color_channel(b.1, w, b) as u8,
        b: color_channel(b.2, w, b) as u8,
        a: color_alpha(w, b) as u8,
    }
}

/// Every sample of the colour composite lies between 0 and 255, whatever the
/// lit samples are.
pub proof fn lemma_color_in_range(bc: int, w: (int, int, int), b: (int, int, int))
    ensures
        0 <= color_channel(bc, w, b) <= 255,
        0 <= color_alpha(w, b) <= 255,
{
    let a = max_of(color_alpha_num(w, b), 0);
    lemma_div_at_least(2 * a + ALPHA_SCALE, 2 * ALPHA_SCALE, 0);
    lemma_div_at_most(2 * a + ALPHA_SCALE, 2 * ALPHA_SCALE, 255);
}

/// The samples of the colour composite are the three colour samples and
/// alpha: nothing is lost where they are stored in eight bits.
pub proof fn lemma_color_pixel_samples(
    white: Rgb,
    black: Rgb,
    white_light: Factor,
    black_light: Factor,
    white_color: Factor,
    black_color: Factor,
)
    ensures
        ({
            let p = color_pixel_spec(
                white,
                black,
                white_light,
                black_light,
                white_color,
                black_color,
            );
            let w = lit(white, white_color, white_light);
            let b = lit(black, black_color, black_light);
            &&& p.r == color_channel(b.0, w, b)
            &&& p.g == color_channel(b.1, w, b)
            &&& p.b == color_channel(b.2, w, b)
            &&& p.a == color_alpha(w, b)
        }),
{
    let w = lit(white, white_color, white_light);
    let b = lit(black, black_color, black_light);
    lemma_color_in_range(b.0, w, b);
    lemma_color_in_range(b.1, w, b);
    lemma_color_in_range(b.2, w, b);
}

/// The largest magnitude of a lit sample.
const LIT_LIMIT: i64 = 255 * 0x8000_0000_0000;

/// Computes one lit sample.
fn lit_sample(ch: u8, l: u8, sat: Factor, light: Factor) -> (t: i64)
    requires
        sat.is_fraction(),
    ensures
        t == mix(ch as int, l as int, sat.raw as int, light.raw as int),
        -LIT_LIMIT <= t <= LIT_LIMIT,
{
    let s: i64 = sat.raw as i64;
    let unit: i64 = SCALE as i64;
    assert(0 <= ch * s <= 255 * s) by (nonlinear_arith)
        requires
            0 <= ch <= 255,
            0 <= s,
    ;
    assert(0 <= l * (unit - s) <= 255 * (unit - s)) by (nonlinear_arith)
        requires
            0 <= l <= 255,
            0 <= unit - s,
    ;
    let blended: i64 = (ch as i64) * s + (l as i64) * (unit - s);
    let k: i64 = light.raw as i64;
    assert(-LIT_LIMIT <= blended * k <= LIT_LIMIT) by (nonlinear_arith)
        requires
            0 <= blended <= 255 * 65536,
            -0x8000_0000 <= k <= 0x8000_0000,
    ;
    blended * k
}

/// Computes the colour composite of one pair of pixels. Both saturations
/// lie between zero and one.
pub fn color_pixel(
    white: Rgb,
    black: Rgb,
    white_light: Factor,
    black_light: Factor,
    white_color: Factor,
    black_color: Factor,
) -> (out: Rgba)
    requires
        white_color.is_fraction(),
        black_color.is_fraction(),
    ensures
        out == color_pixel_spec(white, black, white_light, black_light, white_color, black_color),
{
    let lw = white.luma();
    let lb = black.luma();
    let w0: i128 = lit_sample(white.r, lw, white_color, white_light) as i128;
    let w1: i128 = lit_sample(white.g, lw, white_color, white_light) as i128;
    let w2: i128 = lit_sample(white.b, lw, white_color, white_light) as i128;
    let b0: i128 = lit_sample(black.r, lb, black_color, black_light) as i128;
    let b1: i128 = lit_sample(black.g, lb, black_color, black_light) as i128;
    let b2: i128 = lit_sample(black.b, lb, black_color, black_light) as i128;
    let full: i128 = 255 * (SCALE_SQUARED as i128);
    let d0: i128 = full - w0 + b0;
    let d1: i128 = full - w1 + b1;
    let d2: i128 = full - w2 + b2;
    let weighted: i128 = 2126 * d0 + 7152 * d1 + 722 * d2;
    let b12: i128 = if b1 >= b2 { b1 } else { b2 };
    let peak: i128 = if b0 >= b12 { b0 } else { b12 };
    let raised: i128 = if weighted >= 10000 * peak { weighted } else { 10000 * peak };
    let top: i128 = 255 * (ALPHA_SCALE as i128);
    let alpha: i128 = if raised <= top { raised } else { top };
    let ghost w = (w0 as int, w1 as int, w2 as int);
    let ghost b = (b0 as int, b1 as int, b2 as int);
    assert(alpha == color_alpha_num(w, b));
    assert(w == lit(white, white_color, white_light));
    assert(b == lit(black, black_color, black_light));
    let r = unit_ratio(10000 * b0, alpha);
    let g = unit_ratio(10000 * b1, alpha);
    let bl = unit_ratio(10000 * b2, alpha);
    let floor: i128 = if alpha < 0 { 0 } else { alpha };
    let a: i128 = (2 * floor + (ALPHA_SCALE as i128)) / (2 * (ALPHA_SCALE as i128));
    proof {
        lemma_color_in_range(b0 as int, w, b);
    }
    Rgba { r, g, b: bl, a: a as u8 }
}

} // verus!
