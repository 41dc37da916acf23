//! Raster buffers and exact integer pixel arithmetic.
//!
//! The engine works on two plain raster representations: an RGBA buffer with
//! four bytes per pixel in row-major order, and a single-channel grayscale
//! buffer with one byte per pixel. Pixel-level computation — the opacity
//! ratio of a template and the alpha-aware grayscale compositing — is done
//! here in exact integer arithmetic and fully verified.

use vstd::arithmetic::div_mod::lemma_div_is_ordered;
use vstd::arithmetic::mul::lemma_mul_inequality;
use vstd::prelude::*;

verus! {

/// An RGBA raster: `4 * width * height` bytes, row-major, four bytes
/// (red, green, blue, alpha) per pixel.
pub struct RgbaRaster {
    pub width: u32,
    pub height: u32,
    pub data: Vec<u8>,
}

/// A grayscale raster: `width * height` bytes, row-major, one byte per pixel.
pub struct GrayRaster {
    pub width: u32,
    pub height: u32,
    pub data: Vec<u8>,
}

impl RgbaRaster {
    /// Number of pixels.
    pub open spec fn spec_pixel_count(&self) -> nat {
        self.width as nat * self.height as nat
    }

    /// The buffer holds exactly four bytes per pixel.
    pub open spec fn wf(&self) -> bool {
        self.data@.len() == 4 * self.spec_pixel_count()
    }
}

impl GrayRaster {
    /// Number of pixels.
    pub open spec fn spec_pixel_count(&self) -> nat {
        self.width as nat * self.height as nat
    }

    /// The buffer holds exactly one byte per pixel.
    pub open spec fn wf(&self) -> bool {
        self.data@.len() == self.spec_pixel_count()
    }
}

/// A channel value composited onto a white background in proportion to alpha,
/// scaled by 255: `255 * (c * a/255 + 255 * (1 - a/255))`.
pub open spec fn over_white_255(c: u8, a: u8) -> int {
    c * a + 255 * (255 - a)
}

/// Numerator of the rounded luminance: the composited channels weighted by
/// the standard perceptual coefficients 0.299, 0.587, 0.114, scaled by
/// `255 * 1000`.
pub open spec fn luma_numerator(r: u8, g: u8, b: u8, a: u8) -> int {
    299 * over_white_255(r, a) + 587 * over_white_255(g, a) + 114 * over_white_255(b, a)
}

/// Luminance of an RGBA pixel composited onto a white background: each
/// channel becomes `c * alpha + 255 * (1 - alpha)` with alpha normalized to
/// `[0, 1]`, and the result is `0.299 R + 0.587 G + 0.114 B`, rounded to the
/// nearest integer (halves up). Always in `0 ..= 255`.
pub open spec fn luma_over_white(r: u8, g: u8, b: u8, a: u8) -> int {
    (luma_numerator(r, g, b, a) + 127500) / 255000
}

/// The composited channel is within one byte's scaled range.
proof fn lemma_over_white_255_bounds(c: u8, a: u8)
    ensures
        0 <= over_white_255(c, a) <= 65025,
{
    lemma_mul_inequality(c as int, 255, a as int);
    lemma_mul_inequality(0, 255 - a as int, 255);
}

/// The rounded luminance is a byte value.
pub proof fn lemma_luma_over_white_bounds(r: u8, g: u8, b: u8, a: u8)
    ensures
        0 <= luma_over_white(r, g, b, a) <= 255,
{
    lemma_over_white_255_bounds(r, a);
    lemma_over_white_255_bounds(g, a);
    lemma_over_white_255_bounds(b, a);
    assert(luma_numerator(r, g, b, a) <= 65025000);
    lemma_div_is_ordered(0, luma_numerator(r, g, b, a) + 127500, 255000);
    lemma_div_is_ordered(luma_numerator(r, g, b, a) + 127500, 65152500, 255000);
    assert(65152500int / 255000 == 255);
}

/// Rounded luminance of one RGBA pixel composited onto white.
pub fn luma_px(r: u8, g: u8, b: u8, a: u8) -> (v: u8)
    ensures
        v as int == luma_over_white(r, g, b, a),
{
    proof {
        lemma_over_white_255_bounds(r, a);
        lemma_over_white_255_bounds(g, a);
        lemma_over_white_255_bounds(b, a);
        lemma_luma_over_white_bounds(r, g, b, a);
    }
    let a64: u64 = a as u64;
    let ow_r: u64 = r as u64 * a64 + 255 * (255 - a64);
    let ow_g: u64 = g as u64 * a64 + 255 * (255 - a64);
    let ow_b: u64 = b as u64 * a64 + 255 * (255 - a64);
    let num: u64 = 299 * ow_r + 587 * ow_g + 114 * ow_b;
    ((num + 127500) / 255000) as u8
}

/// The grayscale image of an RGBA buffer of `n` pixels, composited onto a
/// white background.
pub open spec fn gray_of(px: Seq<u8>, n: nat) -> Seq<u8> {
    Seq::new(
        n,
        |i: int|
            luma_over_white(px[4 * i], px[4 * i + 1], px[4 * i + 2], px[4 * i + 3]) as u8,
    )
}

/// The grayscale image of an RGBA buffer of `n` pixels with every pixel
/// treated as opaque: direct luminance, no compositing.
pub open spec fn gray_direct_of(px: Seq<u8>, n: nat) -> Seq<u8> {
    Seq::new(
        n,
        |i: int| luma_over_white(px[4 * i], px[4 * i + 1], px[4 * i + 2], 255) as u8,
    )
}

/// Direct grayscale conversion: every pixel is converted to luminance with
/// the standard perceptual weights, its alpha channel ignored (treated as
/// fully opaque). This is the screenshot path; templates go through
/// `convert_to_grayscale_with_alpha` instead.
pub fn convert_to_grayscale_direct(img: &RgbaRaster) -> (g: GrayRaster)
    requires
        img.wf(),
    ensures
        g.width == img.width,
        g.height == img.height,
        g.wf(),
        g.data@ == gray_direct_of(img.data@, img.spec_pixel_count()),
{
    let len: usize = img.data.len();
    let total: usize = len / 4;
    proof {
        assert(total == img.spec_pixel_count());
    }
    let mut out: Vec<u8> = Vec::new();
    for i in 0..total
        invariant
            img.wf(),
            len == img.data@.len(),
            total == img.spec_pixel_count(),
            total * 4 == len,
            out@.len() == i,
            forall|j: int|
                0 <= j < i ==> out@[j] == gray_direct_of(img.data@, img.spec_pixel_count())[j],
    {
        let v = luma_px(img.data[4 * i], img.data[4 * i + 1], img.data[4 * i + 2], 255);
        out.push(v);
    }
    proof {
        assert(out@ =~= gray_direct_of(img.data@, img.spec_pixel_count()));
    }
    GrayRaster { width: img.width, height: img.height, data: out }
}

/// How many of the first `n` pixels of an RGBA buffer have non-zero alpha.
pub open spec fn opaque_count(px: Seq<u8>, n: nat) -> nat
    decreases n,
{
    if n == 0 {
        0
    } else {
        opaque_count(px, (n - 1) as nat) + if px[4 * (n - 1) + 3] > 0 {
            1nat
        } else {
            0nat
        }
    }
}

/// At most `n` of the first `n` pixels are opaque.
pub proof fn lemma_opaque_count_le(px: Seq<u8>, n: nat)
    ensures
        opaque_count(px, n) <= n,
    decreases n,
{
    if n > 0 {
        lemma_opaque_count_le(px, (n - 1) as nat);
    }
}

/// The opacity ratio of an RGBA buffer of `n` pixels, in parts per million,
/// rounded down: `1_000_000 * opaque / n`. An empty buffer has ratio zero.
pub open spec fn opacity_ppm(px: Seq<u8>, n: nat) -> nat {
    if n == 0 {
        0
    } else {
        opaque_count(px, n) * 1000000 / n
    }
}

/// Opacity ratio of an image, in parts per million: the share of pixels whose
/// alpha value is greater than zero, scaled by 1 000 000 and rounded down.
/// A fully transparent image gives 0, a fully opaque one 1 000 000; an image
/// with no pixels at all counts as fully transparent.
pub fn calculate_opacity_ratio(img: &RgbaRaster) -> (r: u32)
    requires
        img.wf(),
    ensures
        r as nat == opacity_ppm(img.data@, img.spec_pixel_count()),
{
    let len: usize = img.data.len();
    let total: usize = len / 4;
    proof {
        assert(total == img.spec_pixel_count());
    }
    if total == 0 {
        return 0;
    }
    let mut count: usize = 0;
    for i in 0..total
        invariant
            img.wf(),
            len == img.data@.len(),
            total == img.spec_pixel_count(),
            total * 4 == len,
            count == opaque_count(img.data@, i as nat),
            count <= i,
    {
        if img.data[4 * i + 3] > 0 {
            count = count + 1;
        }
    }
    proof {
        lemma_opaque_count_le(img.data@, total as nat);
        lemma_div_is_ordered(
            count as int * 1000000,
            total as int * 1000000,
            total as int,
        );
        lemma_mul_inequality(count as int, total as int, 1000000);
        vstd::arithmetic::div_mod::lemma_div_by_multiple(1000000, total as int);
    }
    ((count as u128 * 1000000) / (total as u128)) as u32
}

/// Grayscale conversion with alpha compositing: every pixel is composited
/// onto a white background in proportion to its alpha and converted to
/// luminance with the standard perceptual weights, rounded to the nearest
/// byte. Dimensions are preserved.
pub fn convert_to_grayscale_with_alpha(img: &RgbaRaster) -> (g: GrayRaster)
    requires
        img.wf(),
    ensures
        g.width == img.width,
        g.height == img.height,
        g.wf(),
        g.data@ == gray_of(img.data@, img.spec_pixel_count()),
{
    let len: usize = img.data.len();
    let total: usize = len / 4;
    proof {
        assert(total == img.spec_pixel_count());
    }
    let mut out: Vec<u8> = Vec::new();
    for i in 0..total
        invariant
            img.wf(),
            len == img.data@.len(),
            total == img.spec_pixel_count(),
            total * 4 == len,
            out@.len() == i,
            forall|j: int|
                0 <= j < i ==> out@[j] == gray_of(img.data@, img.spec_pixel_count())[j],
    {
        let v = luma_px(
            img.data[4 * i],
            img.data[4 * i + 1],
            img.data[4 * i + 2],
            img.data[4 * i + 3],
        );
        out.push(v);
    }
    proof {
        assert(out@ =~= gray_of(img.data@, img.spec_pixel_count()));
    }
    GrayRaster { width: img.width, height: img.height, data: out }
}

} // verus!
