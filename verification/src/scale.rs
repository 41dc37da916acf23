//! Scale alignment of template dimensions.
//!
//! The screenshot handed to the engine was already downscaled by a known
//! factor before it arrived. To keep pixel coordinates comparable, every
//! template is resized by the identical factor before correlation. The factor
//! is carried in parts per million (`1 ..= 1_000_000`, i.e. `0 < s <= 1`);
//! a dimension `d` maps to `round(d * s)` (halves up), clamped to a minimum
//! of 1 so that scaling never produces a zero-sized image. At exactly
//! 1_000_000 parts per million no resize happens and the dimension is kept
//! as it is.

use crate::raster::RgbaRaster;
use vstd::arithmetic::div_mod::{
    lemma_div_multiples_vanish_fancy, lemma_fundamental_div_mod, lemma_mod_bound,
    lemma_multiply_divide_lt,
};
use vstd::arithmetic::mul::{lemma_mul_inequality, lemma_mul_upper_bound};
use vstd::prelude::*;

verus! {

/// One million: the denominator of scale factors in parts per million.
pub const PPM_DENOM: u32 = 1000000;

/// Post-scale size of a dimension `d` under a scale factor of `ppm` parts
/// per million: `round(d * ppm / 1_000_000)` with halves rounding up, clamped
/// to a minimum of 1. A full scale factor (exactly 1_000_000) keeps `d`
/// unchanged without clamping, mirroring that no resize takes place then.
pub open spec fn scaled_dim(d: nat, ppm: nat) -> nat {
    if ppm < PPM_DENOM {
        let rounded = (d * ppm + 500000) / 1000000;
        if rounded == 0 {
            1
        } else {
            rounded
        }
    } else {
        d
    }
}

/// The post-scale size never exceeds the original size.
pub proof fn lemma_scaled_dim_le(d: nat, ppm: nat)
    requires
        1 <= ppm <= PPM_DENOM,
        1 <= d,
    ensures
        1 <= scaled_dim(d, ppm) <= d,
{
    if ppm < PPM_DENOM {
        let t = d * ppm + 500000;
        lemma_mul_inequality(ppm as int, 999999, d as int);
        lemma_fundamental_div_mod(t as int, 1000000);
        vstd::arithmetic::div_mod::lemma_mod_bound(t as int, 1000000);
        if t / 1000000 > d {
            lemma_mul_inequality(d as int + 1, (t / 1000000) as int, 1000000);
            assert(false);
        }
    }
}

/// Post-scale law: for any original dimension `d >= 1` and any scale factor
/// `s = ppm / 1_000_000` with `0 < s <= 1`, the post-scale dimension equals
/// `max(1, round(d * s))`, halves rounding up. (At `ppm == 1_000_000` no
/// resize happens, and the unchanged `d` coincides with the formula.)
pub proof fn lemma_scaled_dim_is_clamped_rounding(d: nat, ppm: nat)
    requires
        1 <= d,
        1 <= ppm <= PPM_DENOM,
    ensures
        scaled_dim(d, ppm) == vstd::math::max(1, ((d * ppm + 500000) / 1000000) as int),
{
    if ppm == PPM_DENOM {
        lemma_div_multiples_vanish_fancy(d as int, 500000, 1000000);
        assert(d * 1000000 == 1000000 * d) by {
            vstd::arithmetic::mul::lemma_mul_is_commutative(d as int, 1000000);
        }
    }
}

/// The RGBA raster resampled to new dimensions by nearest-neighbor
/// sampling: output pixel `(dx, dy)` takes the source pixel at
/// `(dx * w / nw, dy * h / nh)`, channel by channel.
pub open spec fn nn_resized(px: Seq<u8>, w: nat, h: nat, nw: nat, nh: nat) -> Seq<u8> {
    Seq::new(
        4 * nw * nh,
        |b: int|
            {
                let p = b / 4;
                let ch = b % 4;
                let dx = p % (nw as int);
                let dy = p / (nw as int);
                px[4 * ((dy * (h as int) / (nh as int)) * (w as int) + dx * (w as int) / (nw
                    as int)) + ch]
            },
    )
}

/// Resample an RGBA raster down to new dimensions by nearest-neighbor
/// sampling. Dimensions only ever shrink here: the engine never upscales.
pub fn resize_rgba(img: &RgbaRaster, nw: u32, nh: u32) -> (r: RgbaRaster)
    requires
        img.wf(),
        img.width <= 1000000,
        img.height <= 1000000,
        1 <= nw <= img.width,
        1 <= nh <= img.height,
    ensures
        r.width == nw,
        r.height == nh,
        r.wf(),
        r.data@ == nn_resized(img.data@, img.width as nat, img.height as nat, nw as nat, nh as nat),
{
    let w: usize = img.width as usize;
    let h: usize = img.height as usize;
    let nwu: usize = nw as usize;
    let nhu: usize = nh as usize;
    let len: usize = img.data.len();
    proof {
        assert(nwu * nhu <= w * h) by (nonlinear_arith)
            requires
                1 <= nwu <= w,
                1 <= nhu <= h,
        ;
        assert(len == 4 * (w * h));
        assert(4 * (nwu * nhu) <= len);
    }
    let count: usize = nwu * nhu;
    let mut out: Vec<u8> = Vec::new();
    let ghost target = nn_resized(
        img.data@,
        img.width as nat,
        img.height as nat,
        nw as nat,
        nh as nat,
    );
    for p in 0..count
        invariant
            img.wf(),
            len == img.data@.len(),
            len == 4 * (w * h),
            w == img.width as int,
            h == img.height as int,
            nwu == nw as int,
            nhu == nh as int,
            1 <= nwu <= w,
            1 <= nhu <= h,
            w <= 1000000,
            h <= 1000000,
            count == nwu * nhu,
            4 * count <= len,
            target == nn_resized(
                img.data@,
                img.width as nat,
                img.height as nat,
                nw as nat,
                nh as nat,
            ),
            out@.len() == 4 * p,
            forall|b: int| 0 <= b < 4 * p ==> out@[b] == target[b],
    {
        let dx: usize = p % nwu;
        let dy: usize = p / nwu;
        proof {
            lemma_mod_bound(p as int, nwu as int);
            lemma_multiply_divide_lt(p as int, nwu as int, nhu as int);
            assert(dy * h <= 1000000000000) by (nonlinear_arith)
                requires
                    0 <= dy,
                    dy < nhu,
                    nhu <= h,
                    h <= 1000000,
            ;
            assert(dx * w <= 1000000000000) by (nonlinear_arith)
                requires
                    0 <= dx,
                    dx < nwu,
                    nwu <= w,
                    w <= 1000000,
            ;
        }
        let sy: usize = ((dy as u64) * (h as u64) / (nhu as u64)) as usize;
        let sx: usize = ((dx as u64) * (w as u64) / (nwu as u64)) as usize;
        proof {
            vstd::arithmetic::mul::lemma_mul_strict_inequality(dy as int, nhu as int, h as int);
            lemma_multiply_divide_lt(dy * h, nhu as int, h as int);
            vstd::arithmetic::mul::lemma_mul_strict_inequality(dx as int, nwu as int, w as int);
            lemma_multiply_divide_lt(dx * w, nwu as int, w as int);
            assert(sy * w + sx < w * h) by (nonlinear_arith)
                requires
                    0 <= sy,
                    0 <= sx,
                    sy < h as int,
                    sx < w as int,
                    1 <= w,
            ;
        }
        let src: usize = 4 * (sy * w + sx);
        let ghost out0 = out@;
        out.push(img.data[src]);
        out.push(img.data[src + 1]);
        out.push(img.data[src + 2]);
        out.push(img.data[src + 3]);
        proof {
            assert forall|ch: int| 0 <= ch < 4 implies #[trigger] target[4 * p + ch] == out@[4 * p + ch] by {
                vstd::arithmetic::mul::lemma_mul_is_associative(4, nwu as int, nhu as int);
                assert(4 * p + ch < 4 * (nw as nat) * (nh as nat));
                vstd::arithmetic::div_mod::lemma_div_multiples_vanish_fancy(p as int, ch, 4);
                vstd::arithmetic::div_mod::lemma_fundamental_div_mod_converse(
                    4 * p + ch,
                    4,
                    p as int,
                    ch,
                );
            }
            assert forall|b: int| 0 <= b < 4 * (p + 1) implies #[trigger] out@[b] == target[b] by {
                if b < 4 * p {
                    assert(out@[b] == out0[b]);
                } else {
                    let ch = b - 4 * p;
                    assert(target[4 * p + ch] == out@[4 * p + ch]);
                }
            }
        }
    }
    proof {
        vstd::arithmetic::mul::lemma_mul_is_associative(4, nwu as int, nhu as int);
        assert(out@ =~= target);
    }
    RgbaRaster { width: nw, height: nh, data: out }
}

/// Post-scale size of one dimension, executable form.
pub fn scaled_dimension(d: u32, ppm: u32) -> (r: u32)
    requires
        1 <= ppm <= PPM_DENOM,
    ensures
        r == scaled_dim(d as nat, ppm as nat),
{
    if ppm == PPM_DENOM {
        d
    } else {
        proof {
            lemma_mul_upper_bound(d as int, u32::MAX as int, ppm as int, 999999);
            if d >= 1 {
                lemma_scaled_dim_le(d as nat, ppm as nat);
            }
        }
        let t: u64 = d as u64 * ppm as u64 + 500000;
        let q: u64 = t / 1000000;
        if q == 0 {
            1
        } else {
            proof {
                if d == 0 {
                    assert(t == 500000);
                }
            }
            q as u32
        }
    }
}

} // verus!
