//! The correlation engine: normalized cross-correlation in exact integer
//! arithmetic.
//!
//! For every candidate top-left offset at which the template fully overlaps
//! the screenshot, the engine computes the normalized cross-correlation
//! between the template and the screenshot window there,
//! `sum(I*T) / sqrt(sum(I^2) * sum(T^2))`, carried in parts per million with
//! the square root taken over the integers. A window whose denominator is
//! zero (an all-black window) scores zero; a template whose own energy is
//! zero never reaches this engine — the pipeline classifies it as a
//! degenerate (`NonFiniteConfidence`) case first, since its correlation is
//! undefined everywhere. Scores are capped at the perfect-match value of
//! 1 000 000, where the rounding of the integer square root could otherwise
//! push a perfect match a hair above it. The engine reports the maximum
//! score over all offsets and the first offset attaining it, in row-major
//! order.

use crate::raster::GrayRaster;
use vstd::arithmetic::div_mod::{
    lemma_fundamental_div_mod, lemma_mod_bound, lemma_multiply_divide_lt,
};
use vstd::arithmetic::mul::{lemma_mul_inequality, lemma_mul_upper_bound};
use vstd::prelude::*;

verus! {

/// Largest width or height the engine accepts; keeps every sum inside 64
/// bits.
pub const MAX_DIM: u32 = 1000000;

/// Flat buffer index of the `k`-th template-window cell (row-major in the
/// template) for the window at offset `(ox, oy)` in a raster of width `sw`.
pub open spec fn win_index(sw: nat, tw: nat, ox: nat, oy: nat, k: nat) -> int {
    (oy + k / tw) * sw + ox + (k % tw) as int
}

/// Sum over the first `k` template cells of window pixel times template
/// pixel.
pub open spec fn dot_win(
    shot: Seq<u8>,
    sw: nat,
    tmpl: Seq<u8>,
    tw: nat,
    ox: nat,
    oy: nat,
    k: nat,
) -> int
    decreases k,
{
    if k == 0 {
        0
    } else {
        dot_win(shot, sw, tmpl, tw, ox, oy, (k - 1) as nat) + shot[win_index(
            sw,
            tw,
            ox,
            oy,
            (k - 1) as nat,
        )] * tmpl[k - 1]
    }
}

/// Sum over the first `k` template cells of the squared window pixel.
pub open spec fn sq_win(shot: Seq<u8>, sw: nat, tw: nat, ox: nat, oy: nat, k: nat) -> int
    decreases k,
{
    if k == 0 {
        0
    } else {
        sq_win(shot, sw, tw, ox, oy, (k - 1) as nat) + shot[win_index(
            sw,
            tw,
            ox,
            oy,
            (k - 1) as nat,
        )] * shot[win_index(sw, tw, ox, oy, (k - 1) as nat)]
    }
}

/// Sum of the squared values of the first `k` bytes of a buffer: the
/// template's own energy.
pub open spec fn sq_all(tmpl: Seq<u8>, k: nat) -> int
    decreases k,
{
    if k == 0 {
        0
    } else {
        sq_all(tmpl, (k - 1) as nat) + tmpl[k - 1] * tmpl[k - 1]
    }
}

proof fn lemma_dot_win_bounds(shot: Seq<u8>, sw: nat, tmpl: Seq<u8>, tw: nat, ox: nat, oy: nat, k: nat)
    ensures
        0 <= dot_win(shot, sw, tmpl, tw, ox, oy, k) <= k * 65025,
    decreases k,
{
    if k > 0 {
        lemma_dot_win_bounds(shot, sw, tmpl, tw, ox, oy, (k - 1) as nat);
        let i = win_index(sw, tw, ox, oy, (k - 1) as nat);
        lemma_mul_upper_bound(shot[i] as int, 255, tmpl[k - 1] as int, 255);
        vstd::arithmetic::mul::lemma_mul_nonnegative(shot[i] as int, tmpl[k - 1] as int);
    }
}

proof fn lemma_sq_win_bounds(shot: Seq<u8>, sw: nat, tw: nat, ox: nat, oy: nat, k: nat)
    ensures
        0 <= sq_win(shot, sw, tw, ox, oy, k) <= k * 65025,
    decreases k,
{
    if k > 0 {
        lemma_sq_win_bounds(shot, sw, tw, ox, oy, (k - 1) as nat);
        let i = win_index(sw, tw, ox, oy, (k - 1) as nat);
        lemma_mul_upper_bound(shot[i] as int, 255, shot[i] as int, 255);
        vstd::arithmetic::mul::lemma_mul_nonnegative(shot[i] as int, shot[i] as int);
    }
}

proof fn lemma_sq_all_bounds(tmpl: Seq<u8>, k: nat)
    ensures
        0 <= sq_all(tmpl, k) <= k * 65025,
    decreases k,
{
    if k > 0 {
        lemma_sq_all_bounds(tmpl, (k - 1) as nat);
        lemma_mul_upper_bound(tmpl[k - 1] as int, 255, tmpl[k - 1] as int, 255);
        vstd::arithmetic::mul::lemma_mul_nonnegative(tmpl[k - 1] as int, tmpl[k - 1] as int);
    }
}

/// The integer square root: the unique `r` with `r^2 <= x < (r+1)^2`.
pub open spec fn sqrt_floor(x: int) -> nat {
    choose|r: nat| #[trigger] (r * r) <= x && x < (r + 1) * (r + 1)
}

/// The integer square root is pinned by its defining inequalities.
pub proof fn lemma_sqrt_floor_unique(x: int, r: nat)
    requires
        r * r <= x,
        x < (r + 1) * (r + 1),
    ensures
        sqrt_floor(x) == r,
{
    assert(exists|s: nat| #[trigger] (s * s) <= x && x < (s + 1) * (s + 1)) by {
        assert((r * r) <= x && x < (r + 1) * (r + 1));
    }
    let s = sqrt_floor(x);
    assert((s * s) <= x && x < (s + 1) * (s + 1));
    if s < r {
        lemma_mul_inequality(s as int + 1, r as int, s as int + 1);
        lemma_mul_inequality(s as int + 1, r as int, r as int);
        assert(false);
    }
    if r < s {
        lemma_mul_inequality(r as int + 1, s as int, r as int + 1);
        lemma_mul_inequality(r as int + 1, s as int, s as int);
        assert(false);
    }
}

/// Integer square root by bisection.
fn isqrt(x: u128) -> (r: u128)
    ensures
        r * r <= x,
        x < (r + 1) * (r + 1),
        r as nat == sqrt_floor(x as int),
{
    let mut lo: u128 = 0;
    let mut hi: u128 = 0x1_0000_0000_0000_0000;
    proof {
        assert(x < hi * hi) by {
            lemma_mul_inequality(
                0x1_0000_0000_0000_0000,
                0x1_0000_0000_0000_0000,
                0x1_0000_0000_0000_0000,
            );
        }
    }
    while lo + 1 < hi
        invariant
            lo < hi,
            hi <= 0x1_0000_0000_0000_0000,
            lo * lo <= x,
            x < hi * hi,
        decreases hi - lo,
    {
        let mid: u128 = lo + (hi - lo) / 2;
        proof {
            lemma_mul_upper_bound(
                mid as int,
                0xffff_ffff_ffff_ffff,
                mid as int,
                0xffff_ffff_ffff_ffff,
            );
        }
        let sq: u128 = mid * mid;
        if sq <= x {
            lo = mid;
        } else {
            hi = mid;
        }
    }
    proof {
        lemma_sqrt_floor_unique(x as int, lo as nat);
    }
    lo
}

/// Correlation score of one window, in parts per million: the normalized
/// cross-correlation against the template, zero when the window has no
/// energy, capped at 1 000 000.
pub open spec fn window_score_ppm(
    shot: Seq<u8>,
    sw: nat,
    tmpl: Seq<u8>,
    tw: nat,
    th: nat,
    ox: nat,
    oy: nat,
) -> nat {
    let num = dot_win(shot, sw, tmpl, tw, ox, oy, tw * th);
    let den = sqrt_floor(
        sq_win(shot, sw, tw, ox, oy, tw * th) * sq_all(tmpl, tw * th),
    );
    if den == 0 {
        0
    } else if num * 1000000 / (den as int) > 1000000 {
        1000000
    } else {
        (num * 1000000 / (den as int)) as nat
    }
}

/// The running peak over the first `m` window offsets in row-major order
/// (`m >= 1`): the score, and the first offset attaining it.
pub open spec fn peak_up_to(
    shot: Seq<u8>,
    sw: nat,
    sh: nat,
    tmpl: Seq<u8>,
    tw: nat,
    th: nat,
    m: nat,
) -> (nat, nat, nat)
    decreases m,
{
    let cols = (sw - tw + 1) as nat;
    if m <= 1 {
        (window_score_ppm(shot, sw, tmpl, tw, th, 0, 0), 0, 0)
    } else {
        let prev = peak_up_to(shot, sw, sh, tmpl, tw, th, (m - 1) as nat);
        let ox = ((m - 1) as nat) % cols;
        let oy = ((m - 1) as nat) / cols;
        let s = window_score_ppm(shot, sw, tmpl, tw, th, ox, oy);
        if s > prev.0 {
            (s, ox, oy)
        } else {
            prev
        }
    }
}

/// The peak of the correlation surface: the maximum window score and the
/// first offset attaining it.
pub open spec fn ncc_peak(
    shot: Seq<u8>,
    sw: nat,
    sh: nat,
    tmpl: Seq<u8>,
    tw: nat,
    th: nat,
) -> (nat, nat, nat) {
    peak_up_to(shot, sw, sh, tmpl, tw, th, ((sw - tw + 1) * (sh - th + 1)) as nat)
}

/// Every window score is at most 1 000 000.
pub proof fn lemma_window_score_le(
    shot: Seq<u8>,
    sw: nat,
    tmpl: Seq<u8>,
    tw: nat,
    th: nat,
    ox: nat,
    oy: nat,
)
    ensures
        window_score_ppm(shot, sw, tmpl, tw, th, ox, oy) <= 1000000,
{
    lemma_dot_win_bounds(shot, sw, tmpl, tw, ox, oy, tw * th);
    let den = sqrt_floor(sq_win(shot, sw, tw, ox, oy, tw * th) * sq_all(tmpl, tw * th));
    if den != 0 {
        let num = dot_win(shot, sw, tmpl, tw, ox, oy, tw * th);
        vstd::arithmetic::div_mod::lemma_div_is_ordered(0, num * 1000000, den as int);
    }
}

/// The peak's score is at most 1 000 000 and its offset lies inside the
/// surface.
pub proof fn lemma_peak_in_range(
    shot: Seq<u8>,
    sw: nat,
    sh: nat,
    tmpl: Seq<u8>,
    tw: nat,
    th: nat,
    m: nat,
)
    requires
        1 <= tw <= sw,
        1 <= th <= sh,
        1 <= m <= (sw - tw + 1) * (sh - th + 1),
    ensures
        peak_up_to(shot, sw, sh, tmpl, tw, th, m).0 <= 1000000,
        peak_up_to(shot, sw, sh, tmpl, tw, th, m).1 <= sw - tw,
        peak_up_to(shot, sw, sh, tmpl, tw, th, m).2 <= sh - th,
    decreases m,
{
    let cols = (sw - tw + 1) as nat;
    let rows = (sh - th + 1) as nat;
    if m <= 1 {
        lemma_window_score_le(shot, sw, tmpl, tw, th, 0, 0);
    } else {
        lemma_peak_in_range(shot, sw, sh, tmpl, tw, th, (m - 1) as nat);
        let ox = ((m - 1) as nat) % cols;
        let oy = ((m - 1) as nat) / cols;
        lemma_window_score_le(shot, sw, tmpl, tw, th, ox, oy);
        lemma_mod_bound((m - 1) as int, cols as int);
        lemma_multiply_divide_lt((m - 1) as int, cols as int, rows as int);
    }
}

/// Window and template sums for one offset.
fn window_sums(shot: &GrayRaster, tmpl: &GrayRaster, ox: usize, oy: usize) -> (r: (u64, u64))
    requires
        shot.wf(),
        tmpl.wf(),
        1 <= tmpl.width <= shot.width <= MAX_DIM,
        1 <= tmpl.height <= shot.height <= MAX_DIM,
        ox + tmpl.width <= shot.width,
        oy + tmpl.height <= shot.height,
    ensures
        r.0 == dot_win(
            shot.data@,
            shot.width as nat,
            tmpl.data@,
            tmpl.width as nat,
            ox as nat,
            oy as nat,
            tmpl.spec_pixel_count(),
        ),
        r.1 == sq_win(
            shot.data@,
            shot.width as nat,
            tmpl.width as nat,
            ox as nat,
            oy as nat,
            tmpl.spec_pixel_count(),
        ),
{
    let tw = tmpl.width as usize;
    let th = tmpl.height as usize;
    let sw = shot.width as usize;
    let tlen: usize = tmpl.data.len();
    let slen: usize = shot.data.len();
    proof {
        assert(tw * th <= 1000000000000) by (nonlinear_arith)
            requires
                1 <= tw <= 1000000,
                1 <= th <= 1000000,
        ;
        assert(tlen == tw * th);
    }
    let ghost spx = shot.data@;
    let ghost tpx = tmpl.data@;
    let mut dot: u64 = 0;
    let mut sq: u64 = 0;
    let mut v: usize = 0;
    while v < th
        invariant
            shot.wf(),
            tmpl.wf(),
            spx == shot.data@,
            tpx == tmpl.data@,
            1 <= tmpl.width <= shot.width <= MAX_DIM,
            1 <= tmpl.height <= shot.height <= MAX_DIM,
            tw == tmpl.width as int,
            th == tmpl.height as int,
            sw == shot.width as int,
            tlen == tw * th,
            tlen == tmpl.data@.len(),
            tlen <= 1000000000000,
            slen == shot.data@.len(),
            ox + tw <= sw,
            oy + th <= shot.height,
            v <= th,
            dot == dot_win(spx, sw as nat, tpx, tw as nat, ox as nat, oy as nat, (v * tw) as nat),
            sq == sq_win(spx, sw as nat, tw as nat, ox as nat, oy as nat, (v * tw) as nat),
            v * tw <= tlen,
            dot <= (v * tw) * 65025,
            sq <= (v * tw) * 65025,
        decreases th - v,
    {
        proof {
            lemma_mul_inequality(v as int + 1, th as int, tw as int);
            vstd::arithmetic::mul::lemma_mul_is_commutative(v as int + 1, tw as int);
            vstd::arithmetic::mul::lemma_mul_is_commutative(th as int, tw as int);
            vstd::arithmetic::mul::lemma_mul_is_distributive_add_other_way(
                tw as int,
                v as int,
                1,
            );
            assert((oy + v) * sw + sw <= sw * (shot.height as int)) by (nonlinear_arith)
                requires
                    0 <= oy + v,
                    oy + v < shot.height as int,
                    1 <= sw,
            ;
            assert(slen == sw * (shot.height as int));
        }
        let row = oy + v;
        let base: usize = row * sw;
        let tbase: usize = v * tw;
        let mut u: usize = 0;
        while u < tw
            invariant
                shot.wf(),
                tmpl.wf(),
                spx == shot.data@,
                tpx == tmpl.data@,
                1 <= tmpl.width <= shot.width <= MAX_DIM,
                1 <= tmpl.height <= shot.height <= MAX_DIM,
                tw == tmpl.width as int,
                th == tmpl.height as int,
                sw == shot.width as int,
                tlen == tw * th,
                tlen == tmpl.data@.len(),
                tlen <= 1000000000000,
                slen == shot.data@.len(),
                ox + tw <= sw,
                oy + th <= shot.height,
                v < th,
                row == oy + v,
                base == row * sw,
                tbase == v * tw,
                tbase + tw <= tlen,
                base + sw <= slen,
                u <= tw,
                dot == dot_win(
                    spx,
                    sw as nat,
                    tpx,
                    tw as nat,
                    ox as nat,
                    oy as nat,
                    (tbase + u) as nat,
                ),
                sq == sq_win(spx, sw as nat, tw as nat, ox as nat, oy as nat, (tbase + u) as nat),
                dot <= (tbase + u) * 65025,
                sq <= (tbase + u) * 65025,
            decreases tw - u,
        {
            proof {
                let k = (tbase + u) as int;
                vstd::arithmetic::div_mod::lemma_fundamental_div_mod_converse(
                    k,
                    tw as int,
                    v as int,
                    u as int,
                );
                assert(win_index(sw as nat, tw as nat, ox as nat, oy as nat, k as nat) == base + ox
                    + u);
            }
            let s = shot.data[base + ox + u] as u64;
            let t = tmpl.data[tbase + u] as u64;
            proof {
                lemma_mul_upper_bound(s as int, 255, t as int, 255);
                lemma_mul_upper_bound(s as int, 255, s as int, 255);
            }
            dot = dot + s * t;
            sq = sq + s * s;
            u = u + 1;
        }
        proof {
            vstd::arithmetic::mul::lemma_mul_is_distributive_add_other_way(
                tw as int,
                v as int,
                1,
            );
        }
        v = v + 1;
    }
    proof {
        vstd::arithmetic::mul::lemma_mul_is_commutative(th as int, tw as int);
        assert(th * tw == tmpl.spec_pixel_count());
    }
    (dot, sq)
}

/// The template's own energy: the sum of its squared pixels.
pub fn template_energy(tmpl: &GrayRaster) -> (r: u64)
    requires
        tmpl.wf(),
        tmpl.width <= MAX_DIM,
        tmpl.height <= MAX_DIM,
    ensures
        r == sq_all(tmpl.data@, tmpl.spec_pixel_count()),
{
    let n = tmpl.data.len();
    proof {
        lemma_mul_upper_bound(tmpl.width as int, 1000000, tmpl.height as int, 1000000);
    }
    let mut acc: u64 = 0;
    for k in 0..n
        invariant
            tmpl.wf(),
            n == tmpl.data@.len(),
            n <= 1000000000000,
            acc == sq_all(tmpl.data@, k as nat),
            acc <= k * 65025,
    {
        let t = tmpl.data[k] as u64;
        proof {
            lemma_mul_upper_bound(t as int, 255, t as int, 255);
        }
        acc = acc + t * t;
    }
    acc
}

/// Correlation score of the window at `(ox, oy)`, in parts per million.
fn window_score(shot: &GrayRaster, tmpl: &GrayRaster, t_energy: u64, ox: usize, oy: usize) -> (s:
    u32)
    requires
        shot.wf(),
        tmpl.wf(),
        1 <= tmpl.width <= shot.width <= MAX_DIM,
        1 <= tmpl.height <= shot.height <= MAX_DIM,
        ox + tmpl.width <= shot.width,
        oy + tmpl.height <= shot.height,
        t_energy == sq_all(tmpl.data@, tmpl.spec_pixel_count()),
    ensures
        s as nat == window_score_ppm(
            shot.data@,
            shot.width as nat,
            tmpl.data@,
            tmpl.width as nat,
            tmpl.height as nat,
            ox as nat,
            oy as nat,
        ),
        s <= 1000000,
{
    let (num, wsq) = window_sums(shot, tmpl, ox, oy);
    proof {
        lemma_mul_upper_bound(
            wsq as int,
            0xffff_ffff_ffff_ffff,
            t_energy as int,
            0xffff_ffff_ffff_ffff,
        );
    }
    let den2: u128 = (wsq as u128) * (t_energy as u128);
    let den = isqrt(den2);
    proof {
        lemma_window_score_le(
            shot.data@,
            shot.width as nat,
            tmpl.data@,
            tmpl.width as nat,
            tmpl.height as nat,
            ox as nat,
            oy as nat,
        );
    }
    if den == 0 {
        0
    } else {
        let q: u128 = (num as u128) * 1000000 / den;
        if q > 1000000 {
            1000000
        } else {
            q as u32
        }
    }
}

/// The peak of the normalized cross-correlation surface between screenshot
/// and template: the maximum window score in parts per million, and the
/// column and row of the first window attaining it.
pub fn ncc_peak_of(shot: &GrayRaster, tmpl: &GrayRaster) -> (r: (u32, u32, u32))
    requires
        shot.wf(),
        tmpl.wf(),
        1 <= tmpl.width <= shot.width <= MAX_DIM,
        1 <= tmpl.height <= shot.height <= MAX_DIM,
    ensures
        (r.0 as nat, r.1 as nat, r.2 as nat) == ncc_peak(
            shot.data@,
            shot.width as nat,
            shot.height as nat,
            tmpl.data@,
            tmpl.width as nat,
            tmpl.height as nat,
        ),
        r.0 <= 1000000,
        r.1 <= shot.width - tmpl.width,
        r.2 <= shot.height - tmpl.height,
{
    let ghost spx = shot.data@;
    let ghost tpx = tmpl.data@;
    let ghost sw_g = shot.width as nat;
    let ghost sh_g = shot.height as nat;
    let ghost tw_g = tmpl.width as nat;
    let ghost th_g = tmpl.height as nat;
    let t_energy = template_energy(tmpl);
    let slen: usize = shot.data.len();
    let cols: usize = (shot.width - tmpl.width + 1) as usize;
    let rows: usize = (shot.height - tmpl.height + 1) as usize;
    proof {
        assert(cols * rows <= (shot.width as int) * (shot.height as int)) by (nonlinear_arith)
            requires
                1 <= cols <= shot.width as int,
                1 <= rows <= shot.height as int,
        ;
        assert((shot.width as int) * (shot.height as int) == shot.data@.len());
        assert(shot.data@.len() == slen);
        assert(cols * rows >= 1) by (nonlinear_arith)
            requires
                1 <= cols,
                1 <= rows,
        ;
        assert(cols * rows <= 1000000000000) by (nonlinear_arith)
            requires
                1 <= cols <= 1000000,
                1 <= rows <= 1000000,
        ;
    }
    let count: usize = cols * rows;
    let mut best_s: u32 = window_score(shot, tmpl, t_energy, 0, 0);
    let mut best_x: u32 = 0;
    let mut best_y: u32 = 0;
    for m in 1..count
        invariant
            shot.wf(),
            tmpl.wf(),
            spx == shot.data@,
            tpx == tmpl.data@,
            sw_g == shot.width as nat,
            sh_g == shot.height as nat,
            tw_g == tmpl.width as nat,
            th_g == tmpl.height as nat,
            1 <= tmpl.width <= shot.width <= MAX_DIM,
            1 <= tmpl.height <= shot.height <= MAX_DIM,
            t_energy == sq_all(tmpl.data@, tmpl.spec_pixel_count()),
            cols == shot.width - tmpl.width + 1,
            rows == shot.height - tmpl.height + 1,
            count == cols * rows,
            count <= 1000000000000,
            (best_s as nat, best_x as nat, best_y as nat) == peak_up_to(
                spx,
                sw_g,
                sh_g,
                tpx,
                tw_g,
                th_g,
                if m == 0 { 1nat } else { m as nat },
            ),
            best_x < cols,
            best_y < rows,
            best_s <= 1000000,
    {
        let ox = m % cols;
        let oy = m / cols;
        proof {
            lemma_mod_bound(m as int, cols as int);
            lemma_multiply_divide_lt(m as int, cols as int, rows as int);
        }
        let s = window_score(shot, tmpl, t_energy, ox, oy);
        if s > best_s {
            best_s = s;
            best_x = ox as u32;
            best_y = oy as u32;
        }
    }
    (best_s, best_x, best_y)
}

} // verus!
