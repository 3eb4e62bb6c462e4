//! The integer core of the segmentation pipeline.
//!
//! An input image is resampled to the model's fixed square input
//! resolution of 320x320 and split into R, G and B planes; the model's
//! output channel is rescaled to the 8-bit range between its own minimum
//! and maximum (a constant channel maps to an all-zero mask rather than a
//! division by zero), resampled back to the input image's own dimensions,
//! and written into the alpha channel of the original pixels.
//!
//! The model's samples are carried as fixed-point integers; scaling raw
//! 8-bit samples to the unit interval, and the network's forward pass
//! itself, move no data and stand outside the library.

use vstd::prelude::*;
use vstd::arithmetic::div_mod::lemma_fundamental_div_mod_converse;

verus! {

/// What image::imageops::resize with the Lanczos3 filter returns for a
/// 3-channel image: a function of the raw samples and the two geometries
/// alone.
pub uninterp spec fn lanczos_rgb(data: Seq<u8>, sw: u32, sh: u32, dw: u32, dh: u32) -> Seq<u8>;

/// What image::imageops::resize with the Lanczos3 filter returns for a
/// 1-channel image: a function of the raw samples and the two geometries
/// alone.
pub uninterp spec fn lanczos_gray(data: Seq<u8>, sw: u32, sh: u32, dw: u32, dh: u32) -> Seq<u8>;

/// Relies on image::imageops::resize with FilterType::Lanczos3 on a
/// 3-channel 8-bit image: the result has exactly the requested dimensions,
/// three bytes per pixel, and is resampled from the input samples alone.
/// The resample first builds a 4-channel intermediate of the source width
/// by the destination height, so that buffer must fit in index range too.
#[verifier::external_body]
fn resize_rgb(data: &Vec<u8>, sw: u32, sh: u32, dw: u32, dh: u32) -> (r: Vec<u8>)
    requires
        data@.len() == 3 * (sw * sh),
        0 < sw,
        0 < sh,
        0 < dw,
        0 < dh,
        3 * (dw * dh) <= usize::MAX,
        4 * (sw * dh) <= usize::MAX,
    ensures
        r@.len() == 3 * (dw * dh),
        r@ == lanczos_rgb(data@, sw, sh, dw, dh),
{
    let img: image::RgbImage = image::RgbImage::from_raw(sw, sh, data.clone()).unwrap();
    image::imageops::resize(&img, dw, dh, image::imageops::FilterType::Lanczos3).into_raw()
}

/// Relies on image::imageops::resize with FilterType::Lanczos3 on a
/// 1-channel 8-bit image: the result has exactly the requested dimensions,
/// one byte per pixel, and is resampled from the input samples alone.
/// The resample first builds a 4-channel intermediate of the source width
/// by the destination height, so that buffer must fit in index range too.
#[verifier::external_body]
fn resize_gray(data: &Vec<u8>, sw: u32, sh: u32, dw: u32, dh: u32) -> (r: Vec<u8>)
    requires
        data@.len() == sw * sh,
        0 < sw,
        0 < sh,
        0 < dw,
        0 < dh,
        dw * dh <= usize::MAX,
        4 * (sw * dh) <= usize::MAX,
    ensures
        r@.len() == dw * dh,
        r@ == lanczos_gray(data@, sw, sh, dw, dh),
{
    let img: image::GrayImage = image::GrayImage::from_raw(sw, sh, data.clone()).unwrap();
    image::imageops::resize(&img, dw, dh, image::imageops::FilterType::Lanczos3).into_raw()
}

/// The three colour planes of a 320x320 RGB image, channel by channel:
/// plane c holds at row y, column x the value of channel c of the pixel at
/// (x, y), so the interleaved samples become the tensor layout
/// [channel, height, width].
pub fn chw_planes(rgb: &Vec<u8>) -> (r: Vec<u8>)
    requires
        rgb@.len() == 307200,
    ensures
        r@.len() == 307200,
        forall|c: int, y: int, x: int|
            0 <= c < 3 && 0 <= y < 320 && 0 <= x < 320 ==> #[trigger] r@[c * 102400 + y * 320 + x]
                == rgb@[3 * (y * 320 + x) + c],
{
    let mut r: Vec<u8> = Vec::new();
    let mut p: usize = 0;
    while p < 307200
        invariant
            rgb@.len() == 307200,
            r@.len() == p,
            p <= 307200,
            forall|q: int|
                0 <= q < p ==> #[trigger] r@[q] == rgb@[3 * (q % 102400) + q / 102400],
        decreases 307200 - p,
    {
        let c = p / 102400;
        let q = p % 102400;
        r.push(rgb[3 * q + c]);
        p = p + 1;
    }
    proof {
        assert forall|c: int, y: int, x: int|
            0 <= c < 3 && 0 <= y < 320 && 0 <= x < 320 implies #[trigger] r@[c * 102400 + y * 320
            + x] == rgb@[3 * (y * 320 + x) + c] by {
            lemma_fundamental_div_mod_converse(c * 102400 + y * 320 + x, 102400, c, y * 320 + x);
            assert(r@[c * 102400 + y * 320 + x] == rgb@[3 * ((c * 102400 + y * 320 + x) % 102400)
                + (c * 102400 + y * 320 + x) / 102400]);
        }
    }
    r
}

/// The least sample of a non-empty output channel.
pub open spec fn seq_min(s: Seq<i64>) -> int
    decreases s.len(),
{
    if s.len() == 0 {
        0
    } else if s.len() == 1 {
        s[0] as int
    } else if s.last() < seq_min(s.drop_last()) {
        s.last() as int
    } else {
        seq_min(s.drop_last())
    }
}

/// The greatest sample of a non-empty output channel.
pub open spec fn seq_max(s: Seq<i64>) -> int
    decreases s.len(),
{
    if s.len() == 0 {
        0
    } else if s.len() == 1 {
        s[0] as int
    } else if s.last() > seq_max(s.drop_last()) {
        s.last() as int
    } else {
        seq_max(s.drop_last())
    }
}

pub proof fn lemma_min_max_bounds(s: Seq<i64>)
    requires
        s.len() > 0,
    ensures
        forall|i: int| 0 <= i < s.len() ==> seq_min(s) <= #[trigger] s[i] <= seq_max(s),
        seq_min(s) <= seq_max(s),
        exists|i: int| 0 <= i < s.len() && s[i] == seq_min(s),
        exists|i: int| 0 <= i < s.len() && s[i] == seq_max(s),
    decreases s.len(),
{
    if s.len() == 1 {
        assert(s[0] == seq_min(s));
        assert(s[0] == seq_max(s));
    } else {
        let prefix = s.drop_last();
        lemma_min_max_bounds(prefix);
        assert(forall|i: int| 0 <= i < s.len() - 1 ==> s[i] == #[trigger] prefix[i]);
        assert forall|i: int| 0 <= i < s.len() implies seq_min(s) <= #[trigger] s[i] <= seq_max(s)
        by {
            if i < s.len() - 1 {
                assert(s[i] == prefix[i]);
                assert(seq_min(prefix) <= prefix[i] <= seq_max(prefix));
            }
        }
        if s.last() < seq_min(prefix) {
            assert(s[s.len() - 1] == seq_min(s));
        } else {
            let w = choose|i: int| 0 <= i < prefix.len() && prefix[i] == seq_min(prefix);
            assert(s[w] == seq_min(s));
        }
        if s.last() > seq_max(prefix) {
            assert(s[s.len() - 1] == seq_max(s));
        } else {
            let w = choose|i: int| 0 <= i < prefix.len() && prefix[i] == seq_max(prefix);
            assert(s[w] == seq_max(s));
        }
    }
}

/// A channel that is constant everywhere has equal minimum and maximum, so
/// rescaling maps it to an all-zero mask rather than dividing by zero.
pub proof fn lemma_constant_channel(s: Seq<i64>)
    requires
        s.len() > 0,
        forall|i: int| 0 <= i < s.len() ==> #[trigger] s[i] == s[0],
    ensures
        seq_min(s) == seq_max(s),
    decreases s.len(),
{
    if s.len() > 1 {
        lemma_constant_channel(s.drop_last());
        assert(forall|i: int| 0 <= i < s.len() - 1 ==> s.drop_last()[i] == s[i]);
    }
}

/// Linearly rescale a model output channel to 8-bit alpha values: each
/// sample maps to `(v - min) * 255 / (max - min)`, and a constant channel
/// maps to 0 everywhere. Samples are fixed-point integers; the bound on
/// their magnitude keeps the scaled products inside machine range.
pub fn rescale_mask(vals: &Vec<i64>) -> (r: Vec<u8>)
    requires
        vals@.len() > 0,
        forall|i: int|
            0 <= i < vals@.len() ==> -1000000000000 <= #[trigger] vals@[i] <= 1000000000000,
    ensures
        r@.len() == vals@.len(),
        seq_min(vals@) == seq_max(vals@) ==> forall|i: int| 0 <= i < r@.len() ==> r@[i] == 0,
        seq_min(vals@) < seq_max(vals@) ==> forall|i: int|
            0 <= i < r@.len() ==> r@[i] == (vals@[i] - seq_min(vals@)) * 255 / (seq_max(vals@)
                - seq_min(vals@)),
{
    proof {
        lemma_min_max_bounds(vals@);
    }
    let n = vals.len();
    let mut mn: i64 = vals[0];
    let mut mx: i64 = vals[0];
    let mut i: usize = 1;
    proof {
        assert(vals@.take(1).len() == 1);
        assert(vals@.take(1)[0] == vals@[0]);
    }
    while i < n
        invariant
            1 <= i <= n,
            n == vals@.len(),
            mn == seq_min(vals@.take(i as int)),
            mx == seq_max(vals@.take(i as int)),
        decreases n - i,
    {
        proof {
            assert(vals@.take(i + 1).drop_last() =~= vals@.take(i as int));
            assert(vals@.take(i + 1).last() == vals@[i as int]);
        }
        let v = vals[i];
        if v < mn {
            mn = v;
        }
        if v > mx {
            mx = v;
        }
        i = i + 1;
    }
    proof {
        assert(vals@.take(n as int) =~= vals@);
        let wmin = choose|k: int| 0 <= k < vals@.len() && vals@[k] == seq_min(vals@);
        let wmax = choose|k: int| 0 <= k < vals@.len() && vals@[k] == seq_max(vals@);
        assert(-1000000000000 <= seq_min(vals@) <= 1000000000000);
        assert(-1000000000000 <= seq_max(vals@) <= 1000000000000);
    }
    let mut r: Vec<u8> = Vec::new();
    let mut j: usize = 0;
    if mx == mn {
        while j < n
            invariant
                j <= n,
                r@.len() == j,
                forall|k: int| 0 <= k < j ==> r@[k] == 0,
            decreases n - j,
        {
            r.push(0);
            j = j + 1;
        }
        r
    } else {
        while j < n
            invariant
                j <= n,
                n == vals@.len(),
                r@.len() == j,
                mn == seq_min(vals@),
                mx == seq_max(vals@),
                mn < mx,
                -1000000000000 <= mn <= 1000000000000,
                -1000000000000 <= mx <= 1000000000000,
                forall|i2: int|
                    0 <= i2 < vals@.len() ==> -1000000000000 <= #[trigger] vals@[i2]
                        <= 1000000000000,
                forall|i2: int| 0 <= i2 < vals@.len() ==> mn <= #[trigger] vals@[i2] <= mx,
                forall|k: int|
                    0 <= k < j ==> #[trigger] r@[k] == (vals@[k] - seq_min(vals@)) * 255 / (
                    seq_max(vals@) - seq_min(vals@)),
            decreases n - j,
        {
            let v = vals[j];
            let t: i64 = (v - mn) * 255 / (mx - mn);
            proof {
                assert(0 <= (v - mn) * 255 / (mx - mn) <= 255) by (nonlinear_arith)
                    requires
                        mn <= v <= mx,
                        mn < mx,
                ;
            }
            r.push(t as u8);
            j = j + 1;
        }
        r
    }
}

/// The byte at offset k of the composited image: every fourth byte is the
/// alpha sample of its pixel, taken from the mask; the others keep the
/// original image's value.
pub open spec fn composite_at(rgba: Seq<u8>, mask: Seq<u8>, k: int) -> u8 {
    if k % 4 == 3 {
        mask[k / 4]
    } else {
        rgba[k]
    }
}

/// The original RGBA pixels with the alpha channel replaced: pixel p keeps
/// its R, G and B bytes and takes mask sample p as its alpha byte.
pub fn apply_mask(rgba: &Vec<u8>, mask: &Vec<u8>) -> (r: Vec<u8>)
    requires
        rgba@.len() == 4 * mask@.len(),
    ensures
        r@.len() == rgba@.len(),
        forall|k: int| 0 <= k < r@.len() ==> #[trigger] r@[k] == composite_at(rgba@, mask@, k),
        forall|p: int|
            0 <= p < mask@.len() ==> r@[4 * p] == rgba@[4 * p] && r@[4 * p + 1] == rgba@[4 * p + 1]
                && r@[4 * p + 2] == rgba@[4 * p + 2] && r@[4 * p + 3] == #[trigger] mask@[p],
{
    let n = mask.len();
    let total = rgba.len();
    let mut r: Vec<u8> = Vec::new();
    let mut p: usize = 0;
    while p < n
        invariant
            p <= n,
            n == mask@.len(),
            rgba@.len() == 4 * n,
            total == rgba@.len(),
            r@.len() == 4 * p,
            forall|k: int| 0 <= k < r@.len() ==> #[trigger] r@[k] == composite_at(rgba@, mask@, k),
        decreases n - p,
    {
        let ghost prev = r@;
        r.push(rgba[4 * p]);
        r.push(rgba[4 * p + 1]);
        r.push(rgba[4 * p + 2]);
        r.push(mask[p]);
        proof {
            assert forall|k: int| 0 <= k < r@.len() implies #[trigger] r@[k] == composite_at(
                rgba@, mask@, k) by {
                if k < prev.len() {
                    assert(r@[k] == prev[k]);
                } else {
                    lemma_fundamental_div_mod_converse(k, 4, p as int, k - 4 * (p as int));
                }
            }
        }
        p = p + 1;
    }
    proof {
        assert forall|p2: int|
            0 <= p2 < mask@.len() implies r@[4 * p2] == rgba@[4 * p2] && r@[4 * p2 + 1] == rgba@[4
            * p2 + 1] && r@[4 * p2 + 2] == rgba@[4 * p2 + 2] && r@[4 * p2 + 3]
            == #[trigger] mask@[p2] by {
            lemma_fundamental_div_mod_converse(4 * p2, 4, p2, 0);
            lemma_fundamental_div_mod_converse(4 * p2 + 1, 4, p2, 1);
            lemma_fundamental_div_mod_converse(4 * p2 + 2, 4, p2, 2);
            lemma_fundamental_div_mod_converse(4 * p2 + 3, 4, p2, 3);
        }
    }
    r
}

/// The model's input layout for an RGB image of any size: the image
/// resampled to the fixed 320x320 input resolution and split into R, G
/// and B planes. Scaling each 8-bit sample to the unit interval is a
/// per-sample step for the inference runtime's input and moves no data.
pub fn prepare_input(rgb: &Vec<u8>, w: u32, h: u32) -> (r: Vec<u8>)
    requires
        rgb@.len() == 3 * (w * h),
        0 < w,
        0 < h,
        1280 * w <= usize::MAX,
    ensures
        r@.len() == 307200,
        forall|c: int, y: int, x: int|
            0 <= c < 3 && 0 <= y < 320 && 0 <= x < 320 ==> #[trigger] r@[c * 102400 + y * 320 + x]
                == lanczos_rgb(rgb@, w, h, 320, 320)[3 * (y * 320 + x) + c],
{
    let resized = resize_rgb(rgb, w, h, 320, 320);
    chw_planes(&resized)
}

/// The finished output image for an original of dimensions (w, h): the
/// rescaled mask, itself of dimensions (mw, mh), is resampled to exactly
/// (w, h) and written into the alpha channel of the original pixels. The
/// result therefore has the original's dimensions, not the model's working
/// resolution.
pub fn compose_output(rgba: &Vec<u8>, w: u32, h: u32, mask: &Vec<u8>, mw: u32, mh: u32) -> (r: Vec<
    u8>)
    requires
        rgba@.len() == 4 * (w * h),
        mask@.len() == mw * mh,
        0 < w,
        0 < h,
        0 < mw,
        0 < mh,
        4 * (w * h) <= usize::MAX,
        4 * (mw * h) <= usize::MAX,
    ensures
        r@.len() == 4 * (w * h),
        forall|p: int|
            0 <= p < w * h ==> r@[4 * p] == rgba@[4 * p] && r@[4 * p + 1] == rgba@[4 * p + 1]
                && r@[4 * p + 2] == rgba@[4 * p + 2] && r@[4 * p + 3] == #[trigger] lanczos_gray(
                mask@, mw, mh, w, h)[p],
{
    let resized = resize_gray(mask, mw, mh, w, h);
    apply_mask(rgba, &resized)
}

/// Validate a model output's shape against the extracted data: the tensor
/// must be rank 4 in [batch, channel, height, width] layout with positive
/// height and width that fit `u32`, and its first channel (height * width
/// samples) must fit inside the data. On success the mask geometry comes
/// back as (width, height).
pub fn output_geometry(dims: &Vec<i64>, available: usize) -> (r: Option<(u32, u32)>)
    ensures
        r is Some <==> dims@.len() == 4 && 0 < dims@[2] <= u32::MAX && 0 < dims@[3] <= u32::MAX
            && dims@[2] * dims@[3] <= available,
        r matches Some(g) ==> g.0 == dims@[3] && g.1 == dims@[2],
{
    if dims.len() != 4 {
        return None;
    }
    let mh = dims[2];
    let mw = dims[3];
    if mh <= 0 || mw <= 0 || mh > u32::MAX as i64 || mw > u32::MAX as i64 {
        return None;
    }
    proof {
        assert(mh * mw <= 0xFFFF_FFFF * 0xFFFF_FFFF) by (nonlinear_arith)
            requires
                0 < mh <= 0xFFFF_FFFF,
                0 < mw <= 0xFFFF_FFFF,
        ;
    }
    let samples: u64 = (mh as u64) * (mw as u64);
    if samples <= available as u64 {
        Some((mw as u32, mh as u32))
    } else {
        None
    }
}

/// Whether an original image of (w, h) and a mask of (mw, mh) stay within
/// machine limits for compositing: all four dimensions positive, and both
/// the output buffer and the resample's intermediate fit in index range.
pub fn compose_within_limits(w: u32, h: u32, mw: u32, mh: u32) -> (r: bool)
    ensures
        r == (0 < w && 0 < h && 0 < mw && 0 < mh && 4 * (w * h) <= usize::MAX && 4 * (mw * h)
            <= usize::MAX),
{
    if w == 0 || h == 0 || mw == 0 || mh == 0 {
        return false;
    }
    proof {
        assert(w * h <= 0xFFFF_FFFFu64 * 0xFFFF_FFFFu64) by (nonlinear_arith)
            requires
                0 < w <= 0xFFFF_FFFFu64,
                0 < h <= 0xFFFF_FFFFu64,
        ;
        assert(mw * h <= 0xFFFF_FFFFu64 * 0xFFFF_FFFFu64) by (nonlinear_arith)
            requires
                0 < mw <= 0xFFFF_FFFFu64,
                0 < h <= 0xFFFF_FFFFu64,
        ;
    }
    let out_bytes: u128 = 4u128 * ((w as u128) * (h as u128));
    let mid_samples: u128 = 4u128 * ((mw as u128) * (h as u128));
    out_bytes <= usize::MAX as u128 && mid_samples <= usize::MAX as u128
}

} // verus!
