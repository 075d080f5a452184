//! Per-pixel conversion between RGB / BGR and YUV with the BT.601 integer
//! coefficients.
use crate::pixel::{Bgr, Rgb, Yuv};
use crate::sample::{clamp_i32, clamp_spec, lemma_shr8_floor, Sample};
use vstd::prelude::*;

verus! {

/// Luma of an RGB triple: `((66R + 129G + 25B + 128) >> 8) + 16`.
pub open spec fn luma(r: int, g: int, b: int) -> int {
    (66 * r + 129 * g + 25 * b + 128) / 256 + 16
}

/// Blue-difference chroma: `((-38R - 74G + 112B + 128) >> 8) + 128`.
pub open spec fn chroma_u(r: int, g: int, b: int) -> int {
    (-38 * r - 74 * g + 112 * b + 128) / 256 + 128
}

/// Red-difference chroma: `((112R - 94G - 18B + 128) >> 8) + 128`.
pub open spec fn chroma_v(r: int, g: int, b: int) -> int {
    (112 * r - 94 * g - 18 * b + 128) / 256 + 128
}

/// Red of a YUV triple, clamped to `[0, 255]`.
pub open spec fn red(y: int, u: int, v: int) -> int {
    clamp_spec((298 * (y - 16) + 409 * (v - 128) + 128) / 256, 0, 255)
}

/// Green of a YUV triple, clamped to `[0, 255]`.
pub open spec fn green(y: int, u: int, v: int) -> int {
    clamp_spec((298 * (y - 16) - 100 * (u - 128) - 208 * (v - 128) + 128) / 256, 0, 255)
}

/// Blue of a YUV triple, clamped to `[0, 255]`.
pub open spec fn blue(y: int, u: int, v: int) -> int {
    clamp_spec((298 * (y - 16) + 516 * (u - 128) + 128) / 256, 0, 255)
}

/// A channel value in the 8-bit range.
pub open spec fn in_byte(x: int) -> bool {
    0 <= x <= 255
}

/// Floor division by 256 of an `i32`, written as the shift.
fn shr8(x: i32) -> (r: i32)
    ensures
        r as int == x as int / 256,
        (r as int) * 256 <= (x as int) < (r as int) * 256 + 256,
{
    proof {
        lemma_shr8_floor(x);
    }
    x >> 8u32
}

/// Narrows a value known to lie in `[0, 255]` to the storage type.
fn narrow_byte<O: Sample>(v: i32) -> (r: O)
    requires
        0 <= v <= 255,
    ensures
        r.value() == v as int,
{
    proof {
        O::lemma_range();
    }
    O::narrow(v).unwrap()
}

/// The YUV triple of an RGB triple, each channel in the storage type `O`.
fn yuv_of_rgb<I: Sample, O: Sample>(pr: I, pg: I, pb: I) -> (res: [O; 3])
    requires
        in_byte(pr.value()),
        in_byte(pg.value()),
        in_byte(pb.value()),
    ensures
        res[0].value() == luma(pr.value(), pg.value(), pb.value()),
        res[1].value() == chroma_u(pr.value(), pg.value(), pb.value()),
        res[2].value() == chroma_v(pr.value(), pg.value(), pb.value()),
{
    let r = pr.widen();
    let g = pg.widen();
    let b = pb.widen();
    let y = shr8(66 * r + 129 * g + 25 * b + 128) + 16;
    let u = shr8(112 * b - 38 * r - 74 * g + 128) + 128;
    let v = shr8(112 * r - 94 * g - 18 * b + 128) + 128;
    [narrow_byte(y), narrow_byte(u), narrow_byte(v)]
}

/// The clamped RGB triple of a YUV triple, in the order `[R, G, B]`.
fn rgb_of_yuv<I: Sample, O: Sample>(py: I, pu: I, pv: I) -> (res: [O; 3])
    ensures
        res[0].value() == red(py.value(), pu.value(), pv.value()),
        res[1].value() == green(py.value(), pu.value(), pv.value()),
        res[2].value() == blue(py.value(), pu.value(), pv.value()),
{
    proof {
        I::lemma_range();
    }
    let c = py.widen() - 16;
    let d = pu.widen() - 128;
    let e = pv.widen() - 128;
    let r = clamp_i32(shr8(298 * c + 409 * e + 128), 0, 255);
    let g = clamp_i32(shr8(298 * c - 100 * d - 208 * e + 128), 0, 255);
    let b = clamp_i32(shr8(298 * c + 516 * d + 128), 0, 255);
    [narrow_byte(r), narrow_byte(g), narrow_byte(b)]
}

impl<O: Sample> Yuv<O> {
    /// Converts an RGB pixel with channels in `[0, 255]` to YUV.
    pub fn from_rgb<I: Sample>(pix: Rgb<I>) -> (res: Yuv<O>)
        requires
            in_byte(pix.0[0].value()),
            in_byte(pix.0[1].value()),
            in_byte(pix.0[2].value()),
        ensures
            res.0[0].value() == luma(pix.0[0].value(), pix.0[1].value(), pix.0[2].value()),
            res.0[1].value() == chroma_u(pix.0[0].value(), pix.0[1].value(), pix.0[2].value()),
            res.0[2].value() == chroma_v(pix.0[0].value(), pix.0[1].value(), pix.0[2].value()),
    {
        Yuv(yuv_of_rgb(pix.0[0], pix.0[1], pix.0[2]))
    }

    /// Converts a BGR pixel with channels in `[0, 255]` to YUV; red is read
    /// from channel 2 and blue from channel 0.
    pub fn from_bgr<I: Sample>(pix: Bgr<I>) -> (res: Yuv<O>)
        requires
            in_byte(pix.0[0].value()),
            in_byte(pix.0[1].value()),
            in_byte(pix.0[2].value()),
        ensures
            res.0[0].value() == luma(pix.0[2].value(), pix.0[1].value(), pix.0[0].value()),
            res.0[1].value() == chroma_u(pix.0[2].value(), pix.0[1].value(), pix.0[0].value()),
            res.0[2].value() == chroma_v(pix.0[2].value(), pix.0[1].value(), pix.0[0].value()),
    {
        Yuv(yuv_of_rgb(pix.0[2], pix.0[1], pix.0[0]))
    }
}

impl<O: Sample> Rgb<O> {
    /// Converts a YUV pixel to RGB, each channel clamped to `[0, 255]`.
    pub fn from_yuv<I: Sample>(pix: Yuv<I>) -> (res: Rgb<O>)
        ensures
            res.0[0].value() == red(pix.0[0].value(), pix.0[1].value(), pix.0[2].value()),
            res.0[1].value() == green(pix.0[0].value(), pix.0[1].value(), pix.0[2].value()),
            res.0[2].value() == blue(pix.0[0].value(), pix.0[1].value(), pix.0[2].value()),
    {
        Rgb(rgb_of_yuv(pix.0[0], pix.0[1], pix.0[2]))
    }
}

impl<O: Sample> Bgr<O> {
    /// Converts a YUV pixel to BGR, each channel clamped to `[0, 255]`.
    pub fn from_yuv<I: Sample>(pix: Yuv<I>) -> (res: Bgr<O>)
        ensures
            res.0[0].value() == blue(pix.0[0].value(), pix.0[1].value(), pix.0[2].value()),
            res.0[1].value() == green(pix.0[0].value(), pix.0[1].value(), pix.0[2].value()),
            res.0[2].value() == red(pix.0[0].value(), pix.0[1].value(), pix.0[2].value()),
    {
        let c: [O; 3] = rgb_of_yuv(pix.0[0], pix.0[1], pix.0[2]);
        Bgr([c[2], c[1], c[0]])
    }
}

/// `q` is the YUV pixel of the RGB pixel `p`.
pub open spec fn yuv_of_rgb_pixel<I: Sample, O: Sample>(p: Rgb<I>, q: Yuv<O>) -> bool {
    &&& q.0[0].value() == luma(p.0[0].value(), p.0[1].value(), p.0[2].value())
    &&& q.0[1].value() == chroma_u(p.0[0].value(), p.0[1].value(), p.0[2].value())
    &&& q.0[2].value() == chroma_v(p.0[0].value(), p.0[1].value(), p.0[2].value())
}

/// `q` is the YUV pixel of the BGR pixel `p`.
pub open spec fn yuv_of_bgr_pixel<I: Sample, O: Sample>(p: Bgr<I>, q: Yuv<O>) -> bool {
    &&& q.0[0].value() == luma(p.0[2].value(), p.0[1].value(), p.0[0].value())
    &&& q.0[1].value() == chroma_u(p.0[2].value(), p.0[1].value(), p.0[0].value())
    &&& q.0[2].value() == chroma_v(p.0[2].value(), p.0[1].value(), p.0[0].value())
}

/// `q` is the RGB pixel of the YUV pixel `p`.
pub open spec fn rgb_of_yuv_pixel<I: Sample, O: Sample>(p: Yuv<I>, q: Rgb<O>) -> bool {
    &&& q.0[0].value() == red(p.0[0].value(), p.0[1].value(), p.0[2].value())
    &&& q.0[1].value() == green(p.0[0].value(), p.0[1].value(), p.0[2].value())
    &&& q.0[2].value() == blue(p.0[0].value(), p.0[1].value(), p.0[2].value())
}

/// `q` is the BGR pixel of the YUV pixel `p`.
pub open spec fn bgr_of_yuv_pixel<I: Sample, O: Sample>(p: Yuv<I>, q: Bgr<O>) -> bool {
    &&& q.0[0].value() == blue(p.0[0].value(), p.0[1].value(), p.0[2].value())
    &&& q.0[1].value() == green(p.0[0].value(), p.0[1].value(), p.0[2].value())
    &&& q.0[2].value() == red(p.0[0].value(), p.0[1].value(), p.0[2].value())
}

/// Every channel of a three-channel pixel lies in `[0, 255]`.
pub open spec fn byte_channels<T: Sample>(c: [T; 3]) -> bool {
    in_byte(c[0].value()) && in_byte(c[1].value()) && in_byte(c[2].value())
}

/// Within one of each other.
pub open spec fn near(a: int, b: int) -> bool {
    b - 1 <= a <= b + 1
}

/// A gray pixel survives RGB to YUV and back within one in every channel.
pub proof fn lemma_gray_round_trip(v: int)
    requires
        in_byte(v),
    ensures
        near(red(luma(v, v, v), chroma_u(v, v, v), chroma_v(v, v, v)), v),
        near(green(luma(v, v, v), chroma_u(v, v, v), chroma_v(v, v, v)), v),
        near(blue(luma(v, v, v), chroma_u(v, v, v), chroma_v(v, v, v)), v),
{
    let c = luma(v, v, v) - 16;
    assert(c == (220 * v + 128) / 256);
    let q = (298 * c + 128) / 256;
    assert(v - 1 <= q <= v + 1) by (nonlinear_arith)
        requires
            c == (220 * v + 128) / 256,
            q == (298 * c + 128) / 256,
            0 <= v <= 255,
    ;
}

/// Any RGB pixel survives RGB to YUV and back within three in every
/// channel.
pub proof fn lemma_round_trip_within_three(r: int, g: int, b: int)
    requires
        in_byte(r),
        in_byte(g),
        in_byte(b),
    ensures
        r - 3 <= red(luma(r, g, b), chroma_u(r, g, b), chroma_v(r, g, b)) <= r + 3,
        g - 3 <= green(luma(r, g, b), chroma_u(r, g, b), chroma_v(r, g, b)) <= g + 3,
        b - 3 <= blue(luma(r, g, b), chroma_u(r, g, b), chroma_v(r, g, b)) <= b + 3,
{
    let c = luma(r, g, b) - 16;
    let d = chroma_u(r, g, b) - 128;
    let e = chroma_v(r, g, b) - 128;
    let qr = (298 * c + 409 * e + 128) / 256;
    let qg = (298 * c - 100 * d - 208 * e + 128) / 256;
    let qb = (298 * c + 516 * d + 128) / 256;
    assert(r - 3 <= qr <= r + 3) by (nonlinear_arith)
        requires
            c == (66 * r + 129 * g + 25 * b + 128) / 256,
            e == (112 * r - 94 * g - 18 * b + 128) / 256,
            qr == (298 * c + 409 * e + 128) / 256,
            0 <= r <= 255, 0 <= g <= 255, 0 <= b <= 255,
    ;
    assert(g - 3 <= qg <= g + 3) by (nonlinear_arith)
        requires
            c == (66 * r + 129 * g + 25 * b + 128) / 256,
            d == (-38 * r - 74 * g + 112 * b + 128) / 256,
            e == (112 * r - 94 * g - 18 * b + 128) / 256,
            qg == (298 * c - 100 * d - 208 * e + 128) / 256,
            0 <= r <= 255, 0 <= g <= 255, 0 <= b <= 255,
    ;
    assert(b - 3 <= qb <= b + 3) by (nonlinear_arith)
        requires
            c == (66 * r + 129 * g + 25 * b + 128) / 256,
            d == (-38 * r - 74 * g + 112 * b + 128) / 256,
            qb == (298 * c + 516 * d + 128) / 256,
            0 <= r <= 255, 0 <= g <= 255, 0 <= b <= 255,
    ;
}

} // verus!
