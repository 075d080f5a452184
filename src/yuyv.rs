//! Packing and unpacking of YUYV 4:2:2 macropixels, alone and composed with
//! the RGB / BGR color transform.
use crate::color::{blue, byte_channels, chroma_u, chroma_v, green, luma, red};
use crate::pixel::{Bgr, Rgb, Yuv, Yuyv};
use crate::sample::Sample;
use vstd::prelude::*;

verus! {

/// `p0` and `p1` are the two pixels of macropixel `m`: its two luma samples,
/// each with the shared chroma pair.
pub open spec fn unpacks_to<T>(m: Yuyv<T>, p0: Yuv<T>, p1: Yuv<T>) -> bool {
    &&& p0.0@ == seq![m.0[0], m.0[1], m.0[3]]
    &&& p1.0@ == seq![m.0[2], m.0[1], m.0[3]]
}

/// `m` packs `p0` and `p1`: both luma samples, and the chroma of `p0` only.
pub open spec fn packs_to<T>(p0: Yuv<T>, p1: Yuv<T>, m: Yuyv<T>) -> bool {
    m.0@ == seq![p0.0[0], p0.0[1], p1.0[0], p0.0[2]]
}

/// `p` is the RGB pixel of the YUV triple `(y, u, v)`.
pub open spec fn rgb_from<I: Sample, O: Sample>(p: Rgb<O>, y: I, u: I, v: I) -> bool {
    &&& p.0[0].value() == red(y.value(), u.value(), v.value())
    &&& p.0[1].value() == green(y.value(), u.value(), v.value())
    &&& p.0[2].value() == blue(y.value(), u.value(), v.value())
}

/// `p` is the BGR pixel of the YUV triple `(y, u, v)`.
pub open spec fn bgr_from<I: Sample, O: Sample>(p: Bgr<O>, y: I, u: I, v: I) -> bool {
    &&& p.0[0].value() == blue(y.value(), u.value(), v.value())
    &&& p.0[1].value() == green(y.value(), u.value(), v.value())
    &&& p.0[2].value() == red(y.value(), u.value(), v.value())
}

/// `p0` and `p1` are the RGB pixels of the two YUV pixels of macropixel `m`.
pub open spec fn unpacks_to_rgb<I: Sample, O: Sample>(m: Yuyv<I>, p0: Rgb<O>, p1: Rgb<O>) -> bool {
    &&& rgb_from(p0, m.0[0], m.0[1], m.0[3])
    &&& rgb_from(p1, m.0[2], m.0[1], m.0[3])
}

/// `p0` and `p1` are the BGR pixels of the two YUV pixels of macropixel `m`.
pub open spec fn unpacks_to_bgr<I: Sample, O: Sample>(m: Yuyv<I>, p0: Bgr<O>, p1: Bgr<O>) -> bool {
    &&& bgr_from(p0, m.0[0], m.0[1], m.0[3])
    &&& bgr_from(p1, m.0[2], m.0[1], m.0[3])
}

/// `m` is the macropixel of two full-color pixels given as `(R, G, B)` value
/// triples: both lumas, and the chroma of the first.
pub open spec fn packs_colors<O: Sample>(
    r0: int,
    g0: int,
    b0: int,
    r1: int,
    g1: int,
    b1: int,
    m: Yuyv<O>,
) -> bool {
    &&& m.0[0].value() == luma(r0, g0, b0)
    &&& m.0[1].value() == chroma_u(r0, g0, b0)
    &&& m.0[2].value() == luma(r1, g1, b1)
    &&& m.0[3].value() == chroma_v(r0, g0, b0)
}

/// Unpacking loses nothing: packing the two pixels of a macropixel gives
/// the macropixel back.
pub proof fn lemma_pack_after_unpack<T>(m: Yuyv<T>, p0: Yuv<T>, p1: Yuv<T>, packed: Yuyv<T>)
    requires
        unpacks_to(m, p0, p1),
        packs_to(p0, p1, packed),
    ensures
        packed == m,
{
    assert(packed.0@ =~= m.0@);
    assert(packed.0 == m.0);
}

/// Packing keeps the first pixel's chroma only: unpacking the packed pair
/// gives both lumas back, each with the chroma of `p0`.
pub proof fn lemma_unpack_after_pack<T>(p0: Yuv<T>, p1: Yuv<T>, m: Yuyv<T>, q0: Yuv<T>, q1: Yuv<T>)
    requires
        packs_to(p0, p1, m),
        unpacks_to(m, q0, q1),
    ensures
        q0 == p0,
        q1.0@ == seq![p1.0[0], p0.0[1], p0.0[2]],
{
    assert(q0.0@ =~= p0.0@);
    assert(q0.0 == p0.0);
}

impl<T: Copy> Yuyv<T> {
    /// Unpacks the macropixel into its two YUV pixels `[Y0, U, V]` and
    /// `[Y1, U, V]`; both carry the macropixel's chroma unchanged.
    pub fn into_yuv_pair(self) -> (res: [Yuv<T>; 2])
        ensures
            unpacks_to(self, res[0], res[1]),
            res[0].0[1] == self.0[1] && res[1].0[1] == self.0[1],
            res[0].0[2] == self.0[3] && res[1].0[2] == self.0[3],
    {
        let p0 = Yuv([self.0[0], self.0[1], self.0[3]]);
        let p1 = Yuv([self.0[2], self.0[1], self.0[3]]);
        assert(p0.0@ =~= seq![self.0[0], self.0[1], self.0[3]]);
        assert(p1.0@ =~= seq![self.0[2], self.0[1], self.0[3]]);
        [p0, p1]
    }

    /// Packs two YUV pixels into `[Y0, U0, Y1, V0]`. The chroma of the second
    /// pixel is dropped.
    pub fn from_yuv_pair(pix: [Yuv<T>; 2]) -> (res: Yuyv<T>)
        ensures
            packs_to(pix[0], pix[1], res),
    {
        let m = Yuyv([pix[0].0[0], pix[0].0[1], pix[1].0[0], pix[0].0[2]]);
        assert(m.0@ =~= seq![pix[0].0[0], pix[0].0[1], pix[1].0[0], pix[0].0[2]]);
        m
    }
}

impl<I: Sample> Yuyv<I> {
    /// Unpacks the macropixel and converts both pixels to RGB.
    pub fn into_rgb_pair<O: Sample>(self) -> (res: [Rgb<O>; 2])
        ensures
            unpacks_to_rgb(self, res[0], res[1]),
    {
        let yuv = self.into_yuv_pair();
        [Rgb::from_yuv(yuv[0]), Rgb::from_yuv(yuv[1])]
    }

    /// Unpacks the macropixel and converts both pixels to BGR.
    pub fn into_bgr_pair<O: Sample>(self) -> (res: [Bgr<O>; 2])
        ensures
            unpacks_to_bgr(self, res[0], res[1]),
    {
        let yuv = self.into_yuv_pair();
        [Bgr::from_yuv(yuv[0]), Bgr::from_yuv(yuv[1])]
    }
}

impl<O: Sample> Yuyv<O> {
    /// Converts two RGB pixels to YUV and packs them; only the first pixel's
    /// chroma survives.
    pub fn from_rgb_pair<I: Sample>(pix: [Rgb<I>; 2]) -> (res: Yuyv<O>)
        requires
            byte_channels(pix[0].0),
            byte_channels(pix[1].0),
        ensures
            packs_colors(
                pix[0].0[0].value(),
                pix[0].0[1].value(),
                pix[0].0[2].value(),
                pix[1].0[0].value(),
                pix[1].0[1].value(),
                pix[1].0[2].value(),
                res,
            ),
    {
        let p0: Yuv<O> = Yuv::from_rgb(pix[0]);
        let p1: Yuv<O> = Yuv::from_rgb(pix[1]);
        Yuyv::from_yuv_pair([p0, p1])
    }

    /// Converts two BGR pixels to YUV and packs them; only the first pixel's
    /// chroma survives.
    pub fn from_bgr_pair<I: Sample>(pix: [Bgr<I>; 2]) -> (res: Yuyv<O>)
        requires
            byte_channels(pix[0].0),
            byte_channels(pix[1].0),
        ensures
            packs_colors(
                pix[0].0[2].value(),
                pix[0].0[1].value(),
                pix[0].0[0].value(),
                pix[1].0[2].value(),
                pix[1].0[1].value(),
                pix[1].0[0].value(),
                res,
            ),
    {
        let p0: Yuv<O> = Yuv::from_bgr(pix[0]);
        let p1: Yuv<O> = Yuv::from_bgr(pix[1]);
        Yuyv::from_yuv_pair([p0, p1])
    }
}

} // verus!
