//! Conversion of whole slices of pixels into caller-sized destinations.
use crate::color::{
    bgr_of_yuv_pixel, byte_channels, rgb_of_yuv_pixel, yuv_of_bgr_pixel, yuv_of_rgb_pixel,
};
use crate::pixel::{Bgr, Rgb, Yuv, Yuyv};
use crate::sample::Sample;
use crate::yuyv::{packs_colors, packs_to, unpacks_to, unpacks_to_bgr, unpacks_to_rgb};
use vstd::prelude::*;

verus! {

/// Why a slice conversion was refused.
#[derive(Clone, Copy, Debug, PartialEq, Eq)]
pub enum ConvertError {
    /// The destination length is not the one the source length requires.
    LengthMismatch,
}

/// Unpacks each macropixel of `src` into two YUV pixels of `dst`:
/// macropixel `i` fills `dst[2i]` and `dst[2i + 1]`. Fails, leaving `dst`
/// untouched, unless `dst` is exactly twice as long as `src`.
pub fn yuyv_to_yuv<T: Copy>(src: &[Yuyv<T>], dst: &mut [Yuv<T>]) -> (res: Result<(), ConvertError>)
    ensures
        res is Ok <==> old(dst)@.len() == 2 * src@.len(),
        res is Err ==> res == Err::<(), ConvertError>(ConvertError::LengthMismatch) && final(dst)@
            == old(dst)@,
        res is Ok ==> final(dst)@.len() == old(dst)@.len() && forall|i: int|
            0 <= i < src@.len() ==> #[trigger] unpacks_to(
                src@[i],
                final(dst)@[2 * i],
                final(dst)@[2 * i + 1],
            ),
{
    let m = dst.len();
    if m % 2 != 0 || m / 2 != src.len() {
        return Err(ConvertError::LengthMismatch);
    }
    let n = src.len();
    let mut i: usize = 0;
    while i < n
        invariant
            n == src@.len(),
            dst@.len() == m,
            m == 2 * n,
            i <= n,
            forall|k: int| 0 <= k < i ==> #[trigger] unpacks_to(src@[k], dst@[2 * k], dst@[2 * k + 1]),
        decreases n - i,
    {
        let pixels = src[i].into_yuv_pair();
        let j = 2 * i;
        dst[j] = pixels[0];
        dst[j + 1] = pixels[1];
        i = i + 1;
    }
    Ok(())
}

/// Packs each pair of YUV pixels of `src` into one macropixel of `dst`:
/// `src[2j]` and `src[2j + 1]` make `dst[j]`, which keeps the chroma of
/// `src[2j]` only. Fails, leaving `dst` untouched, unless `src` is exactly
/// twice as long as `dst`.
pub fn yuv_to_yuyv<T: Copy>(src: &[Yuv<T>], dst: &mut [Yuyv<T>]) -> (res: Result<(), ConvertError>)
    ensures
        res is Ok <==> src@.len() == 2 * old(dst)@.len(),
        res is Err ==> res == Err::<(), ConvertError>(ConvertError::LengthMismatch) && final(dst)@
            == old(dst)@,
        res is Ok ==> final(dst)@.len() == old(dst)@.len() && forall|j: int|
            0 <= j < final(dst)@.len() ==> #[trigger] packs_to(
                src@[2 * j],
                src@[2 * j + 1],
                final(dst)@[j],
            ),
{
    let m = src.len();
    if m % 2 != 0 || m / 2 != dst.len() {
        return Err(ConvertError::LengthMismatch);
    }
    let n = dst.len();
    let mut j: usize = 0;
    while j < n
        invariant
            n == dst@.len(),
            src@.len() == m,
            m == 2 * n,
            j <= n,
            forall|k: int| 0 <= k < j ==> #[trigger] packs_to(src@[2 * k], src@[2 * k + 1], dst@[k]),
        decreases n - j,
    {
        let i = 2 * j;
        dst[j] = Yuyv::from_yuv_pair([src[i], src[i + 1]]);
        j = j + 1;
    }
    Ok(())
}

/// Converts each RGB pixel of `src` to the YUV pixel at the same index of
/// `dst`. Fails, leaving `dst` untouched, unless the lengths are equal.
pub fn rgb_to_yuv<I: Sample, O: Sample>(src: &[Rgb<I>], dst: &mut [Yuv<O>]) -> (res: Result<(), ConvertError>)
    requires
        forall|i: int| 0 <= i < src@.len() ==> #[trigger] byte_channels(src@[i].0),
    ensures
        res is Ok <==> old(dst)@.len() == src@.len(),
        res is Err ==> res == Err::<(), ConvertError>(ConvertError::LengthMismatch) && final(dst)@
            == old(dst)@,
        res is Ok ==> final(dst)@.len() == src@.len() && forall|i: int|
            0 <= i < src@.len() ==> #[trigger] yuv_of_rgb_pixel(src@[i], final(dst)@[i]),
{
    if src.len() != dst.len() {
        return Err(ConvertError::LengthMismatch);
    }
    let n = src.len();
    let mut i: usize = 0;
    while i < n
        invariant
            n == src@.len(),
            dst@.len() == n,
            i <= n,
            forall|k: int| 0 <= k < n ==> #[trigger] byte_channels(src@[k].0),
            forall|k: int| 0 <= k < i ==> #[trigger] yuv_of_rgb_pixel(src@[k], dst@[k]),
        decreases n - i,
    {
        assert(byte_channels(src@[i as int].0));
        dst[i] = Yuv::from_rgb(src[i]);
        i = i + 1;
    }
    Ok(())
}

/// Converts each BGR pixel of `src` to the YUV pixel at the same index of
/// `dst`. Fails, leaving `dst` untouched, unless the lengths are equal.
pub fn bgr_to_yuv<I: Sample, O: Sample>(src: &[Bgr<I>], dst: &mut [Yuv<O>]) -> (res: Result<(), ConvertError>)
    requires
        forall|i: int| 0 <= i < src@.len() ==> #[trigger] byte_channels(src@[i].0),
    ensures
        res is Ok <==> old(dst)@.len() == src@.len(),
        res is Err ==> res == Err::<(), ConvertError>(ConvertError::LengthMismatch) && final(dst)@
            == old(dst)@,
        res is Ok ==> final(dst)@.len() == src@.len() && forall|i: int|
            0 <= i < src@.len() ==> #[trigger] yuv_of_bgr_pixel(src@[i], final(dst)@[i]),
{
    if src.len() != dst.len() {
        return Err(ConvertError::LengthMismatch);
    }
    let n = src.len();
    let mut i: usize = 0;
    while i < n
        invariant
            n == src@.len(),
            dst@.len() == n,
            i <= n,
            forall|k: int| 0 <= k < n ==> #[trigger] byte_channels(src@[k].0),
            forall|k: int| 0 <= k < i ==> #[trigger] yuv_of_bgr_pixel(src@[k], dst@[k]),
        decreases n - i,
    {
        assert(byte_channels(src@[i as int].0));
        dst[i] = Yuv::from_bgr(src[i]);
        i = i + 1;
    }
    Ok(())
}

/// Converts each YUV pixel of `src` to the RGB pixel at the same index of
/// `dst`. Fails, leaving `dst` untouched, unless the lengths are equal.
pub fn yuv_to_rgb<I: Sample, O: Sample>(src: &[Yuv<I>], dst: &mut [Rgb<O>]) -> (res: Result<(), ConvertError>)
    ensures
        res is Ok <==> old(dst)@.len() == src@.len(),
        res is Err ==> res == Err::<(), ConvertError>(ConvertError::LengthMismatch) && final(dst)@
            == old(dst)@,
        res is Ok ==> final(dst)@.len() == src@.len() && forall|i: int|
            0 <= i < src@.len() ==> #[trigger] rgb_of_yuv_pixel(src@[i], final(dst)@[i]),
{
    if src.len() != dst.len() {
        return Err(ConvertError::LengthMismatch);
    }
    let n = src.len();
    let mut i: usize = 0;
    while i < n
        invariant
            n == src@.len(),
            dst@.len() == n,
            i <= n,
            forall|k: int| 0 <= k < i ==> #[trigger] rgb_of_yuv_pixel(src@[k], dst@[k]),
        decreases n - i,
    {
        dst[i] = Rgb::from_yuv(src[i]);
        i = i + 1;
    }
    Ok(())
}

/// Converts each YUV pixel of `src` to the BGR pixel at the same index of
/// `dst`. Fails, leaving `dst` untouched, unless the lengths are equal.
pub fn yuv_to_bgr<I: Sample, O: Sample>(src: &[Yuv<I>], dst: &mut [Bgr<O>]) -> (res: Result<(), ConvertError>)
    ensures
        res is Ok <==> old(dst)@.len() == src@.len(),
        res is Err ==> res == Err::<(), ConvertError>(ConvertError::LengthMismatch) && final(dst)@
            == old(dst)@,
        res is Ok ==> final(dst)@.len() == src@.len() && forall|i: int|
            0 <= i < src@.len() ==> #[trigger] bgr_of_yuv_pixel(src@[i], final(dst)@[i]),
{
    if src.len() != dst.len() {
        return Err(ConvertError::LengthMismatch);
    }
    let n = src.len();
    let mut i: usize = 0;
    while i < n
        invariant
            n == src@.len(),
            dst@.len() == n,
            i <= n,
            forall|k: int| 0 <= k < i ==> #[trigger] bgr_of_yuv_pixel(src@[k], dst@[k]),
        decreases n - i,
    {
        dst[i] = Bgr::from_yuv(src[i]);
        i = i + 1;
    }
    Ok(())
}

/// Unpacks each macropixel of `src` and converts its two pixels to RGB:
/// macropixel `i` fills `dst[2i]` and `dst[2i + 1]`. Fails, leaving `dst`
/// untouched, unless `dst` is exactly twice as long as `src`.
pub fn yuyv_to_rgb<I: Sample, O: Sample>(src: &[Yuyv<I>], dst: &mut [Rgb<O>]) -> (res: Result<(), ConvertError>)
    ensures
        res is Ok <==> old(dst)@.len() == 2 * src@.len(),
        res is Err ==> res == Err::<(), ConvertError>(ConvertError::LengthMismatch) && final(dst)@
            == old(dst)@,
        res is Ok ==> final(dst)@.len() == old(dst)@.len() && forall|i: int|
            0 <= i < src@.len() ==> #[trigger] unpacks_to_rgb(
                src@[i],
                final(dst)@[2 * i],
                final(dst)@[2 * i + 1],
            ),
{
    let m = dst.len();
    if m % 2 != 0 || m / 2 != src.len() {
        return Err(ConvertError::LengthMismatch);
    }
    let n = src.len();
    let mut i: usize = 0;
    while i < n
        invariant
            n == src@.len(),
            dst@.len() == m,
            m == 2 * n,
            i <= n,
            forall|k: int|
                0 <= k < i ==> #[trigger] unpacks_to_rgb(src@[k], dst@[2 * k], dst@[2 * k + 1]),
        decreases n - i,
    {
        let pixels = src[i].into_rgb_pair();
        let j = 2 * i;
        dst[j] = pixels[0];
        dst[j + 1] = pixels[1];
        i = i + 1;
    }
    Ok(())
}

/// Unpacks each macropixel of `src` and converts its two pixels to BGR:
/// macropixel `i` fills `dst[2i]` and `dst[2i + 1]`. Fails, leaving `dst`
/// untouched, unless `dst` is exactly twice as long as `src`.
pub fn yuyv_to_bgr<I: Sample, O: Sample>(src: &[Yuyv<I>], dst: &mut [Bgr<O>]) -> (res: Result<(), ConvertError>)
    ensures
        res is Ok <==> old(dst)@.len() == 2 * src@.len(),
        res is Err ==> res == Err::<(), ConvertError>(ConvertError::LengthMismatch) && final(dst)@
            == old(dst)@,
        res is Ok ==> final(dst)@.len() == old(dst)@.len() && forall|i: int|
            0 <= i < src@.len() ==> #[trigger] unpacks_to_bgr(
                src@[i],
                final(dst)@[2 * i],
                final(dst)@[2 * i + 1],
            ),
{
    let m = dst.len();
    if m % 2 != 0 || m / 2 != src.len() {
        return Err(ConvertError::LengthMismatch);
    }
    let n = src.len();
    let mut i: usize = 0;
    while i < n
        invariant
            n == src@.len(),
            dst@.len() == m,
            m == 2 * n,
            i <= n,
            forall|k: int|
                0 <= k < i ==> #[trigger] unpacks_to_bgr(src@[k], dst@[2 * k], dst@[2 * k + 1]),
        decreases n - i,
    {
        let pixels = src[i].into_bgr_pair();
        let j = 2 * i;
        dst[j] = pixels[0];
        dst[j + 1] = pixels[1];
        i = i + 1;
    }
    Ok(())
}

/// Converts each pair of RGB pixels of `src` to YUV and packs it into one
/// macropixel of `dst`: `src[2j]` and `src[2j + 1]` make `dst[j]`, with the
/// chroma of `src[2j]` only. Fails, leaving `dst` untouched, unless `src` is
/// exactly twice as long as `dst`.
pub fn rgb_to_yuyv<I: Sample, O: Sample>(src: &[Rgb<I>], dst: &mut [Yuyv<O>]) -> (res: Result<(), ConvertError>)
    requires
        forall|i: int| 0 <= i < src@.len() ==> #[trigger] byte_channels(src@[i].0),
    ensures
        res is Ok <==> src@.len() == 2 * old(dst)@.len(),
        res is Err ==> res == Err::<(), ConvertError>(ConvertError::LengthMismatch) && final(dst)@
            == old(dst)@,
        res is Ok ==> final(dst)@.len() == old(dst)@.len() && forall|j: int|
            0 <= j < final(dst)@.len() ==> #[trigger] packs_colors(
                src@[2 * j].0[0].value(),
                src@[2 * j].0[1].value(),
                src@[2 * j].0[2].value(),
                src@[2 * j + 1].0[0].value(),
                src@[2 * j + 1].0[1].value(),
                src@[2 * j + 1].0[2].value(),
                final(dst)@[j],
            ),
{
    let m = src.len();
    if m % 2 != 0 || m / 2 != dst.len() {
        return Err(ConvertError::LengthMismatch);
    }
    let n = dst.len();
    let mut j: usize = 0;
    while j < n
        invariant
            n == dst@.len(),
            src@.len() == m,
            m == 2 * n,
            j <= n,
            forall|k: int| 0 <= k < m ==> #[trigger] byte_channels(src@[k].0),
            forall|k: int|
                0 <= k < j ==> #[trigger] packs_colors(
                    src@[2 * k].0[0].value(),
                    src@[2 * k].0[1].value(),
                    src@[2 * k].0[2].value(),
                    src@[2 * k + 1].0[0].value(),
                    src@[2 * k + 1].0[1].value(),
                    src@[2 * k + 1].0[2].value(),
                    dst@[k],
                ),
        decreases n - j,
    {
        let i = 2 * j;
        assert(byte_channels(src@[i as int].0) && byte_channels(src@[i + 1].0));
        dst[j] = Yuyv::from_rgb_pair([src[i], src[i + 1]]);
        j = j + 1;
    }
    Ok(())
}

/// Converts each pair of BGR pixels of `src` to YUV and packs it into one
/// macropixel of `dst`: `src[2j]` and `src[2j + 1]` make `dst[j]`, with the
/// chroma of `src[2j]` only. Fails, leaving `dst` untouched, unless `src` is
/// exactly twice as long as `dst`.
pub fn bgr_to_yuyv<I: Sample, O: Sample>(src: &[Bgr<I>], dst: &mut [Yuyv<O>]) -> (res: Result<(), ConvertError>)
    requires
        forall|i: int| 0 <= i < src@.len() ==> #[trigger] byte_channels(src@[i].0),
    ensures
        res is Ok <==> src@.len() == 2 * old(dst)@.len(),
        res is Err ==> res == Err::<(), ConvertError>(ConvertError::LengthMismatch) && final(dst)@
            == old(dst)@,
        res is Ok ==> final(dst)@.len() == old(dst)@.len() && forall|j: int|
            0 <= j < final(dst)@.len() ==> #[trigger] packs_colors(
                src@[2 * j].0[2].value(),
                src@[2 * j].0[1].value(),
                src@[2 * j].0[0].value(),
                src@[2 * j + 1].0[2].value(),
                src@[2 * j + 1].0[1].value(),
                src@[2 * j + 1].0[0].value(),
                final(dst)@[j],
            ),
{
    let m = src.len();
    if m % 2 != 0 || m / 2 != dst.len() {
        return Err(ConvertError::LengthMismatch);
    }
    let n = dst.len();
    let mut j: usize = 0;
    while j < n
        invariant
            n == dst@.len(),
            src@.len() == m,
            m == 2 * n,
            j <= n,
            forall|k: int| 0 <= k < m ==> #[trigger] byte_channels(src@[k].0),
            forall|k: int|
                0 <= k < j ==> #[trigger] packs_colors(
                    src@[2 * k].0[2].value(),
                    src@[2 * k].0[1].value(),
                    src@[2 * k].0[0].value(),
                    src@[2 * k + 1].0[2].value(),
                    src@[2 * k + 1].0[1].value(),
                    src@[2 * k + 1].0[0].value(),
                    dst@[k],
                ),
        decreases n - j,
    {
        let i = 2 * j;
        assert(byte_channels(src@[i as int].0) && byte_channels(src@[i + 1].0));
        dst[j] = Yuyv::from_bgr_pair([src[i], src[i + 1]]);
        j = j + 1;
    }
    Ok(())
}

} // verus!
