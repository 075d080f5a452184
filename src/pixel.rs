//! Fixed-size pixel values: three-channel RGB, BGR and YUV pixels, and the
//! four-channel YUYV macropixel that covers two sample positions.
use vstd::prelude::*;

verus! {

/// An RGB pixel, channels `[R, G, B]`.
#[derive(Clone, Copy, Debug, PartialEq, Eq)]
pub struct Rgb<T>(pub [T; 3]);

/// A BGR pixel, channels `[B, G, R]`.
#[derive(Clone, Copy, Debug, PartialEq, Eq)]
pub struct Bgr<T>(pub [T; 3]);

/// A YUV pixel, channels `[Y, U, V]`.
#[derive(Clone, Copy, Debug, PartialEq, Eq)]
pub struct Yuv<T>(pub [T; 3]);

/// A YUYV macropixel, channels `[Y0, U, Y1, V]`: two luma samples that share
/// one chroma pair.
#[derive(Clone, Copy, Debug, PartialEq, Eq)]
pub struct Yuyv<T>(pub [T; 4]);

impl<T: Copy> Rgb<T> {
    /// Number of channels of an RGB pixel.
    pub fn channels() -> (r: u8)
        ensures
            r == 3,
    {
        3
    }

    /// The channel at index `i`.
    pub fn at(&self, i: usize) -> (r: T)
        requires
            i < 3,
        ensures
            r == self.0[i as int],
    {
        self.0[i]
    }

    /// Reads a pixel from the first three values of `mem`; `None` when there
    /// are fewer.
    pub fn try_from_slice(mem: &[T]) -> (r: Option<Self>)
        ensures
            r is Some <==> mem@.len() >= 3,
            r matches Some(p) ==> p.0@ == mem@.subrange(0, 3),
    {
        if mem.len() < 3 {
            return None;
        }
        let p = Rgb([mem[0], mem[1], mem[2]]);
        assert(p.0@ =~= mem@.subrange(0, 3));
        Some(p)
    }
}

impl<T: Copy> Bgr<T> {
    /// Number of channels of a BGR pixel.
    pub fn channels() -> (r: u8)
        ensures
            r == 3,
    {
        3
    }

    /// The channel at index `i`.
    pub fn at(&self, i: usize) -> (r: T)
        requires
            i < 3,
        ensures
            r == self.0[i as int],
    {
        self.0[i]
    }

    /// Reads a pixel from the first three values of `mem`; `None` when there
    /// are fewer.
    pub fn try_from_slice(mem: &[T]) -> (r: Option<Self>)
        ensures
            r is Some <==> mem@.len() >= 3,
            r matches Some(p) ==> p.0@ == mem@.subrange(0, 3),
    {
        if mem.len() < 3 {
            return None;
        }
        let p = Bgr([mem[0], mem[1], mem[2]]);
        assert(p.0@ =~= mem@.subrange(0, 3));
        Some(p)
    }
}

impl<T: Copy> Yuv<T> {
    /// Number of channels of a YUV pixel.
    pub fn channels() -> (r: u8)
        ensures
            r == 3,
    {
        3
    }

    /// The channel at index `i`.
    pub fn at(&self, i: usize) -> (r: T)
        requires
            i < 3,
        ensures
            r == self.0[i as int],
    {
        self.0[i]
    }

    /// Reads a pixel from the first three values of `mem`; `None` when there
    /// are fewer.
    pub fn try_from_slice(mem: &[T]) -> (r: Option<Self>)
        ensures
            r is Some <==> mem@.len() >= 3,
            r matches Some(p) ==> p.0@ == mem@.subrange(0, 3),
    {
        if mem.len() < 3 {
            return None;
        }
        let p = Yuv([mem[0], mem[1], mem[2]]);
        assert(p.0@ =~= mem@.subrange(0, 3));
        Some(p)
    }
}

impl<T: Copy> Yuyv<T> {
    /// Number of channels of a YUYV macropixel.
    pub fn channels() -> (r: u8)
        ensures
            r == 4,
    {
        4
    }

    /// The channel at index `i`.
    pub fn at(&self, i: usize) -> (r: T)
        requires
            i < 4,
        ensures
            r == self.0[i as int],
    {
        self.0[i]
    }

    /// Reads a pixel from the first four values of `mem`; `None` when there
    /// are fewer.
    pub fn try_from_slice(mem: &[T]) -> (r: Option<Self>)
        ensures
            r is Some <==> mem@.len() >= 4,
            r matches Some(p) ==> p.0@ == mem@.subrange(0, 4),
    {
        if mem.len() < 4 {
            return None;
        }
        let p = Yuyv([mem[0], mem[1], mem[2], mem[3]]);
        assert(p.0@ =~= mem@.subrange(0, 4));
        Some(p)
    }
}

} // verus!
