//! Conversion of pixels between RGB / BGR and the YUV family (planar YUV and
//! the 4:2:2 YUYV macropixel), per pixel and over whole slices.
pub mod sample;
pub mod pixel;
pub mod color;
pub mod yuyv;
pub mod convert;
