use ffimage_yuv::convert::{
    bgr_to_yuyv, rgb_to_yuv, rgb_to_yuyv, yuv_to_rgb, yuv_to_yuyv, yuyv_to_bgr, yuyv_to_rgb,
    yuyv_to_yuv, ConvertError,
};
use ffimage_yuv::pixel::{Bgr, Rgb, Yuv, Yuyv};

#[test]
fn convert_yuy_to_yuyv() {
    let mem: [u8; 12] = [10; 12];
    let view: Vec<Yuv<u8>> = mem.chunks(3).map(|c| Yuv([c[0], c[1], c[2]])).collect();
    let mut buf = vec![Yuyv([0u8; 4]); view.len() / 2];
    assert_eq!(yuv_to_yuyv(&view, &mut buf), Ok(()));

    for j in 0..buf.len() {
        let pix_in = [view[2 * j], view[2 * j + 1]];
        let pix_out = buf[j];

        // one macropixel is two image pixels
        assert_eq!(pix_out.0[0], pix_in[0].0[0]);
        assert_eq!(pix_out.0[1], pix_in[0].0[1]);
        assert_eq!(pix_out.0[2], pix_in[0].0[1]);
        assert_eq!(pix_out.0[3], pix_in[0].0[2]);
    }
}

#[test]
fn convert_yuyv_to_yuv() {
    let mem: [u8; 8] = [10; 8];
    let view: Vec<Yuyv<u8>> = mem.chunks(4).map(|c| Yuyv([c[0], c[1], c[2], c[3]])).collect();
    let mut buf = vec![Yuv([0u8; 3]); view.len() * 2];
    assert_eq!(yuyv_to_yuv(&view, &mut buf), Ok(()));

    for j in 0..view.len() {
        let pix_in = view[j];
        let pix_out = [buf[2 * j], buf[2 * j + 1]];

        // one macropixel is two image pixels
        assert_eq!(pix_out[0].0[0], pix_in.0[0]);
        assert_eq!(pix_out[0].0[1], pix_in.0[1]);
        assert_eq!(pix_out[1].0[0], pix_in.0[2]);
        assert_eq!(pix_out[0].0[2], pix_in.0[3]);
    }
}

#[test]
fn convert_yuyv_rgb() {
    let mut mem: [u8; 12] = [10; 12];
    mem[0] = 111;
    mem[1] = 222;
    mem[2] = 255;
    mem[3] = 11;
    mem[4] = 22;
    mem[5] = 33;
    let view: Vec<Rgb<u8>> = mem.chunks(3).map(|c| Rgb([c[0], c[1], c[2]])).collect();
    let mut yuv_buf = vec![Yuv([0u8; 3]); 4];
    let mut yuyv_buf = vec![Yuyv([0u8; 4]); 2];
    let mut rgb_buf = vec![Rgb([0u8; 3]); 4];
    assert_eq!(rgb_to_yuv(&view, &mut yuv_buf), Ok(()));
    assert_eq!(yuv_to_yuyv(&yuv_buf, &mut yuyv_buf), Ok(()));
    assert_eq!(yuyv_to_yuv(&yuyv_buf, &mut yuv_buf), Ok(()));
    assert_eq!(yuv_to_rgb(&yuv_buf, &mut rgb_buf), Ok(()));
}

#[test]
fn unpack_duplicates_chroma() {
    let pix = Yuyv([1u8, 2, 3, 4]);
    let [p0, p1] = pix.into_yuv_pair();
    assert_eq!(p0, Yuv([1, 2, 4]));
    assert_eq!(p1, Yuv([3, 2, 4]));
}

#[test]
fn pack_drops_second_chroma() {
    let p0 = Yuv([1u8, 2, 3]);
    let p1 = Yuv([4u8, 5, 6]);
    let m = Yuyv::from_yuv_pair([p0, p1]);
    assert_eq!(m, Yuyv([1, 2, 4, 3]));
    assert!(!m.0.contains(&5));
    assert!(!m.0.contains(&6));
}

#[test]
fn rgb_pair_pack_and_unpack() {
    let m: Yuyv<u8> = Yuyv::from_rgb_pair([Rgb([11u8, 22, 33]), Rgb([255u8, 255, 255])]);
    assert_eq!(m, Yuyv([33, 134, 235, 122]));
    let m: Yuyv<u8> = Yuyv::from_bgr_pair([Bgr([33u8, 22, 11]), Bgr([255u8, 255, 255])]);
    assert_eq!(m, Yuyv([33, 134, 235, 122]));

    let [a, b]: [Rgb<u8>; 2] = Yuyv([33u8, 134, 235, 122]).into_rgb_pair();
    assert_eq!(a, Rgb([10, 22, 32]));
    assert_eq!(b, Rgb::from_yuv(Yuv([235u8, 134, 122])));
    let [a, _b]: [Bgr<u8>; 2] = Yuyv([33u8, 134, 235, 122]).into_bgr_pair();
    assert_eq!(a, Bgr([32, 22, 10]));
}

#[test]
fn unpack_length_contract() {
    let src = vec![Yuyv([10u8, 20, 30, 40]); 3];
    let mut short = vec![Yuv([0u8; 3]); 5];
    assert_eq!(yuyv_to_yuv(&src, &mut short), Err(ConvertError::LengthMismatch));
    assert_eq!(short, vec![Yuv([0u8; 3]); 5]);
    let mut long = vec![Yuv([0u8; 3]); 7];
    assert_eq!(yuyv_to_yuv(&src, &mut long), Err(ConvertError::LengthMismatch));
    let mut same = vec![Yuv([0u8; 3]); 3];
    assert_eq!(yuyv_to_yuv(&src, &mut same), Err(ConvertError::LengthMismatch));
    let mut exact = vec![Yuv([0u8; 3]); 6];
    assert_eq!(yuyv_to_yuv(&src, &mut exact), Ok(()));
    assert_eq!(exact[4], Yuv([10, 20, 40]));
    assert_eq!(exact[5], Yuv([30, 20, 40]));
}

#[test]
fn pack_length_contract() {
    let src = vec![Yuv([1u8, 2, 3]); 5];
    let mut dst = vec![Yuyv([0u8; 4]); 2];
    assert_eq!(yuv_to_yuyv(&src, &mut dst), Err(ConvertError::LengthMismatch));
    assert_eq!(dst, vec![Yuyv([0u8; 4]); 2]);
    let src = vec![Yuv([1u8, 2, 3]); 4];
    let mut dst = vec![Yuyv([0u8; 4]); 3];
    assert_eq!(yuv_to_yuyv(&src, &mut dst), Err(ConvertError::LengthMismatch));
    let src: Vec<Yuv<u8>> = Vec::new();
    let mut dst: Vec<Yuyv<u8>> = Vec::new();
    assert_eq!(yuv_to_yuyv(&src, &mut dst), Ok(()));
}

#[test]
fn pack_slice_order() {
    let src = vec![
        Yuv([1u8, 2, 3]),
        Yuv([4u8, 5, 6]),
        Yuv([7u8, 8, 9]),
        Yuv([10u8, 11, 12]),
    ];
    let mut dst = vec![Yuyv([0u8; 4]); 2];
    assert_eq!(yuv_to_yuyv(&src, &mut dst), Ok(()));
    assert_eq!(dst, vec![Yuyv([1, 2, 4, 3]), Yuyv([7, 8, 10, 9])]);
}

#[test]
fn composed_slices() {
    let src = vec![
        Rgb([11u8, 22, 33]),
        Rgb([255u8, 255, 255]),
        Rgb([0u8, 0, 0]),
        Rgb([0u8, 0, 0]),
    ];
    let mut packed = vec![Yuyv([0u8; 4]); 2];
    assert_eq!(rgb_to_yuyv(&src, &mut packed), Ok(()));
    assert_eq!(packed, vec![Yuyv([33, 134, 235, 122]), Yuyv([16, 128, 16, 128])]);

    let bgr: Vec<Bgr<u8>> = src.iter().map(|p| Bgr([p.0[2], p.0[1], p.0[0]])).collect();
    let mut packed_bgr = vec![Yuyv([0u8; 4]); 2];
    assert_eq!(bgr_to_yuyv(&bgr, &mut packed_bgr), Ok(()));
    assert_eq!(packed_bgr, packed);

    let mut rgb = vec![Rgb([0u8; 3]); 4];
    assert_eq!(yuyv_to_rgb(&packed, &mut rgb), Ok(()));
    assert_eq!(rgb[0], Rgb([10, 22, 32]));
    assert_eq!(rgb[2], Rgb([0, 0, 0]));
    let mut bgr_out = vec![Bgr([0u8; 3]); 4];
    assert_eq!(yuyv_to_bgr(&packed, &mut bgr_out), Ok(()));
    assert_eq!(bgr_out[0], Bgr([32, 22, 10]));

    let mut wrong = vec![Rgb([0u8; 3]); 3];
    assert_eq!(yuyv_to_rgb(&packed, &mut wrong), Err(ConvertError::LengthMismatch));
    let mut wrong = vec![Yuyv([0u8; 4]); 1];
    assert_eq!(rgb_to_yuyv(&src, &mut wrong), Err(ConvertError::LengthMismatch));
}
