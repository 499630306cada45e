use hilaw::error::AppError;
use hilaw::pipeline::{decode_image_from_bytes, encode_jpeg, encode_png, resize_bounds, resize_frame, RgbFrame};

fn gradient(w: u32, h: u32) -> RgbFrame {
    let mut px = Vec::new();
    for y in 0..h {
        for x in 0..w {
            px.extend_from_slice(&[(x * 40) as u8, (y * 40) as u8, 128]);
        }
    }
    RgbFrame::from_raw(w, h, px).unwrap()
}

#[test]
fn from_raw_needs_enough_bytes() {
    assert!(RgbFrame::from_raw(2, 2, vec![0; 11]).is_none());
    let f = RgbFrame::from_raw(2, 2, vec![0; 12]).unwrap();
    assert_eq!((f.width(), f.height(), f.as_raw().len()), (2, 2, 12));
    assert_eq!(RgbFrame::from_raw(1, 1, vec![1; 5]).unwrap().into_raw(), vec![1; 5]);
    assert!(RgbFrame::from_raw(0, 5, Vec::new()).is_some());
    assert!(RgbFrame::from_raw(u32::MAX, u32::MAX, vec![0; 3]).is_none());
}

#[test]
fn resize_only_when_too_large() {
    assert_eq!(resize_bounds(4000, 3000, 0, 0), None);
    assert_eq!(resize_bounds(4000, 3000, 800, 600), Some((800, 600)));
    assert_eq!(resize_bounds(400, 300, 800, 600), None);
    assert_eq!(resize_bounds(4000, 300, 800, 0), Some((800, 300)));
    assert_eq!(resize_bounds(400, 3000, 800, 0), None);
    assert_eq!(resize_bounds(400, 3000, 0, 600), Some((400, 600)));
}

#[test]
fn jpeg_round_trip() {
    let img = gradient(6, 4);
    let bytes = encode_jpeg(&img, 85).unwrap();
    assert_eq!(&bytes[..2], &[0xFF, 0xD8]);
    assert_eq!(&bytes[bytes.len() - 2..], &[0xFF, 0xD9]);
    let back = decode_image_from_bytes(&bytes, 6, 4).unwrap();
    assert_eq!((back.width(), back.height()), (6, 4));
    assert_eq!(back.as_raw().len(), 6 * 4 * 3);
}

#[test]
fn jpeg_quality_changes_output() {
    let img = gradient(16, 16);
    assert_ne!(encode_jpeg(&img, 10).unwrap(), encode_jpeg(&img, 95).unwrap());
}

#[test]
fn jpeg_rejects_empty_and_oversized() {
    let empty = RgbFrame::from_raw(0, 3, Vec::new()).unwrap();
    assert!(matches!(encode_jpeg(&empty, 90), Err(AppError::Processing(_))));
    let wide = RgbFrame::from_raw(70000, 1, vec![0; 210000]).unwrap();
    assert!(matches!(encode_jpeg(&wide, 90), Err(AppError::Processing(_))));
}

#[test]
fn png_round_trip() {
    let img = gradient(3, 5);
    let bytes = encode_png(&img).unwrap();
    assert_eq!(&bytes[..8], &[0x89, b'P', b'N', b'G', 0x0D, 0x0A, 0x1A, 0x0A]);
    let back = decode_image_from_bytes(&bytes, 3, 5).unwrap();
    assert_eq!(back.as_raw(), img.as_raw());
    let empty = RgbFrame::from_raw(3, 0, Vec::new()).unwrap();
    assert!(matches!(encode_png(&empty), Err(AppError::Processing(_))));
}

#[test]
fn decode_fits_within_box() {
    let bytes = encode_png(&gradient(8, 4)).unwrap();
    let small = decode_image_from_bytes(&bytes, 4, 4).unwrap();
    assert_eq!((small.width(), small.height()), (4, 2));
    assert!(matches!(decode_image_from_bytes(b"not an image", 10, 10), Err(AppError::Processing(_))));
}

#[test]
fn resize_keeps_aspect_ratio() {
    let out = resize_frame(gradient(10, 4), 5, 5);
    assert_eq!((out.width(), out.height()), (5, 2));
    assert_eq!(out.as_raw().len(), 5 * 2 * 3);
}

#[test]
fn resize_into_own_size_keeps_size() {
    let out = resize_frame(gradient(7, 3), 7, 3);
    assert_eq!((out.width(), out.height()), (7, 3));
    assert_eq!(out.as_raw(), gradient(7, 3).as_raw());
    let tiny = resize_frame(gradient(9, 9), 0, 0);
    assert_eq!((tiny.width(), tiny.height()), (1, 1));
}

#[test]
fn png_encodes_any_nonempty_frame() {
    let one = RgbFrame::from_raw(1, 1, vec![1, 2, 3]).unwrap();
    assert!(encode_png(&one).is_ok());
    let tall = RgbFrame::from_raw(1, 300, vec![9; 900]).unwrap();
    assert!(encode_png(&tall).is_ok());
}

#[test]
fn resize_within_box_and_into_own_size_keeps_buffer() {
    let padded = RgbFrame::from_raw(2, 1, vec![1, 2, 3, 4, 5, 6, 7, 8]).unwrap();
    let same = resize_frame(padded, 2, 1);
    assert_eq!(same.as_raw(), &[1, 2, 3, 4, 5, 6, 7, 8]);
    let up = resize_frame(gradient(3, 2), 9, 100);
    assert_eq!((up.width(), up.height()), (9, 6));
    let bytes = encode_png(&gradient(10, 10)).unwrap();
    let zero_box = decode_image_from_bytes(&bytes, 0, 5).unwrap();
    assert!(zero_box.width() <= 1 && zero_box.height() <= 5);
}
