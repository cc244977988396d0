use clipscan::bitmap::Bitmap;
use clipscan::error::Error;

#[test]
fn valid_triple_keeps_bytes() {
    let bytes: Vec<u8> = (0u8..16u8).collect();
    let bmp = Bitmap::from_raw(2, 2, bytes.clone()).unwrap();
    assert_eq!(bmp.width(), 2);
    assert_eq!(bmp.height(), 2);
    assert_eq!(bmp.data(), &bytes);
}

#[test]
fn valid_one_pixel() {
    let bmp = Bitmap::from_raw(1, 1, vec![9, 8, 7, 6]).unwrap();
    assert_eq!(bmp.width(), 1);
    assert_eq!(bmp.height(), 1);
    assert_eq!(bmp.data(), &vec![9, 8, 7, 6]);
}

#[test]
fn empty_image_is_valid() {
    let bmp = Bitmap::from_raw(0, 0, Vec::new()).unwrap();
    assert_eq!(bmp.width(), 0);
    assert_eq!(bmp.height(), 0);
    assert!(bmp.data().is_empty());
}

#[test]
fn short_buffer_is_mismatch() {
    let r = Bitmap::from_raw(2, 2, vec![0; 15]);
    assert_eq!(r.err(), Some(Error::BufferSizeMismatch));
}

#[test]
fn long_buffer_is_mismatch() {
    let r = Bitmap::from_raw(2, 2, vec![0; 17]);
    assert_eq!(r.err(), Some(Error::BufferSizeMismatch));
}

#[test]
fn empty_buffer_with_nonzero_dims_is_mismatch() {
    let r = Bitmap::from_raw(3, 1, Vec::new());
    assert_eq!(r.err(), Some(Error::BufferSizeMismatch));
}

#[test]
fn oversized_width_is_invalid_dimensions() {
    let r = Bitmap::from_raw((u32::MAX as usize) + 1, 1, vec![0; 4]);
    assert_eq!(r.err(), Some(Error::InvalidDimensions));
}

#[test]
fn oversized_height_is_invalid_dimensions() {
    let r = Bitmap::from_raw(1, (u32::MAX as usize) + 1, vec![0; 4]);
    assert_eq!(r.err(), Some(Error::InvalidDimensions));
}

#[test]
fn huge_in_range_dims_without_buffer_is_mismatch() {
    // width * height * 4 overflows usize only far above u32 range; here it
    // simply disagrees with the four bytes given.
    let r = Bitmap::from_raw(u32::MAX as usize, u32::MAX as usize, vec![0; 4]);
    assert_eq!(r.err(), Some(Error::BufferSizeMismatch));
}
