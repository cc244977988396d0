use clipscan::barcode::{decode, first_symbol};
use clipscan::bitmap::Bitmap;
use clipscan::error::Error;
use clipscan::field::UiField;

use rxing::{BarcodeFormat, MultiFormatWriter, Writer};

/// Render a generated symbol matrix as an RGBA bitmap, dark modules in the
/// given colour on white.
fn matrix_to_bitmap(matrix: &rxing::common::BitMatrix, dark: [u8; 3]) -> Bitmap {
    let w = matrix.width() as usize;
    let h = matrix.height() as usize;
    let mut data = Vec::with_capacity(w * h * 4);
    for y in 0..h {
        for x in 0..w {
            if matrix.get(x as u32, y as u32) {
                data.extend_from_slice(&[dark[0], dark[1], dark[2], 255]);
            } else {
                data.extend_from_slice(&[255, 255, 255, 255]);
            }
        }
    }
    Bitmap::from_raw(w, h, data).unwrap()
}

#[test]
fn qr_round_trip() {
    let matrix = MultiFormatWriter
        .encode("HELLO-0099", &BarcodeFormat::QR_CODE, 200, 200)
        .unwrap();
    let bmp = matrix_to_bitmap(&matrix, [0, 0, 0]);
    assert_eq!(decode(&bmp).unwrap(), "HELLO-0099");
}

#[test]
fn qr_round_trip_colour_weighted_luma() {
    // Blue modules on white: only a correctly weighted colour-to-luma
    // conversion keeps enough contrast for the decoder.
    let matrix = MultiFormatWriter
        .encode("HELLO-0099", &BarcodeFormat::QR_CODE, 200, 200)
        .unwrap();
    let bmp = matrix_to_bitmap(&matrix, [0, 0, 255]);
    assert_eq!(decode(&bmp).unwrap(), "HELLO-0099");
}

#[test]
fn barcode_free_image_is_no_symbol_found() {
    let bmp = Bitmap::from_raw(64, 64, vec![255; 64 * 64 * 4]).unwrap();
    assert_eq!(decode(&bmp).err(), Some(Error::NoSymbolFound));
}

#[test]
fn barcode_free_image_writes_nothing() {
    let mut field = UiField::new();
    field.apply_barcode(Ok("before".to_string()));
    let bmp = Bitmap::from_raw(64, 64, vec![255; 64 * 64 * 4]).unwrap();
    field.apply_barcode(decode(&bmp));
    assert_eq!(field.text(), "before");
}

#[test]
fn empty_image_is_no_symbol_found() {
    let bmp = Bitmap::from_raw(0, 0, Vec::new()).unwrap();
    assert_eq!(decode(&bmp).err(), Some(Error::NoSymbolFound));
}

#[test]
fn barcode_trigger_on_same_bitmap_is_idempotent() {
    let matrix = MultiFormatWriter
        .encode("HELLO-0099", &BarcodeFormat::QR_CODE, 200, 200)
        .unwrap();
    let bmp = matrix_to_bitmap(&matrix, [0, 0, 0]);
    let mut field = UiField::new();
    field.apply_barcode(decode(&bmp));
    let first = field.text().clone();
    field.apply_barcode(decode(&bmp));
    assert_eq!(field.text(), &first);
    assert_eq!(field.text(), "HELLO-0099");
}

#[test]
fn first_symbol_of_empty_list() {
    let symbols: Vec<String> = Vec::new();
    assert_eq!(first_symbol(&symbols).err(), Some(Error::NoSymbolFound));
}

#[test]
fn first_symbol_takes_first_only() {
    let symbols = vec!["one".to_string(), "two".to_string()];
    assert_eq!(first_symbol(&symbols).unwrap(), "one");
}
