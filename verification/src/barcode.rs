use vstd::prelude::*;

use crate::bitmap::Bitmap;
use crate::error::Error;

verus! {

/// The luma image of an RGBA buffer: one level per pixel, row-major, in the
/// pixel order of the buffer, each level a fixed weighting of its pixel's
/// colour channels. The conversion reads nothing but the buffer, so its
/// result is a function of these arguments.
pub uninterp spec fn luma_image(data: Seq<u8>, width: u32, height: u32) -> Seq<u8>;

/// What the barcode detector's scan of a luma image settles to: the decoded
/// text payloads of the symbols it detects, in the detector's own order (an
/// empty sequence when it detects nothing), or no value at all when the
/// detector itself fails. The scan reads nothing but the image, so its
/// outcome is a function of these arguments.
pub uninterp spec fn scan_of(luma: Seq<u8>, width: u32, height: u32) -> Option<Seq<Seq<char>>>;

/// Relies on image's `DynamicImage::to_luma8`: the grayscale image has one
/// byte per pixel, in the same row-major order, each computed from its
/// pixel's colour channels alone by a fixed weighting derived from the sRGB
/// primaries; `luma_image` names the result.
#[verifier::external_body]
fn rgba_to_luma(width: u32, height: u32, data: &Vec<u8>) -> (r: Vec<u8>)
    requires
        data@.len() == width * height * 4,
    ensures
        r@.len() == width * height,
        r@ == luma_image(data@, width, height),
{
    let buffer = image::ImageBuffer::<image::Rgba<u8>, Vec<u8>>::from_raw(
        width,
        height,
        data.clone(),
    ).expect("buffer length matches the dimensions");
    image::DynamicImage::ImageRgba8(buffer).to_luma8().into_vec()
}

/// Relies on rxing's `detect_multiple_in_luma`, which scans a luma image for
/// barcode symbols of every supported format and depends on nothing but its
/// arguments; `scan_of` names its outcome. A not-found outcome means the
/// image holds no symbol and gives the empty list; any other failure of the
/// detector is a detection error. On success each detected symbol's decoded
/// text payload is handed out, in the detector's own order.
#[verifier::external_body]
fn detect_symbols(luma: Vec<u8>, width: u32, height: u32) -> (r: Result<Vec<String>, Error>)
    requires
        width >= 1,
        height >= 1,
        luma@.len() == width * height,
    ensures
        r matches Ok(v) ==> (scan_of(luma@, width, height) matches Some(list) && v.deep_view()
            == list),
        r matches Err(e) ==> (e == Error::DetectionFailed && scan_of(luma@, width, height)
            is None),
{
    match rxing::helpers::detect_multiple_in_luma(luma, width, height) {
        Ok(symbols) => Ok(symbols.iter().map(|s| s.getText().to_owned()).collect()),
        Err(rxing::Exceptions::NotFoundException(_)) => Ok(Vec::new()),
        Err(_) => Err(Error::DetectionFailed),
    }
}

/// Pick the payload of the first detected symbol, in the order the detector
/// returned them; an empty detection list means the image held no symbol.
/// Any further symbols are discarded.
pub fn first_symbol(symbols: &Vec<String>) -> (r: Result<String, Error>)
    ensures
        symbols@.len() == 0 ==> (r matches Err(e) && e == Error::NoSymbolFound),
        symbols@.len() > 0 ==> (r matches Ok(s) && s@ == symbols@[0]@),
{
    if symbols.len() == 0 {
        Err(Error::NoSymbolFound)
    } else {
        Ok(symbols[0].clone())
    }
}

/// What the detector's scan of this bitmap's luma image settles to.
pub open spec fn bitmap_scan(bitmap: &Bitmap) -> Option<Seq<Seq<char>>> {
    scan_of(
        luma_image(bitmap.spec_data(), bitmap.spec_width(), bitmap.spec_height()),
        bitmap.spec_width(),
        bitmap.spec_height(),
    )
}

/// How the adapter's result follows the detector's scan: `DetectionFailed`
/// when the detector errs, `NoSymbolFound` when it detects nothing, and the
/// first detected payload when it detects anything.
pub open spec fn decode_outcome(scan: Option<Seq<Seq<char>>>, r: Result<String, Error>) -> bool {
    match scan {
        None => r matches Err(e) && e == Error::DetectionFailed,
        Some(list) => if list.len() == 0 {
            r matches Err(e) && e == Error::NoSymbolFound
        } else {
            r matches Ok(s) && s@ == list[0]
        },
    }
}

/// Barcode Recognition Adapter: convert the bitmap to luma, run the external
/// multi-symbol detector over it, and return the first detected symbol's
/// payload verbatim. An image without pixels holds no symbol; otherwise the
/// result follows the detector's scan exactly, as `decode_outcome` states.
pub fn decode(bitmap: &Bitmap) -> (r: Result<String, Error>)
    requires
        bitmap.wf(),
    ensures
        bitmap.spec_width() == 0 || bitmap.spec_height() == 0 ==> (r matches Err(e) && e
            == Error::NoSymbolFound),
        bitmap.spec_width() > 0 && bitmap.spec_height() > 0 ==> decode_outcome(
            bitmap_scan(bitmap),
            r,
        ),
{
    let width = bitmap.width();
    let height = bitmap.height();
    if width == 0 || height == 0 {
        return Err(Error::NoSymbolFound);
    }
    let luma = rgba_to_luma(width, height, bitmap.data());
    match detect_symbols(luma, width, height) {
        Ok(symbols) => first_symbol(&symbols),
        Err(e) => Err(e),
    }
}

} // verus!
