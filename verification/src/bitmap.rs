use vstd::prelude::*;

use crate::error::Error;

verus! {

/// An owned canonical bitmap: RGBA, 8 bits per channel, row-major, so `data`
/// holds exactly `width * height * 4` bytes. This is the only image form the
/// recognition adapters accept.
pub struct Bitmap {
    width: u32,
    height: u32,
    data: Vec<u8>,
}

impl Bitmap {
    /// Pixel columns.
    pub closed spec fn spec_width(&self) -> u32 {
        self.width
    }

    /// Pixel rows.
    pub closed spec fn spec_height(&self) -> u32 {
        self.height
    }

    /// The raw bytes, four per pixel.
    pub closed spec fn spec_data(&self) -> Seq<u8> {
        self.data@
    }

    /// The RGBA layout invariant: the buffer holds four bytes for every pixel.
    pub open spec fn wf(&self) -> bool {
        self.spec_data().len() == self.spec_width() * self.spec_height() * 4
    }

    pub fn width(&self) -> (w: u32)
        ensures
            w == self.spec_width(),
    {
        self.width
    }

    pub fn height(&self) -> (h: u32)
        ensures
            h == self.spec_height(),
    {
        self.height
    }

    pub fn data(&self) -> (d: &Vec<u8>)
        ensures
            d@ == self.spec_data(),
    {
        &self.data
    }

    /// Validate clipboard-shaped image data and take ownership of it.
    ///
    /// The clipboard reports its dimensions as platform-native integers; they
    /// are rejected when they do not fit the bitmap's 32-bit fields, and the
    /// buffer is rejected when its byte count disagrees with the dimensions.
    /// On success the bytes are kept exactly as given.
    pub fn from_raw(width: usize, height: usize, data: Vec<u8>) -> (r: Result<Bitmap, Error>)
        ensures
            width > u32::MAX || height > u32::MAX ==> (r matches Err(e) && e
                == Error::InvalidDimensions),
            width <= u32::MAX && height <= u32::MAX && data@.len() != width * height * 4 ==> (
            r matches Err(e) && e == Error::BufferSizeMismatch),
            width <= u32::MAX && height <= u32::MAX && data@.len() == width * height * 4 ==> (
            r matches Ok(b) && b.spec_width() == width && b.spec_height() == height
                && b.spec_data() == data@ && b.wf()),
    {
        if width > u32::MAX as usize || height > u32::MAX as usize {
            return Err(Error::InvalidDimensions);
        }
        let actual = data.len();
        let pixels = width.checked_mul(height);
        let expected = match pixels {
            Some(p) => p.checked_mul(4),
            None => None,
        };
        match expected {
            Some(n) => {
                if n == actual {
                    Ok(
                        Bitmap {
                            width: width as u32,
                            height: height as u32,
                            data,
                        },
                    )
                } else {
                    Err(Error::BufferSizeMismatch)
                }
            },
            None => {
                assert(width * height * 4 > usize::MAX);
                assert(actual < width * height * 4);
                Err(Error::BufferSizeMismatch)
            },
        }
    }
}

} // verus!
