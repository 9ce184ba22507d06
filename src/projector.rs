use vstd::prelude::*;
use crate::bitmap::Bitmap;
use crate::error::GhoastError;

verus! {

/// The byte size of a `BITMAPINFOHEADER`.
pub const DIB_HEADER_SIZE: u32 = 40;

/// Uncompressed pixel data.
pub const BI_RGB: u32 = 0;

/// The header that describes a bitmap's pixels to the platform's drawing API.
#[derive(Debug, Clone, Copy, PartialEq, Eq, Structural)]
pub struct DibHeader {
    pub size: u32,
    pub width: i32,
    /// Negative: the rows run top-down.
    pub height: i32,
    pub planes: u16,
    pub bit_count: u16,
    pub compression: u32,
}

/// A bitmap whose sides the platform can address: neither is zero nor beyond `i32::MAX`,
/// and the buffer holds four bytes per pixel.
pub open spec fn projectable(image: &Bitmap) -> bool {
    &&& image.wf()
    &&& 1 <= image.width <= i32::MAX
    &&& 1 <= image.height <= i32::MAX
}

/// A 32-bit, uncompressed, top-down header for a `width` by `height` bitmap.
pub open spec fn header_for(width: u32, height: u32) -> DibHeader {
    DibHeader {
        size: DIB_HEADER_SIZE,
        width: width as i32,
        height: -(height as int) as i32,
        planes: 1,
        bit_count: 32,
        compression: BI_RGB,
    }
}

/// Describes `image` for a native bitmap whose pixels are `image.pixels` as they stand:
/// the caller hands both to the platform. Refuses a zero or too large side.
pub fn dynamic_image_to_bitmap(image: &Bitmap) -> (r: Result<DibHeader, GhoastError>)
    ensures
        r is Ok <==> projectable(image),
        r is Ok ==> r == Ok::<DibHeader, GhoastError>(header_for(image.width, image.height)),
        r is Err ==> r == Err::<DibHeader, GhoastError>(GhoastError::InvalidDimensions),
{
    let w = image.width;
    let h = image.height;
    assert(4 * (w as int) * (h as int) <= 4 * 0xffff_ffffint * 0xffff_ffffint) by (nonlinear_arith)
        requires
            w <= 0xffff_ffff,
            h <= 0xffff_ffff,
    ;
    if w == 0 || h == 0 || w > i32::MAX as u32 || h > i32::MAX as u32
        || image.pixels.len() as u128 != 4 * (w as u128) * (h as u128) {
        return Err(GhoastError::InvalidDimensions);
    }
    let hi = h as i32;
    Ok(DibHeader {
        size: DIB_HEADER_SIZE,
        width: w as i32,
        height: -hi,
        planes: 1,
        bit_count: 32,
        compression: BI_RGB,
    })
}

/// The outcome of creating the native bitmap: a handle the platform reports invalid
/// becomes a resource failure carrying the platform's last error code.
pub fn bitmap_outcome(handle_valid: bool, last_error: u32) -> (r: Result<(), GhoastError>)
    ensures
        handle_valid ==> r == Ok::<(), GhoastError>(()),
        !handle_valid ==> r == Err::<(), GhoastError>(GhoastError::PlatformResourceFailure(last_error)),
{
    if handle_valid {
        Ok(())
    } else {
        Err(GhoastError::PlatformResourceFailure(last_error))
    }
}

} // verus!
