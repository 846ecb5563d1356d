//! RGBA8 pixel buffers: the checks that turn caller-supplied memory into an
//! image, and the layout of the pixels in it.

use vstd::prelude::*;

use crate::error::ImageError;
use crate::sampling::clamped;

verus! {

/// An image of `width * height` pixels of four bytes each (red, green, blue,
/// alpha), stored row by row.
#[derive(Debug)]
pub struct RgbaImage {
    pub width: u32,
    pub height: u32,
    pub pixels: Vec<u8>,
}

impl RgbaImage {
    /// Both dimensions are positive and the buffer holds exactly four bytes per pixel.
    pub open spec fn wf(&self) -> bool {
        &&& self.width > 0
        &&& self.height > 0
        &&& self.pixels@.len() == self.width * self.height * 4
    }
}

/// Width, height and channel count describe a buffer this library accepts.
pub open spec fn dims_ok(width: int, height: int, channels: int) -> bool {
    width > 0 && height > 0 && channels == 4
}

/// The first check that fails on an input buffer, in the order they are made;
/// `None` when the buffer is accepted.
pub open spec fn input_error(present: bool, width: int, height: int, channels: int) -> Option<
    ImageError,
> {
    if !present {
        Some(ImageError::NullInput)
    } else if width <= 0 || height <= 0 {
        Some(ImageError::NonPositiveDimensions)
    } else if channels != 4 {
        Some(ImageError::UnsupportedChannels(channels as i32))
    } else {
        None
    }
}

/// What the caller promises of the memory handed over: where the dimensions
/// are accepted, it holds exactly `width * height * 4` bytes.
pub open spec fn input_supplied(data: Option<&[u8]>, width: int, height: int, channels: int) -> bool {
    dims_ok(width, height, channels) ==> (data matches Some(d) ==> d@.len() == width * height
        * 4)
}

/// The image made from an accepted input buffer.
pub open spec fn accepted_image(img: RgbaImage, data: Option<&[u8]>, width: int, height: int) -> bool {
    &&& img.wf()
    &&& img.width == width
    &&& img.height == height
    &&& data matches Some(d) && img.pixels@ == d@
}

/// `ImageBuffer::<Rgba<u8>, Vec<u8>>::from_raw`, with the accepted buffer taken
/// back out by `into_raw`. The buffer is accepted exactly when
/// `4 * width` and `4 * width * height` fit in `usize` and the buffer holds at
/// least `4 * width * height` bytes; it comes back unchanged.
#[verifier::external_body]
fn rgba_buffer_from_raw(width: u32, height: u32, buf: Vec<u8>) -> (r: Option<Vec<u8>>)
    ensures
        r is Some <==> (4 * width <= usize::MAX && 4 * width * height <= usize::MAX && 4 * width
            * height <= buf@.len()),
        r matches Some(v) ==> v@ == buf@,
{
    match image::ImageBuffer::<image::Rgba<u8>, Vec<u8>>::from_raw(width, height, buf) {
        Some(img) => Some(img.into_raw()),
        None => None,
    }
}

/// Number of bytes of an RGBA buffer of the given dimensions, or why such a
/// buffer is refused.
pub fn rgba_byte_len(width: i32, height: i32, channels: i32) -> (r: Result<usize, ImageError>)
    requires
        dims_ok(width as int, height as int, channels as int) ==> width * height * 4
            <= usize::MAX,
    ensures
        match input_error(true, width as int, height as int, channels as int) {
            Some(e) => r == Err::<usize, ImageError>(e),
            None => r == Ok::<usize, ImageError>((width * height * 4) as usize),
        },
{
    if width <= 0 || height <= 0 {
        return Err(ImageError::NonPositiveDimensions);
    }
    if channels != 4 {
        return Err(ImageError::UnsupportedChannels(channels));
    }
    let w = width as usize;
    let h = height as usize;
    assert(w * h <= w * h * 4) by (nonlinear_arith)
        requires
            w * h >= 0,
    ;
    Ok(w * h * 4)
}

/// Checks a caller-supplied pixel buffer and takes it as an RGBA image.
/// `data` is `None` where the caller's pointer was null.
pub fn input_rgba_image(data: Option<&[u8]>, width: i32, height: i32, channels: i32) -> (r: Result<
    RgbaImage,
    ImageError,
>)
    requires
        input_supplied(data, width as int, height as int, channels as int),
    ensures
        match input_error(data is Some, width as int, height as int, channels as int) {
            Some(e) => r == Err::<RgbaImage, ImageError>(e),
            None => r matches Ok(img) && accepted_image(img, data, width as int, height as int),
        },
{
    let bytes = match data {
        Some(bytes) => bytes,
        None => {
            return Err(ImageError::NullInput);
        },
    };
    let supplied: usize = bytes.len();
    let len = match rgba_byte_len(width, height, channels) {
        Ok(len) => len,
        Err(e) => {
            return Err(e);
        },
    };
    let w = width as u32;
    let h = height as u32;
    assert(4 * w <= w * h * 4 && 4 * w * h == w * h * 4) by (nonlinear_arith)
        requires
            h >= 1,
    ;
    assert(len == supplied);
    match rgba_buffer_from_raw(w, h, vstd::slice::slice_to_vec(bytes)) {
        Some(pixels) => {
            Ok(RgbaImage { width: w, height: h, pixels })
        },
        None => Err(ImageError::BufferCreationFailed),
    }
}

/// Bytes per row reported for an output image: `width * channels`, saturated
/// to the `i32` range.
pub fn row_stride(width: i32, channels: i32) -> (r: i32)
    ensures
        r == clamped(width * channels, i32::MIN as int, i32::MAX as int),
{
    let w = width as i64;
    let c = channels as i64;
    assert(-0x4000_0000_0000_0000 <= w * c <= 0x4000_0000_0000_0000) by (nonlinear_arith)
        requires
            -0x8000_0000 <= w <= 0x7fff_ffff,
            -0x8000_0000 <= c <= 0x7fff_ffff,
    ;
    let product: i64 = w * c;
    if product > i32::MAX as i64 {
        i32::MAX
    } else if product < i32::MIN as i64 {
        i32::MIN
    } else {
        product as i32
    }
}

/// An input buffer is accepted exactly when it is present, both dimensions
/// are positive and it has 4 channels; each refusal names its cause.
pub proof fn law_input_refusals(present: bool, width: int, height: int, channels: int)
    requires
        i32::MIN <= channels <= i32::MAX,
    ensures
        input_error(present, width, height, channels) is None <==> (present && width > 0 && height
            > 0 && channels == 4),
        input_error(present, width, height, channels) == Some(ImageError::NullInput) <==> !present,
        input_error(present, width, height, channels) == Some(ImageError::NonPositiveDimensions)
            <==> (present && (width <= 0 || height <= 0)),
        input_error(present, width, height, channels) == Some(
            ImageError::UnsupportedChannels(channels as i32),
        ) <==> (present && width > 0 && height > 0 && channels != 4),
{
}

/// An accepted image keeps the caller's bytes and dimensions: it has the
/// given width and height, four bytes per pixel, and exactly the bytes supplied.
pub proof fn law_accepted_image_keeps_input(img: RgbaImage, data: &[u8], width: int, height: int)
    requires
        accepted_image(img, Some(data), width, height),
    ensures
        img.width == width,
        img.height == height,
        width > 0,
        height > 0,
        img.pixels@ == data@,
        img.pixels@.len() == width * height * 4,
{
}

} // verus!
