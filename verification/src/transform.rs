//! Geometric transforms: cropping and resizing RGBA images.

use vstd::prelude::*;

use crate::error::ImageError;
use crate::rgba::{input_error, input_rgba_image, input_supplied, RgbaImage};
use crate::sampling::clamped;

use vstd::arithmetic::div_mod::{lemma_fundamental_div_mod, lemma_mod_bound};

verus! {

/// Byte `c` of pixel `(x, y)` in an RGBA buffer `width` pixels wide.
pub open spec fn rgba_at(pixels: Seq<u8>, width: int, x: int, y: int, c: int) -> u8 {
    pixels[(y * width + x) * 4 + c]
}

/// `out` is the `crop_width` by `crop_height` rectangle of `src` (an image
/// `width` pixels wide) whose top left pixel is `(x, y)`.
pub open spec fn is_crop_of(
    out: Seq<u8>,
    src: Seq<u8>,
    width: int,
    x: int,
    y: int,
    crop_width: int,
    crop_height: int,
) -> bool {
    &&& out.len() == crop_width * crop_height * 4
    &&& forall|i: int, j: int, c: int|
        0 <= i < crop_width && 0 <= j < crop_height && 0 <= c < 4 ==> #[trigger] rgba_at(
            out,
            crop_width,
            i,
            j,
            c,
        ) == rgba_at(src, width, x + i, y + j, c)
}

/// `imageops::crop_imm` applied to the image that `ImageBuffer::<Rgba<u8>, Vec<u8>>::from_raw`
/// makes of `pixels`, copied out with `SubImage::to_image` and `into_raw`.
/// With the rectangle inside the image, `crop_imm` keeps it as given and
/// `to_image` writes pixel `(x + i, y + j)` of the source to `(i, j)` of a new
/// `crop_width` by `crop_height` buffer.
#[verifier::external_body]
fn crop_rgba_pixels(
    pixels: Vec<u8>,
    width: u32,
    height: u32,
    x: u32,
    y: u32,
    crop_width: u32,
    crop_height: u32,
) -> (out: Vec<u8>)
    requires
        width >= 1,
        height >= 1,
        pixels@.len() == width * height * 4,
        x + crop_width <= width,
        y + crop_height <= height,
    ensures
        is_crop_of(out@, pixels@, width as int, x as int, y as int, crop_width as int, crop_height as int),
{
    let image = image::ImageBuffer::<image::Rgba<u8>, Vec<u8>>::from_raw(width, height, pixels)
        .expect("pixel buffer matches its dimensions");
    image::imageops::crop_imm(&image, x, y, crop_width, crop_height).to_image().into_raw()
}

/// `size - origin` computed with `i32` saturation and floored at zero: the
/// room left in the image from `origin` on.
pub open spec fn crop_room(size: int, origin: int) -> int {
    let room = clamped(size - origin, i32::MIN as int, i32::MAX as int);
    if room < 0 {
        0
    } else {
        room
    }
}

/// The crop size along one axis: the requested size, cut to the room left.
pub open spec fn crop_extent(size: int, origin: int, requested: int) -> int {
    if requested <= crop_room(size, origin) {
        requested
    } else {
        crop_room(size, origin)
    }
}

/// The first check that fails on a crop request, in the order they are made.
pub open spec fn crop_error(
    present: bool,
    width: int,
    height: int,
    channels: int,
    x: int,
    y: int,
    crop_width: int,
    crop_height: int,
) -> Option<ImageError> {
    if crop_width <= 0 || crop_height <= 0 {
        Some(ImageError::NonPositiveCropSize)
    } else if input_error(present, width, height, channels) is Some {
        input_error(present, width, height, channels)
    } else if x < 0 || y < 0 || crop_extent(width, x, crop_width) <= 0 || crop_extent(
        height,
        y,
        crop_height,
    ) <= 0 {
        Some(ImageError::CropOutsideImage)
    } else {
        None
    }
}

/// `crop_room` as executed.
fn room_from(size: i32, origin: i32) -> (r: i32)
    ensures
        r == crop_room(size as int, origin as int),
{
    let diff: i64 = size as i64 - origin as i64;
    let saturated: i64 = if diff > i32::MAX as i64 {
        i32::MAX as i64
    } else if diff < i32::MIN as i64 {
        i32::MIN as i64
    } else {
        diff
    };
    if saturated < 0 {
        0
    } else {
        saturated as i32
    }
}

/// Cuts the rectangle at `(x, y)` of `crop_width` by `crop_height` pixels out
/// of the RGBA image in `data`; a rectangle reaching past the right or bottom
/// edge is shortened to the image.
pub fn image_crop_rgba8_impl(
    data: Option<&[u8]>,
    width: i32,
    height: i32,
    channels: i32,
    x: i32,
    y: i32,
    crop_width: i32,
    crop_height: i32,
) -> (r: Result<RgbaImage, ImageError>)
    requires
        input_supplied(data, width as int, height as int, channels as int),
    ensures
        match crop_error(
            data is Some,
            width as int,
            height as int,
            channels as int,
            x as int,
            y as int,
            crop_width as int,
            crop_height as int,
        ) {
            Some(e) => r == Err::<RgbaImage, ImageError>(e),
            None => r matches Ok(img) && {
                &&& img.wf()
                &&& img.width == crop_extent(width as int, x as int, crop_width as int)
                &&& img.height == crop_extent(height as int, y as int, crop_height as int)
                &&& is_crop_of(
                    img.pixels@,
                    data.unwrap()@,
                    width as int,
                    x as int,
                    y as int,
                    img.width as int,
                    img.height as int,
                )
            },
        },
{
    if crop_width <= 0 || crop_height <= 0 {
        return Err(ImageError::NonPositiveCropSize);
    }
    let src = match input_rgba_image(data, width, height, channels) {
        Ok(image) => image,
        Err(e) => {
            return Err(e);
        },
    };
    let max_width = room_from(width, x);
    let max_height = room_from(height, y);
    let bounded_width = if crop_width <= max_width {
        crop_width
    } else {
        max_width
    };
    let bounded_height = if crop_height <= max_height {
        crop_height
    } else {
        max_height
    };
    if x < 0 || y < 0 || bounded_width <= 0 || bounded_height <= 0 {
        return Err(ImageError::CropOutsideImage);
    }
    let out = crop_rgba_pixels(
        src.pixels,
        src.width,
        src.height,
        x as u32,
        y as u32,
        bounded_width as u32,
        bounded_height as u32,
    );
    Ok(RgbaImage { width: bounded_width as u32, height: bounded_height as u32, pixels: out })
}

/// Sampling filters offered for resizing.
#[derive(Debug, Clone, Copy, PartialEq, Eq, Structural)]
pub enum Interpolation {
    /// Nearest neighbour (code 0).
    Nearest,
    /// Linear interpolation (code 1).
    Triangle,
}

/// The code by which callers select a filter.
pub open spec fn interpolation_code(filter: Interpolation) -> i32 {
    match filter {
        Interpolation::Nearest => 0,
        Interpolation::Triangle => 1,
    }
}

/// The filter selected by `interpolation`, or the refusal of an unknown code.
pub fn interpolation_filter(interpolation: i32) -> (r: Result<Interpolation, ImageError>)
    ensures
        interpolation == 0 ==> r == Ok::<Interpolation, ImageError>(Interpolation::Nearest),
        interpolation == 1 ==> r == Ok::<Interpolation, ImageError>(Interpolation::Triangle),
        interpolation != 0 && interpolation != 1 ==> r == Err::<Interpolation, ImageError>(
            ImageError::UnsupportedInterpolation(interpolation),
        ),
        r matches Ok(f) ==> interpolation_code(f) == interpolation,
{
    match interpolation {
        0 => Ok(Interpolation::Nearest),
        1 => Ok(Interpolation::Triangle),
        value => Err(ImageError::UnsupportedInterpolation(value)),
    }
}

/// The pixels that `imageops::resize` computes for an RGBA image `width` by
/// `height` with the given pixels, resampled to `target_width` by
/// `target_height` with the filter of code `interpolation`.
pub uninterp spec fn resized_rgba(
    pixels: Seq<u8>,
    width: u32,
    height: u32,
    target_width: u32,
    target_height: u32,
    interpolation: i32,
) -> Seq<u8>;

/// `imageops::resize` applied to the image that `ImageBuffer::<Rgba<u8>, &[u8]>::from_raw`
/// makes of `pixels`, with `FilterType::Nearest` or `FilterType::Triangle`, its
/// buffer taken out with `into_raw`. The result is named by `resized_rgba`; the
/// source shows that it is a new `target_width` by `target_height` RGBA buffer,
/// and that for unchanged dimensions it is a copy of the input. `requires`
/// keeps the two buffers that `resize` allocates (the `width` by
/// `target_height` intermediate and the result) within `usize`, where
/// `ImageBuffer::new` would panic.
#[verifier::external_body]
fn resize_rgba_pixels(
    pixels: &[u8],
    width: u32,
    height: u32,
    target_width: u32,
    target_height: u32,
    filter: Interpolation,
) -> (out: Vec<u8>)
    requires
        width >= 1,
        height >= 1,
        pixels@.len() == width * height * 4,
        target_width >= 1,
        target_height >= 1,
        target_width * target_height * 4 <= usize::MAX,
        width * target_height * 4 <= usize::MAX,
    ensures
        out@ == resized_rgba(
            pixels@,
            width,
            height,
            target_width,
            target_height,
            interpolation_code(filter),
        ),
        out@.len() == target_width * target_height * 4,
        target_width == width && target_height == height ==> out@ == pixels@,
{
    let image = image::ImageBuffer::<image::Rgba<u8>, &[u8]>::from_raw(width, height, pixels)
        .expect("pixel buffer matches its dimensions");
    let filter_type = match filter {
        Interpolation::Nearest => image::imageops::FilterType::Nearest,
        Interpolation::Triangle => image::imageops::FilterType::Triangle,
    };
    image::imageops::resize(&image, target_width, target_height, filter_type).into_raw()
}

/// The first check that fails on a resize request, in the order they are made.
pub open spec fn resize_error(
    present: bool,
    width: int,
    height: int,
    channels: int,
    target_width: int,
    target_height: int,
    interpolation: int,
) -> Option<ImageError> {
    if interpolation != 0 && interpolation != 1 {
        Some(ImageError::UnsupportedInterpolation(interpolation as i32))
    } else if target_width <= 0 || target_height <= 0 {
        Some(ImageError::NonPositiveTargetSize)
    } else {
        input_error(present, width, height, channels)
    }
}

/// Resamples the RGBA image in `data` to `target_width` by `target_height`
/// pixels, with nearest-neighbour (`interpolation` 0) or linear (1) filtering.
pub fn image_resize_rgba8_impl(
    data: Option<&[u8]>,
    width: i32,
    height: i32,
    channels: i32,
    target_width: i32,
    target_height: i32,
    interpolation: i32,
) -> (r: Result<RgbaImage, ImageError>)
    requires
        input_supplied(data, width as int, height as int, channels as int),
        target_width > 0 && target_height > 0 ==> target_width * target_height * 4 <= usize::MAX,
        width > 0 && target_height > 0 ==> width * target_height * 4 <= usize::MAX,
    ensures
        match resize_error(
            data is Some,
            width as int,
            height as int,
            channels as int,
            target_width as int,
            target_height as int,
            interpolation as int,
        ) {
            Some(e) => r == Err::<RgbaImage, ImageError>(e),
            None => r matches Ok(img) && {
                &&& img.wf()
                &&& img.width == target_width
                &&& img.height == target_height
                &&& img.pixels@ == resized_rgba(
                    data.unwrap()@,
                    width as u32,
                    height as u32,
                    target_width as u32,
                    target_height as u32,
                    interpolation,
                )
                &&& target_width == width && target_height == height ==> img.pixels@
                    == data.unwrap()@
            },
        },
{
    let filter = match interpolation_filter(interpolation) {
        Ok(filter) => filter,
        Err(e) => {
            return Err(e);
        },
    };
    if target_width <= 0 || target_height <= 0 {
        return Err(ImageError::NonPositiveTargetSize);
    }
    let src = match input_rgba_image(data, width, height, channels) {
        Ok(image) => image,
        Err(e) => {
            return Err(e);
        },
    };
    let tw = target_width as u32;
    let th = target_height as u32;
    let out = resize_rgba_pixels(src.pixels.as_slice(), src.width, src.height, tw, th, filter);
    Ok(RgbaImage { width: tw, height: th, pixels: out })
}

/// Every byte of a `width` by `height` RGBA buffer is byte `c` of some pixel
/// `(i, j)` of the image.
proof fn lemma_byte_decomposes(width: int, height: int, k: int) -> (ijc: (int, int, int))
    requires
        width > 0,
        height > 0,
        0 <= k < width * height * 4,
    ensures
        0 <= ijc.0 < width,
        0 <= ijc.1 < height,
        0 <= ijc.2 < 4,
        k == (ijc.1 * width + ijc.0) * 4 + ijc.2,
{
    let p = k / 4;
    let c = k % 4;
    lemma_fundamental_div_mod(k, 4);
    let i = p % width;
    let j = p / width;
    lemma_fundamental_div_mod(p, width);
    lemma_mod_bound(p, width);
    assert(p < width * height) by (nonlinear_arith)
        requires
            k == 4 * p + c,
            0 <= c < 4,
            k < width * height * 4,
    ;
    assert(0 <= j < height) by (nonlinear_arith)
        requires
            p == width * j + i,
            0 <= i < width,
            0 <= p < width * height,
    ;
    assert(k == (j * width + i) * 4 + c) by (nonlinear_arith)
        requires
            k == 4 * p + c,
            p == width * j + i,
    ;
    (i, j, c)
}

/// Cropping the whole image from its top left corner gives the image back.
pub proof fn law_full_crop_is_identity(out: Seq<u8>, src: Seq<u8>, width: int, height: int)
    requires
        0 < width <= i32::MAX,
        0 < height <= i32::MAX,
        src.len() == width * height * 4,
        is_crop_of(out, src, width, 0, 0, width, height),
    ensures
        crop_extent(width, 0, width) == width,
        crop_extent(height, 0, height) == height,
        out == src,
{
    assert forall|k: int| 0 <= k < src.len() implies out[k] == src[k] by {
        let (i, j, c) = lemma_byte_decomposes(width, height, k);
        assert(rgba_at(out, width, i, j, c) == rgba_at(src, width, 0 + i, 0 + j, c));
    }
    assert(out =~= src);
}

/// A crop of a crop is the crop of the first image at the summed offsets.
pub proof fn law_crop_of_crop(
    src: Seq<u8>,
    width: int,
    first: Seq<u8>,
    x1: int,
    y1: int,
    w1: int,
    h1: int,
    second: Seq<u8>,
    x2: int,
    y2: int,
    w2: int,
    h2: int,
)
    requires
        is_crop_of(first, src, width, x1, y1, w1, h1),
        is_crop_of(second, first, w1, x2, y2, w2, h2),
        0 <= x2,
        0 <= y2,
        x2 + w2 <= w1,
        y2 + h2 <= h1,
    ensures
        is_crop_of(second, src, width, x1 + x2, y1 + y2, w2, h2),
{
    assert forall|i: int, j: int, c: int|
        0 <= i < w2 && 0 <= j < h2 && 0 <= c < 4 implies #[trigger] rgba_at(second, w2, i, j, c)
        == rgba_at(src, width, x1 + x2 + i, y1 + y2 + j, c) by {
        assert(rgba_at(second, w2, i, j, c) == rgba_at(first, w1, x2 + i, y2 + j, c));
        assert(rgba_at(first, w1, x2 + i, y2 + j, c) == rgba_at(
            src,
            width,
            x1 + (x2 + i),
            y1 + (y2 + j),
            c,
        ));
        assert(x1 + (x2 + i) == x1 + x2 + i);
        assert(y1 + (y2 + j) == y1 + y2 + j);
    }
}

/// A crop request on a valid source is refused exactly when the crop size is
/// not positive or the top left corner lies outside the image; a corner inside
/// the image always gives a crop of the requested size cut to what is left of
/// the image to the right and below.
pub proof fn law_crop_refusals(
    present: bool,
    width: int,
    height: int,
    channels: int,
    x: int,
    y: int,
    crop_width: int,
    crop_height: int,
)
    requires
        i32::MIN <= width <= i32::MAX,
        i32::MIN <= height <= i32::MAX,
        i32::MIN <= x <= i32::MAX,
        i32::MIN <= y <= i32::MAX,
        i32::MIN <= crop_width <= i32::MAX,
        i32::MIN <= crop_height <= i32::MAX,
    ensures
        crop_error(present, width, height, channels, x, y, crop_width, crop_height) is None <==> (
        crop_width > 0 && crop_height > 0 && present && width > 0 && height > 0 && channels == 4
            && 0 <= x < width && 0 <= y < height),
        crop_error(present, width, height, channels, x, y, crop_width, crop_height) == Some(
            ImageError::CropOutsideImage,
        ) <==> (crop_width > 0 && crop_height > 0 && present && width > 0 && height > 0
            && channels == 4 && (x < 0 || y < 0 || x >= width || y >= height)),
        crop_error(present, width, height, channels, x, y, crop_width, crop_height) == Some(
            ImageError::NonPositiveCropSize,
        ) <==> (crop_width <= 0 || crop_height <= 0),
        0 <= x < width ==> crop_extent(width, x, crop_width) == (if crop_width <= width - x {
            crop_width
        } else {
            width - x
        }),
        0 <= y < height ==> crop_extent(height, y, crop_height) == (if crop_height <= height - y {
            crop_height
        } else {
            height - y
        }),
{
}

/// A rectangle that lies inside a valid source is cropped as requested: no
/// refusal, and exactly `crop_width` by `crop_height` pixels.
pub proof fn law_crop_inside_succeeds(
    width: int,
    height: int,
    x: int,
    y: int,
    crop_width: int,
    crop_height: int,
)
    requires
        0 < width <= i32::MAX,
        0 < height <= i32::MAX,
        0 <= x,
        0 <= y,
        0 < crop_width,
        0 < crop_height,
        x + crop_width <= width,
        y + crop_height <= height,
    ensures
        crop_error(true, width, height, 4, x, y, crop_width, crop_height) is None,
        crop_extent(width, x, crop_width) == crop_width,
        crop_extent(height, y, crop_height) == crop_height,
{
}

/// A resize request is accepted exactly when the interpolation is 0 or 1, both
/// target dimensions are positive and the source is a non-null 4-channel image
/// of positive size; how the target compares with the source size plays no part.
pub proof fn law_resize_refusals(
    present: bool,
    width: int,
    height: int,
    channels: int,
    target_width: int,
    target_height: int,
    interpolation: int,
)
    requires
        i32::MIN <= interpolation <= i32::MAX,
    ensures
        resize_error(present, width, height, channels, target_width, target_height, interpolation)
            is None <==> ((interpolation == 0 || interpolation == 1) && target_width > 0
            && target_height > 0 && present && width > 0 && height > 0 && channels == 4),
        resize_error(present, width, height, channels, target_width, target_height, interpolation)
            == Some(ImageError::NonPositiveTargetSize) <==> ((interpolation == 0 || interpolation
            == 1) && (target_width <= 0 || target_height <= 0)),
        resize_error(present, width, height, channels, target_width, target_height, interpolation)
            == Some(ImageError::UnsupportedInterpolation(interpolation as i32)) <==> (interpolation
            != 0 && interpolation != 1),
{
}

/// Interpolation code 0 selects nearest neighbour and code 1 linear filtering.
pub proof fn law_interpolation_numbering(f: Interpolation)
    ensures
        interpolation_code(f) == 0 <==> f == Interpolation::Nearest,
        interpolation_code(f) == 1 <==> f == Interpolation::Triangle,
{
}

} // verus!
