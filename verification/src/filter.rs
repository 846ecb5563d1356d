//! The integer side of the blur and convolution filters: which inputs they
//! accept, how a mask is chosen, and which bytes each filter tap reads and
//! writes. The weighted sums themselves are computed in floating point by the
//! caller.

use vstd::prelude::*;

use crate::error::ImageError;
use crate::rgba::{accepted_image, input_error, input_rgba_image, input_supplied, RgbaImage};
use crate::sampling::{clamp_edges, clamped, reflect_index, reflected};
use vstd::arithmetic::div_mod::{lemma_mod_multiples_vanish, lemma_small_mod};

verus! {

/// The quantity of a mask pixel that sets how strongly a filter applies there.
#[derive(Debug, Clone, Copy, PartialEq, Eq, Structural)]
pub enum MaskChannel {
    /// Red byte (channel 0).
    Red,
    /// Green byte (channel 1).
    Green,
    /// Blue byte (channel 2).
    Blue,
    /// Alpha byte (channel 3).
    Alpha,
    /// Luminance of red, green and blue (channel 4).
    Luminance,
}

/// The number by which callers select a mask channel.
pub open spec fn mask_channel_index(m: MaskChannel) -> i32 {
    match m {
        MaskChannel::Red => 0,
        MaskChannel::Green => 1,
        MaskChannel::Blue => 2,
        MaskChannel::Alpha => 3,
        MaskChannel::Luminance => 4,
    }
}

impl MaskChannel {
    /// The mask channel numbered `channel`, if there is one.
    pub fn from_index(channel: i32) -> (r: Option<MaskChannel>)
        ensures
            r is Some <==> 0 <= channel <= 4,
            r matches Some(m) ==> mask_channel_index(m) == channel,
    {
        match channel {
            0 => Some(MaskChannel::Red),
            1 => Some(MaskChannel::Green),
            2 => Some(MaskChannel::Blue),
            3 => Some(MaskChannel::Alpha),
            4 => Some(MaskChannel::Luminance),
            _ => None,
        }
    }
}

/// A mask image together with the channel read from it.
#[derive(Debug)]
pub struct MaskImage {
    pub image: RgbaImage,
    pub channel: MaskChannel,
}

/// The source image of a filter and its optional mask.
#[derive(Debug)]
pub struct FilterInput {
    pub source: RgbaImage,
    pub mask: Option<MaskImage>,
}

/// The first check that fails on a mask for a `width` by `height` source;
/// `None` when there is no mask or it is accepted.
pub open spec fn mask_error(
    present: bool,
    mask_width: int,
    mask_height: int,
    mask_channels: int,
    mask_channel: int,
    width: int,
    height: int,
) -> Option<ImageError> {
    if !present {
        None
    } else if input_error(true, mask_width, mask_height, mask_channels) is Some {
        input_error(true, mask_width, mask_height, mask_channels)
    } else if mask_width < width || mask_height < height {
        Some(ImageError::MaskTooSmall)
    } else if !(0 <= mask_channel <= 4) {
        Some(ImageError::UnsupportedMaskChannel)
    } else {
        None
    }
}

/// `mask` is what an accepted mask request yields: nothing without mask data,
/// else the mask image and the selected channel.
pub open spec fn mask_accepted(
    mask: Option<MaskImage>,
    mask_data: Option<&[u8]>,
    mask_width: int,
    mask_height: int,
    mask_channel: int,
) -> bool {
    match mask {
        None => mask_data is None,
        Some(m) => {
            &&& accepted_image(m.image, mask_data, mask_width, mask_height)
            &&& mask_channel_index(m.channel) == mask_channel
        },
    }
}

/// Checks the optional mask of a filter over a `width` by `height` source.
/// `mask_data` is `None` where the caller passed no mask.
pub fn mask_input(
    mask_data: Option<&[u8]>,
    mask_width: i32,
    mask_height: i32,
    mask_channels: i32,
    mask_channel: i32,
    width: i32,
    height: i32,
) -> (r: Result<Option<MaskImage>, ImageError>)
    requires
        input_supplied(mask_data, mask_width as int, mask_height as int, mask_channels as int),
    ensures
        match mask_error(
            mask_data is Some,
            mask_width as int,
            mask_height as int,
            mask_channels as int,
            mask_channel as int,
            width as int,
            height as int,
        ) {
            Some(e) => r == Err::<Option<MaskImage>, ImageError>(e),
            None => r matches Ok(m) && mask_accepted(
                m,
                mask_data,
                mask_width as int,
                mask_height as int,
                mask_channel as int,
            ),
        },
{
    if mask_data.is_none() {
        return Ok(None);
    }
    let image = match input_rgba_image(mask_data, mask_width, mask_height, mask_channels) {
        Ok(image) => image,
        Err(e) => {
            return Err(e);
        },
    };
    if mask_width < width || mask_height < height {
        return Err(ImageError::MaskTooSmall);
    }
    match MaskChannel::from_index(mask_channel) {
        Some(channel) => Ok(Some(MaskImage { image, channel })),
        None => Err(ImageError::UnsupportedMaskChannel),
    }
}

/// The first check that fails on a Gaussian blur request.
pub open spec fn gaussian_blur_error(
    present: bool,
    width: int,
    height: int,
    channels: int,
    radius: int,
) -> Option<ImageError> {
    if radius <= 0 {
        Some(ImageError::NonPositiveRadius)
    } else {
        input_error(present, width, height, channels)
    }
}

/// Checks a Gaussian blur request and takes its source image.
pub fn gaussian_blur_input(
    data: Option<&[u8]>,
    width: i32,
    height: i32,
    channels: i32,
    radius: i32,
) -> (r: Result<RgbaImage, ImageError>)
    requires
        input_supplied(data, width as int, height as int, channels as int),
    ensures
        match gaussian_blur_error(
            data is Some,
            width as int,
            height as int,
            channels as int,
            radius as int,
        ) {
            Some(e) => r == Err::<RgbaImage, ImageError>(e),
            None => r matches Ok(img) && accepted_image(img, data, width as int, height as int),
        },
{
    if radius <= 0 {
        return Err(ImageError::NonPositiveRadius);
    }
    input_rgba_image(data, width, height, channels)
}

/// The first check that fails on a 3x3 convolution request.
pub open spec fn convolution_error(
    present: bool,
    width: int,
    height: int,
    channels: int,
    mask_present: bool,
    mask_width: int,
    mask_height: int,
    mask_channels: int,
    mask_channel: int,
    filter_present: bool,
) -> Option<ImageError> {
    if !filter_present {
        Some(ImageError::NullFilter)
    } else if input_error(present, width, height, channels) is Some {
        input_error(present, width, height, channels)
    } else {
        mask_error(mask_present, mask_width, mask_height, mask_channels, mask_channel, width, height)
    }
}

/// Checks a 3x3 convolution request and takes its source and mask images.
/// `filter_present` says whether the caller's filter pointer was non-null.
pub fn convolution_input(
    data: Option<&[u8]>,
    width: i32,
    height: i32,
    channels: i32,
    mask_data: Option<&[u8]>,
    mask_width: i32,
    mask_height: i32,
    mask_channels: i32,
    mask_channel: i32,
    filter_present: bool,
) -> (r: Result<FilterInput, ImageError>)
    requires
        input_supplied(data, width as int, height as int, channels as int),
        input_supplied(mask_data, mask_width as int, mask_height as int, mask_channels as int),
    ensures
        match convolution_error(
            data is Some,
            width as int,
            height as int,
            channels as int,
            mask_data is Some,
            mask_width as int,
            mask_height as int,
            mask_channels as int,
            mask_channel as int,
            filter_present,
        ) {
            Some(e) => r == Err::<FilterInput, ImageError>(e),
            None => r matches Ok(input) && {
                &&& accepted_image(input.source, data, width as int, height as int)
                &&& mask_accepted(
                    input.mask,
                    mask_data,
                    mask_width as int,
                    mask_height as int,
                    mask_channel as int,
                )
            },
        },
{
    if !filter_present {
        return Err(ImageError::NullFilter);
    }
    let source = match input_rgba_image(data, width, height, channels) {
        Ok(image) => image,
        Err(e) => {
            return Err(e);
        },
    };
    let mask = match mask_input(
        mask_data,
        mask_width,
        mask_height,
        mask_channels,
        mask_channel,
        width,
        height,
    ) {
        Ok(mask) => mask,
        Err(e) => {
            return Err(e);
        },
    };
    Ok(FilterInput { source, mask })
}

/// The first check that fails on a separable convolution request.
pub open spec fn separable_convolution_error(
    present: bool,
    width: int,
    height: int,
    channels: int,
    mask_present: bool,
    mask_width: int,
    mask_height: int,
    mask_channels: int,
    mask_channel: int,
    coefficients_present: bool,
    coefficient_count: int,
) -> Option<ImageError> {
    if !coefficients_present {
        Some(ImageError::NullCoefficients)
    } else if coefficient_count <= 0 || coefficient_count % 2 == 0 {
        Some(ImageError::InvalidCoefficientCount)
    } else if input_error(present, width, height, channels) is Some {
        input_error(present, width, height, channels)
    } else {
        mask_error(mask_present, mask_width, mask_height, mask_channels, mask_channel, width, height)
    }
}

/// Checks a separable convolution request and takes its source and mask
/// images, with the kernel radius (`coefficient_count / 2`).
/// `coefficients_present` says whether the caller's coefficient pointer was non-null.
pub fn separable_convolution_input(
    data: Option<&[u8]>,
    width: i32,
    height: i32,
    channels: i32,
    mask_data: Option<&[u8]>,
    mask_width: i32,
    mask_height: i32,
    mask_channels: i32,
    mask_channel: i32,
    coefficients_present: bool,
    coefficient_count: i32,
) -> (r: Result<(FilterInput, i32), ImageError>)
    requires
        input_supplied(data, width as int, height as int, channels as int),
        input_supplied(mask_data, mask_width as int, mask_height as int, mask_channels as int),
    ensures
        match separable_convolution_error(
            data is Some,
            width as int,
            height as int,
            channels as int,
            mask_data is Some,
            mask_width as int,
            mask_height as int,
            mask_channels as int,
            mask_channel as int,
            coefficients_present,
            coefficient_count as int,
        ) {
            Some(e) => r == Err::<(FilterInput, i32), ImageError>(e),
            None => r matches Ok((input, radius)) && {
                &&& accepted_image(input.source, data, width as int, height as int)
                &&& mask_accepted(
                    input.mask,
                    mask_data,
                    mask_width as int,
                    mask_height as int,
                    mask_channel as int,
                )
                &&& radius == coefficient_count / 2
                &&& 2 * radius + 1 == coefficient_count
            },
        },
{
    if !coefficients_present {
        return Err(ImageError::NullCoefficients);
    }
    if coefficient_count <= 0 || coefficient_count % 2 == 0 {
        return Err(ImageError::InvalidCoefficientCount);
    }
    let source = match input_rgba_image(data, width, height, channels) {
        Ok(image) => image,
        Err(e) => {
            return Err(e);
        },
    };
    let mask = match mask_input(
        mask_data,
        mask_width,
        mask_height,
        mask_channels,
        mask_channel,
        width,
        height,
    ) {
        Ok(mask) => mask,
        Err(e) => {
            return Err(e);
        },
    };
    Ok((FilterInput { source, mask }, coefficient_count / 2))
}

/// Byte index of the first byte of pixel `(x, y)` in an RGBA buffer `width`
/// pixels wide.
pub open spec fn pixel_index_of(width: int, x: int, y: int) -> int {
    (y * width + x) * 4
}

/// The four bytes of a pixel inside a `width` by `height` image lie inside its buffer.
proof fn lemma_pixel_in_buffer(width: int, height: int, x: int, y: int)
    requires
        0 <= x < width,
        0 <= y < height,
    ensures
        0 <= pixel_index_of(width, x, y),
        pixel_index_of(width, x, y) + 4 <= width * height * 4,
{
    assert(0 <= y * width + x && y * width + x + 1 <= width * height) by (nonlinear_arith)
        requires
            0 <= x < width,
            0 <= y < height,
    ;
}

/// Distinct pixels of an image start at distinct bytes.
proof fn lemma_pixel_index_injective(width: int, x1: int, y1: int, x2: int, y2: int)
    requires
        0 <= x1 < width,
        0 <= x2 < width,
        0 <= y1,
        0 <= y2,
        pixel_index_of(width, x1, y1) == pixel_index_of(width, x2, y2),
    ensures
        x1 == x2,
        y1 == y2,
{
    if y1 < y2 {
        assert(y1 * width + x1 < y2 * width + x2) by (nonlinear_arith)
            requires
                0 <= x1 < width,
                0 <= x2,
                y1 + 1 <= y2,
        ;
    } else if y2 < y1 {
        assert(y2 * width + x2 < y1 * width + x1) by (nonlinear_arith)
            requires
                0 <= x2 < width,
                0 <= x1,
                y2 + 1 <= y1,
        ;
    }
}

/// Byte index of pixel `(x, y)` in an RGBA buffer `width` pixels wide,
/// computed in `i32` as the filters do.
pub fn pixel_index(width: i32, x: i32, y: i32) -> (r: usize)
    requires
        0 <= x < width,
        0 <= y,
        (y * width + x) * 4 <= i32::MAX,
    ensures
        r == pixel_index_of(width as int, x as int, y as int),
{
    assert(0 <= y * width <= y * width + x) by (nonlinear_arith)
        requires
            0 <= x < width,
            0 <= y,
    ;
    ((y * width + x) * 4) as usize
}

/// Byte index of the pixel read by tap `(i, j)` of the 3x3 window centred on
/// `(x, y)`, with positions off the image moved to the nearest edge pixel.
pub open spec fn window_sample_of(width: int, height: int, x: int, y: int, i: int, j: int) -> int {
    pixel_index_of(width, clamped(x - 1 + i, 0, width - 1), clamped(y - 1 + j, 0, height - 1))
}

/// Byte index of the pixel that tap `(i, j)` (column, row, each in `0..3`) of
/// the 3x3 convolution window centred on `(x, y)` reads.
pub fn window_sample_index(width: i32, height: i32, x: i32, y: i32, i: i32, j: i32) -> (r: usize)
    requires
        width >= 1,
        height >= 1,
        width * height * 4 <= i32::MAX,
        0 <= x < width,
        0 <= y < height,
        0 <= i < 3,
        0 <= j < 3,
    ensures
        r == window_sample_of(width as int, height as int, x as int, y as int, i as int, j as int),
        r + 4 <= width * height * 4,
{
    let yv = clamp_edges(y - 1 + j, height);
    let xv = clamp_edges(x - 1 + i, width);
    proof {
        lemma_pixel_in_buffer(width as int, height as int, xv as int, yv as int);
    }
    pixel_index(width, xv, yv)
}

/// Pixel `(x, y)` seen as position `position` on line `line`: rows are lines
/// when `horizontal`, columns otherwise.
pub open spec fn line_pixel_of(width: int, horizontal: bool, line: int, position: int) -> int {
    if horizontal {
        pixel_index_of(width, position, line)
    } else {
        pixel_index_of(width, line, position)
    }
}

/// Number of samples along a line.
pub open spec fn line_length(width: int, height: int, horizontal: bool) -> int {
    if horizontal {
        width
    } else {
        height
    }
}

/// Number of lines in a pass.
pub open spec fn line_count(width: int, height: int, horizontal: bool) -> int {
    if horizontal {
        height
    } else {
        width
    }
}

/// Byte index of the pixel read for `position` on line `line`, with positions
/// off the line mirrored back onto it.
pub open spec fn line_sample_of(
    width: int,
    height: int,
    horizontal: bool,
    line: int,
    position: int,
) -> int {
    line_pixel_of(width, horizontal, line, reflected(line_length(width, height, horizontal), position))
}

/// Byte index of the pixel that the tap at `offset` from `position` on line
/// `line` of a one-dimensional filter pass reads.
pub fn line_sample_index(
    width: i32,
    height: i32,
    horizontal: bool,
    line: i32,
    position: i32,
    offset: i32,
) -> (r: usize)
    requires
        width >= 1,
        height >= 1,
        width * height * 4 <= i32::MAX,
        0 <= line < line_count(width as int, height as int, horizontal),
        i32::MIN < position + offset <= i32::MAX,
    ensures
        r == line_sample_of(
            width as int,
            height as int,
            horizontal,
            line as int,
            position + offset,
        ),
        r + 4 <= width * height * 4,
{
    let line_width = if horizontal {
        width
    } else {
        height
    };
    let reflected_position = reflect_index(line_width, position + offset);
    let (sample_x, sample_y) = if horizontal {
        (reflected_position, line)
    } else {
        (line, reflected_position)
    };
    proof {
        lemma_pixel_in_buffer(width as int, height as int, sample_x as int, sample_y as int);
    }
    pixel_index(width, sample_x, sample_y)
}

/// Byte index of the pixel that position `position` on line `line` of a
/// one-dimensional filter pass writes.
pub fn line_dest_index(width: i32, height: i32, horizontal: bool, line: i32, position: i32) -> (r:
    usize)
    requires
        width >= 1,
        height >= 1,
        width * height * 4 <= i32::MAX,
        0 <= line < line_count(width as int, height as int, horizontal),
        0 <= position < line_length(width as int, height as int, horizontal),
    ensures
        r == line_pixel_of(width as int, horizontal, line as int, position as int),
        r + 4 <= width * height * 4,
{
    let (dest_x, dest_y) = if horizontal {
        (position, line)
    } else {
        (line, position)
    };
    proof {
        lemma_pixel_in_buffer(width as int, height as int, dest_x as int, dest_y as int);
    }
    pixel_index(width, dest_x, dest_y)
}

/// A mask at least as wide and as tall as the source holds every pixel the
/// filter reads from it: pixel `(x, y)` of the source is inside the mask buffer.
pub proof fn law_mask_covers_source(
    width: int,
    height: int,
    mask_width: int,
    mask_height: int,
    x: int,
    y: int,
)
    requires
        mask_width >= width,
        mask_height >= height,
        0 <= x < width,
        0 <= y < height,
    ensures
        0 <= pixel_index_of(mask_width, x, y),
        pixel_index_of(mask_width, x, y) + 4 <= mask_width * mask_height * 4,
{
    lemma_pixel_in_buffer(mask_width, mask_height, x, y);
}

/// One pass of a one-dimensional filter writes every pixel of the image, and
/// no pixel twice: each pixel is written at exactly one (line, position), and
/// distinct (line, position) pairs write distinct pixels.
pub proof fn law_line_pass_writes_each_pixel_once(width: int, height: int, horizontal: bool)
    requires
        width >= 1,
        height >= 1,
    ensures
        forall|x: int, y: int|
            0 <= x < width && 0 <= y < height ==> (if horizontal {
                #[trigger] pixel_index_of(width, x, y) == line_pixel_of(width, horizontal, y, x)
            } else {
                pixel_index_of(width, x, y) == line_pixel_of(width, horizontal, x, y)
            }),
        forall|l1: int, p1: int, l2: int, p2: int|
            0 <= l1 < line_count(width, height, horizontal) && 0 <= l2 < line_count(
                width,
                height,
                horizontal,
            ) && 0 <= p1 < line_length(width, height, horizontal) && 0 <= p2 < line_length(
                width,
                height,
                horizontal,
            ) && #[trigger] line_pixel_of(width, horizontal, l1, p1) == #[trigger] line_pixel_of(
                width,
                horizontal,
                l2,
                p2,
            ) ==> l1 == l2 && p1 == p2,
{
    assert forall|l1: int, p1: int, l2: int, p2: int|
        0 <= l1 < line_count(width, height, horizontal) && 0 <= l2 < line_count(
            width,
            height,
            horizontal,
        ) && 0 <= p1 < line_length(width, height, horizontal) && 0 <= p2 < line_length(
            width,
            height,
            horizontal,
        ) && #[trigger] line_pixel_of(width, horizontal, l1, p1) == #[trigger] line_pixel_of(
            width,
            horizontal,
            l2,
            p2,
        ) implies l1 == l2 && p1 == p2 by {
        if horizontal {
            lemma_pixel_index_injective(width, p1, l1, p2, l2);
        } else {
            lemma_pixel_index_injective(width, l1, p1, l2, p2);
        }
    }
}

/// Pixel byte indices start at 0, step by 4 along a row and by `4 * width`
/// from one row to the next, stay inside the buffer, and never coincide for
/// distinct pixels.
pub proof fn law_pixel_index_layout(width: int, height: int, x: int, y: int, x2: int, y2: int)
    requires
        width >= 1,
        0 <= x < width,
        0 <= y < height,
        0 <= x2 < width,
        0 <= y2 < height,
    ensures
        pixel_index_of(width, 0, 0) == 0,
        x + 1 < width ==> pixel_index_of(width, x + 1, y) == pixel_index_of(width, x, y) + 4,
        pixel_index_of(width, x, y + 1) == pixel_index_of(width, x, y) + 4 * width,
        0 <= pixel_index_of(width, x, y),
        pixel_index_of(width, x, y) + 4 <= width * height * 4,
        pixel_index_of(width, x, y) == pixel_index_of(width, x2, y2) ==> x == x2 && y == y2,
{
    lemma_pixel_in_buffer(width, height, x, y);
    assert(((y + 1) * width + x) * 4 == (y * width + x) * 4 + 4 * width) by (nonlinear_arith);
    if pixel_index_of(width, x, y) == pixel_index_of(width, x2, y2) {
        lemma_pixel_index_injective(width, x, y, x2, y2);
    }
}

/// The 3x3 window reads, for tap `(i, j)`, the pixel at `(x - 1 + i, y - 1 + j)`
/// when that lies in the image, and otherwise the nearest pixel on the edge; so
/// every pixel read is a neighbour of `(x, y)` (or the pixel itself).
pub proof fn law_window_reads_neighbours(width: int, height: int, x: int, y: int, i: int, j: int)
    requires
        width >= 1,
        height >= 1,
        0 <= x < width,
        0 <= y < height,
        0 <= i < 3,
        0 <= j < 3,
    ensures
        ({
            let tx = x - 1 + i;
            let ty = y - 1 + j;
            let sx = if tx < 0 {
                0
            } else if tx >= width {
                width - 1
            } else {
                tx
            };
            let sy = if ty < 0 {
                0
            } else if ty >= height {
                height - 1
            } else {
                ty
            };
            &&& window_sample_of(width, height, x, y, i, j) == (sy * width + sx) * 4
            &&& 0 <= sx < width
            &&& 0 <= sy < height
            &&& x - 1 <= sx <= x + 1
            &&& y - 1 <= sy <= y + 1
        }),
{
    let sx = clamped(x - 1 + i, 0, width - 1);
    let sy = clamped(y - 1 + j, 0, height - 1);
    assert(window_sample_of(width, height, x, y, i, j) == (sy * width + sx) * 4);
}

/// A pass writes position `position` of line `line` to pixel
/// `(position, line)` when horizontal and `(line, position)` when vertical.
pub proof fn law_line_pass_writes_its_position(width: int, line: int, position: int)
    ensures
        line_pixel_of(width, true, line, position) == (line * width + position) * 4,
        line_pixel_of(width, false, line, position) == (position * width + line) * 4,
{
}

/// A horizontal pass reads only the row it writes and a vertical pass only the
/// column it writes; along the line, a position inside it is read as it is and
/// a position off either end is mirrored back (`-k` reads `k`, `length - 1 + k`
/// reads `length - 1 - k`).
pub proof fn law_line_pass_reads_its_own_line(
    width: int,
    height: int,
    horizontal: bool,
    line: int,
    position: int,
)
    requires
        width >= 1,
        height >= 1,
        0 <= line < line_count(width, height, horizontal),
    ensures
        line_sample_of(width, height, horizontal, line, position) % 4 == 0,
        horizontal ==> line * width * 4 <= line_sample_of(width, height, horizontal, line, position)
            < (line + 1) * width * 4,
        !horizontal ==> line_sample_of(width, height, horizontal, line, position) % (4 * width)
            == 4 * line,
        !horizontal ==> 0 <= line_sample_of(width, height, horizontal, line, position) < width
            * height * 4,
        horizontal && 0 <= position < width ==> line_sample_of(
            width,
            height,
            horizontal,
            line,
            position,
        ) == (line * width + position) * 4,
        horizontal && -width < position < 0 ==> line_sample_of(
            width,
            height,
            horizontal,
            line,
            position,
        ) == (line * width - position) * 4,
        horizontal && width <= position < 2 * width ==> line_sample_of(
            width,
            height,
            horizontal,
            line,
            position,
        ) == (line * width + 2 * width - 1 - position) * 4,
        !horizontal && 0 <= position < height ==> line_sample_of(
            width,
            height,
            horizontal,
            line,
            position,
        ) == (position * width + line) * 4,
        !horizontal && -height < position < 0 ==> line_sample_of(
            width,
            height,
            horizontal,
            line,
            position,
        ) == (-position * width + line) * 4,
        !horizontal && height <= position < 2 * height ==> line_sample_of(
            width,
            height,
            horizontal,
            line,
            position,
        ) == ((2 * height - 1 - position) * width + line) * 4,
{
    let s = reflected(line_length(width, height, horizontal), position);
    assert(line_sample_of(width, height, horizontal, line, position) == line_pixel_of(
        width,
        horizontal,
        line,
        s,
    ));
    let idx = line_sample_of(width, height, horizontal, line, position);
    if horizontal {
        assert(0 <= s < width);
        assert(idx == (line * width + s) * 4);
        assert(idx == 4 * (line * width + s) + 0);
        lemma_mod_multiples_vanish(line * width + s, 0, 4);
        lemma_small_mod(0, 4);
        assert(line * width * 4 <= idx < (line + 1) * width * 4) by (nonlinear_arith)
            requires
                idx == (line * width + s) * 4,
                0 <= s < width,
        ;
    } else {
        assert(0 <= s < height);
        assert(idx == (s * width + line) * 4);
        assert(idx == (4 * width) * s + 4 * line) by (nonlinear_arith)
            requires
                idx == (s * width + line) * 4,
        ;
        lemma_mod_multiples_vanish(s, 4 * line, 4 * width);
        lemma_small_mod((4 * line) as nat, (4 * width) as nat);
        assert(idx == 4 * (s * width + line) + 0);
        lemma_mod_multiples_vanish(s * width + line, 0, 4);
        lemma_small_mod(0, 4);
        lemma_pixel_in_buffer(width, height, line, s);
    }
}

/// A mask request, given an RGBA mask, is refused exactly when the mask is not
/// a valid 4-channel image, is narrower or shorter than the source, or names a
/// channel outside `0..=4`; a mask too small is the only cause of `MaskTooSmall`.
pub proof fn law_mask_refusals(
    present: bool,
    mask_width: int,
    mask_height: int,
    mask_channels: int,
    mask_channel: int,
    width: int,
    height: int,
)
    ensures
        mask_error(present, mask_width, mask_height, mask_channels, mask_channel, width, height)
            is None <==> (present ==> (mask_width > 0 && mask_height > 0 && mask_channels == 4
            && mask_width >= width && mask_height >= height && 0 <= mask_channel <= 4)),
        mask_error(present, mask_width, mask_height, mask_channels, mask_channel, width, height)
            == Some(ImageError::MaskTooSmall) <==> (present && mask_width > 0 && mask_height > 0
            && mask_channels == 4 && (mask_width < width || mask_height < height)),
        mask_error(present, mask_width, mask_height, mask_channels, mask_channel, width, height)
            == Some(ImageError::UnsupportedMaskChannel) <==> (present && mask_width > 0
            && mask_height > 0 && mask_channels == 4 && mask_width >= width && mask_height
            >= height && !(0 <= mask_channel <= 4)),
{
}

/// A Gaussian blur request is accepted exactly when the radius is positive and
/// the source is a non-null 4-channel image of positive size.
pub proof fn law_gaussian_blur_refusals(
    present: bool,
    width: int,
    height: int,
    channels: int,
    radius: int,
)
    ensures
        gaussian_blur_error(present, width, height, channels, radius) is None <==> (radius > 0
            && present && width > 0 && height > 0 && channels == 4),
        gaussian_blur_error(present, width, height, channels, radius) == Some(
            ImageError::NonPositiveRadius,
        ) <==> radius <= 0,
{
}

/// A 3x3 convolution request is accepted exactly when the filter is given, the
/// source is a non-null 4-channel image of positive size, and any mask is a
/// 4-channel image at least as wide and as tall as the source with a channel
/// in `0..=4`. `MaskTooSmall` comes only from a mask narrower or shorter than
/// the source, and always does when everything before it is valid.
pub proof fn law_convolution_refusals(
    present: bool,
    width: int,
    height: int,
    channels: int,
    mask_present: bool,
    mask_width: int,
    mask_height: int,
    mask_channels: int,
    mask_channel: int,
    filter_present: bool,
)
    ensures
        convolution_error(
            present,
            width,
            height,
            channels,
            mask_present,
            mask_width,
            mask_height,
            mask_channels,
            mask_channel,
            filter_present,
        ) is None <==> (filter_present && present && width > 0 && height > 0 && channels == 4 && (
        mask_present ==> (mask_width > 0 && mask_height > 0 && mask_channels == 4 && mask_width
            >= width && mask_height >= height && 0 <= mask_channel <= 4))),
        convolution_error(
            present,
            width,
            height,
            channels,
            mask_present,
            mask_width,
            mask_height,
            mask_channels,
            mask_channel,
            filter_present,
        ) == Some(ImageError::MaskTooSmall) <==> (filter_present && present && width > 0 && height
            > 0 && channels == 4 && mask_present && mask_width > 0 && mask_height > 0
            && mask_channels == 4 && (mask_width < width || mask_height < height)),
        convolution_error(
            present,
            width,
            height,
            channels,
            mask_present,
            mask_width,
            mask_height,
            mask_channels,
            mask_channel,
            filter_present,
        ) == Some(ImageError::NullFilter) <==> !filter_present,
{
    law_mask_refusals(
        mask_present,
        mask_width,
        mask_height,
        mask_channels,
        mask_channel,
        width,
        height,
    );
}

/// A separable convolution request is accepted exactly when the coefficients
/// are given, their count is positive and odd, the source is a non-null
/// 4-channel image of positive size, and any mask is a 4-channel image at least
/// as wide and as tall as the source with a channel in `0..=4`. `MaskTooSmall`
/// comes only from a mask narrower or shorter than the source, and always does
/// when everything before it is valid.
pub proof fn law_separable_convolution_refusals(
    present: bool,
    width: int,
    height: int,
    channels: int,
    mask_present: bool,
    mask_width: int,
    mask_height: int,
    mask_channels: int,
    mask_channel: int,
    coefficients_present: bool,
    coefficient_count: int,
)
    ensures
        separable_convolution_error(
            present,
            width,
            height,
            channels,
            mask_present,
            mask_width,
            mask_height,
            mask_channels,
            mask_channel,
            coefficients_present,
            coefficient_count,
        ) is None <==> (coefficients_present && coefficient_count > 0 && coefficient_count % 2
            == 1 && present && width > 0 && height > 0 && channels == 4 && (mask_present ==> (
        mask_width > 0 && mask_height > 0 && mask_channels == 4 && mask_width >= width
            && mask_height >= height && 0 <= mask_channel <= 4))),
        separable_convolution_error(
            present,
            width,
            height,
            channels,
            mask_present,
            mask_width,
            mask_height,
            mask_channels,
            mask_channel,
            coefficients_present,
            coefficient_count,
        ) == Some(ImageError::MaskTooSmall) <==> (coefficients_present && coefficient_count > 0
            && coefficient_count % 2 == 1 && present && width > 0 && height > 0 && channels == 4
            && mask_present && mask_width > 0 && mask_height > 0 && mask_channels == 4 && (
        mask_width < width || mask_height < height)),
        separable_convolution_error(
            present,
            width,
            height,
            channels,
            mask_present,
            mask_width,
            mask_height,
            mask_channels,
            mask_channel,
            coefficients_present,
            coefficient_count,
        ) == Some(ImageError::InvalidCoefficientCount) <==> (coefficients_present && (
        coefficient_count <= 0 || coefficient_count % 2 == 0)),
{
    law_mask_refusals(
        mask_present,
        mask_width,
        mask_height,
        mask_channels,
        mask_channel,
        width,
        height,
    );
}

/// Mask channels are numbered red 0, green 1, blue 2, alpha 3, luminance 4.
pub proof fn law_mask_channel_numbering(m: MaskChannel)
    ensures
        mask_channel_index(m) == 0 <==> m == MaskChannel::Red,
        mask_channel_index(m) == 1 <==> m == MaskChannel::Green,
        mask_channel_index(m) == 2 <==> m == MaskChannel::Blue,
        mask_channel_index(m) == 3 <==> m == MaskChannel::Alpha,
        mask_channel_index(m) == 4 <==> m == MaskChannel::Luminance,
{
}

/// An accepted mask is absent exactly when no mask data was given; otherwise
/// it is the supplied bytes at the given size, read through the channel numbered
/// `mask_channel`.
pub proof fn law_accepted_mask_keeps_input(
    mask: Option<MaskImage>,
    mask_data: Option<&[u8]>,
    mask_width: int,
    mask_height: int,
    mask_channel: int,
)
    requires
        mask_accepted(mask, mask_data, mask_width, mask_height, mask_channel),
    ensures
        mask is None <==> mask_data is None,
        mask matches Some(m) ==> {
            &&& m.image.width == mask_width
            &&& m.image.height == mask_height
            &&& m.image.pixels@ == mask_data.unwrap()@
            &&& m.image.pixels@.len() == mask_width * mask_height * 4
            &&& mask_channel_index(m.channel) == mask_channel
        },
{
}

} // verus!
