use image_native::error::ImageError;
use image_native::rgba::{input_rgba_image, rgba_byte_len, row_stride};
use image_native::transform::{
    image_crop_rgba8_impl, image_resize_rgba8_impl, interpolation_filter, Interpolation,
};

fn gradient(width: i32, height: i32) -> Vec<u8> {
    let mut out = Vec::new();
    for y in 0..height {
        for x in 0..width {
            out.extend_from_slice(&[x as u8, y as u8, (x + y) as u8, 200]);
        }
    }
    out
}

#[test]
fn input_errors_come_in_order() {
    assert_eq!(input_rgba_image(None, 0, 0, 3).unwrap_err(), ImageError::NullInput);
    let empty: Vec<u8> = Vec::new();
    assert_eq!(
        input_rgba_image(Some(&empty), 0, 2, 3).unwrap_err(),
        ImageError::NonPositiveDimensions
    );
    assert_eq!(
        input_rgba_image(Some(&empty), 2, -1, 4).unwrap_err(),
        ImageError::NonPositiveDimensions
    );
    assert_eq!(
        input_rgba_image(Some(&empty), 2, 2, 1).unwrap_err(),
        ImageError::UnsupportedChannels(1)
    );
}

#[test]
fn input_keeps_pixels() {
    let data = gradient(3, 2);
    let image = input_rgba_image(Some(&data), 3, 2, 4).unwrap();
    assert_eq!(image.width, 3);
    assert_eq!(image.height, 2);
    assert_eq!(image.pixels, data);
}

#[test]
fn byte_len_of_rgba_buffer() {
    assert_eq!(rgba_byte_len(3, 5, 4), Ok(60));
    assert_eq!(rgba_byte_len(3, 0, 4), Err(ImageError::NonPositiveDimensions));
    assert_eq!(rgba_byte_len(3, 5, 3), Err(ImageError::UnsupportedChannels(3)));
}

#[test]
fn stride_saturates() {
    assert_eq!(row_stride(4, 4), 16);
    assert_eq!(row_stride(i32::MAX, 4), i32::MAX);
    assert_eq!(row_stride(-i32::MAX, 4), i32::MIN);
    assert_eq!(row_stride(0, 4), 0);
}

#[test]
fn crop_copies_the_rectangle() {
    let data = gradient(4, 4);
    let image = image_crop_rgba8_impl(Some(&data), 4, 4, 4, 1, 2, 2, 2).unwrap();
    assert_eq!(image.width, 2);
    assert_eq!(image.height, 2);
    assert_eq!(
        image.pixels,
        vec![1, 2, 3, 200, 2, 2, 4, 200, 1, 3, 4, 200, 2, 3, 5, 200]
    );
}

#[test]
fn crop_is_shortened_at_the_edges() {
    let data = gradient(4, 4);
    let image = image_crop_rgba8_impl(Some(&data), 4, 4, 4, 3, 3, 5, 7).unwrap();
    assert_eq!(image.width, 1);
    assert_eq!(image.height, 1);
    assert_eq!(image.pixels, vec![3, 3, 6, 200]);
}

#[test]
fn full_crop_returns_the_image() {
    let data = gradient(3, 5);
    let image = image_crop_rgba8_impl(Some(&data), 3, 5, 4, 0, 0, 3, 5).unwrap();
    assert_eq!(image.pixels, data);
}

#[test]
fn crop_of_crop_is_crop_at_summed_offset() {
    let data = gradient(6, 5);
    let first = image_crop_rgba8_impl(Some(&data), 6, 5, 4, 1, 1, 4, 3).unwrap();
    let second =
        image_crop_rgba8_impl(Some(&first.pixels), 4, 3, 4, 2, 1, 2, 2).unwrap();
    let direct = image_crop_rgba8_impl(Some(&data), 6, 5, 4, 3, 2, 2, 2).unwrap();
    assert_eq!(second.pixels, direct.pixels);
}

#[test]
fn crop_errors() {
    let data = gradient(4, 4);
    assert_eq!(
        image_crop_rgba8_impl(None, 4, 4, 4, 0, 0, 0, 1).unwrap_err(),
        ImageError::NonPositiveCropSize
    );
    assert_eq!(
        image_crop_rgba8_impl(None, 4, 4, 4, 0, 0, 1, 1).unwrap_err(),
        ImageError::NullInput
    );
    assert_eq!(
        image_crop_rgba8_impl(Some(&data), 4, 4, 4, -1, 0, 2, 2).unwrap_err(),
        ImageError::CropOutsideImage
    );
    assert_eq!(
        image_crop_rgba8_impl(Some(&data), 4, 4, 4, 4, 0, 2, 2).unwrap_err(),
        ImageError::CropOutsideImage
    );
    assert_eq!(
        image_crop_rgba8_impl(Some(&data), 4, 4, 4, 0, 9, 2, 2).unwrap_err(),
        ImageError::CropOutsideImage
    );
    assert_eq!(
        image_crop_rgba8_impl(Some(&data), 4, 4, 4, i32::MIN, 0, 2, 2).unwrap_err(),
        ImageError::CropOutsideImage
    );
}

#[test]
fn interpolation_codes() {
    assert_eq!(interpolation_filter(0), Ok(Interpolation::Nearest));
    assert_eq!(interpolation_filter(1), Ok(Interpolation::Triangle));
    assert_eq!(interpolation_filter(2), Err(ImageError::UnsupportedInterpolation(2)));
}

#[test]
fn resize_to_same_size_is_a_copy() {
    let data = gradient(3, 2);
    let image = image_resize_rgba8_impl(Some(&data), 3, 2, 4, 3, 2, 1).unwrap();
    assert_eq!(image.pixels, data);
}

#[test]
fn resize_changes_the_buffer() {
    let data = gradient(2, 2);
    let image = image_resize_rgba8_impl(Some(&data), 2, 2, 4, 1, 3, 0).unwrap();
    assert_eq!(image.width, 1);
    assert_eq!(image.height, 3);
    assert_eq!(image.pixels.len(), 12);
    let grown = image_resize_rgba8_impl(Some(&data), 2, 2, 4, 4, 4, 0).unwrap();
    assert_eq!(grown.pixels.len(), 64);
    assert_eq!(&grown.pixels[0..4], &[0, 0, 0, 200]);
    assert_eq!(&grown.pixels[60..64], &[1, 1, 2, 200]);
}

#[test]
fn resize_errors_in_order() {
    assert_eq!(
        image_resize_rgba8_impl(None, 0, 0, 0, 0, 0, 7).unwrap_err(),
        ImageError::UnsupportedInterpolation(7)
    );
    assert_eq!(
        image_resize_rgba8_impl(None, 0, 0, 0, 0, 5, 1).unwrap_err(),
        ImageError::NonPositiveTargetSize
    );
    assert_eq!(
        image_resize_rgba8_impl(None, 2, 2, 4, 5, 5, 1).unwrap_err(),
        ImageError::NullInput
    );
}
