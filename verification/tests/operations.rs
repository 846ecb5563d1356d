use image_native::error::ImageError;
use image_native::filter::{convolution_input, gaussian_blur_input, separable_convolution_input};
use image_native::transform::{image_crop_rgba8_impl, image_resize_rgba8_impl};

fn sample_rgba(width: i32, height: i32) -> Vec<u8> {
    let mut out = Vec::with_capacity((width * height * 4) as usize);
    for y in 0..height {
        for x in 0..width {
            out.extend_from_slice(&[x as u8 * 10, y as u8 * 20, 127, 255]);
        }
    }
    out
}

#[test]
fn resize_returns_pixels() {
    let input = sample_rgba(2, 2);
    let result = image_resize_rgba8_impl(Some(&input), 2, 2, 4, 4, 4, 0);
    let image = result.expect("resize succeeds");
    assert_eq!(image.width, 4);
    assert_eq!(image.height, 4);
    assert!(!image.pixels.is_empty());
}

#[test]
fn crop_rejects_invalid_channels() {
    let input = sample_rgba(2, 2);
    let result = image_crop_rgba8_impl(Some(&input), 2, 2, 3, 0, 0, 1, 1);
    assert_eq!(result.unwrap_err(), ImageError::UnsupportedChannels(3));
}

#[test]
fn gaussian_blur_returns_pixels() {
    let input = sample_rgba(4, 4);
    let source = gaussian_blur_input(Some(&input), 4, 4, 4, 2).expect("blur input accepted");
    assert_eq!(source.width, 4);
    assert_eq!(source.height, 4);
    assert!(!source.pixels.is_empty());
}

#[test]
fn convolution_returns_pixels() {
    let input = sample_rgba(4, 4);
    let prepared =
        convolution_input(Some(&input), 4, 4, 4, None, 0, 0, 0, -1, true).expect("accepted");
    assert_eq!(prepared.source.width, 4);
    assert_eq!(prepared.source.height, 4);
    assert!(!prepared.source.pixels.is_empty());
    assert!(prepared.mask.is_none());
}

#[test]
fn convolution_with_mask_returns_pixels() {
    let input = sample_rgba(4, 4);
    let mask = sample_rgba(4, 4);
    let prepared = convolution_input(Some(&input), 4, 4, 4, Some(&mask), 4, 4, 4, 4, true)
        .expect("accepted");
    assert_eq!(prepared.source.width, 4);
    assert_eq!(prepared.source.height, 4);
    assert!(!prepared.source.pixels.is_empty());
    assert!(prepared.mask.is_some());
}

#[test]
fn separable_convolution_returns_pixels() {
    let input = sample_rgba(4, 4);
    let (prepared, radius) =
        separable_convolution_input(Some(&input), 4, 4, 4, None, 0, 0, 0, -1, true, 3)
            .expect("accepted");
    assert_eq!(prepared.source.width, 4);
    assert_eq!(prepared.source.height, 4);
    assert!(!prepared.source.pixels.is_empty());
    assert_eq!(radius, 1);
}

#[test]
fn separable_convolution_with_mask_returns_pixels() {
    let input = sample_rgba(4, 4);
    let mask = sample_rgba(4, 4);
    let (prepared, radius) =
        separable_convolution_input(Some(&input), 4, 4, 4, Some(&mask), 4, 4, 4, 4, true, 3)
            .expect("accepted");
    assert_eq!(prepared.source.width, 4);
    assert_eq!(prepared.source.height, 4);
    assert!(!prepared.source.pixels.is_empty());
    assert!(prepared.mask.is_some());
    assert_eq!(radius, 1);
}
