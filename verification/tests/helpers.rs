use image_native::error::{sanitize_message, ImageError};
use image_native::filter::{
    convolution_input, gaussian_blur_input, line_dest_index, line_sample_index, mask_input,
    pixel_index, separable_convolution_input, window_sample_index, MaskChannel,
};
use image_native::sampling::{clamp_edges, reflect_index};

#[test]
fn reflect_index_mirrors_at_both_ends() {
    assert_eq!(reflect_index(4, 2), 2);
    assert_eq!(reflect_index(4, -1), 1);
    assert_eq!(reflect_index(4, -3), 3);
    assert_eq!(reflect_index(4, 4), 3);
    assert_eq!(reflect_index(4, 5), 2);
    assert_eq!(reflect_index(4, -5), 3);
    assert_eq!(reflect_index(4, 9), 0);
    assert_eq!(reflect_index(1, -1), 0);
}

#[test]
fn reflect_index_is_idempotent() {
    for v in -10..10 {
        let r = reflect_index(5, v);
        assert_eq!(reflect_index(5, r), r);
    }
}

#[test]
fn clamp_edges_repeats_the_edge() {
    assert_eq!(clamp_edges(-3, 4), 0);
    assert_eq!(clamp_edges(7, 4), 3);
    assert_eq!(clamp_edges(2, 4), 2);
    assert_eq!(clamp_edges(clamp_edges(9, 4), 4), 3);
}

#[test]
fn sanitize_replaces_nul() {
    assert_eq!(sanitize_message("a\0b\0".to_string()), "a b ");
    assert_eq!(sanitize_message("plain".to_string()), "plain");
    let once = sanitize_message("\0x\0".to_string());
    assert_eq!(sanitize_message(once.clone()), once);
}

#[test]
fn error_messages() {
    assert_eq!(ImageError::NullInput.message(), "input buffer is null");
    assert_eq!(ImageError::UnsupportedChannels(3).message(), "expected 4 channels, got 3");
    assert_eq!(
        ImageError::UnsupportedInterpolation(-12).message(),
        "unsupported interpolation value -12"
    );
    assert_eq!(
        ImageError::UnsupportedInterpolation(i32::MIN).message(),
        "unsupported interpolation value -2147483648"
    );
    assert_eq!(
        ImageError::UnsupportedChannels(1000).message(),
        "expected 4 channels, got 1000"
    );
    assert_eq!(
        ImageError::InvalidCoefficientCount.message(),
        "coefficient count must be a positive odd number"
    );
    let text = ImageError::MaskTooSmall.message();
    assert_eq!(sanitize_message(text.clone()), text);
}

#[test]
fn mask_channels() {
    assert_eq!(MaskChannel::from_index(0), Some(MaskChannel::Red));
    assert_eq!(MaskChannel::from_index(4), Some(MaskChannel::Luminance));
    assert_eq!(MaskChannel::from_index(5), None);
    assert_eq!(MaskChannel::from_index(-1), None);
}

#[test]
fn mask_checks() {
    let mask = vec![9u8; 2 * 2 * 4];
    assert!(mask_input(None, 0, 0, 0, -1, 4, 4).unwrap().is_none());
    assert_eq!(
        mask_input(Some(&mask), 2, 2, 4, 0, 4, 4).unwrap_err(),
        ImageError::MaskTooSmall
    );
    assert_eq!(
        mask_input(Some(&mask), 2, 2, 4, 5, 2, 2).unwrap_err(),
        ImageError::UnsupportedMaskChannel
    );
    assert_eq!(
        mask_input(Some(&mask), 2, 2, 3, 0, 2, 2).unwrap_err(),
        ImageError::UnsupportedChannels(3)
    );
    let accepted = mask_input(Some(&mask), 2, 2, 4, 3, 1, 2).unwrap().unwrap();
    assert_eq!(accepted.channel, MaskChannel::Alpha);
    assert_eq!(accepted.image.pixels, mask);
}

#[test]
fn filter_request_errors() {
    let data = vec![0u8; 16];
    assert_eq!(
        gaussian_blur_input(None, 2, 2, 4, 0).unwrap_err(),
        ImageError::NonPositiveRadius
    );
    assert_eq!(gaussian_blur_input(None, 2, 2, 4, 1).unwrap_err(), ImageError::NullInput);
    assert_eq!(
        convolution_input(None, 2, 2, 4, None, 0, 0, 0, 0, false).unwrap_err(),
        ImageError::NullFilter
    );
    assert_eq!(
        convolution_input(Some(&data), 2, 2, 4, Some(&data), 2, 2, 4, 9, true).unwrap_err(),
        ImageError::UnsupportedMaskChannel
    );
    assert_eq!(
        separable_convolution_input(None, 2, 2, 4, None, 0, 0, 0, 0, false, 3).unwrap_err(),
        ImageError::NullCoefficients
    );
    assert_eq!(
        separable_convolution_input(None, 2, 2, 4, None, 0, 0, 0, 0, true, 4).unwrap_err(),
        ImageError::InvalidCoefficientCount
    );
    assert_eq!(
        separable_convolution_input(None, 2, 2, 4, None, 0, 0, 0, 0, true, -3).unwrap_err(),
        ImageError::InvalidCoefficientCount
    );
    let (_, radius) =
        separable_convolution_input(Some(&data), 2, 2, 4, None, 0, 0, 0, 0, true, 7).unwrap();
    assert_eq!(radius, 3);
}

#[test]
fn pixel_addressing() {
    assert_eq!(pixel_index(5, 2, 3), (3 * 5 + 2) * 4);
    // centre of a 3x3 window at the top left corner reads the corner itself
    assert_eq!(window_sample_index(4, 3, 0, 0, 0, 0), 0);
    assert_eq!(window_sample_index(4, 3, 0, 0, 1, 1), 0);
    assert_eq!(window_sample_index(4, 3, 3, 2, 2, 2), (2 * 4 + 3) * 4);
    assert_eq!(window_sample_index(4, 3, 1, 1, 2, 0), (0 * 4 + 2) * 4);
}

#[test]
fn line_addressing() {
    // horizontal line 1 of a 4x3 image, position 0, tap -2 mirrors to x = 2
    assert_eq!(line_sample_index(4, 3, true, 1, 0, -2), (1 * 4 + 2) * 4);
    // vertical line (column) 3, position 2, tap +1 mirrors to y = 2
    assert_eq!(line_sample_index(4, 3, false, 3, 2, 1), (2 * 4 + 3) * 4);
    assert_eq!(line_dest_index(4, 3, true, 2, 1), (2 * 4 + 1) * 4);
    assert_eq!(line_dest_index(4, 3, false, 1, 2), (2 * 4 + 1) * 4);
}

#[test]
fn mask_covering_the_source_holds_every_read() {
    // a 5x4 mask over a 3x2 source: the last source pixel lies inside the mask buffer
    let mask_len = 5 * 4 * 4;
    let last = pixel_index(5, 2, 1);
    assert_eq!(last, (1 * 5 + 2) * 4);
    assert!(last + 4 <= mask_len);
}

#[test]
fn each_line_pass_writes_every_pixel_once() {
    for horizontal in [true, false] {
        let (width, height) = (5, 3);
        let (lines, length) = if horizontal { (height, width) } else { (width, height) };
        let mut written = vec![0u32; (width * height) as usize];
        for line in 0..lines {
            for position in 0..length {
                let index = line_dest_index(width, height, horizontal, line, position);
                assert_eq!(index % 4, 0);
                written[index / 4] += 1;
            }
        }
        assert!(written.iter().all(|&count| count == 1));
    }
}
