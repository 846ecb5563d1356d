//! Why an operation refused its input, and the text reported for it.

use vstd::prelude::*;

verus! {

/// Reasons an image operation refuses its input.
#[derive(Debug, Clone, Copy, PartialEq, Eq, Structural)]
pub enum ImageError {
    /// The pixel buffer pointer was null.
    NullInput,
    /// Width or height was zero or negative.
    NonPositiveDimensions,
    /// The channel count was not 4; carries the count given.
    UnsupportedChannels(i32),
    /// The pixel buffer could not be viewed as an RGBA image.
    BufferCreationFailed,
    /// Crop width or height was zero or negative.
    NonPositiveCropSize,
    /// The crop rectangle, cut to the image, is empty or starts before the image.
    CropOutsideImage,
    /// The interpolation code was neither 0 nor 1; carries the code given.
    UnsupportedInterpolation(i32),
    /// Target width or height was zero or negative.
    NonPositiveTargetSize,
    /// The blur radius was zero or negative.
    NonPositiveRadius,
    /// The 3x3 filter pointer was null.
    NullFilter,
    /// The mask is narrower or shorter than the source image.
    MaskTooSmall,
    /// The mask channel was outside `0..=4`.
    UnsupportedMaskChannel,
    /// The coefficient pointer was null.
    NullCoefficients,
    /// The coefficient count was not a positive odd number.
    InvalidCoefficientCount,
}

/// The character of decimal digit `d` (`d < 10`).
pub open spec fn digit_char(d: nat) -> char {
    if d == 0 {
        '0'
    } else if d == 1 {
        '1'
    } else if d == 2 {
        '2'
    } else if d == 3 {
        '3'
    } else if d == 4 {
        '4'
    } else if d == 5 {
        '5'
    } else if d == 6 {
        '6'
    } else if d == 7 {
        '7'
    } else if d == 8 {
        '8'
    } else {
        '9'
    }
}

/// The character of decimal digit `d`.
fn digit(d: u32) -> (c: char)
    requires
        d < 10,
    ensures
        c == digit_char(d as nat),
{
    match d {
        0 => '0',
        1 => '1',
        2 => '2',
        3 => '3',
        4 => '4',
        5 => '5',
        6 => '6',
        7 => '7',
        8 => '8',
        _ => '9',
    }
}

/// Decimal digits of `n`, most significant first, without leading zeros.
pub open spec fn decimal_digits(n: nat) -> Seq<char>
    decreases n,
{
    if n < 10 {
        seq![digit_char(n)]
    } else {
        decimal_digits(n / 10).push(digit_char(n % 10))
    }
}

/// Decimal text of `v`, with a leading `-` when negative.
pub open spec fn decimal_text(v: int) -> Seq<char> {
    if v < 0 {
        seq!['-'] + decimal_digits((-v) as nat)
    } else {
        decimal_digits(v as nat)
    }
}

/// The text reported for each error.
pub open spec fn error_text(e: ImageError) -> Seq<char> {
    match e {
        ImageError::NullInput => "input buffer is null"@,
        ImageError::NonPositiveDimensions => "image dimensions must be positive"@,
        ImageError::UnsupportedChannels(c) => "expected 4 channels, got "@ + decimal_text(c as int),
        ImageError::BufferCreationFailed => "failed to create RGBA image"@,
        ImageError::NonPositiveCropSize => "crop dimensions must be positive"@,
        ImageError::CropOutsideImage => "crop rectangle is outside image bounds"@,
        ImageError::UnsupportedInterpolation(v) => "unsupported interpolation value "@
            + decimal_text(v as int),
        ImageError::NonPositiveTargetSize => "target dimensions must be positive"@,
        ImageError::NonPositiveRadius => "radius must be positive"@,
        ImageError::NullFilter => "filter is null"@,
        ImageError::MaskTooSmall => "mask dimensions must cover source image"@,
        ImageError::UnsupportedMaskChannel => "unsupported mask channel"@,
        ImageError::NullCoefficients => "coefficients is null"@,
        ImageError::InvalidCoefficientCount => "coefficient count must be a positive odd number"@,
    }
}

/// `message` with every NUL character replaced by a space.
pub open spec fn sanitized(message: Seq<char>) -> Seq<char> {
    message.map_values(|c: char| if c == '\0' { ' ' } else { c })
}

/// Appends one character (`String::push`).
#[verifier::external_body]
fn push_char(s: &mut String, c: char)
    ensures
        final(s)@ == old(s)@.push(c),
{
    s.push(c)
}

/// Appends the decimal digits of `n`.
fn push_digits(s: &mut String, n: u32)
    ensures
        final(s)@ == old(s)@ + decimal_digits(n as nat),
    decreases n,
{
    if n >= 10 {
        push_digits(s, n / 10);
    }
    push_char(s, digit(n % 10));
    proof {
        if n >= 10 {
            assert(decimal_digits(n as nat) == decimal_digits((n / 10) as nat).push(
                digit_char((n % 10) as nat),
            ));
        }
    }
    assert(final(s)@ =~= old(s)@ + decimal_digits(n as nat));
}

/// Appends the decimal text of `v`.
fn push_decimal(s: &mut String, v: i32)
    ensures
        final(s)@ == old(s)@ + decimal_text(v as int),
{
    if v < 0 {
        push_char(s, '-');
        let magnitude: u32 = (-(v as i64)) as u32;
        push_digits(s, magnitude);
        assert(final(s)@ =~= old(s)@ + decimal_text(v as int));
    } else {
        push_digits(s, v as u32);
    }
}

impl ImageError {
    /// The text reported for this error.
    pub fn message(&self) -> (s: String)
        ensures
            s@ == error_text(*self),
    {
        match self {
            ImageError::NullInput => String::from_str("input buffer is null"),
            ImageError::NonPositiveDimensions => String::from_str("image dimensions must be positive"),
            ImageError::UnsupportedChannels(c) => {
                let mut s = String::from_str("expected 4 channels, got ");
                push_decimal(&mut s, *c);
                s
            },
            ImageError::BufferCreationFailed => String::from_str("failed to create RGBA image"),
            ImageError::NonPositiveCropSize => String::from_str("crop dimensions must be positive"),
            ImageError::CropOutsideImage => String::from_str("crop rectangle is outside image bounds"),
            ImageError::UnsupportedInterpolation(v) => {
                let mut s = String::from_str("unsupported interpolation value ");
                push_decimal(&mut s, *v);
                s
            },
            ImageError::NonPositiveTargetSize => String::from_str("target dimensions must be positive"),
            ImageError::NonPositiveRadius => String::from_str("radius must be positive"),
            ImageError::NullFilter => String::from_str("filter is null"),
            ImageError::MaskTooSmall => String::from_str("mask dimensions must cover source image"),
            ImageError::UnsupportedMaskChannel => String::from_str("unsupported mask channel"),
            ImageError::NullCoefficients => String::from_str("coefficients is null"),
            ImageError::InvalidCoefficientCount => String::from_str(
                "coefficient count must be a positive odd number",
            ),
        }
    }
}

/// Replaces every NUL character of `message` by a space, so that the text can
/// be handed out as a C string.
pub fn sanitize_message(message: String) -> (r: String)
    ensures
        r@ == sanitized(message@),
{
    let mut out = String::new();
    for c in iter: message.as_str().chars()
        invariant
            iter.seq() == message@,
            out@ == sanitized(message@.take(iter.index() as int)),
    {
        let replacement = if c == '\0' {
            ' '
        } else {
            c
        };
        push_char(&mut out, replacement);
        assert(message@.take(iter.index() + 1) == message@.take(iter.index() as int).push(c));
        assert(out@ =~= sanitized(message@.take(iter.index() + 1)));
    }
    assert(message@.take(message@.len() as int) == message@);
    out
}

/// A message without NUL characters is left as it is.
proof fn lemma_sanitize_keeps_clean(message: Seq<char>)
    requires
        forall|i: int| 0 <= i < message.len() ==> message[i] != '\0',
    ensures
        sanitized(message) == message,
{
    assert(sanitized(message) =~= message);
}

/// Decimal digits are digit characters, never NUL.
proof fn lemma_decimal_digits_clean(n: nat)
    ensures
        forall|i: int| 0 <= i < decimal_digits(n).len() ==> decimal_digits(n)[i] != '\0',
    decreases n,
{
    assert(digit_char(n % 10) != '\0');
    if n >= 10 {
        lemma_decimal_digits_clean(n / 10);
        let prefix = decimal_digits(n / 10);
        assert(decimal_digits(n) == prefix.push(digit_char(n % 10)));
        assert forall|i: int| 0 <= i < decimal_digits(n).len() implies decimal_digits(n)[i]
            != '\0' by {
            if i < prefix.len() {
                assert(decimal_digits(n)[i] == prefix[i]);
            }
        }
    } else {
        assert(decimal_digits(n) == seq![digit_char(n)]);
        assert(digit_char(n) != '\0');
    }
}

/// Sanitizing removes every NUL, keeps the length, and changes nothing when
/// applied a second time.
pub proof fn law_sanitize_idempotent(message: Seq<char>)
    ensures
        sanitized(message).len() == message.len(),
        forall|i: int| 0 <= i < message.len() ==> sanitized(message)[i] != '\0',
        forall|i: int|
            0 <= i < message.len() && message[i] == '\0' ==> #[trigger] sanitized(message)[i]
                == ' ',
        forall|i: int|
            0 <= i < message.len() && message[i] != '\0' ==> #[trigger] sanitized(message)[i]
                == message[i],
        sanitized(sanitized(message)) == sanitized(message),
{
    lemma_sanitize_keeps_clean(sanitized(message));
}

/// The text of every error already is a valid C string: sanitizing it changes nothing.
pub proof fn law_error_text_is_clean(e: ImageError)
    ensures
        sanitized(error_text(e)) == error_text(e),
{
    reveal_strlit("input buffer is null");
    reveal_strlit("image dimensions must be positive");
    reveal_strlit("expected 4 channels, got ");
    reveal_strlit("failed to create RGBA image");
    reveal_strlit("crop dimensions must be positive");
    reveal_strlit("crop rectangle is outside image bounds");
    reveal_strlit("unsupported interpolation value ");
    reveal_strlit("target dimensions must be positive");
    reveal_strlit("radius must be positive");
    reveal_strlit("filter is null");
    reveal_strlit("mask dimensions must cover source image");
    reveal_strlit("unsupported mask channel");
    reveal_strlit("coefficients is null");
    reveal_strlit("coefficient count must be a positive odd number");
    match e {
        ImageError::UnsupportedChannels(v) | ImageError::UnsupportedInterpolation(v) => {
            let n: nat = if v < 0 {
                (-v) as nat
            } else {
                v as nat
            };
            lemma_decimal_digits_clean(n);
            assert(forall|i: int|
                0 <= i < decimal_text(v as int).len() ==> decimal_text(v as int)[i] != '\0');
        },
        _ => {},
    }
    lemma_sanitize_keeps_clean(error_text(e));
}

} // verus!
