# image_native

RGBA8 image operations behind a C interface: crop, resize, Gaussian blur,
3x3 convolution and separable convolution, each with an optional mask.

- `src/` is the verified library (Verus): input checks and the order in which
  refusals are reported, error texts, cropping and resizing (through the
  `image` crate), edge sampling (`reflect_index`, `clamp_edges`) and the byte
  addressing of every filter tap, each with its contract and the laws proved
  of them.
- `app/` is the C interface: it turns raw pointers into slices, runs the
  floating-point filter arithmetic with the addresses that the library
  computes, and hands buffers and error messages back to the caller.
- `tests/` exercises the library on concrete images.
