use vstd::prelude::*;

use image::ImageEncoder;

verus! {

/// Why a PNG encoder refused an image.
#[derive(Clone, Copy, Debug, PartialEq, Eq)]
pub enum PngWriteError {
    /// The header was refused: zero width or zero height.
    HeaderRejected,
    /// The pixel data was refused: its length does not match the image size.
    DataRejected,
}

/// The PNG file that the `png` crate writes for a 16-bit grayscale image of the given size
/// whose samples (big-endian, rows top to bottom) are `samples`.
pub uninterp spec fn png_gray16_encoding(width: u32, height: u32, samples: Seq<u8>) -> Seq<u8>;

/// The PNG file that the `image` crate's PNG encoder writes for an 8-bit RGBA image of the
/// given size whose pixels (rows top to bottom) are `pixels`.
pub uninterp spec fn png_rgba8_encoding(width: u32, height: u32, pixels: Seq<u8>) -> Seq<u8>;

/// Encodes a 16-bit grayscale PNG in memory with the `png` crate: `png::Encoder::new` on an
/// in-memory buffer, `set_color(Grayscale)`, `set_depth(Sixteen)`, then `write_header`,
/// `write_image_data` and `finish`. Claimed from the crate's source: `write_header` fails exactly
/// on a zero width or height, `write_image_data` fails exactly when the data length is not
/// `2 * width * height`, and writing into a `Vec` never fails otherwise; the bytes written are
/// named by `png_gray16_encoding`. The encoder computes that length in a `usize`, hence the
/// precondition that it fits.
#[verifier::external_body]
pub(crate) fn png_encode_gray16(width: u32, height: u32, samples: &Vec<u8>) -> (result: Result<
    Vec<u8>,
    PngWriteError,
>)
    requires
        2 * (width as int) * (height as int) <= usize::MAX,
    ensures
        match result {
            Ok(bytes) => {
                &&& width > 0 && height > 0
                &&& samples@.len() == 2 * (width as int) * (height as int)
                &&& bytes@ == png_gray16_encoding(width, height, samples@)
            },
            Err(PngWriteError::HeaderRejected) => width == 0 || height == 0,
            Err(PngWriteError::DataRejected) => {
                &&& width > 0 && height > 0
                &&& samples@.len() != 2 * (width as int) * (height as int)
            },
        },
{
    let mut out: Vec<u8> = Vec::new();
    let mut encoder = png::Encoder::new(&mut out, width, height);
    encoder.set_color(png::ColorType::Grayscale);
    encoder.set_depth(png::BitDepth::Sixteen);
    let mut writer = encoder.write_header().map_err(|_| PngWriteError::HeaderRejected)?;
    writer.write_image_data(samples).map_err(|_| PngWriteError::DataRejected)?;
    writer.finish().map_err(|_| PngWriteError::DataRejected)?;
    Ok(out)
}

/// Encodes an 8-bit RGBA PNG in memory with `image::codecs::png::PngEncoder::new` and
/// `ImageEncoder::write_image(pixels, width, height, ExtendedColorType::Rgba8)`, the encoder
/// that `ImageBuffer::save` uses for a `.png` path. `write_image` panics unless the buffer holds
/// exactly `4 * width * height` bytes, hence the precondition. Claimed from the crate's source:
/// the underlying `png` writer fails exactly on a zero width or height (writing into a `Vec`
/// never fails otherwise); the bytes written are named by `png_rgba8_encoding`.
#[verifier::external_body]
pub(crate) fn png_encode_rgba8(width: u32, height: u32, pixels: &[u8]) -> (result: Result<
    Vec<u8>,
    PngWriteError,
>)
    requires
        pixels@.len() == 4 * (width as int) * (height as int),
    ensures
        match result {
            Ok(bytes) => width > 0 && height > 0 && bytes@ == png_rgba8_encoding(
                width,
                height,
                pixels@,
            ),
            Err(e) => e == PngWriteError::HeaderRejected && (width == 0 || height == 0),
        },
{
    let mut out: Vec<u8> = Vec::new();
    image::codecs::png::PngEncoder::new(&mut out).write_image(
        pixels,
        width,
        height,
        image::ExtendedColorType::Rgba8,
    ).map_err(|_| PngWriteError::HeaderRejected)?;
    Ok(out)
}

} // verus!
