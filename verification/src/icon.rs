//! Turning the pixels of an application icon into the base64 PNG text that
//! the front end shows. Reading the icon's pixels from the system is the
//! caller's part; this module reorders the channels, builds the image, encodes
//! it as PNG and the PNG as base64.

use vstd::prelude::*;
use std::io::Cursor;
use image::{ImageBuffer, ImageError, ImageOutputFormat, RgbaImage};
use crate::base64_text::{base64_length, base64_standard, encode_standard, lemma_base64_length_fits, lemma_base64_prefix};
use crate::pixels::{bgra_to_rgba, swap_red_blue};

verus! {

/// An icon as an 8-bit RGBA image of the image crate (`RgbaImage`), known by
/// its size (`rgba_image_size`) and the samples it holds (`rgba_image_samples`).
#[verifier::external_body]
pub struct IconImage {
    image: RgbaImage,
}

/// The image crate's error, carried to the message that reports it.
#[verifier::external_type_specification]
#[verifier::external_body]
pub struct ExImageError(ImageError);

/// The bytes an 8-bit RGBA image was built from.
pub uninterp spec fn rgba_image_samples(image: IconImage) -> Seq<u8>;

/// The width and height of an 8-bit RGBA image.
pub uninterp spec fn rgba_image_size(image: IconImage) -> (u32, u32);

/// What the image crate's PNG encoder produces for an 8-bit RGBA image of the
/// given width and height with the given samples, or `None` when it refuses them.
pub uninterp spec fn png_rgba8_encoding(width: u32, height: u32, samples: Seq<u8>) -> Option<
    Seq<u8>,
>;

/// The eight bytes that begin every PNG file.
pub open spec fn png_signature() -> Seq<u8> {
    seq![137u8, 80u8, 78u8, 71u8, 13u8, 10u8, 26u8, 10u8]
}

/// The number of bytes an 8-bit RGBA image of the given size takes.
pub open spec fn rgba_len(width: u32, height: u32) -> int {
    width as int * height as int * 4
}

/// Whether an 8-bit RGBA image of the given size can be built from `len`
/// bytes. The image crate computes 4 * width before multiplying by the
/// height, so (with a 32-bit `usize`) a very wide image is refused even
/// without rows.
pub open spec fn samples_suffice(width: u32, height: u32, len: nat) -> bool {
    &&& 4 * width as int <= usize::MAX
    &&& rgba_len(width, height) <= usize::MAX
    &&& rgba_len(width, height) <= len
}

/// Builds an 8-bit RGBA image from raw samples (`ImageBuffer::from_raw`).
/// Claimed, as the crate's source shows: the image is built exactly when
/// 4 * width and then 4 * width * height fit in `usize` and the buffer holds
/// at least 4 * width * height bytes; the image then has the given size and
/// keeps the whole buffer.
#[verifier::external_body]
fn rgba_image_from_raw(width: u32, height: u32, samples: Vec<u8>) -> (built: Option<IconImage>)
    ensures
        built is Some == samples_suffice(width, height, samples@.len()),
        built matches Some(img) ==> rgba_image_size(img) == (width, height) && rgba_image_samples(img) == samples@,
{
    match ImageBuffer::from_raw(width, height, samples) {
        Some(image) => Some(IconImage { image }),
        None => None,
    }
}

/// Encodes an image as PNG into memory (`ImageBuffer::write_to` with
/// `ImageOutputFormat::Png` on a `Cursor<Vec<u8>>`).
/// Claimed: the encoder sees the first 4 * width * height samples; the
/// outcome is the named PNG encoding of them, which is refused for a zero
/// width or height (the png crate's `ZeroWidth`/`ZeroHeight` errors); the
/// png crate writes the PNG signature first, so the bytes begin with it; the
/// bytes, being a `Vec`, number at most `isize::MAX`.
#[verifier::external_body]
fn write_png(image: &IconImage) -> (encoded: Result<Vec<u8>, ImageError>)
    ensures
        encoded matches Ok(bytes) ==> bytes@.len() >= 8 && bytes@.take(8) == png_signature(),
        encoded matches Ok(bytes) ==> bytes@.len() <= isize::MAX && png_rgba8_encoding(
            rgba_image_size(*image).0,
            rgba_image_size(*image).1,
            rgba_image_samples(*image).take(
                rgba_len(rgba_image_size(*image).0, rgba_image_size(*image).1),
            ),
        ) == Some(bytes@),
        encoded is Err ==> png_rgba8_encoding(
            rgba_image_size(*image).0,
            rgba_image_size(*image).1,
            rgba_image_samples(*image).take(
                rgba_len(rgba_image_size(*image).0, rgba_image_size(*image).1),
            ),
        ) is None,
        (rgba_image_size(*image).0 == 0 || rgba_image_size(*image).1 == 0) ==> encoded is Err,
{
    let mut buffer = Cursor::new(Vec::new());
    match image.image.write_to(&mut buffer, ImageOutputFormat::Png) {
        Ok(()) => Ok(buffer.into_inner()),
        Err(e) => Err(e),
    }
}

/// The message that reports a failed PNG encoding.
pub open spec fn png_failure_message(detail: Seq<char>) -> Seq<char> {
    "Failed to encode image to PNG: "@ + detail
}

/// The message that reports pixels too few for the icon's size.
pub open spec fn too_small_message() -> Seq<char> {
    "Failed to create RgbaImage"@
}

/// Turns the outcome of the PNG encoding into the icon text: the base64 of
/// the PNG bytes, or the failure message with the encoder's description.
pub fn finish_png_encoding(encoded: Result<Vec<u8>, ImageError>) -> (icon: Result<String, String>)
    requires
        encoded matches Ok(bytes) ==> base64_length(bytes@.len()) <= usize::MAX,
    ensures
        match encoded {
            Ok(bytes) => icon matches Ok(text) && text@ == base64_standard(bytes@),
            Err(e) => icon matches Err(message) && exists|detail: String|
                vstd::string::to_string_from_display_ensures::<ImageError>(&e, detail) && message@
                    == png_failure_message(detail@),
        },
{
    match encoded {
        Ok(bytes) => Ok(encode_standard(bytes.as_slice())),
        Err(e) => {
            let detail = e.to_string();
            let mut message = String::from_str("Failed to encode image to PNG: ");
            message.append(detail.as_str());
            Err(message)
        },
    }
}

/// Encodes the blue-green-red-alpha pixels of a `width` by `height` icon as
/// base64 PNG text.
/// Fails with `too_small_message` when the pixels are fewer than the size
/// needs (or the size overflows `usize`), and with a `png_failure_message`
/// when the PNG encoder refuses the image; otherwise the text is the base64 of the PNG encoding of the first
/// 4 * width * height bytes of the pixels with red and blue exchanged.
pub fn encode_icon_pixels(width: u32, height: u32, pixels: Vec<u8>) -> (icon: Result<
    String,
    String,
>)
    requires
        pixels@.len() % 4 == 0,
    ensures
        ({
            let rgba = swap_red_blue(pixels@);
            let need = rgba_len(width, height);
            if !samples_suffice(width, height, pixels@.len()) {
                icon matches Err(message) && message@ == too_small_message()
            } else {
                match png_rgba8_encoding(width, height, rgba.take(need)) {
                    Some(png) => icon matches Ok(text) && text@ == base64_standard(png)
                        && png.len() >= 8 && png.take(8) == png_signature(),
                    None => icon matches Err(message) && exists|e: ImageError, detail: String|
                        vstd::string::to_string_from_display_ensures::<ImageError>(&e, detail)
                            && message@ == png_failure_message(detail@),
                }
            }
        }),
        (width == 0 || height == 0) ==> icon is Err,
        icon matches Ok(text) ==> text@.len() >= 12 && text@.take(8) == base64_standard(
            png_signature().take(6),
        ),
{
    let mut rgba = pixels;
    bgra_to_rgba(&mut rgba);
    match rgba_image_from_raw(width, height, rgba) {
        None => Err(String::from_str("Failed to create RgbaImage")),
        Some(image) => {
            let encoded = write_png(&image);
            let ghost outcome = encoded;
            proof {
                if let Ok(bytes) = outcome {
                    lemma_base64_length_fits(bytes@.len());
                    lemma_base64_prefix(bytes@);
                    assert(bytes@.take(8).take(6) =~= png_signature().take(6));
                    assert(bytes@.take(6) =~= bytes@.take(8).take(6));
                }
            }
            let icon = finish_png_encoding(encoded);
            proof {
                if let Err(e) = outcome {
                    let message = icon->Err_0;
                    let detail = choose|detail: String|
                        vstd::string::to_string_from_display_ensures::<ImageError>(&e, detail)
                            && message@ == png_failure_message(detail@);
                    assert(vstd::string::to_string_from_display_ensures::<ImageError>(&e, detail)
                        && message@ == png_failure_message(detail@));
                }
            }
            icon
        },
    }
}

} // verus!
