use image::ImageEncoder;
use vstd::prelude::*;

use crate::buffer::{rgba_len, ImageBuffer, ImageView};
use crate::error::OverlayError;

verus! {

#[verifier::external_type_specification]
#[verifier::external_body]
pub struct ExImageError(image::ImageError);

/// What `image` reads from a file's bytes: width, height and 8-bit RGBA
/// samples, or nothing when the bytes are not an image it can read.
pub uninterp spec fn decoded_rgba(bytes: Seq<u8>) -> Option<(nat, nat, Seq<u8>)>;

/// The PNG file that `image` writes for a `width` by `height` RGBA image, or
/// nothing when it refuses to write one.
pub uninterp spec fn png_file(width: nat, height: nat, data: Seq<u8>) -> Option<Seq<u8>>;

/// Relies on `image::load_from_memory` (format guessed from the bytes), then
/// `DynamicImage::to_rgba8`, `ImageBuffer::dimensions` and `into_raw`: the
/// decoded picture as 8-bit RGBA samples, or the decoder's error.
#[verifier::external_body]
fn decode_rgba8(bytes: &[u8]) -> (r: Result<(u32, u32, Vec<u8>), image::ImageError>)
    ensures
        match r {
            Ok((w, h, d)) => decoded_rgba(bytes@) == Some((w as nat, h as nat, d@)),
            Err(_) => decoded_rgba(bytes@) is None,
        },
{
    let rgba = image::load_from_memory(bytes)?.to_rgba8();
    let (w, h) = rgba.dimensions();
    Ok((w, h, rgba.into_raw()))
}

/// Relies on `image::codecs::png::PngEncoder::write_image` with
/// `ExtendedColorType::Rgba8`: the PNG file for the samples, written into a
/// `Vec`, or the encoder's error. It panics unless the samples fill exactly
/// `width * height` pixels.
#[verifier::external_body]
fn encode_png_rgba8(width: u32, height: u32, data: &Vec<u8>) -> (r: Result<Vec<u8>, image::ImageError>)
    requires
        data@.len() == rgba_len(width as nat, height as nat),
    ensures
        match r {
            Ok(v) => png_file(width as nat, height as nat, data@) == Some(v@),
            Err(_) => png_file(width as nat, height as nat, data@) is None,
        },
{
    let mut out: Vec<u8> = Vec::new();
    image::codecs::png::PngEncoder::new(&mut out).write_image(
        data,
        width,
        height,
        image::ExtendedColorType::Rgba8,
    )?;
    Ok(out)
}

/// Decodes an image file (PNG, JPEG or BMP) held in memory into RGBA.
///
/// Fails with `DecodeFailed` exactly when the codec cannot read the bytes
/// as a well-formed RGBA image.
pub fn decode(bytes: &[u8]) -> (r: Result<ImageBuffer, OverlayError>)
    ensures
        match decoded_rgba(bytes@) {
            Some((w, h, d)) => if d.len() == rgba_len(w, h) {
                r is Ok && r->Ok_0@ == (ImageView { width: w, height: h, data: d })
            } else {
                r == Err::<ImageBuffer, OverlayError>(OverlayError::DecodeFailed)
            },
            None => r == Err::<ImageBuffer, OverlayError>(OverlayError::DecodeFailed),
        },
{
    match decode_rgba8(bytes) {
        Ok((w, h, d)) => match ImageBuffer::from_raw(w, h, d) {
            Ok(img) => Ok(img),
            Err(_) => Err(OverlayError::DecodeFailed),
        },
        Err(_) => Err(OverlayError::DecodeFailed),
    }
}

/// Encodes an image as a PNG file.
///
/// Fails with `EncodeFailed` exactly when the codec refuses to write it.
pub fn encode_png(img: &ImageBuffer) -> (r: Result<Vec<u8>, OverlayError>)
    ensures
        match png_file(img@.width, img@.height, img@.data) {
            Some(b) => r is Ok && r->Ok_0@ == b,
            None => r == Err::<Vec<u8>, OverlayError>(OverlayError::EncodeFailed),
        },
{
    match encode_png_rgba8(img.width(), img.height(), img.as_bytes()) {
        Ok(v) => Ok(v),
        Err(_) => Err(OverlayError::EncodeFailed),
    }
}

} // verus!
