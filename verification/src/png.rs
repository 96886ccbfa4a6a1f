//! Packing a raster into the bytes of a PNG file.

use crate::raster::Raster;
use image::codecs::png::PngEncoder;
use image::error::ImageError;
use image::ColorType;
use vstd::prelude::*;

verus! {

/// `image::error::ImageError`: carried through, never looked into.
#[verifier::external_type_specification]
#[verifier::external_body]
pub struct ExImageError(ImageError);

/// The PNG file that `image::codecs::png::PngEncoder::encode` writes for an
/// 8-bit greyscale image of `width` by `height` pixels, or `None` where it
/// reports an error.
pub uninterp spec fn png_encoding(pixels: Seq<u8>, width: u32, height: u32) -> Option<Seq<u8>>;

/// Calls `image::codecs::png::PngEncoder::encode` with the colour type
/// `L8` and an empty `Vec<u8>` to write to, and hands back what was
/// written.
///
/// Nothing is proved of this function. Its contract claims only that the
/// outcome depends on the pixels and the dimensions alone.
#[verifier::external_body]
fn encode_luma8(pixels: &Vec<u8>, width: u32, height: u32) -> (r: Result<Vec<u8>, ImageError>)
    requires
        pixels.len() == width * height,
    ensures
        match r {
            Ok(bytes) => png_encoding(pixels@, width, height) == Some(bytes@),
            Err(_) => png_encoding(pixels@, width, height) is None,
        },
{
    let mut bytes: Vec<u8> = Vec::new();
    match PngEncoder::new(&mut bytes).encode(pixels, width, height, ColorType::L8) {
        Ok(()) => Ok(bytes),
        Err(e) => Err(e),
    }
}

/// Encodes `raster` as an 8-bit greyscale PNG file.
///
/// Returns `None` where the encoder fails.
pub fn encode_png(raster: &Raster) -> (r: Option<Vec<u8>>)
    requires
        raster.wf(),
    ensures
        match r {
            Some(bytes) => png_encoding(raster.pixels@, raster.width, raster.height) == Some(
                bytes@,
            ),
            None => png_encoding(raster.pixels@, raster.width, raster.height) is None,
        },
{
    match encode_luma8(&raster.pixels, raster.width, raster.height) {
        Ok(bytes) => Some(bytes),
        Err(_) => None,
    }
}

} // verus!
