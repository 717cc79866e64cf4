//! PNG encoding of a raster, done by the `image` crate.

use vstd::prelude::*;
use crate::raster::Raster;

verus! {

/// The error type of the `image` crate.  Nothing is known of its values.
#[verifier::external_type_specification]
#[verifier::external_body]
pub struct ExImageError(image::ImageError);

/// What `image::write_buffer_with_format` writes for a square RGB picture of
/// `side` by `side` pixels with the bytes `rgb`, in the PNG format: the whole
/// file, or `None` where the encoder reports an error.  The encoder works
/// from these two values alone.
pub uninterp spec fn png_encoding(side: u32, rgb: Seq<u8>) -> Option<Seq<u8>>;

/// The picture could not be encoded.
#[derive(Clone, Copy, Debug, PartialEq, Eq, Structural)]
pub struct EncodeError;

/// Calls `image::write_buffer_with_format` on an in-memory cursor, with the
/// colour type `Rgb8` and the output format `Png`.  Not verified: the
/// contract claims that the bytes written, or the failure, are the
/// `png_encoding` of the arguments.  The encoder panics on a buffer whose
/// length is not three bytes for each pixel, so such a buffer is not admitted.
#[verifier::external_body]
fn write_png(side: u32, rgb: &Vec<u8>) -> (res: Result<Vec<u8>, image::ImageError>)
    requires
        rgb@.len() == 3 * side * side,
    ensures
        match res {
            Ok(bytes) => png_encoding(side, rgb@) == Some(bytes@),
            Err(_) => png_encoding(side, rgb@) is None,
        },
{
    let mut bytes: Vec<u8> = Vec::new();
    let mut out = std::io::Cursor::new(&mut bytes);
    let format = image::ImageOutputFormat::Png;
    match image::write_buffer_with_format(&mut out, rgb, side, side, image::ColorType::Rgb8, format) {
        Ok(()) => Ok(bytes),
        Err(e) => Err(e),
    }
}

/// Encodes the picture as a PNG file.
pub fn encode(img: &Raster) -> (res: Result<Vec<u8>, EncodeError>)
    ensures
        match res {
            Ok(bytes) => png_encoding(img.side(), img@) == Some(bytes@),
            Err(_) => png_encoding(img.side(), img@) is None,
        },
{
    let side: u32 = img.side();
    match write_png(side, img.as_bytes()) {
        Ok(bytes) => Ok(bytes),
        Err(_) => Err(EncodeError),
    }
}

} // verus!
