//! Screenshots: the canvas as PNG bytes.

use vstd::prelude::*;
use crate::error::Error;

verus! {

#[verifier::external_type_specification]
#[verifier::external_body]
pub struct ExEncodingError(png::EncodingError);

/// The PNG file that `png::Encoder` writes for an 8-bit RGBA image of
/// `width` x `height` pixels with these bytes (default compression and
/// filtering).
pub uninterp spec fn png_rgba_encoding(width: u32, height: u32, rgba: Seq<u8>) -> Seq<u8>;

/// Encodes an 8-bit RGBA image with `png::Encoder` (header, then image
/// data) into a byte vector.
///
/// Trusted, as the encoder's source shows: a zero width or height fails
/// when the header is written, and image data whose length is not
/// width x height x 4 fails when it is written; otherwise nothing fails
/// (8-bit RGBA is a valid combination, and writing into a `Vec` cannot
/// fail), and the output is the encoder's PNG for these arguments.
#[verifier::external_body]
fn encode_png_rgba(width: u32, height: u32, rgba: &[u8]) -> (r: Result<Vec<u8>, png::EncodingError>)
    requires
        (width as int) * (height as int) * 4 <= usize::MAX,
    ensures
        width == 0 || height == 0 ==> r is Err,
        (width as int) * (height as int) * 4 != rgba@.len() ==> r is Err,
        width > 0 && height > 0 && (width as int) * (height as int) * 4 == rgba@.len() ==> r is Ok,
        r matches Ok(v) ==> v@ == png_rgba_encoding(width, height, rgba@),
{
    let mut png_data = Vec::new();
    {
        let mut encoder = png::Encoder::new(&mut png_data, width, height);
        encoder.set_color(png::ColorType::Rgba);
        encoder.set_depth(png::BitDepth::Eight);
        let mut writer = encoder.write_header()?;
        writer.write_image_data(rgba)?;
    }
    Ok(png_data)
}

/// The message of a PNG encoding error (its `Display` text).
#[verifier::external_body]
fn encoding_error_text(e: &png::EncodingError) -> (s: String) {
    e.to_string()
}

/// The canvas (`width` x `height` RGBA pixels) as PNG bytes: an image
/// error for an empty canvas or pixel data of the wrong length, else the
/// encoder's PNG of the canvas.
pub fn get_screen_png(width: u32, height: u32, rgba: &[u8]) -> (r: Result<Vec<u8>, Error>)
    requires
        (width as int) * (height as int) * 4 <= usize::MAX,
    ensures
        width == 0 || height == 0 || (width as int) * (height as int) * 4 != rgba@.len() ==> r
            matches Err(Error::Image(_)),
        width > 0 && height > 0 && (width as int) * (height as int) * 4 == rgba@.len() ==> (r
            matches Ok(v) && v@ == png_rgba_encoding(width, height, rgba@)),
        r matches Ok(v) ==> v@ == png_rgba_encoding(width, height, rgba@),
        r is Err ==> r matches Err(Error::Image(_)),
{
    match encode_png_rgba(width, height, rgba) {
        Ok(v) => Ok(v),
        Err(e) => Err(Error::Image(encoding_error_text(&e))),
    }
}

} // verus!
