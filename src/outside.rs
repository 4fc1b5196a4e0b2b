//! Calls into the base64 and image crates.
use vstd::prelude::*;
use base64::Engine;

verus! {

/// What standard base64 (with padding) decodes a text to, if it is valid.
pub uninterp spec fn base64_decoded(s: Seq<char>) -> Option<Seq<u8>>;

/// Width, height and RGBA bytes (row by row) of the image that `b` encodes,
/// if it can be read.
pub uninterp spec fn image_decoded(b: Seq<u8>) -> Option<(u32, u32, Seq<u8>)>;

/// Relies on base64's `STANDARD` engine and `Engine::decode`: the bytes that a
/// padded standard base64 text encodes, or an error.
#[verifier::external_body]
pub(crate) fn decode_base64(s: &str) -> (r: Option<Vec<u8>>)
    ensures
        match r {
            Some(v) => base64_decoded(s@) == Some(v@),
            None => base64_decoded(s@) is None,
        },
{
    base64::engine::general_purpose::STANDARD.decode(s).ok()
}

/// Relies on image's `ImageReader` (format guessed from the bytes), `decode`
/// and `DynamicImage::to_rgba8`: the decoded image as 8-bit RGBA, or an error.
#[verifier::external_body]
pub(crate) fn decode_image(bytes: Vec<u8>) -> (r: Option<(u32, u32, Vec<u8>)>)
    ensures
        match r {
            Some((w, h, px)) => image_decoded(bytes@) == Some((w, h, px@)),
            None => image_decoded(bytes@) is None,
        },
{
    let reader = image::ImageReader::new(std::io::Cursor::new(bytes)).with_guessed_format().ok()?;
    let rgba = reader.decode().ok()?.to_rgba8();
    Some((rgba.width(), rgba.height(), rgba.into_raw()))
}

} // verus!
