//! The image resolver's pure half: classify a fetched resource's declared
//! content type and re-encode accepted image bytes into the lossless raster
//! container the character-recognition engine accepts. The fetch and the
//! recognition itself are the caller's job.

use vstd::prelude::*;
use crate::text::{contains_seq, str_contains};

verus! {

/// A declared content type under which paste text is accepted.
pub open spec fn is_text_content_type(ct: Seq<char>) -> bool {
    contains_seq(ct, "text/plain"@)
}

/// A declared content type under which image bytes are accepted.
pub open spec fn is_image_content_type(ct: Seq<char>) -> bool {
    contains_seq(ct, "image/jpeg"@) || contains_seq(ct, "image/png"@)
}

/// Does the declared content type admit paste text?
pub fn content_type_is_text(ct: &str) -> (r: bool)
    ensures
        r == is_text_content_type(ct@),
{
    str_contains(ct, "text/plain")
}

/// Does the declared content type admit image bytes?
pub fn content_type_is_image(ct: &str) -> (r: bool)
    ensures
        r == is_image_content_type(ct@),
{
    let jpeg = str_contains(ct, "image/jpeg");
    let png = str_contains(ct, "image/png");
    jpeg || png
}

/// Whether `b` decodes as an image and re-encodes as TIFF, as the image
/// codec decides it; a function of the bytes alone.
pub uninterp spec fn tiff_encodable(b: Seq<u8>) -> bool;

/// The TIFF re-encoding of the decodable image bytes `b`; a function of the
/// bytes alone.
pub uninterp spec fn tiff_of(b: Seq<u8>) -> Seq<u8>;

/// Relies on image::load_from_memory, whose result depends on the input
/// bytes alone, and image::DynamicImage::write_to with the TIFF format,
/// which deterministically re-encodes the decoded image.
#[verifier::external_body]
pub(crate) fn reencode_tiff(bytes: &Vec<u8>) -> (r: Option<Vec<u8>>)
    ensures
        r is Some <==> tiff_encodable(bytes@),
        r matches Some(t) ==> t@ == tiff_of(bytes@),
{
    let img = match image::load_from_memory(bytes.as_slice()) {
        Ok(i) => i,
        Err(_) => return None,
    };
    let mut out: Vec<u8> = Vec::new();
    match img.write_to(std::io::Cursor::new(&mut out), image::ImageFormat::Tiff) {
        Ok(()) => Some(out),
        Err(_) => None,
    }
}

} // verus!
