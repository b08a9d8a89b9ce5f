//! Base64 encoding of image payloads for the image search endpoint.
use vstd::prelude::*;

use vstd::string::StringSliceAdditionalSpecFns;

use crate::models::Image;
use crate::models::MimeType;

verus! {

/// The standard Base64 encoding (with padding) of a byte sequence.
pub uninterp spec fn base64_of(bytes: Seq<u8>) -> Seq<char>;

/// A Base64-encoded image payload.
#[derive(Debug, Clone, PartialEq)]
pub struct Base64Image(pub String);

/// Relies on base64's `STANDARD` engine: the standard alphabet with
/// padding, which writes four output characters for every group of up to
/// three input bytes; the result depends on the bytes alone.
#[verifier::external_body]
fn encode_base64(bytes: &[u8]) -> (r: String)
    requires
        bytes@.len() / 3 < usize::MAX / 4,
    ensures
        r@ == base64_of(bytes@),
        r@.len() == 4 * ((bytes@.len() + 2) / 3),
{
    base64::Engine::encode(&base64::engine::general_purpose::STANDARD, bytes)
}

/// Encodes raw bytes as a Base64 image payload. The encoding writes four
/// characters for every group of up to three input bytes.
pub fn to_base64(bytes: &Vec<u8>) -> (r: Base64Image)
    requires
        bytes@.len() / 3 < usize::MAX / 4,
    ensures
        r.0@ == base64_of(bytes@),
        r.0@.len() == 4 * ((bytes@.len() + 2) / 3),
{
    Base64Image(encode_base64(bytes.as_slice()))
}

/// Encodes the UTF-8 bytes of a string as a Base64 image payload.
pub fn str_to_base64(s: &str) -> (r: Base64Image)
    requires
        s.spec_bytes().len() / 3 < usize::MAX / 4,
    ensures
        r.0@ == base64_of(s.spec_bytes()),
        r.0@.len() == 4 * ((s.spec_bytes().len() + 2) / 3),
{
    Base64Image(encode_base64(s.as_bytes()))
}

impl Image {
    /// Builds an image for the image search from raw bytes, encoding
    /// them in Base64.
    pub fn from_bytes(mime_type: MimeType, bytes: &Vec<u8>) -> (r: Image)
        requires
            bytes@.len() / 3 < usize::MAX / 4,
        ensures
            r.mime_type == mime_type,
            r.image_data@ == base64_of(bytes@),
            r.image_data@.len() == 4 * ((bytes@.len() + 2) / 3),
    {
        let encoded = to_base64(bytes);
        Image { mime_type, image_data: encoded.0 }
    }
}

} // verus!
