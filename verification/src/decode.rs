//! Decoding a file's bytes into an image, through the image-codec crate.
//!
//! Reading the file is the caller's business; the decode itself is a pure
//! function of the bytes and stands here behind a trusted wrapper. A decode
//! failure is the per-file recoverable error: the walk logs it and goes on.

use vstd::prelude::*;

verus! {

#[verifier::external_type_specification]
#[verifier::external_body]
pub struct ExDynamicImage(image::DynamicImage);

#[verifier::external_type_specification]
#[verifier::external_body]
pub struct ExImageError(image::ImageError);

/// Whether the codec decodes this byte sequence: a function of the bytes
/// alone.
pub uninterp spec fn image_decodes(bytes: Seq<u8>) -> bool;

/// Relies on image::load_from_memory: it guesses the format and decodes, a
/// pure function of the byte slice, succeeding exactly on the byte sequences
/// the codec accepts.
#[verifier::external_body]
fn load_from_bytes(bytes: &[u8]) -> (r: Result<image::DynamicImage, image::ImageError>)
    ensures
        r is Ok <==> image_decodes(bytes@),
{
    image::load_from_memory(bytes)
}

/// A decoded image: the dense pixel matrix the pipeline stages consume,
/// owned by one file's processing and discarded after it.
pub struct DecodedImage {
    pub image: image::DynamicImage,
}

/// Why one file's processing failed. Recoverable: the walk records it and
/// continues with the next entry.
pub enum ProcessError {
    /// The file's bytes are not an image the codec accepts; the codec's
    /// error is kept as the cause.
    ImageDecode(image::ImageError),
}

/// Decodes a file's bytes. Succeeds exactly when the codec accepts the
/// bytes; on failure the codec's error comes back as the recoverable
/// per-file error.
pub fn decode_image(bytes: &[u8]) -> (r: Result<DecodedImage, ProcessError>)
    ensures
        r is Ok <==> image_decodes(bytes@),
        r is Err ==> r matches Err(ProcessError::ImageDecode(_)),
{
    match load_from_bytes(bytes) {
        Ok(image) => Ok(DecodedImage { image }),
        Err(e) => Err(ProcessError::ImageDecode(e)),
    }
}

} // verus!
