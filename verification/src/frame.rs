use vstd::prelude::*;

use crate::decode::{decode_bgra, decode_rgb};

verus! {

/// A decoded frame packaged as the image crate's pixel container: an
/// `ImageBuffer` of RGB pixels over the packed bytes. The buffer's own
/// generic declaration is bounded by the crate's `Pixel` trait, which
/// Verus cannot take in a type declaration, so the container lives in a
/// field of this opaque struct instead; nothing of it is visible to
/// verification, and callers outside the library reach it through
/// `buffer`.
#[verifier::external_body]
pub struct FrameImage {
    /// The underlying image buffer.
    pub buffer: image::ImageBuffer<image::Rgb<u8>, Vec<u8>>,
}

/// Relies on image::ImageBuffer::from_raw: it accepts the buffer exactly
/// when the buffer holds at least `CHANNEL_COUNT * width * height`
/// subpixels — three per pixel for RGB — computed without overflowing
/// usize; otherwise it returns `None`.
#[verifier::external_body]
fn to_image_buffer(width: u32, height: u32, data: Vec<u8>) -> (r: Option<FrameImage>)
    ensures
        r is Some <==> 3 * width * height <= data@.len(),
{
    image::ImageBuffer::from_raw(width, height, data).map(|buffer| FrameImage { buffer })
}

/// Decode a frame that is already packed RGB into an image buffer.
///
/// An image is produced exactly when the raw buffer's length is three
/// bytes per pixel; its bytes are the raw buffer's, unchanged, as
/// `decode_rgb` states. A buffer of any other length yields no image —
/// the frame is skipped, not an error.
pub fn decode_frame_rgb(width: u32, height: u32, raw: Vec<u8>) -> (r: Option<FrameImage>)
    ensures
        r is Some <==> raw@.len() == 3 * width * height,
{
    match decode_rgb(width, height, raw) {
        Some(img) => to_image_buffer(img.width, img.height, img.data),
        None => None,
    }
}

/// Decode a frame with four bytes per pixel in blue, green, red, alpha
/// order into an image buffer.
///
/// An image is produced exactly when the raw buffer's length is four
/// bytes per pixel; its bytes are the reordered colour bytes, as
/// `decode_bgra` states. A buffer of any other length yields no image —
/// the frame is skipped, not an error.
pub fn decode_frame_bgra(width: u32, height: u32, raw: &Vec<u8>) -> (r: Option<FrameImage>)
    ensures
        r is Some <==> raw@.len() == 4 * width * height,
{
    match decode_bgra(width, height, raw) {
        Some(img) => to_image_buffer(img.width, img.height, img.data),
        None => None,
    }
}

} // verus!
