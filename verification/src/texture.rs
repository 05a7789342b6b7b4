//! The sampled texture: decoding an encoded image into RGBA pixels and
//! the layout with which those pixels are uploaded, plus the sizing rule
//! for the per-frame depth texture.

use vstd::prelude::*;

verus! {

/// What decoding an encoded image yields: `None` when the bytes are not
/// a decodable image, otherwise the width, height and the RGBA pixel
/// bytes. Decoding is a function of the bytes alone.
pub uninterp spec fn decoded_image(bytes: Seq<u8>) -> Option<(nat, nat, Seq<u8>)>;

/// Relies on image::load_from_memory to decode the bytes, and on
/// DynamicImage::to_rgba8 to convert the result to RGBA pixels: the
/// buffer it returns holds exactly 4 bytes for each of width * height
/// pixels.
#[verifier::external_body]
fn decode_rgba(bytes: &[u8]) -> (r: Option<(u32, u32, Vec<u8>)>)
    ensures
        r is Some <==> decoded_image(bytes@) is Some,
        r matches Some(d) ==> ({
            &&& decoded_image(bytes@) == Some((d.0 as nat, d.1 as nat, d.2@))
            &&& d.2@.len() == 4 * d.0 * d.1
        }),
{
    match image::load_from_memory(bytes) {
        Ok(img) => {
            let rgba = img.to_rgba8();
            let (width, height) = rgba.dimensions();
            Some((width, height, rgba.into_raw()))
        }
        Err(_) => None,
    }
}

/// Why a texture could not be built from the given bytes.
#[derive(Clone, Copy, PartialEq, Eq, Structural, Debug)]
pub enum TextureError {
    /// The bytes are not a decodable image.
    Decode,
    /// The decoded image is so wide that a row of RGBA bytes does not
    /// fit the 32-bit row length the upload layout carries.
    Oversize,
}

/// A decoded image together with the layout of its GPU upload: rows of
/// `bytes_per_row` bytes, `height` rows, 4 bytes per pixel.
#[derive(Debug)]
pub struct TextureData {
    pub width: u32,
    pub height: u32,
    pub bytes_per_row: u32,
    pub rgba: Vec<u8>,
}

impl TextureData {
    pub open spec fn wf(self) -> bool {
        &&& self.bytes_per_row == 4 * self.width
        &&& self.rgba@.len() == 4 * self.width * self.height
    }

    /// Decode `bytes` and lay the pixels out for upload. Succeeds exactly
    /// when the bytes decode and a row of RGBA bytes fits in 32 bits.
    pub fn new(bytes: &[u8]) -> (r: Result<TextureData, TextureError>)
        ensures
            r is Ok <==> (decoded_image(bytes@) matches Some(d) && 4 * d.0 <= u32::MAX),
            r matches Ok(t) ==> ({
                &&& decoded_image(bytes@) == Some((t.width as nat, t.height as nat, t.rgba@))
                &&& t.wf()
            }),
            r matches Err(e) ==> (e is Decode <==> decoded_image(bytes@) is None),
    {
        match decode_rgba(bytes) {
            None => Err(TextureError::Decode),
            Some((width, height, rgba)) => {
                if width > u32::MAX / 4 {
                    Err(TextureError::Oversize)
                } else {
                    Ok(TextureData { width, height, bytes_per_row: 4 * width, rgba })
                }
            }
        }
    }
}

/// The pixel extent of the depth texture for a frame of the given size:
/// each dimension raised to at least one, since even a minimized window
/// needs a non-empty texture.
pub fn depth_extent(width: u32, height: u32) -> (r: (u32, u32))
    ensures
        r.0 == (if width == 0 { 1u32 } else { width }),
        r.1 == (if height == 0 { 1u32 } else { height }),
{
    let w = if width == 0 { 1 } else { width };
    let h = if height == 0 { 1 } else { height };
    (w, h)
}

} // verus!
