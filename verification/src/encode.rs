//! From pixels to the delivery format.

use crate::error::RenderError;
use crate::raster::PixelBuffer;
use vstd::prelude::*;

verus! {

#[verifier::external_type_specification]
#[verifier::external_body]
pub struct ExEncodingError(image_webp::EncodingError);

/// The largest width and the largest height that the delivery format holds.
pub const MAX_IMAGE_SIDE: u32 = 16384;

/// The WebP file that the encoder writes for an RGBA raster of the given
/// size: a function of the pixels and the size alone.
pub uninterp spec fn webp_image(pixels: Seq<u8>, width: u32, height: u32) -> Seq<u8>;

/// The four bytes from index `at` on, read as a number with the lowest
/// byte first.
pub open spec fn le_u32_at(bytes: Seq<u8>, at: int) -> nat {
    (bytes[at] + 0x100 * bytes[at + 1] + 0x1_0000 * bytes[at + 2] + 0x100_0000 * bytes[at
        + 3]) as nat
}

/// `RIFF`, which opens the file.
pub open spec fn riff_tag() -> Seq<u8> {
    seq![0x52u8, 0x49u8, 0x46u8, 0x46u8]
}

/// `WEBP`, which names the format.
pub open spec fn webp_tag() -> Seq<u8> {
    seq![0x57u8, 0x45u8, 0x42u8, 0x50u8]
}

/// `VP8L`, which opens the lossless image data.
pub open spec fn lossless_tag() -> Seq<u8> {
    seq![0x56u8, 0x50u8, 0x38u8, 0x4cu8]
}

/// The byte that opens a lossless bitstream.
pub const LOSSLESS_SIGNATURE: u8 = 0x2f;

/// The length of a file's head up to the end of the size fields.
pub const HEAD_LEN: usize = 25;

/// Whether `bytes` opens as a simple lossless file of the delivery format:
/// the three tags in their places, the signature, and version zero.
pub open spec fn is_lossless_head(bytes: Seq<u8>) -> bool {
    &&& bytes.len() >= HEAD_LEN
    &&& bytes.subrange(0, 4) == riff_tag()
    &&& bytes.subrange(8, 12) == webp_tag()
    &&& bytes.subrange(12, 16) == lossless_tag()
    &&& bytes[20] == LOSSLESS_SIGNATURE
    &&& le_u32_at(bytes, 21) / 0x2000_0000 == 0
}

/// The width and height that a simple lossless file declares: two fields
/// of fourteen bits behind the signature, each one less than the side.
pub open spec fn declared_size_spec(bytes: Seq<u8>) -> Option<(nat, nat)> {
    if is_lossless_head(bytes) {
        let fields = le_u32_at(bytes, 21);
        Some((fields % 0x4000 + 1, ((fields / 0x4000) % 0x4000 + 1) as nat))
    } else {
        None
    }
}

/// Whether the delivery format holds an image of that size.
pub open spec fn encodable(width: nat, height: nat) -> bool {
    1 <= width && width <= MAX_IMAGE_SIDE && 1 <= height && height <= MAX_IMAGE_SIDE
}

/// `image_webp::WebPEncoder::encode` of RGBA bytes into a fresh vector.
/// The encoder panics unless `data` holds four bytes for each pixel, so
/// that is required. It refuses exactly the sizes with a side of zero or
/// above `MAX_IMAGE_SIDE`; its only other failure is one of the writer,
/// and a vector never fails to take bytes. With no metadata set it writes
/// the simple container, and opens the bitstream with the signature, the
/// width less one and the height less one in fourteen bits each, the alpha
/// flag and version zero: the file declares the size it was given.
#[verifier::external_body]
fn webp_encode(data: &[u8], width: u32, height: u32) -> (r: Result<
    Vec<u8>,
    image_webp::EncodingError,
>)
    requires
        data@.len() == 4 * (width * height),
    ensures
        match r {
            Ok(bytes) => encodable(width as nat, height as nat) && bytes@ == webp_image(
                data@,
                width,
                height,
            ) && declared_size_spec(bytes@) == Some((width as nat, height as nat)),
            Err(_) => !encodable(width as nat, height as nat),
        },
{
    let mut bytes = Vec::new();
    image_webp::WebPEncoder::new(&mut bytes).encode(
        data,
        width,
        height,
        image_webp::ColorType::Rgba8,
    )?;
    Ok(bytes)
}

/// The `Display` text of an `image_webp::EncodingError`. Nothing is claimed
/// of it.
#[verifier::external_body]
fn encoding_error_text(error: &image_webp::EncodingError) -> String {
    error.to_string()
}

/// Encodes the buffer as a self-contained image. The image declares the
/// buffer's own width and height, so that reading it back gives an image
/// of the same size. It fails exactly when a side exceeds
/// `MAX_IMAGE_SIDE`.
pub fn encode(buffer: &PixelBuffer) -> (r: Result<Vec<u8>, RenderError>)
    ensures
        match r {
            Ok(bytes) => encodable(buffer@.width, buffer@.height) && bytes@ == webp_image(
                buffer@.pixels,
                buffer@.width as u32,
                buffer@.height as u32,
            ) && declared_size_spec(bytes@) == Some((buffer@.width, buffer@.height)),
            Err(e) => !encodable(buffer@.width, buffer@.height) && e@ is Encode,
        },
{
    let width = buffer.width();
    let height = buffer.height();
    let data = buffer.data();
    match webp_encode(data.as_slice(), width, height) {
        Ok(bytes) => Ok(bytes),
        Err(e) => Err(RenderError::Encode(encoding_error_text(&e))),
    }
}

/// Whether the four bytes of `tag` stand in `bytes` at index `at`.
fn has_tag(bytes: &[u8], at: usize, tag: [u8; 4]) -> (found: bool)
    requires
        at + 4 <= bytes@.len(),
    ensures
        found == (bytes@.subrange(at as int, at + 4) == tag@),
{
    let found = bytes[at] == tag[0] && bytes[at + 1] == tag[1] && bytes[at + 2] == tag[2]
        && bytes[at + 3] == tag[3];
    proof {
        let part = bytes@.subrange(at as int, at + 4);
        if found {
            assert(part =~= tag@);
        } else {
            assert(part[0] != tag@[0] || part[1] != tag@[1] || part[2] != tag@[2] || part[3]
                != tag@[3]);
        }
    }
    found
}

/// The width and height that an image of the delivery format declares, if
/// `bytes` opens as a simple lossless file.
pub fn declared_size(bytes: &[u8]) -> (size: Option<(u32, u32)>)
    ensures
        match size {
            Some((width, height)) => declared_size_spec(bytes@) == Some(
                (width as nat, height as nat),
            ),
            None => declared_size_spec(bytes@) is None,
        },
{
    if bytes.len() < HEAD_LEN {
        return None;
    }
    let riff: [u8; 4] = [0x52, 0x49, 0x46, 0x46];
    let webp: [u8; 4] = [0x57, 0x45, 0x42, 0x50];
    let lossless: [u8; 4] = [0x56, 0x50, 0x38, 0x4c];
    if !has_tag(bytes, 0, riff) || !has_tag(bytes, 8, webp) || !has_tag(bytes, 12, lossless) {
        return None;
    }
    if bytes[20] != LOSSLESS_SIGNATURE {
        return None;
    }
    let fields: u32 = (bytes[21] as u32) + 0x100 * (bytes[22] as u32) + 0x1_0000 * (
    bytes[23] as u32) + 0x100_0000 * (bytes[24] as u32);
    if fields / 0x2000_0000 != 0 {
        return None;
    }
    Some((fields % 0x4000 + 1, (fields / 0x4000) % 0x4000 + 1))
}

} // verus!
