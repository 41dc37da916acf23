//! The raster container: the engine's encoded image format.
//!
//! An encoded image is a flat byte buffer: the four magic bytes `xras`, the
//! width and the height as 32-bit big-endian integers, then the RGBA pixel
//! bytes, four per pixel in row-major order, with nothing following. Both
//! dimensions must lie in `1 ..= 1_000_000` (the engine's raster size cap).
//! Anything else is rejected as a decode failure. Screenshot decoding
//! additionally converts the raster to grayscale directly (every pixel
//! treated as opaque), while templates keep their alpha channel for the
//! opacity gate and the compositing stage.
//!
//! The container is deliberately minimal: decoding a compressed picture
//! format takes an outside codec, and this library links none. The pipeline
//! itself does not depend on the container — a caller holding
//! already-decoded pixels can hand the engine its rasters directly through
//! the raster-level entry points (`find_template_with_config`,
//! `find_template_with_decoded_screenshot`).

use crate::error::prefixed_message;
use crate::raster::{
    convert_to_grayscale_direct, gray_direct_of, GrayRaster, RgbaRaster,
};
use vstd::prelude::*;

verus! {

/// The 32-bit big-endian integer at offset `i`.
pub open spec fn be32(b: Seq<u8>, i: int) -> nat {
    (b[i] * 0x1000000 + b[i + 1] * 0x10000 + b[i + 2] * 0x100 + b[i + 3]) as nat
}

/// What decoding an encoded image buffer to RGBA yields: width, height and
/// the pixel bytes, or nothing when the buffer is not a well-formed
/// container.
pub open spec fn rgba_decoded(b: Seq<u8>) -> Option<(nat, nat, Seq<u8>)> {
    if b.len() >= 12 && b[0] == 120 && b[1] == 114 && b[2] == 97 && b[3] == 115 && 1 <= be32(b, 4)
        <= 1000000 && 1 <= be32(b, 8) <= 1000000 && b.len() == 12 + 4 * be32(b, 4) * be32(b, 8) {
        Some((be32(b, 4), be32(b, 8), b.skip(12)))
    } else {
        None
    }
}

/// What decoding an encoded image buffer to grayscale yields: the same
/// raster converted to luminance directly, every pixel treated as opaque.
pub open spec fn gray_decoded(b: Seq<u8>) -> Option<(nat, nat, Seq<u8>)> {
    match rgba_decoded(b) {
        Option::Some(dec) => Some((dec.0, dec.1, gray_direct_of(dec.2, dec.0 * dec.1))),
        Option::None => None,
    }
}

/// Read the 32-bit big-endian integer at offset `i`.
fn read_be32(bytes: &[u8], i: usize) -> (r: u32)
    requires
        i + 4 <= bytes@.len(),
    ensures
        r as nat == be32(bytes@, i as int),
{
    let b0 = bytes[i] as u32;
    let b1 = bytes[i + 1] as u32;
    let b2 = bytes[i + 2] as u32;
    let b3 = bytes[i + 3] as u32;
    b0 * 0x1000000 + b1 * 0x10000 + b2 * 0x100 + b3
}

/// Decode an encoded image buffer to an RGBA raster. A failure carries a
/// message starting with the stable prefix "Image decode error".
pub fn decode_image_to_rgba(bytes: &[u8]) -> (r: Result<RgbaRaster, String>)
    ensures
        r is Ok <==> rgba_decoded(bytes@) is Some,
        r matches Ok(img) ==> (rgba_decoded(bytes@) == Some(
            (img.width as nat, img.height as nat, img.data@),
        ) && img.wf() && 1 <= img.width <= 1000000 && 1 <= img.height <= 1000000),
        r matches Err(m) ==> "Image decode error"@.is_prefix_of(m@),
{
    let n = bytes.len();
    if n < 12 {
        return Err(prefixed_message("Image decode error", ": truncated image data"));
    }
    if !(bytes[0] == 120 && bytes[1] == 114 && bytes[2] == 97 && bytes[3] == 115) {
        return Err(prefixed_message("Image decode error", ": unrecognized image format"));
    }
    let width = read_be32(bytes, 4);
    let height = read_be32(bytes, 8);
    if width < 1 || width > 1000000 || height < 1 || height > 1000000 {
        return Err(prefixed_message("Image decode error", ": unsupported image dimensions"));
    }
    proof {
        vstd::arithmetic::mul::lemma_mul_upper_bound(width as int, 1000000, height as int, 1000000);
    }
    let wh: u64 = (width as u64) * (height as u64);
    proof {
        vstd::arithmetic::mul::lemma_mul_is_associative(4, width as int, height as int);
    }
    let expected: u64 = 12 + 4 * wh;
    if (n as u64) != expected {
        return Err(prefixed_message("Image decode error", ": truncated image data"));
    }
    let mut data: Vec<u8> = Vec::new();
    let pixel_bytes = n - 12;
    for k in 0..pixel_bytes
        invariant
            n == bytes@.len(),
            pixel_bytes == n - 12,
            data@.len() == k,
            forall|j: int| 0 <= j < k ==> data@[j] == bytes@[12 + j],
    {
        data.push(bytes[12 + k]);
    }
    proof {
        assert(data@ =~= bytes@.skip(12));
    }
    Ok(RgbaRaster { width, height, data })
}

/// Decode an encoded image buffer and convert it directly to grayscale, as
/// the screenshot path does. A failure carries a message starting with the
/// stable prefix "Image decode error".
pub fn decode_image_to_gray(bytes: &[u8]) -> (r: Result<GrayRaster, String>)
    ensures
        r is Ok <==> gray_decoded(bytes@) is Some,
        r matches Ok(g) ==> (gray_decoded(bytes@) == Some(
            (g.width as nat, g.height as nat, g.data@),
        ) && g.wf() && 1 <= g.width <= 1000000 && 1 <= g.height <= 1000000),
        r matches Err(m) ==> "Image decode error"@.is_prefix_of(m@),
{
    match decode_image_to_rgba(bytes) {
        Ok(img) => Ok(convert_to_grayscale_direct(&img)),
        Err(msg) => Err(msg),
    }
}

} // verus!
