//! Texture decoding from raw file bytes.
//!
//! Two outside decoders do the pixel work: tinytga parses TGA containers
//! and the image crate decodes the PNG/JPEG family to RGBA8. Both run on
//! bytes already read from disk, so the calls sit here behind trusted
//! wrappers, and everything around them — extension dispatch, the bit-depth
//! rules, the assembly of the descriptor — is verified. Only 24- and 32-bit
//! TGA data is supported; 8- and 16-bit depths yield no texture.

use vstd::prelude::*;

use crate::material::{TextureDesc, TextureFormat};

verus! {

/// The pixel bytes that tinytga exposes for a TGA file. The value depends
/// on the file bytes alone.
pub uninterp spec fn tga_pixel_data(data: Seq<u8>) -> Seq<u8>;

/// What the image crate decodes from a byte buffer, as width, height and
/// RGBA8 pixel bytes; `None` when the buffer does not decode. The value
/// depends on the buffer alone.
pub uninterp spec fn image_rgba_data(data: Seq<u8>) -> Option<(u32, u32, Seq<u8>)>;

/// Whether tinytga parses a file, and the header fields (width, height,
/// pixel depth) it reports when it does. The value depends on the file
/// bytes alone.
pub uninterp spec fn tga_parse(data: Seq<u8>) -> Option<(u16, u16, u8)>;

/// The little-endian 32-bit value at offset `i` of a byte string.
pub open spec fn spec_le32(d: Seq<u8>, i: int) -> int {
    d[i] + 256 * d[i + 1] + 65_536 * d[i + 2] + 16_777_216 * d[i + 3]
}

/// Byte `i` of the eighteen-byte trailer signature that marks a TGA file
/// with a footer section.
pub open spec fn tga_sig_byte(i: int) -> u8 {
    if i == 0 {
        84u8
    } else if i == 1 {
        82u8
    } else if i == 2 {
        85u8
    } else if i == 3 {
        69u8
    } else if i == 4 {
        86u8
    } else if i == 5 {
        73u8
    } else if i == 6 {
        83u8
    } else if i == 7 {
        73u8
    } else if i == 8 {
        79u8
    } else if i == 9 {
        78u8
    } else if i == 10 {
        45u8
    } else if i == 11 {
        88u8
    } else if i == 12 {
        70u8
    } else if i == 13 {
        73u8
    } else if i == 14 {
        76u8
    } else if i == 15 {
        69u8
    } else if i == 16 {
        46u8
    } else {
        0u8
    }
}

/// The file ends in the footer trailer signature (and is long enough to
/// hold the whole twenty-six-byte footer).
pub open spec fn tga_has_footer_tag(d: Seq<u8>) -> bool {
    &&& d.len() >= 26
    &&& forall|i: int| 0 <= i < 18 ==> d[d.len() - 18 + i] == tga_sig_byte(i)
}

/// A footered file whose extension-area or developer-directory offset
/// points past the end of the file. tinytga subtracts such an offset from
/// the file length without a check, so these files must never reach it.
pub open spec fn tga_footer_hazard(d: Seq<u8>) -> bool {
    &&& tga_has_footer_tag(d)
    &&& {
        let ext = spec_le32(d, d.len() - 26);
        let dev = spec_le32(d, d.len() - 22);
        (ext != 0 && ext > d.len()) || (dev != 0 && dev > d.len())
    }
}

/// Byte `i` of the trailer signature, at runtime.
fn tga_sig_byte_at(i: usize) -> (r: u8)
    requires
        i < 18,
    ensures
        r == tga_sig_byte(i as int),
{
    if i == 0 {
        84
    } else if i == 1 {
        82
    } else if i == 2 {
        85
    } else if i == 3 {
        69
    } else if i == 4 {
        86
    } else if i == 5 {
        73
    } else if i == 6 {
        83
    } else if i == 7 {
        73
    } else if i == 8 {
        79
    } else if i == 9 {
        78
    } else if i == 10 {
        45
    } else if i == 11 {
        88
    } else if i == 12 {
        70
    } else if i == 13 {
        73
    } else if i == 14 {
        76
    } else if i == 15 {
        69
    } else if i == 16 {
        46
    } else {
        0
    }
}

/// The little-endian 32-bit value at offset `i`, at runtime.
fn le32_at(d: &Vec<u8>, i: usize) -> (r: u64)
    requires
        i + 4 <= d.len(),
    ensures
        r == spec_le32(d@, i as int),
{
    (d[i] as u64) + 256 * (d[i + 1] as u64) + 65_536 * (d[i + 2] as u64) + 16_777_216 * (d[i
        + 3] as u64)
}

/// Detect the footer shape that tinytga's trailing-section arithmetic
/// does not guard against.
fn tga_footer_hazard_check(d: &Vec<u8>) -> (r: bool)
    ensures
        r == tga_footer_hazard(d@),
{
    let n = d.len();
    if n < 26 {
        return false;
    }
    let mut i: usize = 0;
    while i < 18
        invariant
            0 <= i <= 18,
            n == d@.len(),
            26 <= n,
            forall|j: int| 0 <= j < i ==> d@[n - 18 + j] == tga_sig_byte(j),
        decreases 18 - i,
    {
        if d[n - 18 + i] != tga_sig_byte_at(i) {
            return false;
        }
        i = i + 1;
    }
    let ext = le32_at(d, n - 26);
    let dev = le32_at(d, n - 22);
    (ext != 0 && ext > n as u64) || (dev != 0 && dev > n as u64)
}

/// Relies on tinytga's `RawTga::from_slice`, `TgaHeader` and `image_data`:
/// parsing succeeds as a function of the bytes alone (named `tga_parse`),
/// the header holds little-endian width and height at offsets 12 and 14 and
/// the pixel depth (one of 8, 16, 24, 32) at offset 16 of an 18-byte header,
/// and the pixel data is a sub-slice of the file. The precondition keeps
/// out the one footer shape whose trailing-section arithmetic tinytga does
/// not guard, so the call cannot panic.
#[verifier::external_body]
fn tga_decode(data: &Vec<u8>) -> (r: Option<(u16, u16, u8, Vec<u8>)>)
    requires
        !tga_footer_hazard(data@),
    ensures
        r is Some <==> tga_parse(data@) is Some,
        r matches Some(t) ==> (tga_parse(data@) matches Some(h) && h.0 == t.0 && h.1 == t.1
            && h.2 == t.2),
        r matches Some(t) ==> {
            &&& data@.len() >= 18
            &&& t.0 == data@[12] + 256 * data@[13]
            &&& t.1 == data@[14] + 256 * data@[15]
            &&& t.2 == data@[16]
            &&& (t.2 == 8 || t.2 == 16 || t.2 == 24 || t.2 == 32)
            &&& t.3@ == tga_pixel_data(data@)
            &&& t.3@.len() <= data@.len()
        },
{
    match tinytga::RawTga::from_slice(data) {
        Ok(img) => {
            let header = img.header();
            Some(
                (
                    header.width,
                    header.height,
                    header.pixel_depth.bits(),
                    img.image_data().to_vec(),
                ),
            )
        },
        Err(_) => None,
    }
}

/// Relies on image's `load_from_memory` and `DynamicImage::into_rgba8`:
/// decoding is deterministic in the buffer bytes, and the RGBA8 buffer
/// holds exactly four bytes per pixel.
#[verifier::external_body]
fn image_decode_rgba(data: &Vec<u8>) -> (r: Option<(u32, u32, Vec<u8>)>)
    ensures
        r matches Some(t) ==> image_rgba_data(data@) matches Some(s) && s.0 == t.0 && s.1 == t.1
            && s.2 == t.2@ && t.2@.len() == 4 * (t.0 as int) * (t.1 as int),
        r is None ==> image_rgba_data(data@) is None,
{
    match image::load_from_memory(data) {
        Ok(img) => {
            let rgba = img.into_rgba8();
            let (w, h) = rgba.dimensions();
            Some((w, h, rgba.into_raw()))
        },
        Err(_) => None,
    }
}

/// The byte string ends in the given four bytes.
pub open spec fn spec_has_suffix4(p: Seq<u8>, a: u8, b: u8, c: u8, d: u8) -> bool {
    &&& p.len() >= 4
    &&& p[p.len() - 4] == a
    &&& p[p.len() - 3] == b
    &&& p[p.len() - 2] == c
    &&& p[p.len() - 1] == d
}

/// The path names a TGA container.
pub open spec fn ext_tga(p: Seq<u8>) -> bool {
    spec_has_suffix4(p, 46u8, 116u8, 103u8, 97u8)
}

/// The path names a PNG image.
pub open spec fn ext_png(p: Seq<u8>) -> bool {
    spec_has_suffix4(p, 46u8, 112u8, 110u8, 103u8)
}

/// The path names a JPEG image.
pub open spec fn ext_jpg(p: Seq<u8>) -> bool {
    spec_has_suffix4(p, 46u8, 106u8, 112u8, 103u8)
}

/// Test a four-byte suffix.
pub(crate) fn has_suffix4(p: &Vec<u8>, a: u8, b: u8, c: u8, d: u8) -> (r: bool)
    ensures
        r == spec_has_suffix4(p@, a, b, c, d),
{
    let n = p.len();
    if n < 4 {
        return false;
    }
    p[n - 4] == a && p[n - 3] == b && p[n - 2] == c && p[n - 1] == d
}

/// The descriptor `t` is what decoding `bytes` under the format named by
/// `path` yields.
pub open spec fn spec_decoded_ok(t: TextureDesc, path: Seq<u8>, bytes: Seq<u8>) -> bool {
    if ext_tga(path) {
        &&& tga_parse(bytes) is Some
        &&& bytes.len() >= 18
        &&& t.width == bytes[12] + 256 * bytes[13]
        &&& t.height == bytes[14] + 256 * bytes[15]
        &&& t.pixels@ == tga_pixel_data(bytes)
        &&& ((bytes[16] == 24 && t.format == TextureFormat::RGB8) || (bytes[16] == 32 && t.format
            == TextureFormat::RGBA8))
    } else if ext_png(path) || ext_jpg(path) {
        match image_rgba_data(bytes) {
            Option::Some(s) => t.width == s.0 && t.height == s.1 && t.pixels@ == s.2 && t.format
                == TextureFormat::RGBA8,
            Option::None => false,
        }
    } else {
        false
    }
}

/// Assemble a texture from parsed TGA fields: 24-bit data is RGB8, 32-bit
/// data is RGBA8, every other depth is unsupported and yields nothing.
pub fn texture_from_tga(width: u16, height: u16, depth_bits: u8, pixels: Vec<u8>) -> (r: Option<
    TextureDesc,
>)
    ensures
        depth_bits == 24 ==> (r matches Some(t) && t == (TextureDesc {
            pixels: pixels,
            width: width as u32,
            height: height as u32,
            format: TextureFormat::RGB8,
        })),
        depth_bits == 32 ==> (r matches Some(t) && t == (TextureDesc {
            pixels: pixels,
            width: width as u32,
            height: height as u32,
            format: TextureFormat::RGBA8,
        })),
        depth_bits != 24 && depth_bits != 32 ==> r is None,
{
    if depth_bits == 24 {
        Some(
            TextureDesc {
                pixels,
                width: width as u32,
                height: height as u32,
                format: TextureFormat::RGB8,
            },
        )
    } else if depth_bits == 32 {
        Some(
            TextureDesc {
                pixels,
                width: width as u32,
                height: height as u32,
                format: TextureFormat::RGBA8,
            },
        )
    } else {
        None
    }
}

/// Decode one texture file: dispatch on the path's extension, hand the
/// bytes to the matching decoder and assemble the descriptor. Yields
/// nothing for unrecognized extensions, undecodable bytes, unsupported
/// TGA depths, and the hazardous footer shape that never reaches the
/// parser; decodable bytes of a supported shape always yield a texture.
pub fn decode_texture(path: &Vec<u8>, bytes: &Vec<u8>) -> (r: Option<TextureDesc>)
    ensures
        r matches Some(t) ==> spec_decoded_ok(t, path@, bytes@),
        !ext_tga(path@) && !ext_png(path@) && !ext_jpg(path@) ==> r is None,
        (ext_png(path@) || ext_jpg(path@)) && image_rgba_data(bytes@) is None ==> r is None,
        (ext_png(path@) || ext_jpg(path@)) && image_rgba_data(bytes@) is Some ==> r is Some,
        ext_tga(path@) && tga_footer_hazard(bytes@) ==> r is None,
        ext_tga(path@) && !tga_footer_hazard(bytes@) && tga_parse(bytes@) is None ==> r
            is None,
        (ext_tga(path@) && !tga_footer_hazard(bytes@) && (tga_parse(bytes@) matches Some(h) && (
        h.2 == 24 || h.2 == 32))) ==> r is Some,
        ext_tga(path@) && bytes@.len() >= 18 && bytes@[16] != 24 && bytes@[16] != 32 ==> r
            is None,
{
    if has_suffix4(path, 46, 116, 103, 97) {
        if tga_footer_hazard_check(bytes) {
            return None;
        }
        match tga_decode(bytes) {
            Some(parsed) => texture_from_tga(parsed.0, parsed.1, parsed.2, parsed.3),
            None => None,
        }
    } else if has_suffix4(path, 46, 112, 110, 103) || has_suffix4(path, 46, 106, 112, 103) {
        match image_decode_rgba(bytes) {
            Some(decoded) => Some(
                TextureDesc {
                    pixels: decoded.2,
                    width: decoded.0,
                    height: decoded.1,
                    format: TextureFormat::RGBA8,
                },
            ),
            None => None,
        }
    } else {
        None
    }
}

} // verus!
