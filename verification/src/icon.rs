//! The tray icon bitmap. The icon is authored as 8-bit RGBA, but any other
//! 8-bit encoding (an RGB export without alpha, grayscale, grayscale with
//! alpha) is normalised to RGBA so that a re-exported icon still shows.

use vstd::prelude::*;
use vstd::slice::slice_to_vec;

verus! {

/// The colour layout of decoded pixel data (one value per `png` colour type).
#[derive(Debug, Clone, Copy, PartialEq, Eq, Structural)]
pub enum ColorType {
    Grayscale,
    Rgb,
    Indexed,
    GrayscaleAlpha,
    Rgba,
}

/// The number of bits per sample of decoded pixel data.
#[derive(Debug, Clone, Copy, PartialEq, Eq, Structural)]
pub enum BitDepth {
    One,
    Two,
    Four,
    Eight,
    Sixteen,
}

/// The number of bytes one 8-bit pixel of this layout takes.
pub open spec fn bytes_per_pixel(color_type: ColorType) -> int {
    match color_type {
        ColorType::Grayscale => 1,
        ColorType::Rgb => 3,
        ColorType::GrayscaleAlpha => 2,
        ColorType::Rgba => 4,
        ColorType::Indexed => 1,
    }
}

/// Byte `i` of the RGBA rendering: pixel `i / 4`, channel `i % 4`. Gray
/// goes to all three colour channels; a missing alpha is opaque (255).
pub open spec fn rgba_byte(buf: Seq<u8>, color_type: ColorType, i: int) -> u8 {
    let p = i / 4;
    let k = i % 4;
    match color_type {
        ColorType::Rgb => if k == 3 { 255u8 } else { buf[3 * p + k] },
        ColorType::GrayscaleAlpha => if k == 3 { buf[2 * p + 1] } else { buf[2 * p] },
        ColorType::Grayscale => if k == 3 { 255u8 } else { buf[p] },
        _ => buf[i],
    }
}

/// The RGBA rendering of 8-bit pixel data: RGBA data as it is; other
/// layouts pixel by pixel, whole pixels only (trailing bytes that do not
/// make up a pixel are dropped).
pub open spec fn rgba8(buf: Seq<u8>, color_type: ColorType) -> Seq<u8> {
    if color_type == ColorType::Rgba {
        buf
    } else {
        Seq::new(
            (4 * (buf.len() as int / bytes_per_pixel(color_type))) as nat,
            |i: int| rgba_byte(buf, color_type, i),
        )
    }
}

/// Byte `4 * p + k` of an RGBA rendering is channel `k` of pixel `p`.
proof fn lemma_pixel_position(p: int)
    requires
        p >= 0,
    ensures
        forall|k: int| 0 <= k < 4 ==> #[trigger] ((4 * p + k) / 4) == p && (4 * p + k) % 4 == k,
{
    assert forall|k: int| 0 <= k < 4 implies #[trigger] ((4 * p + k) / 4) == p && (4 * p + k) % 4 == k by {
        assert((4 * p + k) / 4 == p && (4 * p + k) % 4 == k) by (nonlinear_arith)
            requires
                p >= 0,
                0 <= k < 4,
        ;
    }
}

/// Normalises 8-bit pixel data of any non-indexed layout to RGBA.
pub fn to_rgba8(buf: &[u8], color_type: ColorType, bit_depth: BitDepth) -> (rgba: Vec<u8>)
    requires
        bit_depth == BitDepth::Eight,
        color_type != ColorType::Indexed,
    ensures
        rgba@ == rgba8(buf@, color_type),
{
    match color_type {
        ColorType::Rgba => slice_to_vec(buf),
        ColorType::Rgb => {
            let len = buf.len();
            let n = len / 3;
            let mut out: Vec<u8> = Vec::new();
            let mut p: usize = 0;
            while p < n
                invariant
                    len == buf@.len(),
                    n == buf@.len() / 3,
                    p <= n,
                    out@.len() == 4 * p,
                    forall|j: int| 0 <= j < out@.len() ==> out@[j] == rgba_byte(buf@, ColorType::Rgb, j),
                decreases n - p,
            {
                assert(3 * p + 3 <= buf@.len()) by (nonlinear_arith)
                    requires
                        p < n,
                        len == buf@.len(),
                    n == buf@.len() / 3,
                ;
                out.push(buf[3 * p]);
                out.push(buf[3 * p + 1]);
                out.push(buf[3 * p + 2]);
                out.push(255);
                proof {
                    lemma_pixel_position(p as int);
                }
                p = p + 1;
            }
            assert(out@ =~= rgba8(buf@, color_type));
            out
        },
        ColorType::GrayscaleAlpha => {
            let len = buf.len();
            let n = len / 2;
            let mut out: Vec<u8> = Vec::new();
            let mut p: usize = 0;
            while p < n
                invariant
                    len == buf@.len(),
                    n == buf@.len() / 2,
                    p <= n,
                    out@.len() == 4 * p,
                    forall|j: int| 0 <= j < out@.len() ==> out@[j] == rgba_byte(buf@, ColorType::GrayscaleAlpha, j),
                decreases n - p,
            {
                assert(2 * p + 2 <= buf@.len()) by (nonlinear_arith)
                    requires
                        p < n,
                        len == buf@.len(),
                    n == buf@.len() / 2,
                ;
                let gray = buf[2 * p];
                out.push(gray);
                out.push(gray);
                out.push(gray);
                out.push(buf[2 * p + 1]);
                proof {
                    lemma_pixel_position(p as int);
                }
                p = p + 1;
            }
            assert(out@ =~= rgba8(buf@, color_type));
            out
        },
        _ => {
            let n = buf.len();
            let mut out: Vec<u8> = Vec::new();
            let mut p: usize = 0;
            while p < n
                invariant
                    n == buf@.len(),
                    p <= n,
                    out@.len() == 4 * p,
                    forall|j: int| 0 <= j < out@.len() ==> out@[j] == rgba_byte(buf@, ColorType::Grayscale, j),
                decreases n - p,
            {
                let v = buf[p];
                out.push(v);
                out.push(v);
                out.push(v);
                out.push(255);
                proof {
                    lemma_pixel_position(p as int);
                }
                p = p + 1;
            }
            assert(out@ =~= rgba8(buf@, color_type));
            out
        },
    }
}

/// Why the icon bytes gave no bitmap.
#[derive(Debug, Clone, Copy, PartialEq, Eq, Structural)]
pub enum IconError {
    /// The PNG header or metadata could not be read.
    InvalidHeader,
    /// The image data could not be decoded.
    InvalidImageData,
}

/// Whether `png` reads the header and metadata of `bytes` (up to the image
/// data) without error.
pub uninterp spec fn png_header_read(bytes: Seq<u8>) -> bool;

/// Whether `png`, with the `normalize_to_color8` transformation, decodes
/// the first frame of `bytes` without error once the header is read.
pub uninterp spec fn png_frame_decoded(bytes: Seq<u8>) -> bool;

/// The output buffer that frame is decoded into (sized for a whole image).
pub uninterp spec fn png_frame_buffer(bytes: Seq<u8>) -> Seq<u8>;

/// The PNG colour-type code of the decoded frame's samples.
pub uninterp spec fn png_frame_color_code(bytes: Seq<u8>) -> u8;

/// The bit depth of the decoded frame's samples.
pub uninterp spec fn png_frame_bit_depth(bytes: Seq<u8>) -> u8;

/// The decoded frame's width in pixels.
pub uninterp spec fn png_frame_width(bytes: Seq<u8>) -> u32;

/// The decoded frame's height in pixels.
pub uninterp spec fn png_frame_height(bytes: Seq<u8>) -> u32;

/// The colour layout a PNG colour-type code stands for (0 grayscale, 2 RGB,
/// 3 palette, 4 grayscale with alpha, 6 RGBA).
pub open spec fn color_type_for_code(code: u8) -> ColorType {
    if code == 0 {
        ColorType::Grayscale
    } else if code == 2 {
        ColorType::Rgb
    } else if code == 3 {
        ColorType::Indexed
    } else if code == 4 {
        ColorType::GrayscaleAlpha
    } else {
        ColorType::Rgba
    }
}

/// The sample width a PNG bit-depth code stands for.
pub open spec fn bit_depth_for_code(code: u8) -> BitDepth {
    if code == 1 {
        BitDepth::One
    } else if code == 2 {
        BitDepth::Two
    } else if code == 4 {
        BitDepth::Four
    } else if code == 8 {
        BitDepth::Eight
    } else {
        BitDepth::Sixteen
    }
}

/// The outcome of decoding `bytes` as the tray icon: the frame rendered as
/// RGBA with its width and height, or the stage at which decoding failed.
pub open spec fn icon_outcome(bytes: Seq<u8>) -> Result<(Seq<u8>, u32, u32), IconError> {
    if !png_header_read(bytes) {
        Err(IconError::InvalidHeader)
    } else if !png_frame_decoded(bytes) {
        Err(IconError::InvalidImageData)
    } else {
        Ok(
            (
                rgba8(png_frame_buffer(bytes), color_type_for_code(png_frame_color_code(bytes))),
                png_frame_width(bytes),
                png_frame_height(bytes),
            ),
        )
    }
}

/// Decodes the first frame of a PNG with `png` 0.17: `Decoder::new` over
/// the bytes, `set_transformations(Transformations::normalize_to_color8())`,
/// `read_info`, a zeroed buffer of `output_buffer_size` bytes, and
/// `next_frame` into it. The intermediate decoder states are opaque, and
/// what comes out depends on the bytes alone, so the outcome is named once
/// over the bytes. The frame's colour type and bit depth are returned as
/// their PNG codes (the `repr(u8)` discriminants of `png::ColorType` and
/// `png::BitDepth`).
///
/// Claimed beyond the names, as `png`'s source shows: the frame is only
/// decoded after the header is read; with `EXPAND | STRIP_16` the output is
/// always 8 bits per sample, and palettes are always expanded (code 3 never
/// comes out).
#[verifier::external_body]
fn decode_png_frame(bytes: &[u8]) -> (frame: Result<(Vec<u8>, u8, u8, u32, u32), IconError>)
    ensures
        match frame {
            Ok((buf, color_code, depth_code, width, height)) => {
                &&& png_header_read(bytes@)
                &&& png_frame_decoded(bytes@)
                &&& buf@ == png_frame_buffer(bytes@)
                &&& color_code == png_frame_color_code(bytes@)
                &&& depth_code == png_frame_bit_depth(bytes@)
                &&& width == png_frame_width(bytes@)
                &&& height == png_frame_height(bytes@)
                &&& depth_code == 8
                &&& (color_code == 0 || color_code == 2 || color_code == 4 || color_code == 6)
            },
            Err(IconError::InvalidHeader) => !png_header_read(bytes@),
            Err(IconError::InvalidImageData) => png_header_read(bytes@) && !png_frame_decoded(bytes@),
        },
{
    let mut decoder = png::Decoder::new(bytes);
    decoder.set_transformations(png::Transformations::normalize_to_color8());
    let Ok(mut reader) = decoder.read_info() else { return Err(IconError::InvalidHeader) };
    let mut buf = vec![0u8; reader.output_buffer_size()];
    let Ok(info) = reader.next_frame(&mut buf) else { return Err(IconError::InvalidImageData) };
    Ok((buf, info.color_type as u8, info.bit_depth as u8, info.width, info.height))
}

/// The colour layout of a PNG colour-type code.
fn color_type_from_code(code: u8) -> (color_type: ColorType)
    ensures
        color_type == color_type_for_code(code),
{
    if code == 0 {
        ColorType::Grayscale
    } else if code == 2 {
        ColorType::Rgb
    } else if code == 3 {
        ColorType::Indexed
    } else if code == 4 {
        ColorType::GrayscaleAlpha
    } else {
        ColorType::Rgba
    }
}

/// The sample width of a PNG bit-depth code.
fn bit_depth_from_code(code: u8) -> (bit_depth: BitDepth)
    ensures
        bit_depth == bit_depth_for_code(code),
{
    if code == 1 {
        BitDepth::One
    } else if code == 2 {
        BitDepth::Two
    } else if code == 4 {
        BitDepth::Four
    } else if code == 8 {
        BitDepth::Eight
    } else {
        BitDepth::Sixteen
    }
}

/// Renders a decoded frame, given with the PNG codes of its colour type and
/// bit depth, as RGBA. The decoder with `normalize_to_color8` only gives
/// 8-bit samples and never palette indices, which is what is required here.
pub fn render_frame(buf: &[u8], color_code: u8, depth_code: u8) -> (rgba: Vec<u8>)
    requires
        depth_code == 8,
        color_code == 0 || color_code == 2 || color_code == 4 || color_code == 6,
    ensures
        rgba@ == rgba8(buf@, color_type_for_code(color_code)),
{
    let color_type = color_type_from_code(color_code);
    let bit_depth = bit_depth_from_code(depth_code);
    to_rgba8(buf, color_type, bit_depth)
}

/// Decodes a PNG into RGBA bytes, its width and its height: the first
/// frame, with palettes expanded and samples normalised to 8 bits, is
/// rendered as RGBA by `to_rgba8`.
pub fn decode_icon_png(bytes: &[u8]) -> (decoded: Result<(Vec<u8>, u32, u32), IconError>)
    ensures
        match decoded {
            Ok((rgba, width, height)) => icon_outcome(bytes@) == Ok::<(Seq<u8>, u32, u32), IconError>(
                (rgba@, width, height),
            ),
            Err(e) => icon_outcome(bytes@) == Err::<(Seq<u8>, u32, u32), IconError>(e),
        },
{
    let (buf, color_code, depth_code, width, height) = match decode_png_frame(bytes) {
        Ok(frame) => frame,
        Err(e) => return Err(e),
    };
    let rgba = render_frame(buf.as_slice(), color_code, depth_code);
    Ok((rgba, width, height))
}

/// Pixel by pixel, the RGBA rendering keeps the colour samples and adds
/// an opaque alpha where the layout has none: an RGB pixel `p` gives its
/// three samples then 255; a gray pixel its sample three times then 255; a
/// gray-with-alpha pixel its gray three times then its alpha; RGBA data is
/// kept as it is. The rendering holds four bytes per whole input pixel.
pub proof fn lemma_rgba8_pixels(buf: Seq<u8>, p: int)
    requires
        0 <= p,
    ensures
        rgba8(buf, ColorType::Rgba) == buf,
        rgba8(buf, ColorType::Rgb).len() == 4 * (buf.len() / 3),
        rgba8(buf, ColorType::Grayscale).len() == 4 * buf.len(),
        rgba8(buf, ColorType::GrayscaleAlpha).len() == 4 * (buf.len() / 2),
        3 * p + 3 <= buf.len() ==> {
            let out = rgba8(buf, ColorType::Rgb);
            &&& out[4 * p] == buf[3 * p]
            &&& out[4 * p + 1] == buf[3 * p + 1]
            &&& out[4 * p + 2] == buf[3 * p + 2]
            &&& out[4 * p + 3] == 255
        },
        p < buf.len() ==> {
            let out = rgba8(buf, ColorType::Grayscale);
            &&& out[4 * p] == buf[p]
            &&& out[4 * p + 1] == buf[p]
            &&& out[4 * p + 2] == buf[p]
            &&& out[4 * p + 3] == 255
        },
        2 * p + 2 <= buf.len() ==> {
            let out = rgba8(buf, ColorType::GrayscaleAlpha);
            &&& out[4 * p] == buf[2 * p]
            &&& out[4 * p + 1] == buf[2 * p]
            &&& out[4 * p + 2] == buf[2 * p]
            &&& out[4 * p + 3] == buf[2 * p + 1]
        },
{
    lemma_pixel_position(p);
    if 3 * p + 3 <= buf.len() {
        assert(4 * p + 3 < 4 * (buf.len() / 3)) by (nonlinear_arith)
            requires
                0 <= p,
                3 * p + 3 <= buf.len(),
        ;
    }
    if 2 * p + 2 <= buf.len() {
        assert(4 * p + 3 < 4 * (buf.len() / 2)) by (nonlinear_arith)
            requires
                0 <= p,
                2 * p + 2 <= buf.len(),
        ;
    }
}

} // verus!
