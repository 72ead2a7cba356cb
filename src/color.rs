//! Accent colour of an image: decode the bytes to RGBA pixels, quantize them
//! to a small palette and keep the most dominant entry.

use vstd::prelude::*;

use crate::summary::Rgb;

verus! {

/// Pixels sampled: one in this many.
pub const PALETTE_QUALITY: u8 = 2;

/// The most palette entries asked for.
pub const PALETTE_SIZE: u8 = 10;

/// The largest RGBA buffer that is quantized: at `PALETTE_QUALITY` the
/// quantizer's channel sums stay within an `i32` up to this size.
pub const MAX_PIXEL_BYTES: usize = 256_000_000;

/// Why no accent colour was found.
#[derive(Clone, Copy, Debug, PartialEq, Eq, Structural)]
pub enum ColorError {
    /// The image bytes could not be fetched.
    Fetch,
    /// The bytes are not an image in a known format.
    Decode,
    /// Quantization gave no palette entry.
    NoPalette,
    /// The decoded image is too large to quantize.
    TooLarge,
}

/// The RGBA pixel buffer that decoding `bytes` gives, if they are an image.
pub uninterp spec fn decoded_rgba(bytes: Seq<u8>) -> Option<Seq<u8>>;

/// The palette that quantizing RGBA `pixels` gives, most dominant first, or
/// `None` where the quantizer reports an error.
pub uninterp spec fn rgba_palette(pixels: Seq<u8>, quality: u8, max_colors: u8) -> Option<
    Seq<(u8, u8, u8)>,
>;

pub open spec fn opt_seq<T>(o: Option<Vec<T>>) -> Option<Seq<T>> {
    match o {
        Some(v) => Some(v@),
        None => None,
    }
}

/// Relies on image::load_from_memory to decode the bytes (format guessed
/// from their content) and on DynamicImage::to_rgba8 for the pixel buffer.
#[verifier::external_body]
fn decode_rgba(bytes: &[u8]) -> (r: Option<Vec<u8>>)
    ensures
        opt_seq(r) == decoded_rgba(bytes@),
{
    match image::load_from_memory(bytes) {
        Ok(img) => Some(img.to_rgba8().into_raw()),
        Err(_) => None,
    }
}

/// Relies on color_thief::get_palette over RGBA pixels, which asserts that
/// `quality` is in `1..=10` and `max_colors` above one. It samples one pixel
/// in every `4 * quality` and sums each channel of a colour box in an
/// `i32`; at most `128_000_000 * quality` bytes keep that sum in range.
#[verifier::external_body]
fn quantize_rgba(pixels: &[u8], quality: u8, max_colors: u8) -> (r: Option<Vec<(u8, u8, u8)>>)
    requires
        1 <= quality <= 10,
        max_colors > 1,
        pixels@.len() <= 128_000_000 * quality,
    ensures
        opt_seq(r) == rgba_palette(pixels@, quality, max_colors),
{
    match color_thief::get_palette(pixels, color_thief::ColorFormat::Rgba, quality, max_colors) {
        Ok(p) => Some(p.iter().map(|c| (c.r, c.g, c.b)).collect()),
        Err(_) => None,
    }
}

pub open spec fn to_rgb(c: (u8, u8, u8)) -> Rgb {
    Rgb { r: c.0, g: c.1, b: c.2 }
}

/// The accent colour that a palette gives: its first entry.
pub open spec fn palette_accent(palette: Option<Seq<(u8, u8, u8)>>) -> Result<Rgb, ColorError> {
    match palette {
        Some(p) => if p.len() > 0 {
            Ok(to_rgb(p[0]))
        } else {
            Err(ColorError::NoPalette)
        },
        None => Err(ColorError::NoPalette),
    }
}

/// The accent colour of image bytes.
pub open spec fn accent_spec(bytes: Seq<u8>) -> Result<Rgb, ColorError> {
    match decoded_rgba(bytes) {
        None => Err(ColorError::Decode),
        Some(pixels) => if pixels.len() > MAX_PIXEL_BYTES {
            Err(ColorError::TooLarge)
        } else {
            palette_accent(rgba_palette(pixels, PALETTE_QUALITY, PALETTE_SIZE))
        },
    }
}

/// Picks the accent colour out of a quantizer's result.
pub fn accent_of_palette(palette: Option<Vec<(u8, u8, u8)>>) -> (r: Result<Rgb, ColorError>)
    ensures
        r == palette_accent(opt_seq(palette)),
{
    match palette {
        Some(p) => {
            if p.len() > 0 {
                let c = p[0];
                Ok(Rgb { r: c.0, g: c.1, b: c.2 })
            } else {
                Err(ColorError::NoPalette)
            }
        },
        None => Err(ColorError::NoPalette),
    }
}

/// Extracts the accent colour of image bytes.
pub fn extract_accent_color(bytes: &[u8]) -> (r: Result<Rgb, ColorError>)
    ensures
        r == accent_spec(bytes@),
{
    match decode_rgba(bytes) {
        None => Err(ColorError::Decode),
        Some(pixels) => {
            if pixels.len() > MAX_PIXEL_BYTES {
                Err(ColorError::TooLarge)
            } else {
                accent_of_palette(quantize_rgba(pixels.as_slice(), PALETTE_QUALITY, PALETTE_SIZE))
            }
        },
    }
}

/// The accent colour for what fetching an image gave: `None` when the fetch
/// failed.
pub fn color_from_fetch(fetched: Option<Vec<u8>>) -> (r: Result<Rgb, ColorError>)
    ensures
        fetched is None ==> r == Err::<Rgb, ColorError>(ColorError::Fetch),
        fetched matches Some(b) ==> r == accent_spec(b@),
{
    match fetched {
        None => Err(ColorError::Fetch),
        Some(b) => extract_accent_color(b.as_slice()),
    }
}

/// The colour a summary carries for an extraction outcome: none on failure.
pub open spec fn outcome_accent(outcome: Result<Rgb, ColorError>) -> Option<Rgb> {
    match outcome {
        Ok(c) => Some(c),
        Err(_) => None,
    }
}

/// The colour a summary carries for an extraction outcome.
pub fn accent_of(outcome: Result<Rgb, ColorError>) -> (r: Option<Rgb>)
    ensures
        r == outcome_accent(outcome),
{
    match outcome {
        Ok(c) => Some(c),
        Err(_) => None,
    }
}

} // verus!
