//! PNG through the `png` crate: the snapshot card's encoding and the
//! window icon's decoding.
use vstd::prelude::*;

use crate::calendar::{clock_text, date_of, wall_clock_string};
use crate::card::{card_byte, card_pixels, CARD_H, CARD_W};
use crate::error::GuiError;
use crate::model::Section;
use crate::shell::{channel_label, channel_name};
use crate::status::{push_text_cell, text_cell};
use crate::text::{chars_of, owned, push_str};

verus! {

/// The `png` crate's encoding error.
#[verifier::external_type_specification]
#[verifier::external_body]
pub struct ExEncodingError(png::EncodingError);

/// The PNG file that the `png` crate writes for an 8-bit RGB image of
/// `width` × `height` pixels, or `None` when it refuses the image.
pub uninterp spec fn png_rgb8(width: u32, height: u32, pixels: Seq<u8>) -> Option<Seq<u8>>;

/// Encodes an 8-bit RGB image (png's `Encoder::new`, `set_color`,
/// `set_depth`, `write_header`, `Writer::write_image_data`, the stream
/// closed when the writer drops). The contract names the result: the
/// same image always encodes to the same bytes, and a refusal is the
/// same for the same image. Writing into memory, the encoder succeeds
/// on every image with nonzero sides whose pixel buffer holds exactly
/// three bytes per pixel (it refuses zero sides in `write_header` and a
/// buffer of another length in `write_image_data`); which other inputs
/// it refuses is not stated. The filtered image's byte size, a row of
/// `1 + 3 * width` bytes per line, must fit a `usize`: the writer
/// computes it without checking for overflow.
#[verifier::external_body]
fn encode_rgb8(width: u32, height: u32, pixels: &[u8]) -> (r: Result<Vec<u8>, png::EncodingError>)
    requires
        (3 * (width as int) + 1) * (height as int) <= usize::MAX,
    ensures
        match r {
            Ok(b) => png_rgb8(width, height, pixels@) == Some(b@),
            Err(_) => png_rgb8(width, height, pixels@) is None,
        },
        width >= 1 && height >= 1 && pixels@.len() == 3 * (width as int) * (height as int) ==> r is Ok,
{
    let mut out: Vec<u8> = Vec::new();
    {
        let mut encoder = png::Encoder::new(&mut out, width, height);
        encoder.set_color(png::ColorType::Rgb);
        encoder.set_depth(png::BitDepth::Eight);
        let mut writer = encoder.write_header()?;
        writer.write_image_data(pixels)?;
    }
    Ok(out)
}

/// The message of a png encoding error (its `Display`); nothing is
/// stated of the text.
#[verifier::external_body]
fn encoding_error_text(e: &png::EncodingError) -> String {
    e.to_string()
}

/// The PNG file of the snapshot card's pixels; a refusal by the encoder
/// is a [`GuiError::Png`] carrying its message. A buffer of three bytes
/// per card pixel always encodes.
pub fn encode_card_png(pixels: &[u8]) -> (r: Result<Vec<u8>, GuiError>)
    ensures
        match r {
            Ok(b) => png_rgb8(CARD_W as u32, CARD_H as u32, pixels@) == Some(b@),
            Err(e) => png_rgb8(CARD_W as u32, CARD_H as u32, pixels@) is None && e is Png,
        },
        pixels@.len() == 3 * CARD_W * CARD_H ==> r is Ok,
{
    match encode_rgb8(CARD_W as u32, CARD_H as u32, pixels) {
        Ok(b) => Ok(b),
        Err(e) => Err(GuiError::Png(encoding_error_text(&e))),
    }
}

/// The largest icon side accepted, in pixels.
pub const MAX_ICON_DIM: u32 = 1024;

/// A decoded window icon: 8-bit RGBA pixels, row-major.
#[derive(Debug, Clone, PartialEq, Eq)]
pub struct IconImage {
    pub rgba: Vec<u8>,
    pub width: u32,
    pub height: u32,
}

/// The PNG colour-type code of RGBA (png's `ColorType::Rgba`).
pub const COLOR_RGBA: u8 = 6;

/// The bit depth of 8-bit samples (png's `BitDepth::Eight`).
pub const DEPTH_EIGHT: u8 = 8;

/// The header facts of a PNG as the `png` crate reads them: its width,
/// its height, and the colour type and bit depth of its decoded pixels
/// (the PNG colour-type code and the bits per sample); `None` when it
/// cannot read the header.
pub uninterp spec fn png_header_of(bytes: Seq<u8>) -> Option<(u32, u32, u8, u8)>;

/// The first frame's decoded pixels, as the `png` crate decodes them;
/// `None` when decoding fails.
pub uninterp spec fn png_frame_of(bytes: Seq<u8>) -> Option<Seq<u8>>;

/// Reads a PNG's header (png's `Decoder::new`, `read_info`, then
/// `Reader::info` for the size and `Reader::output_color_type` for the
/// pixel format, whose `ColorType` and `BitDepth` discriminants are the
/// PNG colour-type code and the bits per sample). The contract names the
/// result, a function of the bytes. It asks for a 64-bit `usize`:
/// `read_info` adds one to an animation chunk's frame count as a `usize`
/// without checking, which overflows on a 32-bit target for a count of
/// `u32::MAX`.
#[verifier::external_body]
fn png_header(bytes: &[u8]) -> (r: Option<(u32, u32, u8, u8)>)
    requires
        usize::BITS == 64,
    ensures
        r == png_header_of(bytes@),
{
    let reader = png::Decoder::new(bytes).read_info().ok()?;
    let info = reader.info();
    let (color, depth) = reader.output_color_type();
    Some((info.width, info.height, color as u8, depth as u8))
}

/// Decodes a PNG's first frame (png's `Decoder::new`, `read_info`,
/// `Reader::output_buffer_size` for the buffer, `Reader::next_frame`).
/// The contract names the result, a function of the bytes. It is only
/// asked of an image whose header reads with sides of at most
/// [`MAX_ICON_DIM`], so that the buffer stays small, on a 64-bit target
/// (the same `read_info` as [`png_header`]).
#[verifier::external_body]
fn png_frame(bytes: &[u8]) -> (r: Option<Vec<u8>>)
    requires
        usize::BITS == 64,
        png_header_of(bytes@) matches Some((w, h, _, _)) && w <= MAX_ICON_DIM && h <= MAX_ICON_DIM,
    ensures
        match r {
            Some(px) => png_frame_of(bytes@) == Some(px@),
            None => png_frame_of(bytes@) is None,
        },
{
    let mut reader = png::Decoder::new(bytes).read_info().ok()?;
    let mut buf = vec![0u8; reader.output_buffer_size()];
    reader.next_frame(&mut buf).ok()?;
    Some(buf)
}

/// The icon a PNG decodes to: an 8-bit RGBA image no larger than
/// [`MAX_ICON_DIM`] on either side, else none.
pub open spec fn icon_of(bytes: Seq<u8>) -> Option<(Seq<u8>, u32, u32)> {
    match png_header_of(bytes) {
        Some((w, h, color, depth)) => if w <= MAX_ICON_DIM && h <= MAX_ICON_DIM && color == COLOR_RGBA
            && depth == DEPTH_EIGHT {
            match png_frame_of(bytes) {
                Some(px) => Some((px, w, h)),
                None => None,
            }
        } else {
            None
        },
        None => None,
    }
}

/// Decodes the window icon: an 8-bit RGBA PNG no larger than
/// [`MAX_ICON_DIM`] on either side. Anything else (not a PNG, a corrupt
/// frame, another pixel format, a larger image) is `None`. On a 64-bit
/// target, where the `png` crate's header read cannot overflow.
pub fn decode_icon_png(bytes: &[u8]) -> (r: Option<IconImage>)
    requires
        usize::BITS == 64,
    ensures
        match r {
            Some(icon) => icon_of(bytes@) == Some((icon.rgba@, icon.width, icon.height)),
            None => icon_of(bytes@) is None,
        },
{
    let (width, height, color, depth) = match png_header(bytes) {
        Some(h) => h,
        None => return None,
    };
    if width > MAX_ICON_DIM || height > MAX_ICON_DIM || color != COLOR_RGBA || depth != DEPTH_EIGHT {
        return None;
    }
    match png_frame(bytes) {
        Some(rgba) => Some(IconImage { rgba, width, height }),
        None => None,
    }
}


/// The version the card's title names.
pub const APP_VERSION: &'static str = "2.1.0";

/// The card's title at epoch second `secs`: `RamSleuth v<version>` and
/// the UTC wall clock, two spaces apart.
pub open spec fn card_title(secs: int) -> Seq<char> {
    let (y, m, d) = date_of(secs / 86_400);
    "RamSleuth v"@ + APP_VERSION@ + "  "@ + clock_text(y, m, d, secs % 86_400)
}

/// The card's CPU line: `CPU: <brand> @ <clock>`, the clock already
/// rendered in GHz, or `N/A`.
pub open spec fn card_cpu_view(brand: Seq<char>, clock: Section<String>) -> Seq<char> {
    "CPU: "@ + brand + " @ "@ + text_cell(clock)
}

/// The snapshot card's CPU line.
pub fn snapshot_cpu_line(brand: &str, clock: &Section<String>) -> (t: String)
    ensures
        t@ == card_cpu_view(brand@, *clock),
{
    let mut t = owned("CPU: ");
    push_str(&mut t, brand);
    push_str(&mut t, " @ ");
    push_text_cell(&mut t, clock);
    t
}

/// The card's RAM line: `RAM: <total> | <channel>`, the total already
/// rendered in GB (or `N/A`), the channel from the SPD-visible DIMM count.
pub open spec fn card_ram_view(total: Section<String>, dimm_count: nat) -> Seq<char> {
    "RAM: "@ + text_cell(total) + " | "@ + channel_label(dimm_count)
}

/// The snapshot card's RAM line.
pub fn snapshot_ram_line(total: &Section<String>, dimm_count: usize) -> (t: String)
    ensures
        t@ == card_ram_view(*total, dimm_count as nat),
{
    let mut t = owned("RAM: ");
    push_text_cell(&mut t, total);
    push_str(&mut t, " | ");
    let channel = channel_name(dimm_count);
    push_str(&mut t, channel.as_str());
    t
}

/// The card's pixels, byte by byte.
pub open spec fn card_image(title: Seq<char>, cpu: Seq<char>, ram: Seq<char>, colors: Seq<u32>) -> Seq<u8> {
    Seq::new((3 * CARD_W * CARD_H) as nat, |i: int| card_byte(title, cpu, ram, colors, i))
}

/// The F2 snapshot card as a PNG file: the title with the wall clock of
/// epoch second `secs`, the CPU and RAM lines, and the sixteen grid-cell
/// colors (row-major: Memory, L1, L2, L3 by Read, Write, Copy, Latency).
/// A refusal by the encoder is a [`GuiError::Png`].
pub fn snapshot_card(secs: i64, cpu: &str, ram: &str, colors: &[u32]) -> (r: Result<Vec<u8>, GuiError>)
    requires
        colors@.len() == 16,
    ensures
        match r {
            Ok(b) => png_rgb8(CARD_W as u32, CARD_H as u32, card_image(card_title(secs as int), cpu@, ram@, colors@))
                == Some(b@),
            Err(e) => png_rgb8(CARD_W as u32, CARD_H as u32, card_image(card_title(secs as int), cpu@, ram@, colors@))
                is None && e is Png,
        },
        r is Ok,
{
    let mut title = owned("RamSleuth v");
    push_str(&mut title, APP_VERSION);
    push_str(&mut title, "  ");
    let stamp = wall_clock_string(secs);
    push_str(&mut title, stamp.as_str());
    assert(title@ =~= card_title(secs as int));
    let t = chars_of(title.as_str());
    let c = chars_of(cpu);
    let m = chars_of(ram);
    let pixels = card_pixels(&t, &c, &m, colors);
    assert(pixels@ =~= card_image(card_title(secs as int), cpu@, ram@, colors@));
    encode_card_png(&pixels)
}

} // verus!
