use ramsleuth_gui::card::{card_pixels, CARD_H, CARD_W, DIM_CELL, TEXT_COLOR};
use ramsleuth_gui::png_io::{decode_icon_png, snapshot_card};
use ramsleuth_gui::style::{RgbChannels, AMBER, CRIMSON, CYAN, SLATE};

const PNG_SIG: [u8; 8] = [0x89, b'P', b'N', b'G', 0x0D, 0x0A, 0x1A, 0x0A];

fn rgb(c: u32) -> (u8, u8, u8) {
    (c.r(), c.g(), c.b())
}

fn pixel(img: &[u8], x: usize, y: usize) -> (u8, u8, u8) {
    let i = (y * CARD_W + x) * 3;
    (img[i], img[i + 1], img[i + 2])
}

fn colors() -> Vec<u32> {
    let mut c = vec![DIM_CELL; 16];
    c[0] = CYAN;
    c[3] = AMBER;
    c[15] = CRIMSON;
    c
}

fn encode_rgba(width: u32, height: u32, rgba: &[u8]) -> Vec<u8> {
    let mut out = Vec::new();
    {
        let mut encoder = png::Encoder::new(&mut out, width, height);
        encoder.set_color(png::ColorType::Rgba);
        encoder.set_depth(png::BitDepth::Eight);
        let mut writer = encoder.write_header().expect("a valid header encodes");
        writer.write_image_data(rgba).expect("a valid RGBA8 frame encodes");
    }
    out
}

#[test]
fn snapshot_png_writes_valid_png() {
    let bytes = snapshot_card(0, "CPU: N/A", "RAM: N/A", &colors()).expect("the card must encode");
    assert_eq!(&bytes[..8], &PNG_SIG, "the file must start with the PNG signature");
    let reader = png::Decoder::new(&bytes[..]).read_info().expect("a valid PNG has a header");
    let info = reader.info();
    assert_eq!((info.width, info.height), (CARD_W as u32, CARD_H as u32));
    assert_eq!(info.color_type, png::ColorType::Rgb);
}

#[test]
fn snapshot_card_layout_header_and_grid() {
    let bytes = snapshot_card(1_789_439_400, "CPU: Ryzen 9 5950X @ 3.60 GHz", "RAM: 32.0 GB | Dual-Channel", &colors())
        .expect("the card must encode");
    let mut reader = png::Decoder::new(&bytes[..]).read_info().expect("a valid PNG has a header");
    let mut img = vec![0u8; reader.output_buffer_size()];
    reader.next_frame(&mut img).expect("the card payload must decode");
    let slate = rgb(SLATE);
    assert_eq!(pixel(&img, 16, 16), slate, "the glyph corner is inkless");
    assert_eq!(pixel(&img, 16, 18), rgb(CYAN), "the title glyph must be CYAN");
    assert_eq!(pixel(&img, 18, 16), rgb(CYAN), "the title glyph must be CYAN");
    assert_eq!(pixel(&img, 320, 95), slate, "the header/grid gap must be SLATE");
    assert_eq!(pixel(&img, 320, 87), rgb(DIM_CELL));
    assert_eq!(pixel(&img, 86, 132), rgb(CYAN), "the first grid cell takes its color");
    assert_eq!(pixel(&img, 16 + 3 * 156, 100), rgb(AMBER));
    assert_eq!(pixel(&img, 623, 403), rgb(CRIMSON));
    assert_eq!(pixel(&img, 624, 403), slate, "right of the grid is background");
    assert_eq!(pixel(&img, 156, 132), slate, "the gutter is background");
    // The CPU line's `C` starts at (16, 38): row 0 of `C` is 14 = 0b01110.
    assert_eq!(pixel(&img, 16, 38), slate);
    assert_eq!(pixel(&img, 18, 38), rgb(TEXT_COLOR));
}

#[test]
fn card_pixels_fill_the_whole_card() {
    let p = card_pixels(&[], &[], &[], &colors());
    assert_eq!(p.len(), 3 * CARD_W * CARD_H);
    assert_eq!(pixel(&p, 0, 0), rgb(SLATE));
    assert_eq!(pixel(&p, 639, 419), rgb(SLATE));
    assert_eq!(pixel(&p, 16, 87), rgb(DIM_CELL));
    assert_eq!(pixel(&p, 15, 87), rgb(SLATE));
    assert_eq!(pixel(&p, 624, 87), rgb(SLATE));
}

#[test]
fn a_long_line_is_clipped_at_the_card_edge() {
    let long: Vec<char> = std::iter::repeat('#').take(80).collect();
    let p = card_pixels(&long, &[], &[], &colors());
    // `#` row 1 is 27 = 0b11011: columns 0, 1, 3, 4 lit; the 53rd
    // character starts at x = 16 + 52 * 12 = 640, off the card.
    assert_eq!(pixel(&p, 16 + 51 * 12, 18), rgb(CYAN));
    assert_eq!(pixel(&p, 639, 18), rgb(SLATE));
    assert_eq!(p.len(), 3 * CARD_W * CARD_H);
}

#[test]
fn window_icon_png_decode() {
    let rgba: Vec<u8> = (0..6u8).flat_map(|i| [i * 4 + 1, i * 4 + 2, i * 4 + 3, 255]).collect();
    let bytes = encode_rgba(3, 2, &rgba);
    let icon = decode_icon_png(&bytes).expect("a valid RGBA8 PNG decodes");
    assert_eq!((icon.width, icon.height), (3, 2));
    let idx = 5 * 4;
    assert_eq!(&icon.rgba[idx..idx + 4], &rgba[idx..idx + 4]);
    assert_eq!(icon.rgba, rgba);
    assert!(decode_icon_png(&[0, 1, 2, 3]).is_none());
}

#[test]
fn decode_icon_png_refuses_rgb_and_oversized_images() {
    let rgb_card = snapshot_card(0, "", "", &colors()).expect("the card must encode");
    assert!(decode_icon_png(&rgb_card).is_none(), "an RGB image is not an icon");
    let big = encode_rgba(1025, 1, &vec![0u8; 1025 * 4]);
    assert!(decode_icon_png(&big).is_none(), "a side over 1024 is refused");
    let edge = encode_rgba(1024, 1, &vec![7u8; 1024 * 4]);
    assert_eq!(decode_icon_png(&edge).map(|i| (i.width, i.height)), Some((1024, 1)));
}
