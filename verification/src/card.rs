//! The F2 snapshot card: a 640×420 RGB image with a three-line header in
//! a 2×-scaled 5×7 bitmap font (title and wall clock, the CPU line, the
//! RAM line), a dim separator, and the 4×4 benchmark grid, each cell in
//! its own color.
use vstd::prelude::*;

use crate::style::{channel, RgbChannels, CYAN, SLATE};

verus! {

/// The card's width, in pixels.
pub const CARD_W: usize = 640;
/// The card's height, in pixels.
pub const CARD_H: usize = 420;
/// The header lines' text color.
pub const TEXT_COLOR: u32 = 0xE6E6EC;
/// The separator's color (also that of an unmeasured grid cell).
pub const DIM_CELL: u32 = 0x3A3A44;

/// The 5×7 bitmap font for printable ASCII (`' '` to `'~'`): seven rows
/// per character, one byte per row, bit 0 the leftmost pixel.
pub const FONT_5X7: [u8; 665] = [
    0, 0, 0, 0, 0, 0, 0,
    4, 4, 4, 4, 4, 0, 4,
    10, 10, 10, 0, 0, 0, 0,
    10, 27, 10, 10, 27, 10, 10,
    14, 9, 10, 6, 21, 9, 14,
    19, 19, 2, 4, 1, 25, 25,
    6, 9, 9, 6, 10, 9, 14,
    4, 4, 0, 0, 0, 0, 0,
    6, 2, 1, 1, 1, 2, 6,
    12, 8, 16, 16, 16, 8, 12,
    0, 10, 14, 31, 14, 10, 0,
    0, 4, 4, 31, 4, 4, 0,
    0, 0, 0, 0, 4, 4, 2,
    0, 0, 0, 31, 0, 0, 0,
    0, 0, 0, 0, 0, 4, 4,
    16, 8, 8, 4, 2, 2, 1,
    14, 17, 25, 21, 19, 17, 14,
    4, 2, 4, 4, 4, 4, 14,
    14, 17, 16, 12, 2, 1, 31,
    14, 17, 16, 12, 16, 17, 14,
    8, 12, 10, 9, 31, 16, 16,
    31, 1, 1, 14, 16, 17, 14,
    14, 1, 1, 31, 17, 17, 14,
    31, 16, 8, 4, 2, 2, 2,
    14, 17, 17, 14, 17, 17, 14,
    14, 17, 17, 30, 16, 16, 14,
    0, 4, 4, 0, 4, 4, 0,
    0, 4, 4, 0, 4, 2, 0,
    16, 8, 4, 2, 4, 8, 16,
    0, 0, 31, 0, 31, 0, 0,
    1, 2, 4, 8, 4, 2, 1,
    14, 17, 16, 12, 0, 0, 4,
    14, 17, 21, 13, 1, 1, 14,
    14, 17, 17, 31, 17, 17, 17,
    30, 17, 17, 30, 17, 17, 30,
    14, 17, 1, 1, 1, 17, 14,
    30, 17, 17, 17, 17, 17, 30,
    31, 1, 1, 30, 1, 1, 31,
    31, 1, 1, 30, 1, 1, 1,
    14, 17, 1, 21, 17, 17, 14,
    17, 17, 17, 31, 17, 17, 17,
    14, 4, 4, 4, 4, 4, 14,
    28, 16, 16, 16, 16, 17, 6,
    17, 9, 5, 3, 5, 9, 17,
    1, 1, 1, 1, 1, 1, 31,
    17, 27, 21, 21, 17, 17, 17,
    17, 19, 21, 25, 17, 17, 17,
    14, 17, 17, 17, 17, 17, 14,
    30, 17, 17, 30, 1, 1, 1,
    14, 17, 17, 17, 21, 9, 22,
    30, 17, 17, 30, 5, 9, 17,
    14, 17, 1, 14, 16, 17, 14,
    31, 4, 4, 4, 4, 4, 4,
    17, 17, 17, 17, 17, 17, 14,
    17, 17, 17, 17, 17, 10, 4,
    17, 17, 17, 21, 21, 27, 17,
    17, 17, 10, 4, 10, 17, 17,
    17, 17, 10, 4, 4, 4, 4,
    31, 16, 8, 4, 2, 1, 31,
    30, 2, 2, 2, 2, 2, 30,
    1, 2, 2, 4, 8, 16, 16,
    30, 8, 8, 8, 8, 8, 30,
    4, 10, 17, 0, 0, 0, 0,
    0, 0, 0, 0, 0, 0, 31,
    4, 2, 1, 0, 0, 0, 0,
    0, 0, 14, 16, 30, 17, 30,
    1, 1, 30, 17, 17, 17, 30,
    0, 0, 14, 1, 1, 17, 14,
    16, 16, 30, 17, 17, 17, 30,
    0, 0, 14, 17, 31, 1, 14,
    12, 2, 30, 2, 2, 2, 2,
    0, 30, 17, 17, 30, 16, 14,
    1, 1, 30, 17, 17, 17, 17,
    4, 0, 6, 4, 4, 4, 14,
    16, 0, 12, 16, 16, 17, 6,
    1, 1, 9, 5, 3, 5, 9,
    6, 4, 4, 4, 4, 4, 14,
    0, 0, 11, 21, 21, 21, 21,
    0, 0, 30, 17, 17, 17, 17,
    0, 0, 14, 17, 17, 17, 14,
    0, 30, 17, 17, 30, 1, 1,
    0, 30, 17, 17, 30, 16, 16,
    0, 0, 21, 19, 1, 1, 1,
    0, 0, 30, 1, 14, 16, 30,
    2, 2, 30, 2, 2, 2, 12,
    0, 0, 17, 17, 17, 17, 30,
    0, 0, 17, 17, 17, 10, 4,
    0, 0, 17, 17, 21, 21, 10,
    0, 0, 17, 10, 4, 10, 17,
    0, 17, 17, 17, 30, 16, 14,
    0, 0, 31, 8, 4, 2, 31,
    8, 4, 4, 2, 4, 4, 8,
    4, 4, 4, 4, 4, 4, 4,
    2, 4, 4, 8, 4, 4, 2,
    0, 0, 18, 9, 0, 0, 0,
];
/// The font row `row` (0-6) of `c`; a character outside printable ASCII
/// is a three-pixel-wide block.
pub open spec fn glyph_row(c: char, row: int) -> u8 {
    if ' ' <= c && c <= '~' {
        FONT_5X7@[(c as int - 32) * 7 + row]
    } else {
        7
    }
}

/// `2` to the power `k`, for the five font columns.
pub open spec fn col_weight(k: int) -> int {
    if k == 0 { 1 } else if k == 1 { 2 } else if k == 2 { 4 } else if k == 3 { 8 } else { 16 }
}

/// Bit `col` of a font row is set.
pub open spec fn bit_on(bits: u8, col: int) -> bool {
    (bits as int / col_weight(col)) % 2 == 1
}

/// Pixel `(x, y)` is lit by the text `t` drawn at `(x0, y0)`: each
/// character takes a 12-pixel-wide cell (five font columns and a blank
/// one, each two pixels wide), each font row two pixels high.
pub open spec fn text_lit(t: Seq<char>, x0: int, y0: int, x: int, y: int) -> bool {
    let dx = x - x0;
    let dy = y - y0;
    &&& 0 <= dx
    &&& 0 <= dy < 14
    &&& dx / 12 < t.len()
    &&& (dx % 12) / 2 < 5
    &&& bit_on(glyph_row(t[dx / 12], dy / 2), (dx % 12) / 2)
}

/// The grid cell (row-major, `4 * row + column`) that holds pixel
/// `(x, y)`: 140×64 cells with 16-pixel gutters from `(16, 100)`.
pub open spec fn grid_cell(x: int, y: int) -> Option<int> {
    let dx = x - 16;
    let dy = y - 100;
    if 0 <= dx && 0 <= dy && dx / 156 < 4 && dy / 80 < 4 && dx % 156 < 140 && dy % 80 < 64 {
        Some(4 * (dy / 80) + dx / 156)
    } else {
        None
    }
}

/// The color of pixel `(x, y)` of the card: the title in CYAN at
/// `(16, 16)`, the CPU and RAM lines in the text color at `(16, 38)` and
/// `(16, 60)`, the separator on row 87 between the margins, the grid
/// cells in their colors, the SLATE background elsewhere.
pub open spec fn card_color(title: Seq<char>, cpu: Seq<char>, ram: Seq<char>, colors: Seq<u32>, x: int, y: int) -> u32 {
    if text_lit(title, 16, 16, x, y) {
        CYAN
    } else if text_lit(cpu, 16, 38, x, y) {
        TEXT_COLOR
    } else if text_lit(ram, 16, 60, x, y) {
        TEXT_COLOR
    } else if y == 87 && 16 <= x < 624 {
        DIM_CELL
    } else {
        match grid_cell(x, y) {
            Some(k) => colors[k],
            None => SLATE,
        }
    }
}

/// Byte `i` of the card's row-major RGB pixels.
pub open spec fn card_byte(title: Seq<char>, cpu: Seq<char>, ram: Seq<char>, colors: Seq<u32>, i: int) -> u8 {
    let p = i / 3;
    channel(card_color(title, cpu, ram, colors, p % 640, p / 640), (2 - i % 3) as nat)
}

/// A font row of a character.
fn glyph(c: char, row: usize) -> (b: u8)
    requires
        row < 7,
    ensures
        b == glyph_row(c, row as int),
{
    if ' ' <= c && c <= '~' {
        let k = (c as u32 - 32) as usize;
        FONT_5X7[k * 7 + row]
    } else {
        7
    }
}

/// Whether `text_lit` holds, computed.
fn lit(t: &[char], x0: usize, y0: usize, x: usize, y: usize) -> (b: bool)
    ensures
        b == text_lit(t@, x0 as int, y0 as int, x as int, y as int),
{
    if x < x0 || y < y0 {
        return false;
    }
    let dx = x - x0;
    let dy = y - y0;
    if dy >= 14 || dx / 12 >= t.len() || (dx % 12) / 2 >= 5 {
        return false;
    }
    let bits = glyph(t[dx / 12], dy / 2);
    let col = (dx % 12) / 2;
    let w: u8 = if col == 0 { 1 } else if col == 1 { 2 } else if col == 2 { 4 } else if col == 3 { 8 } else { 16 };
    (bits / w) % 2 == 1
}

/// The color of one pixel of the card.
fn color_at(title: &[char], cpu: &[char], ram: &[char], colors: &[u32], x: usize, y: usize) -> (c: u32)
    requires
        colors@.len() == 16,
        x < CARD_W,
        y < CARD_H,
    ensures
        c == card_color(title@, cpu@, ram@, colors@, x as int, y as int),
{
    if lit(title, 16, 16, x, y) {
        CYAN
    } else if lit(cpu, 16, 38, x, y) {
        TEXT_COLOR
    } else if lit(ram, 16, 60, x, y) {
        TEXT_COLOR
    } else if y == 87 && 16 <= x && x < 624 {
        DIM_CELL
    } else if x >= 16 && y >= 100 && (x - 16) / 156 < 4 && (y - 100) / 80 < 4 && (x - 16) % 156 < 140
        && (y - 100) % 80 < 64 {
        colors[4 * ((y - 100) / 80) + (x - 16) / 156]
    } else {
        SLATE
    }
}

/// The card's row-major RGB pixels (three bytes per pixel) for the
/// header lines and the sixteen grid-cell colors (row-major: Memory,
/// L1, L2, L3 by Read, Write, Copy, Latency).
pub fn card_pixels(title: &[char], cpu: &[char], ram: &[char], colors: &[u32]) -> (p: Vec<u8>)
    requires
        colors@.len() == 16,
    ensures
        p@.len() == 3 * CARD_W * CARD_H,
        forall|i: int| 0 <= i < p@.len() ==> #[trigger] p@[i] == card_byte(title@, cpu@, ram@, colors@, i),
{
    let mut p: Vec<u8> = Vec::new();
    let mut y: usize = 0;
    while y < CARD_H
        invariant
            y <= CARD_H,
            colors@.len() == 16,
            p@.len() == 1920 * y,
            forall|i: int| 0 <= i < p@.len() ==> #[trigger] p@[i] == card_byte(title@, cpu@, ram@, colors@, i),
        decreases CARD_H - y,
    {
        let mut x: usize = 0;
        while x < CARD_W
            invariant
                y < CARD_H,
                x <= CARD_W,
                colors@.len() == 16,
                p@.len() == 3 * (640 * y + x),
                forall|i: int| 0 <= i < p@.len() ==> #[trigger] p@[i] == card_byte(title@, cpu@, ram@, colors@, i),
            decreases CARD_W - x,
        {
            let c = color_at(title, cpu, ram, colors, x, y);
            let base = 3 * (CARD_W * y + x);
            proof {
                let pix = CARD_W * y + x;
                assert(base / 3 == pix && (base + 1) / 3 == pix && (base + 2) / 3 == pix);
                assert(pix % 640 == x && pix / 640 == y);
                assert(base % 3 == 0 && (base + 1) % 3 == 1 && (base + 2) % 3 == 2);
            }
            p.push(c.r());
            p.push(c.g());
            p.push(c.b());
            x = x + 1;
        }
        y = y + 1;
    }
    p
}

/// Each header line is drawn in its own color: a pixel lit by the title's
/// glyphs at `(16, 16)` is CYAN, and a pixel lit by the CPU line's glyphs
/// at `(16, 38)` or the RAM line's at `(16, 60)` is the text color, in
/// the card's bytes as in its colors (the three lines' rows do not
/// overlap).
pub proof fn lemma_header_lines_are_drawn(
    title: Seq<char>,
    cpu: Seq<char>,
    ram: Seq<char>,
    colors: Seq<u32>,
    x: int,
    y: int,
)
    requires
        0 <= x < CARD_W,
        0 <= y < CARD_H,
    ensures
        text_lit(title, 16, 16, x, y) ==> card_color(title, cpu, ram, colors, x, y) == CYAN,
        text_lit(cpu, 16, 38, x, y) ==> card_color(title, cpu, ram, colors, x, y) == TEXT_COLOR,
        text_lit(ram, 16, 60, x, y) ==> card_color(title, cpu, ram, colors, x, y) == TEXT_COLOR,
        text_lit(ram, 16, 60, x, y) ==> forall|k: int|
            0 <= k < 3 ==> #[trigger] card_byte(title, cpu, ram, colors, 3 * (640 * y + x) + k) == channel(
                TEXT_COLOR,
                (2 - k) as nat,
            ),
{
    assert((640 * y + x) % 640 == x && (640 * y + x) / 640 == y);
    if text_lit(ram, 16, 60, x, y) {
        assert forall|k: int| 0 <= k < 3 implies #[trigger] card_byte(title, cpu, ram, colors, 3 * (640 * y + x)
            + k) == channel(TEXT_COLOR, (2 - k) as nat) by {
            assert((3 * (640 * y + x) + k) / 3 == 640 * y + x);
            assert((3 * (640 * y + x) + k) % 3 == k);
        }
    }
}

} // verus!
