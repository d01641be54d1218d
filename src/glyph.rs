//! The glyph atlas: where each character of each font sits in the shared
//! texture.
use vstd::prelude::*;

verus! {

/// Cell width and height of a font; an unknown font uses font 1's cells.
pub open spec fn font_cell(font: u8) -> (u32, u32) {
    if font == 0 {
        (5, 5)
    } else if font == 2 {
        (8, 8)
    } else {
        (5, 8)
    }
}

/// First atlas row of a font; an unknown font uses font 1's row.
pub open spec fn font_row(font: u8) -> u32 {
    if font == 0 {
        0
    } else if font == 2 {
        80
    } else {
        32
    }
}

/// Index of a character's cell in a sixteen-column font sheet. Printable
/// ASCII is laid out in code-point order from the space; the right single
/// quotation mark shares the apostrophe's cell and the house symbol takes
/// the last cell. Every other character, whitespace included, falls on the
/// blank cell 0.
pub open spec fn glyph_cell(c: char) -> u32 {
    let cp = c as u32;
    if 0x20 <= cp <= 0x7e {
        (cp - 0x20) as u32
    } else if cp == 0x2019 {
        7
    } else if cp == 0x1f3e0 {
        95
    } else {
        0
    }
}

/// The atlas rectangle `(x, y, w, h)` of a character in a font.
pub open spec fn glyph_rect(font: u8, c: char) -> (u32, u32, u32, u32) {
    let (sw, sh) = font_cell(font);
    let cell = glyph_cell(c);
    (((cell % 16) * sw) as u32, (font_row(font) + (cell / 16) * sh) as u32, sw, sh)
}

/// The atlas rectangle `(x, y, w, h)` of a character in a font.
pub fn get_glyph_coords(font: u8, c: char) -> (r: (u32, u32, u32, u32))
    ensures
        r == glyph_rect(font, c),
{
    let (sw, sh): (u32, u32) = match font {
        0 => (5, 5),
        2 => (8, 8),
        _ => (5, 8),
    };
    let oy: u32 = match font {
        0 => 0,
        2 => 80,
        _ => 32,
    };
    let cp = c as u32;
    let cell: u32 = if 0x20 <= cp && cp <= 0x7e {
        cp - 0x20
    } else if cp == 0x2019 {
        7
    } else if cp == 0x1f3e0 {
        95
    } else {
        0
    };
    ((cell % 16) * sw, oy + (cell / 16) * sh, sw, sh)
}

} // verus!
