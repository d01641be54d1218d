//! The host API a cartridge calls: each call reads the cartridge's memory
//! at most, and appends draw primitives to the tick's batch.
use vstd::prelude::*;
use vstd::slice::slice_subrange;
use vstd::utf8::{decode_utf8, valid_utf8};
use crate::glyph::{font_cell, get_glyph_coords, glyph_rect};
use crate::quad::{corner, lemma_corners_unpack, pack_corners, plain_quad, QuadVertex};

verus! {

/// Atlas row where the sprite region begins; the rows above hold glyphs.
pub const SPRITE_ROW: u32 = 128;

/// Why a host call that reads cartridge memory failed.
#[derive(Clone, Copy, Debug, PartialEq, Eq, Structural)]
pub enum HostCallError {
    /// The byte range `ptr..ptr + len` is not inside the memory.
    OutOfBounds,
    /// The bytes are not well-formed UTF-8.
    InvalidUtf8,
}

/// Whether `ptr..ptr + len` lies inside a memory of `mem_len` bytes.
pub open spec fn in_bounds(mem_len: nat, ptr: u32, len: u32) -> bool {
    ptr as nat + len as nat <= mem_len
}

/// The bytes `ptr..ptr + len` of a memory.
pub open spec fn mem_range(mem: Seq<u8>, ptr: u32, len: u32) -> Seq<u8> {
    mem.subrange(ptr as int, ptr as int + len as int)
}

/// The quad of `draw_rect`.
pub open spec fn rect_quad(x: i32, y: i32, w: u32, h: u32, fill: u32) -> QuadVertex {
    QuadVertex { fill, ..plain_quad([x as i64, y as i64, w as i64, h as i64]) }
}

/// The quad of `draw_circ`: a square whose four corners are rounded by the
/// diameter, which the shader draws as a disc.
pub open spec fn circ_quad(x: i32, y: i32, d: u32, fill: u32) -> QuadVertex {
    QuadVertex {
        fill,
        border_radius: [pack_corners(d, d, d, d), pack_corners(d, d, d, d)],
        ..plain_quad([x as i64, y as i64, d as i64, d as i64])
    }
}

/// A circle's quad is its bounding square, and each of its four corners
/// carries the diameter as radius on both axes when the diameter fits the
/// corner's byte.
pub proof fn lemma_circle_corners(x: i32, y: i32, d: u32, fill: u32, k: u32)
    requires
        d < 256,
        k < 4,
    ensures
        circ_quad(x, y, d, fill).rect@ == seq![x as i64, y as i64, d as i64, d as i64],
        corner(circ_quad(x, y, d, fill).border_radius[0], k) == d,
        corner(circ_quad(x, y, d, fill).border_radius[1], k) == d,
        circ_quad(x, y, d, fill).fill == fill,
{
    lemma_corners_unpack(d, d, d, d);
    assert(circ_quad(x, y, d, fill).rect@ =~= seq![x as i64, y as i64, d as i64, d as i64]);
}

/// The quad of `draw_sprite`: the atlas region at `(sx, SPRITE_ROW + sy)`,
/// of the drawn size.
pub open spec fn sprite_quad(x: i32, y: i32, w: u32, h: u32, sx: u32, sy: u32) -> QuadVertex {
    QuadVertex {
        tex_rect: [sx as i64, (SPRITE_ROW + sy as int) as i64, w as i64, h as i64],
        ..plain_quad([x as i64, y as i64, w as i64, h as i64])
    }
}

/// The font used for a font index: 0, 1 and 2 are fonts, any other index
/// uses font 1.
pub open spec fn text_font(font: u32) -> u8 {
    if font <= 2 {
        font as u8
    } else {
        1
    }
}

/// The quad of one glyph drawn at `(left, top)`, tinted by `color`.
pub open spec fn glyph_quad(left: int, top: int, font: u8, c: char, color: u32) -> QuadVertex {
    let (sx, sy, sw, sh) = glyph_rect(font, c);
    QuadVertex {
        tex_rect: [sx as i64, sy as i64, sw as i64, sh as i64],
        tex_fill: color,
        ..plain_quad([left as i64, top as i64, sw as i64, sh as i64])
    }
}

/// The quads of the characters `cs`, with the pen at `(left, top)` and
/// lines starting at `x`. Every character but the newline draws one glyph
/// and moves the pen right by the cell width; a newline draws nothing and
/// moves the pen to `x` on the next line, one cell height down.
pub open spec fn text_run(x: int, left: int, top: int, font: u8, color: u32, cs: Seq<char>) -> Seq<
    QuadVertex,
>
    decreases cs.len(),
{
    if cs.len() == 0 {
        seq![]
    } else {
        let c = cs[0];
        let (sx, sy, sw, sh) = glyph_rect(font, c);
        if c == '\n' {
            text_run(x, x, top + sh, font, color, cs.drop_first())
        } else {
            seq![glyph_quad(left, top, font, c, color)] + text_run(
                x,
                left + sw,
                top,
                font,
                color,
                cs.drop_first(),
            )
        }
    }
}

/// The quads of `draw_text` for the characters `cs`.
pub open spec fn text_quads(x: i32, y: i32, font: u32, color: u32, cs: Seq<char>) -> Seq<QuadVertex> {
    text_run(x as int, x as int, y as int, text_font(font), color, cs)
}

/// A line break in text: for "AB", newline, "C" in any font, three glyphs
/// are drawn, the newline drawing none, and the third starts the next line:
/// back at `x`, one cell height below the first.
pub proof fn lemma_text_line_break(x: i32, y: i32, font: u32, color: u32)
    ensures
        text_quads(x, y, font, color, seq!['A', 'B', '\n', 'C']).len() == 3,
        text_quads(x, y, font, color, seq!['A', 'B', '\n', 'C'])[2].rect[0] == x,
        text_quads(x, y, font, color, seq!['A', 'B', '\n', 'C'])[2].rect[1] == text_quads(
            x,
            y,
            font,
            color,
            seq!['A', 'B', '\n', 'C'],
        )[0].rect[1] + font_cell(text_font(font)).1,
{
    let cs = seq!['A', 'B', '\n', 'C'];
    let f = text_font(font);
    let (sw, sh) = font_cell(f);
    let xi = x as int;
    let yi = y as int;
    let r3 = text_run(xi, xi, yi + sh, f, color, seq!['C']);
    assert(seq!['C'].drop_first() =~= Seq::<char>::empty());
    assert(seq!['C'][0] == 'C');
    assert(text_run(xi, xi + sw, yi + sh, f, color, Seq::<char>::empty()) == Seq::<QuadVertex>::empty());
    assert(r3 =~= seq![glyph_quad(xi, yi + sh, f, 'C', color)]);
    assert(cs.drop_first() =~= seq!['B', '\n', 'C']);
    assert(seq!['B', '\n', 'C'].drop_first() =~= seq!['\n', 'C']);
    assert(seq!['\n', 'C'].drop_first() =~= seq!['C']);
    let r2 = text_run(xi, xi + 2 * sw, yi, f, color, seq!['\n', 'C']);
    assert(r2 == r3);
    let r1 = text_run(xi, xi + sw, yi, f, color, seq!['B', '\n', 'C']);
    assert(r1 == seq![glyph_quad(xi + sw, yi, f, 'B', color)] + r2);
    let r0 = text_run(xi, xi, yi, f, color, cs);
    assert(r0 == seq![glyph_quad(xi, yi, f, 'A', color)] + r1);
}

/// Relies on std::str::from_utf8: it succeeds exactly on well-formed UTF-8,
/// and the text it returns is what the bytes encode.
#[verifier::external_body]
fn utf8_str(bytes: &[u8]) -> (r: Option<&str>)
    ensures
        r is Some <==> valid_utf8(bytes@),
        r matches Some(s) ==> s@ == decode_utf8(bytes@),
{
    std::str::from_utf8(bytes).ok()
}

proof fn lemma_decode_len(b: Seq<u8>)
    requires
        valid_utf8(b),
    ensures
        decode_utf8(b).len() <= b.len(),
    decreases b.len(),
{
    if b.len() > 0 {
        let rest = b.subrange(vstd::utf8::length_of_first_scalar(b), b.len() as int);
        assert(rest.len() < b.len());
        lemma_decode_len(rest);
    }
}

/// Reads the UTF-8 text at `ptr..ptr + len` of a cartridge's memory.
pub fn read_text<'a>(mem: &'a [u8], ptr: u32, len: u32) -> (r: Result<&'a str, HostCallError>)
    ensures
        r == Err::<&str, _>(HostCallError::OutOfBounds) <==> !in_bounds(mem@.len(), ptr, len),
        r == Err::<&str, _>(HostCallError::InvalidUtf8) <==> in_bounds(mem@.len(), ptr, len)
            && !valid_utf8(mem_range(mem@, ptr, len)),
        r matches Ok(s) ==> s@ == decode_utf8(mem_range(mem@, ptr, len)),
{
    let start = ptr as usize;
    let n = len as usize;
    if start > mem.len() || n > mem.len() - start {
        return Err(HostCallError::OutOfBounds);
    }
    let bytes = slice_subrange(mem, start, start + n);
    match utf8_str(bytes) {
        Some(s) => Ok(s),
        None => Err(HostCallError::InvalidUtf8),
    }
}

/// The draw primitives one cartridge emits in one tick.
pub struct HostState {
    pub quads: Vec<QuadVertex>,
}

impl HostState {
    /// An empty batch.
    pub fn new() -> (r: HostState)
        ensures
            r.quads@ == Seq::<QuadVertex>::empty(),
    {
        HostState { quads: Vec::new() }
    }

    /// Empties the batch before a tick.
    pub fn clear(&mut self)
        ensures
            final(self).quads@ == Seq::<QuadVertex>::empty(),
    {
        self.quads.clear();
    }

    /// Appends a filled rectangle.
    pub fn draw_rect(&mut self, x: i32, y: i32, w: u32, h: u32, fill: u32)
        ensures
            final(self).quads@ == old(self).quads@.push(rect_quad(x, y, w, h, fill)),
    {
        let mut quad = QuadVertex::new([x as i64, y as i64, w as i64, h as i64]);
        quad.fill = fill;
        self.quads.push(quad);
    }

    /// Appends a filled circle of the given diameter, its bounding square
    /// at `(x, y)`.
    pub fn draw_circ(&mut self, x: i32, y: i32, diameter: u32, fill: u32)
        ensures
            final(self).quads@ == old(self).quads@.push(circ_quad(x, y, diameter, fill)),
    {
        let mut quad = QuadVertex::new([x as i64, y as i64, diameter as i64, diameter as i64])
            .border_radius([(diameter, diameter); 4]);
        quad.fill = fill;
        self.quads.push(quad);
    }

    /// Appends a sprite from the atlas's sprite region.
    pub fn draw_sprite(&mut self, x: i32, y: i32, w: u32, h: u32, sx: u32, sy: u32)
        ensures
            final(self).quads@ == old(self).quads@.push(sprite_quad(x, y, w, h, sx, sy)),
    {
        let quad = QuadVertex::new([x as i64, y as i64, w as i64, h as i64]).tex_rect(
            [sx as i64, SPRITE_ROW as i64 + sy as i64, w as i64, h as i64],
        );
        self.quads.push(quad);
    }

    /// Appends one glyph quad per character of `text` but newlines, left
    /// to right from `(x, y)`; a newline moves the pen back to `x`, one
    /// cell height down.
    pub fn draw_str(&mut self, x: i32, y: i32, font: u32, color: u32, text: &str)
        requires
            text@.len() <= u32::MAX,
        ensures
            final(self).quads@ == old(self).quads@ + text_quads(x, y, font, color, text@),
    {
        let f: u8 = if font <= 2 {
            font as u8
        } else {
            1
        };
        let ghost cs = text@;
        let mut left: i64 = x as i64;
        let mut top: i64 = y as i64;
        assert(cs.skip(0) =~= cs);
        for c in it: text.chars()
            invariant
                cs == text@,
                it.seq() == cs,
                cs.len() <= u32::MAX,
                f == text_font(font),
                x as int <= left <= x as int + 8 * it.index(),
                y as int <= top <= y as int + 8 * it.index(),
                self.quads@ + text_run(x as int, left as int, top as int, f, color, cs.skip(it.index() as int))
                    == old(self).quads@ + text_quads(x, y, font, color, cs),
        {
            let ghost i = it.index();
            let ghost rest = cs.skip(i as int);
            assert(rest[0] == c);
            assert(rest.drop_first() =~= cs.skip(i + 1));
            let (sx, sy, sw, sh) = get_glyph_coords(f, c);
            if c == '\n' {
                left = x as i64;
                top = top + sh as i64;
            } else {
                let mut quad = QuadVertex::new([left, top, sw as i64, sh as i64]).tex_rect(
                    [sx as i64, sy as i64, sw as i64, sh as i64],
                );
                quad.tex_fill = color;
                self.quads.push(quad);
                assert(self.quads@ + text_run(x as int, left + sw, top as int, f, color, cs.skip(i + 1)) =~=
                    old(self).quads@ + text_quads(x, y, font, color, cs));
                left = left + sw as i64;
            }
        }
        assert(cs.skip(cs.len() as int) =~= Seq::<char>::empty());
        assert(self.quads@ =~= self.quads@ + text_run(x as int, left as int, top as int, f, color, Seq::<char>::empty()));
    }

    /// Appends the glyphs of the UTF-8 text at `ptr..ptr + len` of a
    /// cartridge's memory, as `draw_str` does. A range outside the memory
    /// or bytes that are not UTF-8 fail the call and draw nothing.
    pub fn draw_text(
        &mut self,
        mem: &[u8],
        x: i32,
        y: i32,
        font: u32,
        color: u32,
        ptr: u32,
        len: u32,
    ) -> (r: Result<(), HostCallError>)
        ensures
            r == Err::<(), _>(HostCallError::OutOfBounds) <==> !in_bounds(mem@.len(), ptr, len),
            r == Err::<(), _>(HostCallError::InvalidUtf8) <==> in_bounds(mem@.len(), ptr, len)
                && !valid_utf8(mem_range(mem@, ptr, len)),
            r is Ok ==> final(self).quads@ == old(self).quads@ + text_quads(
                x,
                y,
                font,
                color,
                decode_utf8(mem_range(mem@, ptr, len)),
            ),
            r is Err ==> final(self).quads@ == old(self).quads@,
    {
        match read_text(mem, ptr, len) {
            Ok(text) => {
                proof {
                    lemma_decode_len(mem_range(mem@, ptr, len));
                }
                self.draw_str(x, y, font, color, text);
                Ok(())
            },
            Err(e) => Err(e),
        }
    }
}

} // verus!
