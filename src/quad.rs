//! One draw primitive of a tick's batch.
use vstd::prelude::*;

verus! {

/// One rectangular draw primitive. Geometry is held in whole canvas pixels
/// and atlas pixels; the GPU record that carries it adds rotation, which
/// the host API leaves at zero.
#[derive(Clone, Copy, Debug)]
pub struct QuadVertex {
    /// x, y, w, h on the canvas.
    pub rect: [i64; 4],
    /// Packed RGBA fill color.
    pub fill: u32,
    /// x, y, w, h in the atlas.
    pub tex_rect: [i64; 4],
    /// Tint applied through the texture-mix channel.
    pub tex_fill: u32,
    /// Rotation origin, relative to the quad's top-left corner.
    pub rotation_origin: [i64; 2],
    /// Horizontal and vertical corner radii, one byte per corner in the
    /// order top-left, top-right, bottom-right, bottom-left.
    pub border_radius: [u32; 2],
    /// One byte per edge.
    pub border_size: u32,
    /// One color per edge.
    pub border_color: [u32; 4],
}

/// Four corner values packed one per byte, top-left in the low byte.
pub open spec fn pack_corners(tl: u32, tr: u32, br: u32, bl: u32) -> u32 {
    (bl << 24u32) | (br << 16u32) | (tr << 8u32) | tl
}

/// The byte of corner `k` (0 top-left, 1 top-right, 2 bottom-right,
/// 3 bottom-left) in a packed word.
pub open spec fn corner(word: u32, k: u32) -> u32 {
    (word >> (8 * k) as u32) & 0xff
}

/// A quad with the given geometry and every other field zero.
pub open spec fn plain_quad(rect: [i64; 4]) -> QuadVertex {
    QuadVertex {
        rect,
        fill: 0,
        tex_rect: [0, 0, 0, 0],
        tex_fill: 0,
        rotation_origin: [0, 0],
        border_radius: [0, 0],
        border_size: 0,
        border_color: [0, 0, 0, 0],
    }
}

impl QuadVertex {
    /// A quad with the given geometry and every other field zero.
    pub fn new(rect: [i64; 4]) -> (r: QuadVertex)
        ensures
            r == plain_quad(rect),
    {
        QuadVertex {
            rect,
            fill: 0,
            tex_rect: [0, 0, 0, 0],
            tex_fill: 0,
            rotation_origin: [0, 0],
            border_radius: [0, 0],
            border_size: 0,
            border_color: [0, 0, 0, 0],
        }
    }

    /// The same quad with another atlas rectangle.
    pub fn tex_rect(&self, tex_rect: [i64; 4]) -> (r: QuadVertex)
        ensures
            r == (QuadVertex { tex_rect, ..*self }),
    {
        QuadVertex { tex_rect, ..*self }
    }

    /// The same quad with the given `(horizontal, vertical)` radius per
    /// corner, in the order top-left, top-right, bottom-right, bottom-left.
    pub fn border_radius(&self, border_radius: [(u32, u32); 4]) -> (r: QuadVertex)
        ensures
            r == (QuadVertex {
                border_radius: [
                    pack_corners(
                        border_radius[0].0,
                        border_radius[1].0,
                        border_radius[2].0,
                        border_radius[3].0,
                    ),
                    pack_corners(
                        border_radius[0].1,
                        border_radius[1].1,
                        border_radius[2].1,
                        border_radius[3].1,
                    ),
                ],
                ..*self
            }),
    {
        let tl = border_radius[0];
        let tr = border_radius[1];
        let br = border_radius[2];
        let bl = border_radius[3];
        let xs = (bl.0 << 24u32) | (br.0 << 16u32) | (tr.0 << 8u32) | tl.0;
        let ys = (bl.1 << 24u32) | (br.1 << 16u32) | (tr.1 << 8u32) | tl.1;
        QuadVertex { border_radius: [xs, ys], ..*self }
    }
}

/// Corner values below 256 come back out of their packed word unchanged.
pub proof fn lemma_corners_unpack(tl: u32, tr: u32, br: u32, bl: u32)
    requires
        tl < 256,
        tr < 256,
        br < 256,
        bl < 256,
    ensures
        corner(pack_corners(tl, tr, br, bl), 0) == tl,
        corner(pack_corners(tl, tr, br, bl), 1) == tr,
        corner(pack_corners(tl, tr, br, bl), 2) == br,
        corner(pack_corners(tl, tr, br, bl), 3) == bl,
{
    let w = pack_corners(tl, tr, br, bl);
    assert(w >> 0u32 & 0xff == tl) by (bit_vector)
        requires
            w == (bl << 24u32) | (br << 16u32) | (tr << 8u32) | tl,
            tl < 256,
            tr < 256,
            br < 256,
            bl < 256,
    ;
    assert(w >> 8u32 & 0xff == tr) by (bit_vector)
        requires
            w == (bl << 24u32) | (br << 16u32) | (tr << 8u32) | tl,
            tl < 256,
            tr < 256,
            br < 256,
            bl < 256,
    ;
    assert(w >> 16u32 & 0xff == br) by (bit_vector)
        requires
            w == (bl << 24u32) | (br << 16u32) | (tr << 8u32) | tl,
            tl < 256,
            tr < 256,
            br < 256,
            bl < 256,
    ;
    assert(w >> 24u32 & 0xff == bl) by (bit_vector)
        requires
            w == (bl << 24u32) | (br << 16u32) | (tr << 8u32) | tl,
            tl < 256,
            tr < 256,
            br < 256,
            bl < 256,
    ;
}

} // verus!
