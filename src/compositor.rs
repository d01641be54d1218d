//! Layout rules of the two-pass compositor: the index pattern shared by all
//! quads, the quad that carries the canvas onto the window, the
//! aspect-preserving viewport, and what a failed presentation leads to.
use vstd::prelude::*;
use crate::quad::{plain_quad, QuadVertex};

verus! {

/// Width of the offscreen canvas in pixels.
pub const CANVAS_WIDTH: u32 = 256;

/// Height of the offscreen canvas in pixels.
pub const CANVAS_HEIGHT: u32 = 144;

/// Largest number of quads the GPU buffers are sized for.
pub const MAX_QUADS: usize = 1_000_000;

/// Vertices per quad: two triangles.
pub const INDICES_PER_QUAD: usize = 6;

/// One entry of the index buffer: which corner of its quad a vertex is.
#[derive(Clone, Copy, Debug, PartialEq, Eq, Structural)]
pub struct IndexVertex {
    pub index: u32,
}

/// The index buffer for `quads` quads: the six-entry pattern 0..6 repeated
/// once per quad.
pub fn index_pattern(quads: usize) -> (r: Vec<IndexVertex>)
    requires
        quads <= MAX_QUADS,
    ensures
        r@.len() == INDICES_PER_QUAD * quads,
        forall|i: int| 0 <= i < r@.len() ==> r@[i].index == i % 6,
{
    let n = INDICES_PER_QUAD * quads;
    let mut r: Vec<IndexVertex> = Vec::with_capacity(n);
    let mut i: usize = 0;
    while i < n
        invariant
            n == INDICES_PER_QUAD * quads,
            i <= n,
            r@.len() == i,
            forall|j: int| 0 <= j < i ==> r@[j].index == j % 6,
        decreases n - i,
    {
        r.push(IndexVertex { index: (i % 6) as u32 });
        i += 1;
    }
    r
}

/// The single quad of the canvas pass's output: the whole canvas, textured
/// with the whole canvas.
pub open spec fn canvas_quad_of(w: u32, h: u32) -> QuadVertex {
    QuadVertex { tex_rect: [0, 0, w as i64, h as i64], ..plain_quad([0, 0, w as i64, h as i64]) }
}

/// The quad that carries a `w` by `h` canvas onto the window.
pub fn canvas_quad(w: u32, h: u32) -> (r: QuadVertex)
    ensures
        r == canvas_quad_of(w, h),
{
    let size: [i64; 4] = [0, 0, w as i64, h as i64];
    QuadVertex::new(size).tex_rect(size)
}

/// A rectangle of the window, in pixels.
#[derive(Clone, Copy, Debug, PartialEq, Eq, Structural)]
pub struct Viewport {
    pub x: u32,
    pub y: u32,
    pub w: u32,
    pub h: u32,
}

/// Whether the width is the constraining side: the window is no wider than
/// the canvas's aspect ratio at the window's height.
pub open spec fn width_bound(ww: u32, wh: u32, cw: u32, ch: u32) -> bool {
    ww as int * ch as int <= wh as int * cw as int
}

/// The largest rectangle of the canvas's aspect ratio that fits the window,
/// centered in it. Sizes are rounded down to whole pixels, and so is the
/// offset on the axis with room to spare.
pub open spec fn fit_of(ww: u32, wh: u32, cw: u32, ch: u32) -> Viewport
    recommends
        cw > 0,
        ch > 0,
{
    let (w, h) = if width_bound(ww, wh, cw, ch) {
        (ww as int, ww as int * ch as int / cw as int)
    } else {
        (wh as int * cw as int / ch as int, wh as int)
    };
    Viewport { x: ((ww - w) / 2) as u32, y: ((wh - h) / 2) as u32, w: w as u32, h: h as u32 }
}

/// The aspect-preserving viewport of a `cw` by `ch` canvas in a `ww` by `wh`
/// window: it lies inside the window, fills it on one axis and is centered
/// on the other.
pub fn aspect_fit(ww: u32, wh: u32, cw: u32, ch: u32) -> (r: Viewport)
    requires
        cw > 0,
        ch > 0,
    ensures
        r == fit_of(ww, wh, cw, ch),
        r.x + r.w <= ww,
        r.y + r.h <= wh,
        2 * r.x + r.w == ww || 2 * r.x + r.w + 1 == ww,
        2 * r.y + r.h == wh || 2 * r.y + r.h + 1 == wh,
        r.w == ww || r.h == wh,
{
    assert((ww as u64) * (ch as u64) <= u64::MAX) by (nonlinear_arith)
        requires
            ww <= u32::MAX,
            ch <= u32::MAX,
    ;
    assert((wh as u64) * (cw as u64) <= u64::MAX) by (nonlinear_arith)
        requires
            wh <= u32::MAX,
            cw <= u32::MAX,
    ;
    let a: u64 = (ww as u64) * (ch as u64);
    let b: u64 = (wh as u64) * (cw as u64);
    let (w, h): (u64, u64) = if a <= b {
        let h = a / (cw as u64);
        assert(h <= wh) by (nonlinear_arith)
            requires
                h as int == a as int / cw as int,
                a as int == ww as int * ch as int,
                b as int == wh as int * cw as int,
                a <= b,
                cw > 0,
        ;
        (ww as u64, h)
    } else {
        let w = b / (ch as u64);
        assert(w <= ww) by (nonlinear_arith)
            requires
                w as int == b as int / ch as int,
                a as int == ww as int * ch as int,
                b as int == wh as int * cw as int,
                a > b,
                ch > 0,
        ;
        (w, wh as u64)
    };
    let w = w as u32;
    let h = h as u32;
    Viewport { x: (ww - w) / 2, y: (wh - h) / 2, w, h }
}

/// Why presenting a frame failed.
#[derive(Clone, Copy, Debug, PartialEq, Eq, Structural)]
pub enum PresentError {
    /// The surface was lost and must be configured again.
    Lost,
    /// The device ran out of memory.
    OutOfMemory,
    /// Any other failure, such as a timeout or an outdated surface.
    Other,
}

/// What the event loop does after a failed presentation.
#[derive(Clone, Copy, Debug, PartialEq, Eq, Structural)]
pub enum PresentAction {
    /// Configure the surface again; the frame is retried at the next wake.
    Reconfigure,
    /// Stop the event loop: the failure cannot be recovered from.
    Exit,
    /// Log the failure and skip this frame.
    Skip,
}

/// The action a failed presentation calls for.
pub fn present_action(e: PresentError) -> (r: PresentAction)
    ensures
        r == (match e {
            PresentError::Lost => PresentAction::Reconfigure,
            PresentError::OutOfMemory => PresentAction::Exit,
            PresentError::Other => PresentAction::Skip,
        }),
{
    match e {
        PresentError::Lost => PresentAction::Reconfigure,
        PresentError::OutOfMemory => PresentAction::Exit,
        PresentError::Other => PresentAction::Skip,
    }
}

} // verus!
