use grainboy::glyph::get_glyph_coords;
use grainboy::host::{read_text, HostCallError, HostState, SPRITE_ROW};
use grainboy::quad::QuadVertex;

#[test]
fn draw_circ_is_a_fully_rounded_square() {
    let mut s = HostState::new();
    s.draw_circ(0, 0, 10, 0xFF0000FF);
    assert_eq!(s.quads.len(), 1);
    let q = s.quads[0];
    assert_eq!(q.rect, [0, 0, 10, 10]);
    assert_eq!(q.fill, 0xFF0000FF);
    assert_eq!(q.border_radius, [0x0A0A0A0A, 0x0A0A0A0A]);
    for k in 0..4 {
        assert_eq!((q.border_radius[0] >> (8 * k)) & 0xff, 10);
        assert_eq!((q.border_radius[1] >> (8 * k)) & 0xff, 10);
    }
    assert_eq!(q.tex_rect, [0, 0, 0, 0]);
    assert_eq!(q.tex_fill, 0);
}

#[test]
fn draw_rect_sets_geometry_and_fill_only() {
    let mut s = HostState::new();
    s.draw_rect(-3, 7, 20, 30, 0x11223344);
    assert_eq!(s.quads.len(), 1);
    let q = s.quads[0];
    assert_eq!(q.rect, [-3, 7, 20, 30]);
    assert_eq!(q.fill, 0x11223344);
    assert_eq!(q.tex_rect, [0, 0, 0, 0]);
    assert_eq!(q.border_radius, [0, 0]);
    assert_eq!(q.border_size, 0);
    assert_eq!(q.border_color, [0, 0, 0, 0]);
}

#[test]
fn draw_sprite_reads_the_sprite_region() {
    let mut s = HostState::new();
    s.draw_sprite(4, 5, 16, 8, 32, 0);
    s.draw_sprite(0, 0, 8, 8, 0, 24);
    assert_eq!(SPRITE_ROW, 128);
    assert_eq!(s.quads[0].rect, [4, 5, 16, 8]);
    assert_eq!(s.quads[0].tex_rect, [32, 128, 16, 8]);
    assert_eq!(s.quads[1].tex_rect, [0, 152, 8, 8]);
    assert_eq!(s.quads[1].fill, 0);
}

#[test]
fn draw_sprite_row_does_not_wrap() {
    let mut s = HostState::new();
    s.draw_sprite(0, 0, 1, 1, 0, u32::MAX);
    assert_eq!(s.quads[0].tex_rect[1], 128 + u32::MAX as i64);
}

#[test]
fn draw_text_line_break() {
    let mem = b"..AB\nC".to_vec();
    let mut s = HostState::new();
    assert_eq!(s.draw_text(&mem, 10, 20, 1, 0xABCDEF01, 2, 4), Ok(()));
    assert_eq!(s.quads.len(), 3);
    assert_eq!(s.quads[0].rect, [10, 20, 5, 8]);
    assert_eq!(s.quads[0].tex_rect, [5, 48, 5, 8]);
    assert_eq!(s.quads[0].tex_fill, 0xABCDEF01);
    assert_eq!(s.quads[1].rect, [15, 20, 5, 8]);
    assert_eq!(s.quads[1].tex_rect, [10, 48, 5, 8]);
    assert_eq!(s.quads[2].rect, [10, 28, 5, 8]);
    assert_eq!(s.quads[2].tex_rect, [15, 48, 5, 8]);
    assert_eq!(s.quads[2].rect[1], s.quads[0].rect[1] + 8);
    assert_eq!(s.quads[2].rect[0], 10);
}

#[test]
fn draw_text_in_each_font() {
    let mut s = HostState::new();
    s.draw_str(0, 0, 0, 1, "AB\nC");
    s.draw_str(0, 0, 2, 1, "AB\nC");
    assert_eq!(s.quads.len(), 6);
    assert_eq!(s.quads[2].rect, [0, 5, 5, 5]);
    assert_eq!(s.quads[5].rect, [0, 8, 8, 8]);
    assert_eq!(s.quads[4].rect, [8, 0, 8, 8]);
}

#[test]
fn draw_text_spaces_advance_and_unknown_font_falls_back() {
    let mut s = HostState::new();
    s.draw_str(0, 0, 258, 7, "a b");
    assert_eq!(s.quads.len(), 3);
    assert_eq!(s.quads[1].rect, [5, 0, 5, 8]);
    assert_eq!(s.quads[1].tex_rect, [0, 32, 5, 8]);
    assert_eq!(s.quads[2].rect, [10, 0, 5, 8]);
    assert_eq!(s.quads[2].tex_rect, [10, 64, 5, 8]);
}

#[test]
fn draw_text_errors_draw_nothing() {
    let mut s = HostState::new();
    let mem = vec![b'A', 0xff, 0xfe, b'B'];
    assert_eq!(s.draw_text(&mem, 0, 0, 1, 0, 0, 3), Err(HostCallError::InvalidUtf8));
    assert_eq!(s.draw_text(&mem, 0, 0, 1, 0, 2, 3), Err(HostCallError::OutOfBounds));
    assert_eq!(s.draw_text(&mem, 0, 0, 1, 0, u32::MAX, 2), Err(HostCallError::OutOfBounds));
    assert_eq!(s.quads.len(), 0);
    assert_eq!(s.draw_text(&mem, 0, 0, 1, 0, 3, 1), Ok(()));
    assert_eq!(s.quads.len(), 1);
}

#[test]
fn read_text_decodes_utf8() {
    let mem = "xh\u{e9}llo".as_bytes().to_vec();
    assert_eq!(read_text(&mem, 1, 5), Ok("h\u{e9}ll"));
    assert_eq!(read_text(&mem, 0, 0), Ok(""));
    assert_eq!(read_text(&mem, 2, 1), Err(HostCallError::InvalidUtf8));
    assert_eq!(read_text(&mem, 6, 2), Err(HostCallError::OutOfBounds));
}

#[test]
fn glyph_coordinates() {
    assert_eq!(get_glyph_coords(1, 'A'), (5, 48, 5, 8));
    assert_eq!(get_glyph_coords(0, 'A'), (5, 10, 5, 5));
    assert_eq!(get_glyph_coords(2, 'A'), (8, 96, 8, 8));
    assert_eq!(get_glyph_coords(1, '0'), (0, 40, 5, 8));
    assert_eq!(get_glyph_coords(1, '~'), (70, 72, 5, 8));
    assert_eq!(get_glyph_coords(1, '\u{2019}'), get_glyph_coords(1, '\''));
    assert_eq!(get_glyph_coords(2, '\u{1F3E0}'), (120, 120, 8, 8));
    assert_eq!(get_glyph_coords(1, '\n'), (0, 32, 5, 8));
    assert_eq!(get_glyph_coords(1, '\t'), (0, 32, 5, 8));
    assert_eq!(get_glyph_coords(1, '\u{e9}'), (0, 32, 5, 8));
    assert_eq!(get_glyph_coords(9, 'A'), get_glyph_coords(1, 'A'));
}

#[test]
fn quad_builders() {
    let q = QuadVertex::new([1, 2, 3, 4]);
    assert_eq!(q.rect, [1, 2, 3, 4]);
    assert_eq!(q.tex_rect, [0, 0, 0, 0]);
    let t = q.tex_rect([5, 6, 7, 8]);
    assert_eq!(t.tex_rect, [5, 6, 7, 8]);
    assert_eq!(t.rect, [1, 2, 3, 4]);
    let r = q.border_radius([(1, 5), (2, 6), (3, 7), (4, 8)]);
    assert_eq!(r.border_radius, [0x04030201, 0x08070605]);
}

#[test]
fn clearing_the_batch() {
    let mut s = HostState::new();
    s.draw_rect(0, 0, 1, 1, 1);
    s.clear();
    assert!(s.quads.is_empty());
}
