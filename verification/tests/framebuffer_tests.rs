use phone_os::arch::aarch64::dtb::DTB_MAGIC;
use phone_os::drivers::framebuffer::{
    draw_glyph, init_framebuffer_from_dtb, put_pixel, Color, FramebufferInfo, FramebufferWriter, PIXEL_COUNT,
};

const W: usize = 1080;

fn screen() -> Vec<u32> {
    vec![0u32; PIXEL_COUNT]
}

fn at(pixels: &[u32], x: usize, y: usize) -> u32 {
    pixels[y * W + x]
}

#[test]
fn colour_words() {
    assert_eq!(Color::new(0x12, 0x34, 0x56).as_u32(), 0xFF12_3456);
    assert_eq!(Color::black().as_u32(), 0xFF00_0000);
    assert_eq!(Color::white().as_u32(), 0xFFFF_FFFF);
    assert_eq!(Color::red().as_u32(), 0xFFFF_0000);
    assert_eq!(Color::blue().as_u32(), 0xFF00_00FF);
    let c = Color::orange();
    let v = c.as_u32();
    assert_eq!(((v >> 16) & 0xFF) as u8, c.r);
    assert_eq!(((v >> 8) & 0xFF) as u8, c.g);
    assert_eq!((v & 0xFF) as u8, c.b);
    assert_eq!(v >> 24, 0xFF);
}

#[test]
fn default_geometry() {
    let info = FramebufferInfo::new();
    assert_eq!(info.addr, 0x5000_0000);
    assert_eq!((info.width, info.height, info.stride, info.bpp), (1080, 2400, 4320, 32));
    let mut h = DTB_MAGIC.to_be_bytes().to_vec();
    h.resize(40, 0);
    assert_eq!(init_framebuffer_from_dtb(Some(&h[..])), info);
    assert_eq!(init_framebuffer_from_dtb(None), info);
}

#[test]
fn put_pixel_in_and_out_of_range() {
    let mut px = screen();
    put_pixel(&mut px, 3, 2, Color::green());
    assert_eq!(at(&px, 3, 2), 0xFF00_FF00);
    put_pixel(&mut px, 1080, 0, Color::green());
    put_pixel(&mut px, 0, 2400, Color::green());
    put_pixel(&mut px, 1079, 2399, Color::green());
    assert_eq!(px.iter().filter(|p| **p != 0).count(), 2);
    assert_eq!(at(&px, 1079, 2399), 0xFF00_FF00);
}

#[test]
fn glyph_outline() {
    let mut px = screen();
    draw_glyph(&mut px, 8, 16, Color::white(), Color::blue());
    let fg = 0xFFFF_FFFF;
    let bg = 0xFF00_00FF;
    assert_eq!(at(&px, 8, 16), fg);
    assert_eq!(at(&px, 9, 17), fg);
    assert_eq!(at(&px, 10, 18), bg);
    assert_eq!(at(&px, 13, 29), bg);
    assert_eq!(at(&px, 14, 20), fg);
    assert_eq!(at(&px, 10, 30), fg);
    assert_eq!(at(&px, 16, 16), 0);
    assert_eq!(at(&px, 8, 32), 0);
    assert_eq!(px.iter().filter(|p| **p == fg).count(), 8 * 16 - 4 * 12);
    assert_eq!(px.iter().filter(|p| **p == bg).count(), 4 * 12);
}

#[test]
fn glyph_clipped_at_edge() {
    let mut px = screen();
    draw_glyph(&mut px, 1076, 2392, Color::white(), Color::black());
    assert_eq!(px.iter().filter(|p| **p != 0).count(), 4 * 8);
}

#[test]
fn writer_starts_white_on_black() {
    let w = FramebufferWriter::new();
    assert_eq!(w.cursor(), (0, 0));
    assert_eq!(w.info(), FramebufferInfo::new());
}

#[test]
fn clear_fills_background() {
    let mut w = FramebufferWriter::new();
    let mut px = screen();
    w.set_color(Color::white(), Color::gray());
    w.write_str(&mut px, "ab");
    w.clear(&mut px);
    assert_eq!(w.cursor(), (0, 0));
    let g = Color::gray().as_u32();
    assert!(px.iter().all(|p| *p == g));
}

#[test]
fn control_characters_move_cursor() {
    let mut w = FramebufferWriter::new();
    let mut px = screen();
    w.write_str(&mut px, "ab");
    assert_eq!(w.cursor(), (2, 0));
    w.write_str(&mut px, "\t");
    assert_eq!(w.cursor(), (4, 0));
    w.write_str(&mut px, "\t");
    assert_eq!(w.cursor(), (8, 0));
    w.write_str(&mut px, "\r");
    assert_eq!(w.cursor(), (0, 0));
    w.write_str(&mut px, "\n\n");
    assert_eq!(w.cursor(), (0, 2));
}

#[test]
fn characters_drawn_at_cursor() {
    let mut w = FramebufferWriter::new();
    let mut px = screen();
    w.write_str(&mut px, "x\ny");
    assert_eq!(at(&px, 0, 0), 0xFFFF_FFFF);
    assert_eq!(at(&px, 3, 3), 0xFF00_0000);
    assert_eq!(at(&px, 0, 16), 0xFFFF_FFFF);
    assert_eq!(at(&px, 8, 16), 0);
    assert_eq!(w.cursor(), (1, 1));
}

#[test]
fn wraps_after_last_column() {
    let mut w = FramebufferWriter::new();
    let mut px = screen();
    let line: String = std::iter::repeat('m').take(135).collect();
    w.write_str(&mut px, &line);
    assert_eq!(w.cursor(), (0, 1));
}

#[test]
fn framebuffer_scrolls_at_bottom() {
    let mut w = FramebufferWriter::new();
    let mut px = screen();
    w.write_str(&mut px, "a");
    let newlines: String = std::iter::repeat('\n').take(149).collect();
    w.write_str(&mut px, &newlines);
    assert_eq!(w.cursor(), (0, 149));
    assert_eq!(at(&px, 0, 0), 0xFFFF_FFFF);
    w.write_str(&mut px, "\n");
    assert_eq!(w.cursor(), (0, 149));
    assert_eq!(at(&px, 0, 0), 0);
    assert_eq!(at(&px, 0, 2399), 0xFF00_0000);
}

#[test]
fn framebuffer_pieces_equal_whole() {
    let mut w1 = FramebufferWriter::new();
    let mut p1 = screen();
    w1.write_str(&mut p1, "ab\tc");
    w1.write_str(&mut p1, "d\ne");
    let mut w2 = FramebufferWriter::new();
    let mut p2 = screen();
    w2.write_str(&mut p2, "ab\tcd\ne");
    assert_eq!(w1.cursor(), w2.cursor());
    assert!(p1 == p2);
}
