use phone_os::drivers::vga::{color_code, make_color, Color, VgaCharacter, VgaWriter, VGA_CELLS};

fn screen() -> Vec<VgaCharacter> {
    vec![VgaCharacter { character: 0, color_code: 0 }; VGA_CELLS]
}

#[test]
fn colour_numbers() {
    assert_eq!(color_code(Color::Black), 0);
    assert_eq!(color_code(Color::LightGray), 7);
    assert_eq!(color_code(Color::White), 15);
    assert_eq!(make_color(Color::LightGray, Color::Black), 0x07);
    assert_eq!(make_color(Color::Yellow, Color::Blue), 0x1E);
    assert_eq!(make_color(Color::White, Color::White), 0xFF);
}

#[test]
fn new_writer_at_origin() {
    let w = VgaWriter::new();
    assert_eq!(w.cursor(), (0, 0));
}

#[test]
fn printable_bytes_land_at_cursor() {
    let mut w = VgaWriter::new();
    let mut buf = screen();
    w.write_str(&mut buf, "Hi");
    assert_eq!(buf[0], VgaCharacter { character: b'H', color_code: 0x07 });
    assert_eq!(buf[1], VgaCharacter { character: b'i', color_code: 0x07 });
    assert_eq!(w.cursor(), (2, 0));
}

#[test]
fn newline_and_unprintable() {
    let mut w = VgaWriter::new();
    let mut buf = screen();
    w.write_str(&mut buf, "a\nb\t\x01c");
    assert_eq!(buf[0].character, b'a');
    assert_eq!(buf[80].character, b'b');
    assert_eq!(buf[81].character, b'c');
    assert_eq!(w.cursor(), (2, 1));
}

#[test]
fn line_wraps_after_column_79() {
    let mut w = VgaWriter::new();
    let mut buf = screen();
    let line: String = std::iter::repeat('x').take(80).collect();
    w.write_str(&mut buf, &line);
    assert_eq!(w.cursor(), (0, 1));
    w.write_byte(&mut buf, b'y');
    assert_eq!(buf[80].character, b'y');
}

#[test]
fn console_scrolls_at_bottom() {
    let mut w = VgaWriter::new();
    let mut buf = screen();
    w.write_str(&mut buf, "top\n");
    for _ in 0..23 {
        w.write_byte(&mut buf, b'\n');
    }
    assert_eq!(w.cursor(), (0, 24));
    w.write_str(&mut buf, "last");
    assert_eq!(buf[24 * 80].character, b'l');
    w.write_byte(&mut buf, b'\n');
    assert_eq!(w.cursor(), (0, 24));
    assert_eq!(buf[0].character, 0);
    assert_eq!(buf[23 * 80].character, b'l');
    for x in 0..80 {
        assert_eq!(buf[24 * 80 + x], VgaCharacter { character: b' ', color_code: 0x07 });
    }
}

#[test]
fn clear_blanks_in_current_colour() {
    let mut w = VgaWriter::new();
    let mut buf = screen();
    w.write_str(&mut buf, "abc\ndef");
    w.set_color(Color::White, Color::Red);
    assert_eq!(w.cursor(), (3, 1));
    w.clear(&mut buf);
    assert_eq!(w.cursor(), (0, 0));
    assert!(buf.iter().all(|c| *c == VgaCharacter { character: b' ', color_code: 0x4F }));
    w.write_byte(&mut buf, b'Z');
    assert_eq!(buf[0], VgaCharacter { character: b'Z', color_code: 0x4F });
}

#[test]
fn console_pieces_equal_whole() {
    let mut w1 = VgaWriter::new();
    let mut b1 = screen();
    w1.write_str(&mut b1, "hello\nwor");
    w1.write_str(&mut b1, "ld\n!");
    let mut w2 = VgaWriter::new();
    let mut b2 = screen();
    w2.write_str(&mut b2, "hello\nworld\n!");
    assert_eq!(w1.cursor(), w2.cursor());
    assert_eq!(b1, b2);
}

#[test]
fn cursor_stays_on_screen_after_long_text() {
    let mut w = VgaWriter::new();
    let mut buf = screen();
    let text: String = (0..5000).map(|i| if i % 97 == 0 { '\n' } else { 'q' }).collect();
    w.write_str(&mut buf, &text);
    let (x, y) = w.cursor();
    assert!(x < 80 && y < 25);
    assert_eq!(buf.len(), VGA_CELLS);
}
