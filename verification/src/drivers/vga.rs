//! VGA text mode console.
//!
//! The screen is 80x25 cells, each a character and a colour attribute. The
//! writer keeps the cursor and the current colour; the cells are held in a
//! buffer of 2000 entries that the caller mirrors to video memory at
//! 0xB8000.
use vstd::prelude::*;
use vstd::string::StringSliceAdditionalSpecFns;

verus! {

/// Physical address of the VGA text buffer.
pub const VGA_BUFFER_ADDRESS: usize = 0xB8000;

/// Columns.
pub const VGA_WIDTH: usize = 80;

/// Rows.
pub const VGA_HEIGHT: usize = 25;

/// Number of cells.
pub const VGA_CELLS: usize = 2000;

/// Colours of VGA text mode.
#[derive(Clone, Copy, Debug, PartialEq, Eq, Structural)]
pub enum Color {
    Black,
    Blue,
    Green,
    Cyan,
    Red,
    Magenta,
    Brown,
    LightGray,
    DarkGray,
    LightBlue,
    LightGreen,
    LightCyan,
    LightRed,
    Pink,
    Yellow,
    White,
}

/// Hardware number of a colour.
pub open spec fn color_number(c: Color) -> u8 {
    match c {
        Color::Black => 0,
        Color::Blue => 1,
        Color::Green => 2,
        Color::Cyan => 3,
        Color::Red => 4,
        Color::Magenta => 5,
        Color::Brown => 6,
        Color::LightGray => 7,
        Color::DarkGray => 8,
        Color::LightBlue => 9,
        Color::LightGreen => 10,
        Color::LightCyan => 11,
        Color::LightRed => 12,
        Color::Pink => 13,
        Color::Yellow => 14,
        Color::White => 15,
    }
}

/// Attribute byte: background in the high nibble, foreground in the low one.
pub open spec fn attribute(fg: Color, bg: Color) -> u8 {
    (color_number(bg) * 16 + color_number(fg)) as u8
}

/// Hardware number of a colour.
pub fn color_code(c: Color) -> (r: u8)
    ensures
        r == color_number(c),
{
    match c {
        Color::Black => 0,
        Color::Blue => 1,
        Color::Green => 2,
        Color::Cyan => 3,
        Color::Red => 4,
        Color::Magenta => 5,
        Color::Brown => 6,
        Color::LightGray => 7,
        Color::DarkGray => 8,
        Color::LightBlue => 9,
        Color::LightGreen => 10,
        Color::LightCyan => 11,
        Color::LightRed => 12,
        Color::Pink => 13,
        Color::Yellow => 14,
        Color::White => 15,
    }
}

/// Attribute byte for foreground `fg` on background `bg`.
pub fn make_color(fg: Color, bg: Color) -> (r: u8)
    ensures
        r == attribute(fg, bg),
{
    let b = color_code(bg);
    let f = color_code(fg);
    assert((b << 4u8) | f == b * 16 + f) by (bit_vector)
        requires
            b < 16,
            f < 16,
    ;
    (b << 4u8) | f
}

/// A character with its colour attribute.
#[derive(Clone, Copy, Debug, PartialEq, Eq, Structural)]
pub struct VgaCharacter {
    pub character: u8,
    pub color_code: u8,
}

/// VGA text writer.
pub struct VgaWriter {
    cursor_x: usize,
    cursor_y: usize,
    color: u8,
}

/// A blank cell in the given colour.
pub open spec fn blank(color: u8) -> VgaCharacter {
    VgaCharacter { character: 32, color_code: color }
}

/// The screen after scrolling up one line: rows move up, the last row is
/// blank.
pub open spec fn scrolled(cells: Seq<VgaCharacter>, color: u8) -> Seq<VgaCharacter> {
    Seq::new(
        2000,
        |i: int|
            if i < 1920 {
                cells[i + 80]
            } else {
                blank(color)
            },
    )
}

/// Console state: cursor column and row, colour and the cells.
pub struct ConsoleModel {
    pub x: int,
    pub y: int,
    pub color: u8,
    pub cells: Seq<VgaCharacter>,
}

/// The console after writing one byte: a line feed starts a new line,
/// printable ASCII is stored at the cursor which then advances, anything
/// else is ignored; the line wraps after column 79 and the screen scrolls
/// when the cursor leaves the last row.
pub open spec fn console_step(m: ConsoleModel, byte: u8) -> ConsoleModel {
    let (x1, y1, cells1) = if byte == 10 {
        (0int, m.y + 1, m.cells)
    } else if 0x20 <= byte <= 0x7e {
        (
            m.x + 1,
            m.y,
            m.cells.update(m.y * 80 + m.x, VgaCharacter { character: byte, color_code: m.color }),
        )
    } else {
        (m.x, m.y, m.cells)
    };
    let (x2, y2) = if x1 >= 80 {
        (0int, y1 + 1)
    } else {
        (x1, y1)
    };
    if y2 >= 25 {
        ConsoleModel { x: x2, y: 24, color: m.color, cells: scrolled(cells1, m.color) }
    } else {
        ConsoleModel { x: x2, y: y2, color: m.color, cells: cells1 }
    }
}

/// The console after writing a sequence of bytes in order.
pub open spec fn console_write(m: ConsoleModel, bytes: Seq<u8>) -> ConsoleModel
    decreases bytes.len(),
{
    if bytes.len() == 0 {
        m
    } else {
        console_step(console_write(m, bytes.drop_last()), bytes.last())
    }
}

/// The console state of a writer and its cells.
pub open spec fn console(w: &VgaWriter, cells: Seq<VgaCharacter>) -> ConsoleModel {
    ConsoleModel { x: w.x() as int, y: w.y() as int, color: w.attr(), cells }
}

impl VgaWriter {
    #[verifier::type_invariant]
    closed spec fn inv(&self) -> bool {
        self.cursor_x < 80 && self.cursor_y < 25
    }

    pub closed spec fn x(&self) -> usize {
        self.cursor_x
    }

    pub closed spec fn y(&self) -> usize {
        self.cursor_y
    }

    pub closed spec fn attr(&self) -> u8 {
        self.color
    }

    /// A writer at the top-left corner, light grey on black.
    pub fn new() -> (r: Self)
        ensures
            r.x() == 0,
            r.y() == 0,
            r.attr() == attribute(Color::LightGray, Color::Black),
    {
        VgaWriter { cursor_x: 0, cursor_y: 0, color: make_color(Color::LightGray, Color::Black) }
    }

    /// The cursor is always on the screen.
    pub fn cursor(&self) -> (r: (usize, usize))
        ensures
            r == (self.x(), self.y()),
            r.0 < VGA_WIDTH,
            r.1 < VGA_HEIGHT,
    {
        proof {
            use_type_invariant(self);
        }
        (self.cursor_x, self.cursor_y)
    }

    /// Scroll the cells up one line, blanking the last row.
    fn scroll(&self, buffer: &mut Vec<VgaCharacter>)
        requires
            old(buffer)@.len() == VGA_CELLS,
        ensures
            final(buffer)@ == scrolled(old(buffer)@, self.attr()),
    {
        let ghost before = buffer@;
        let mut i: usize = 0;
        while i < (VGA_HEIGHT - 1) * VGA_WIDTH
            invariant
                i <= 1920,
                buffer@.len() == 2000,
                before.len() == 2000,
                forall|j: int| 0 <= j < i ==> buffer@[j] == before[j + 80],
                forall|j: int| i <= j < 2000 ==> buffer@[j] == before[j],
            decreases 1920 - i,
        {
            let src = buffer[i + VGA_WIDTH];
            buffer.set(i, src);
            i = i + 1;
        }
        let blank_cell = VgaCharacter { character: 32, color_code: self.color };
        let mut x: usize = 0;
        while x < VGA_WIDTH
            invariant
                x <= 80,
                buffer@.len() == 2000,
                before.len() == 2000,
                blank_cell == blank(self.attr()),
                forall|j: int| 0 <= j < 1920 ==> buffer@[j] == before[j + 80],
                forall|j: int| 1920 <= j < 1920 + x ==> buffer@[j] == blank(self.attr()),
            decreases 80 - x,
        {
            buffer.set((VGA_HEIGHT - 1) * VGA_WIDTH + x, blank_cell);
            x = x + 1;
        }
        assert(buffer@ =~= scrolled(before, self.attr()));
    }

    /// Write one byte at the cursor.
    pub fn write_byte(&mut self, buffer: &mut Vec<VgaCharacter>, byte: u8)
        requires
            old(buffer)@.len() == VGA_CELLS,
        ensures
            final(buffer)@.len() == VGA_CELLS,
            console(final(self), final(buffer)@) == console_step(console(old(self), old(buffer)@), byte),
    {
        proof {
            use_type_invariant(&*self);
        }
        let mut x = self.cursor_x;
        let mut y = self.cursor_y;
        if byte == 10u8 {
            x = 0;
            y = y + 1;
        } else if 0x20u8 <= byte && byte <= 0x7eu8 {
            let index = y * VGA_WIDTH + x;
            if index < VGA_WIDTH * VGA_HEIGHT {
                buffer.set(index, VgaCharacter { character: byte, color_code: self.color });
            }
            x = x + 1;
        }
        if x >= VGA_WIDTH {
            x = 0;
            y = y + 1;
        }
        if y >= VGA_HEIGHT {
            self.scroll(buffer);
            y = VGA_HEIGHT - 1;
        }
        self.cursor_x = x;
        self.cursor_y = y;
    }

    /// Write the bytes of `s` in order.
    pub fn write_str(&mut self, buffer: &mut Vec<VgaCharacter>, s: &str)
        requires
            old(buffer)@.len() == VGA_CELLS,
        ensures
            final(buffer)@.len() == VGA_CELLS,
            console(final(self), final(buffer)@) == console_write(console(old(self), old(buffer)@), s.spec_bytes()),
    {
        let bytes = s.as_bytes();
        let mut i: usize = 0;
        while i < bytes.len()
            invariant
                i <= bytes@.len(),
                bytes@ == s.spec_bytes(),
                buffer@.len() == VGA_CELLS,
                console(self, buffer@) == console_write(console(old(self), old(buffer)@), bytes@.subrange(0, i as int)),
            decreases bytes.len() - i,
        {
            proof {
                assert(bytes@.subrange(0, i + 1).drop_last() =~= bytes@.subrange(0, i as int));
            }
            self.write_byte(buffer, bytes[i]);
            i = i + 1;
        }
        assert(bytes@.subrange(0, bytes@.len() as int) =~= bytes@);
    }

    /// Blank every cell in the current colour and home the cursor.
    pub fn clear(&mut self, buffer: &mut Vec<VgaCharacter>)
        requires
            old(buffer)@.len() == VGA_CELLS,
        ensures
            final(buffer)@ == Seq::new(2000, |i: int| blank(old(self).attr())),
            final(self).x() == 0,
            final(self).y() == 0,
            final(self).attr() == old(self).attr(),
    {
        let blank_cell = VgaCharacter { character: 32, color_code: self.color };
        let mut i: usize = 0;
        while i < VGA_WIDTH * VGA_HEIGHT
            invariant
                i <= 2000,
                buffer@.len() == 2000,
                blank_cell == blank(self.attr()),
                forall|j: int| 0 <= j < i ==> buffer@[j] == blank(self.attr()),
            decreases 2000 - i,
        {
            buffer.set(i, blank_cell);
            i = i + 1;
        }
        assert(buffer@ =~= Seq::new(2000, |i: int| blank(self.attr())));
        proof {
            use_type_invariant(&*self);
        }
        self.cursor_x = 0;
        self.cursor_y = 0;
    }

    /// Use foreground `fg` on background `bg` from now on.
    pub fn set_color(&mut self, fg: Color, bg: Color)
        ensures
            final(self).attr() == attribute(fg, bg),
            final(self).x() == old(self).x(),
            final(self).y() == old(self).y(),
    {
        proof {
            use_type_invariant(&*self);
        }
        self.color = make_color(fg, bg);
    }
}

/// The cursor never leaves the screen, whatever is written.
pub proof fn law_cursor_stays_on_screen(m: ConsoleModel, bytes: Seq<u8>)
    requires
        0 <= m.x < 80,
        0 <= m.y < 25,
    ensures
        0 <= console_write(m, bytes).x < 80,
        0 <= console_write(m, bytes).y < 25,
    decreases bytes.len(),
{
    if bytes.len() > 0 {
        law_cursor_stays_on_screen(m, bytes.drop_last());
    }
}

/// Writing keeps the screen at 2000 cells.
pub proof fn law_write_keeps_screen_size(m: ConsoleModel, bytes: Seq<u8>)
    requires
        0 <= m.x < 80,
        0 <= m.y < 25,
        m.cells.len() == 2000,
    ensures
        console_write(m, bytes).cells.len() == 2000,
    decreases bytes.len(),
{
    if bytes.len() > 0 {
        law_write_keeps_screen_size(m, bytes.drop_last());
        law_cursor_stays_on_screen(m, bytes.drop_last());
    }
}

/// Writing a string in two pieces has the same effect as writing it whole.
pub proof fn law_write_concat(m: ConsoleModel, a: Seq<u8>, b: Seq<u8>)
    ensures
        console_write(m, a + b) == console_write(console_write(m, a), b),
    decreases b.len(),
{
    if b.len() == 0 {
        assert(a + b =~= a);
    } else {
        law_write_concat(m, a, b.drop_last());
        assert((a + b).drop_last() =~= a + b.drop_last());
    }
}

/// Every printable ASCII byte, the space included, is stored at the cursor
/// cell in the current colour and moves the cursor one column right; after
/// column 79 the cursor goes to the start of the next row, and from the
/// last row the screen scrolls up, so the stored cell ends one row higher.
pub proof fn law_printable_byte_stored_at_cursor(m: ConsoleModel, byte: u8)
    requires
        0x20 <= byte <= 0x7e,
        0 <= m.x < 80,
        0 <= m.y < 25,
        m.cells.len() == 2000,
    ensures
        m.x < 79 ==> {
            &&& console_step(m, byte).x == m.x + 1
            &&& console_step(m, byte).y == m.y
            &&& console_step(m, byte).cells[m.y * 80 + m.x] == (VgaCharacter { character: byte, color_code: m.color })
        },
        m.x == 79 && m.y < 24 ==> {
            &&& console_step(m, byte).x == 0
            &&& console_step(m, byte).y == m.y + 1
            &&& console_step(m, byte).cells[m.y * 80 + 79] == (VgaCharacter { character: byte, color_code: m.color })
        },
        m.x == 79 && m.y == 24 ==> {
            &&& console_step(m, byte).x == 0
            &&& console_step(m, byte).y == 24
            &&& console_step(m, byte).cells[23 * 80 + 79int] == (VgaCharacter { character: byte, color_code: m.color })
        },
        console_step(m, byte).color == m.color,
        console_step(m, byte).cells.len() == 2000,
{
    assert(0 <= m.y * 80 + m.x < 2000) by (nonlinear_arith)
        requires
            0 <= m.x < 80,
            0 <= m.y < 25,
    ;
}

} // verus!
