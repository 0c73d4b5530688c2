//! Framebuffer text console for 1080x2400 ARGB displays.
//!
//! Text is drawn in 8x16 character cells (each character as a block
//! outline in the foreground colour). The pixels are held in a buffer of
//! `PIXEL_COUNT` words, row by row, that the caller mirrors to the display
//! at `FramebufferInfo::addr`.
use vstd::prelude::*;

verus! {

/// Default framebuffer address.
pub const DEFAULT_FRAMEBUFFER_ADDR: u64 = 0x5000_0000;

/// Default screen width.
pub const DEFAULT_WIDTH: usize = 1080;

/// Default screen height.
pub const DEFAULT_HEIGHT: usize = 2400;

/// Bytes per pixel (ARGB8888).
pub const BYTES_PER_PIXEL: usize = 4;

/// Pixels on the default screen.
pub const PIXEL_COUNT: usize = 2592000;

/// Character cell width.
pub const CHAR_WIDTH: usize = 8;

/// Character cell height.
pub const CHAR_HEIGHT: usize = 16;

/// Pixels in one line of text.
pub const TEXT_LINE_PIXELS: usize = 17280;

/// An RGB colour.
#[derive(Debug, Clone, Copy, PartialEq, Eq, Structural)]
pub struct Color {
    pub r: u8,
    pub g: u8,
    pub b: u8,
}

/// ARGB word of a colour, fully opaque.
pub open spec fn argb(c: Color) -> u32 {
    0xFF00_0000u32 | ((c.r as u32) << 16u32) | ((c.g as u32) << 8u32) | (c.b as u32)
}

/// A colour from its components.
pub open spec fn rgb(r: u8, g: u8, b: u8) -> Color {
    Color { r, g, b }
}

impl Color {
    /// Create a colour from RGB values.
    pub fn new(r: u8, g: u8, b: u8) -> (c: Self)
        ensures
            c == rgb(r, g, b),
    {
        Color { r, g, b }
    }

    /// Pixel value: opaque alpha, then red, green and blue bytes.
    pub fn as_u32(&self) -> (v: u32)
        ensures
            v == argb(*self),
    {
        0xFF00_0000u32 | ((self.r as u32) << 16u32) | ((self.g as u32) << 8u32) | (self.b as u32)
    }

    /// Black.
    pub fn black() -> (c: Self)
        ensures
            c == rgb(0, 0, 0),
    {
        Color::new(0, 0, 0)
    }

    /// White.
    pub fn white() -> (c: Self)
        ensures
            c == rgb(255, 255, 255),
    {
        Color::new(255, 255, 255)
    }

    /// Red.
    pub fn red() -> (c: Self)
        ensures
            c == rgb(255, 0, 0),
    {
        Color::new(255, 0, 0)
    }

    /// Green.
    pub fn green() -> (c: Self)
        ensures
            c == rgb(0, 255, 0),
    {
        Color::new(0, 255, 0)
    }

    /// Blue.
    pub fn blue() -> (c: Self)
        ensures
            c == rgb(0, 0, 255),
    {
        Color::new(0, 0, 255)
    }

    /// Yellow.
    pub fn yellow() -> (c: Self)
        ensures
            c == rgb(255, 255, 0),
    {
        Color::new(255, 255, 0)
    }

    /// Cyan.
    pub fn cyan() -> (c: Self)
        ensures
            c == rgb(0, 255, 255),
    {
        Color::new(0, 255, 255)
    }

    /// Magenta.
    pub fn magenta() -> (c: Self)
        ensures
            c == rgb(255, 0, 255),
    {
        Color::new(255, 0, 255)
    }

    /// Gray.
    pub fn gray() -> (c: Self)
        ensures
            c == rgb(128, 128, 128),
    {
        Color::new(128, 128, 128)
    }

    /// Light gray.
    pub fn light_gray() -> (c: Self)
        ensures
            c == rgb(192, 192, 192),
    {
        Color::new(192, 192, 192)
    }

    /// Dark gray.
    pub fn dark_gray() -> (c: Self)
        ensures
            c == rgb(64, 64, 64),
    {
        Color::new(64, 64, 64)
    }

    /// Light red.
    pub fn light_red() -> (c: Self)
        ensures
            c == rgb(255, 128, 128),
    {
        Color::new(255, 128, 128)
    }

    /// Light green.
    pub fn light_green() -> (c: Self)
        ensures
            c == rgb(128, 255, 128),
    {
        Color::new(128, 255, 128)
    }

    /// Light blue.
    pub fn light_blue() -> (c: Self)
        ensures
            c == rgb(128, 128, 255),
    {
        Color::new(128, 128, 255)
    }

    /// Light cyan.
    pub fn light_cyan() -> (c: Self)
        ensures
            c == rgb(128, 255, 255),
    {
        Color::new(128, 255, 255)
    }

    /// Light magenta.
    pub fn light_magenta() -> (c: Self)
        ensures
            c == rgb(255, 128, 255),
    {
        Color::new(255, 128, 255)
    }

    /// Light yellow.
    pub fn light_yellow() -> (c: Self)
        ensures
            c == rgb(255, 255, 128),
    {
        Color::new(255, 255, 128)
    }

    /// Orange.
    pub fn orange() -> (c: Self)
        ensures
            c == rgb(255, 165, 0),
    {
        Color::new(255, 165, 0)
    }

    /// Pink.
    pub fn pink() -> (c: Self)
        ensures
            c == rgb(255, 192, 203),
    {
        Color::new(255, 192, 203)
    }

    /// Brown.
    pub fn brown() -> (c: Self)
        ensures
            c == rgb(181, 107, 0),
    {
        Color::new(181, 107, 0)
    }
}

/// Framebuffer geometry.
#[derive(Debug, Clone, Copy, PartialEq, Eq, Structural)]
pub struct FramebufferInfo {
    pub addr: u64,
    pub width: usize,
    pub height: usize,
    pub stride: usize,
    pub bpp: usize,
}

/// The default display: 1080x2400 at 32 bits per pixel.
pub open spec fn default_info() -> FramebufferInfo {
    FramebufferInfo {
        addr: DEFAULT_FRAMEBUFFER_ADDR,
        width: DEFAULT_WIDTH,
        height: DEFAULT_HEIGHT,
        stride: 4320,
        bpp: 32,
    }
}

impl FramebufferInfo {
    /// The default display geometry.
    pub fn new() -> (r: Self)
        ensures
            r == default_info(),
    {
        FramebufferInfo {
            addr: DEFAULT_FRAMEBUFFER_ADDR,
            width: DEFAULT_WIDTH,
            height: DEFAULT_HEIGHT,
            stride: DEFAULT_WIDTH * BYTES_PER_PIXEL,
            bpp: BYTES_PER_PIXEL * 8,
        }
    }
}

/// Column of pixel `p`.
pub open spec fn px_of(p: int) -> int {
    p % 1080
}

/// Row of pixel `p`.
pub open spec fn py_of(p: int) -> int {
    p / 1080
}

/// Whether cell position (`dx`, `dy`) is on the outline drawn for a
/// character.
pub open spec fn glyph_on(dx: int, dy: int) -> bool {
    dx < 2 || dy < 2 || dx >= 6 || dy >= 14
}

/// Pixels after drawing the first `rows` full rows, and `cols` columns of
/// the next row, of a character cell at (`sx`, `sy`).
pub open spec fn glyph_prefix(pixels: Seq<u32>, sx: int, sy: int, fg: Color, bg: Color, rows: int, cols: int) -> Seq<u32> {
    Seq::new(
        pixels.len(),
        |p: int|
            {
                let dx = px_of(p) - sx;
                let dy = py_of(p) - sy;
                if 0 <= dx < 8 && 0 <= dy && (dy < rows || (dy == rows && dx < cols)) {
                    if glyph_on(dx, dy) {
                        argb(fg)
                    } else {
                        argb(bg)
                    }
                } else {
                    pixels[p]
                }
            },
    )
}

/// Pixels after drawing a whole character cell at (`sx`, `sy`); the parts
/// off the screen are dropped.
pub open spec fn drawn_glyph(pixels: Seq<u32>, sx: int, sy: int, fg: Color, bg: Color) -> Seq<u32> {
    glyph_prefix(pixels, sx, sy, fg, bg, 16, 0)
}

/// Pixels after scrolling up one text line: everything moves up 16 rows
/// and the last 16 rows are background.
pub open spec fn scrolled_pixels(pixels: Seq<u32>, bg: Color) -> Seq<u32> {
    Seq::new(
        pixels.len(),
        |p: int|
            if p < 2574720 {
                pixels[p + 17280]
            } else {
                argb(bg)
            },
    )
}

/// Console state: cursor column and row (in cells), colours and pixels.
pub struct FbModel {
    pub cx: int,
    pub cy: int,
    pub fg: Color,
    pub bg: Color,
    pub pixels: Seq<u32>,
}

/// After moving to row `cy`: scroll when that row is below the screen.
pub open spec fn settle_row(m: FbModel) -> FbModel {
    if m.cy * 16 >= 2400 {
        FbModel { cy: m.cy - 1, pixels: scrolled_pixels(m.pixels, m.bg), ..m }
    } else {
        m
    }
}

/// The console after handling one character: line feed, carriage return,
/// tab to the next multiple of 4 columns, or a drawn character with
/// wrapping at the right edge.
pub open spec fn fb_step(m: FbModel, c: char) -> FbModel {
    if c == '\n' {
        settle_row(FbModel { cx: 0, cy: m.cy + 1, ..m })
    } else if c == '\r' {
        FbModel { cx: 0, ..m }
    } else if c == '\t' {
        FbModel { cx: ((m.cx + 4) / 4) * 4, ..m }
    } else {
        let drawn = FbModel { pixels: drawn_glyph(m.pixels, m.cx * 8, m.cy * 16, m.fg, m.bg), cx: m.cx + 1, ..m };
        if drawn.cx * 8 >= 1080 {
            settle_row(FbModel { cx: 0, cy: drawn.cy + 1, ..drawn })
        } else {
            drawn
        }
    }
}

/// The console after handling a sequence of characters in order.
pub open spec fn fb_write(m: FbModel, chars: Seq<char>) -> FbModel
    decreases chars.len(),
{
    if chars.len() == 0 {
        m
    } else {
        fb_step(fb_write(m, chars.drop_last()), chars.last())
    }
}

/// Framebuffer text writer.
pub struct FramebufferWriter {
    info: FramebufferInfo,
    cursor_x: usize,
    cursor_y: usize,
    fg_color: Color,
    bg_color: Color,
    char_width: usize,
    char_height: usize,
}

/// Console state of a writer and its pixels.
pub open spec fn fb_console(w: &FramebufferWriter, pixels: Seq<u32>) -> FbModel {
    FbModel { cx: w.cx() as int, cy: w.cy() as int, fg: w.fg(), bg: w.bg(), pixels }
}

/// Pixel `p` sits at column `px_of(p)` and row `py_of(p)`.
proof fn lemma_pixel_position(x: int, y: int)
    requires
        0 <= x < 1080,
        0 <= y,
    ensures
        px_of(y * 1080 + x) == x,
        py_of(y * 1080 + x) == y,
{
    vstd::arithmetic::div_mod::lemma_fundamental_div_mod_converse(y * 1080 + x, 1080, y, x);
}

/// Every pixel of the screen has a row on the screen.
proof fn lemma_pixel_row_on_screen(p: int)
    requires
        0 <= p < 2592000,
    ensures
        0 <= px_of(p) < 1080,
        0 <= py_of(p) < 2400,
        p == py_of(p) * 1080 + px_of(p),
{
    vstd::arithmetic::div_mod::lemma_fundamental_div_mod(p, 1080);
}

/// Set one pixel of the 1080x2400 screen; pixels off the screen are
/// ignored.
pub fn put_pixel(pixels: &mut Vec<u32>, x: usize, y: usize, color: Color)
    requires
        old(pixels)@.len() == PIXEL_COUNT,
    ensures
        x < 1080 && y < 2400 ==> final(pixels)@ == old(pixels)@.update(y * 1080 + x, argb(color)),
        !(x < 1080 && y < 2400) ==> final(pixels)@ == old(pixels)@,
{
    if x >= DEFAULT_WIDTH || y >= DEFAULT_HEIGHT {
        return;
    }
    assert(y * 1080 + x < 2592000 && y * 4320 < 10368000 && y * 4320 / 4 == y * 1080) by (nonlinear_arith)
        requires
            x < 1080,
            y < 2400,
    ;
    let offset = y * (DEFAULT_WIDTH * BYTES_PER_PIXEL) / BYTES_PER_PIXEL + x;
    pixels.set(offset, color.as_u32());
}

/// Draw one 8x16 character cell with its top-left corner at (`start_x`,
/// `start_y`): the two outermost pixels on each side in `fg`, the inside
/// in `bg`.
pub fn draw_glyph(pixels: &mut Vec<u32>, start_x: usize, start_y: usize, fg: Color, bg: Color)
    requires
        old(pixels)@.len() == PIXEL_COUNT,
        start_x + 8 <= usize::MAX,
        start_y + 16 <= usize::MAX,
    ensures
        final(pixels)@ == drawn_glyph(old(pixels)@, start_x as int, start_y as int, fg, bg),
{
    let ghost before = pixels@;
    let mut dy: usize = 0;
    assert(pixels@ =~= glyph_prefix(before, start_x as int, start_y as int, fg, bg, 0, 0));
    while dy < CHAR_HEIGHT
        invariant
            start_x + 8 <= usize::MAX,
            start_y + 16 <= usize::MAX,
            dy <= 16,
            before.len() == PIXEL_COUNT,
            pixels@ == glyph_prefix(before, start_x as int, start_y as int, fg, bg, dy as int, 0),
        decreases 16 - dy,
    {
        let mut dx: usize = 0;
        while dx < CHAR_WIDTH
            invariant
                start_x + 8 <= usize::MAX,
                start_y + 16 <= usize::MAX,
                dy < 16,
                dx <= 8,
                before.len() == PIXEL_COUNT,
                pixels@ == glyph_prefix(before, start_x as int, start_y as int, fg, bg, dy as int, dx as int),
            decreases 8 - dx,
        {
            let pixel_on = (dx < 2) || (dy < 2) || (dx >= CHAR_WIDTH - 2) || (dy >= CHAR_HEIGHT - 2);
            let color = if pixel_on { fg } else { bg };
            let x = start_x + dx;
            let y = start_y + dy;
            put_pixel(pixels, x, y, color);
            proof {
                let next = glyph_prefix(before, start_x as int, start_y as int, fg, bg, dy as int, dx + 1);
                assert forall|p: int| 0 <= p < PIXEL_COUNT implies pixels@[p] == next[p] by {
                    lemma_pixel_row_on_screen(p);
                    if x < 1080 && y < 2400 && p == y * 1080 + x {
                        lemma_pixel_position(x as int, y as int);
                    } else if px_of(p) - start_x == dx && py_of(p) - start_y == dy {
                        assert(p == y * 1080 + x);
                    }
                }
                assert(pixels@ =~= next);
            }
            dx = dx + 1;
        }
        proof {
            let a = glyph_prefix(before, start_x as int, start_y as int, fg, bg, dy as int, 8);
            let b = glyph_prefix(before, start_x as int, start_y as int, fg, bg, dy + 1, 0);
            assert(a =~= b);
        }
        dy = dy + 1;
    }
}

impl FramebufferWriter {
    #[verifier::type_invariant]
    closed spec fn inv(&self) -> bool {
        &&& self.info == default_info()
        &&& self.char_width == 8
        &&& self.char_height == 16
        &&& self.cursor_y < 150
    }

    pub closed spec fn cx(&self) -> usize {
        self.cursor_x
    }

    pub closed spec fn cy(&self) -> usize {
        self.cursor_y
    }

    pub closed spec fn fg(&self) -> Color {
        self.fg_color
    }

    pub closed spec fn bg(&self) -> Color {
        self.bg_color
    }

    /// A writer for the default display: cursor at the top left, white on
    /// black.
    pub fn new() -> (r: Self)
        ensures
            r.cx() == 0,
            r.cy() == 0,
            r.fg() == rgb(255, 255, 255),
            r.bg() == rgb(0, 0, 0),
    {
        FramebufferWriter {
            info: FramebufferInfo::new(),
            cursor_x: 0,
            cursor_y: 0,
            fg_color: Color::white(),
            bg_color: Color::black(),
            char_width: 8,
            char_height: 16,
        }
    }

    /// Display geometry.
    pub fn info(&self) -> (r: FramebufferInfo)
        ensures
            r == default_info(),
    {
        proof {
            use_type_invariant(self);
        }
        self.info
    }

    /// Cursor column and row, in character cells.
    pub fn cursor(&self) -> (r: (usize, usize))
        ensures
            r == (self.cx(), self.cy()),
            r.1 < 150,
    {
        proof {
            use_type_invariant(self);
        }
        (self.cursor_x, self.cursor_y)
    }

    /// Fill the screen with the background colour and home the cursor.
    pub fn clear(&mut self, pixels: &mut Vec<u32>)
        requires
            old(pixels)@.len() == PIXEL_COUNT,
        ensures
            final(pixels)@ == Seq::new(PIXEL_COUNT as nat, |p: int| argb(old(self).bg())),
            final(self).cx() == 0,
            final(self).cy() == 0,
            final(self).fg() == old(self).fg(),
            final(self).bg() == old(self).bg(),
    {
        proof {
            use_type_invariant(&*self);
        }
        let pixel_count = self.info.width * self.info.height;
        let bg_pixel = self.bg_color.as_u32();
        let mut i: usize = 0;
        while i < pixel_count
            invariant
                pixel_count == PIXEL_COUNT,
                i <= pixel_count,
                pixels@.len() == PIXEL_COUNT,
                bg_pixel == argb(self.bg()),
                forall|j: int| 0 <= j < i ==> pixels@[j] == bg_pixel,
            decreases pixel_count - i,
        {
            pixels.set(i, bg_pixel);
            i = i + 1;
        }
        assert(pixels@ =~= Seq::new(PIXEL_COUNT as nat, |p: int| argb(self.bg())));
        self.cursor_x = 0;
        self.cursor_y = 0;
    }

    /// Use foreground `fg` and background `bg` from now on.
    pub fn set_color(&mut self, fg: Color, bg: Color)
        ensures
            final(self).fg() == fg,
            final(self).bg() == bg,
            final(self).cx() == old(self).cx(),
            final(self).cy() == old(self).cy(),
    {
        proof {
            use_type_invariant(&*self);
        }
        self.fg_color = fg;
        self.bg_color = bg;
    }

    /// Draw a character cell at cell column `col` and row `row`.
    fn draw_char(&self, pixels: &mut Vec<u32>, col: usize, row: usize)
        requires
            old(pixels)@.len() == PIXEL_COUNT,
            col * 8 + 8 <= usize::MAX,
            row < 150,
        ensures
            final(pixels)@ == drawn_glyph(old(pixels)@, col * 8, row * 16, self.fg(), self.bg()),
    {
        proof {
            use_type_invariant(self);
        }
        let start_x = col * self.char_width;
        let start_y = row * self.char_height;
        draw_glyph(pixels, start_x, start_y, self.fg_color, self.bg_color);
    }

    /// Move every pixel up one text line and fill the last line with the
    /// background colour.
    fn scroll(&self, pixels: &mut Vec<u32>)
        requires
            old(pixels)@.len() == PIXEL_COUNT,
        ensures
            final(pixels)@ == scrolled_pixels(old(pixels)@, self.bg()),
    {
        let ghost before = pixels@;
        let mut i: usize = 0;
        while i < PIXEL_COUNT - TEXT_LINE_PIXELS
            invariant
                i <= 2574720,
                pixels@.len() == PIXEL_COUNT,
                before.len() == PIXEL_COUNT,
                forall|j: int| 0 <= j < i ==> pixels@[j] == before[j + 17280],
                forall|j: int| i <= j < PIXEL_COUNT ==> pixels@[j] == before[j],
            decreases 2574720 - i,
        {
            let pixel = pixels[i + TEXT_LINE_PIXELS];
            pixels.set(i, pixel);
            i = i + 1;
        }
        let bg_pixel = self.bg_color.as_u32();
        while i < PIXEL_COUNT
            invariant
                2574720 <= i <= PIXEL_COUNT,
                pixels@.len() == PIXEL_COUNT,
                before.len() == PIXEL_COUNT,
                bg_pixel == argb(self.bg()),
                forall|j: int| 0 <= j < 2574720 ==> pixels@[j] == before[j + 17280],
                forall|j: int| 2574720 <= j < i ==> pixels@[j] == bg_pixel,
            decreases PIXEL_COUNT - i,
        {
            pixels.set(i, bg_pixel);
            i = i + 1;
        }
        assert(pixels@ =~= scrolled_pixels(before, self.bg()));
    }

    /// Write the characters of `s`: line feed, carriage return and tab move
    /// the cursor, every other character draws a cell and advances it.
    pub fn write_str(&mut self, pixels: &mut Vec<u32>, s: &str)
        requires
            old(pixels)@.len() == PIXEL_COUNT,
            (old(self).cx() + 4 * s@.len() + 1) * 8 <= usize::MAX,
        ensures
            final(pixels)@.len() == PIXEL_COUNT,
            fb_console(final(self), final(pixels)@) == fb_write(fb_console(old(self), old(pixels)@), s@),
    {
        proof {
            use_type_invariant(&*self);
        }
        let ghost start = fb_console(self, pixels@);
        for c in it: s.chars()
            invariant
                it.seq() == s@,
                pixels@.len() == PIXEL_COUNT,
                (start.cx + 4 * s@.len() + 1) * 8 <= usize::MAX,
                self.cx() <= start.cx + 4 * it.index(),
                fb_console(self, pixels@) == fb_write(start, s@.subrange(0, it.index() as int)),
        {
            proof {
                use_type_invariant(&*self);
                assert(s@.subrange(0, it.index() + 1).drop_last() =~= s@.subrange(0, it.index() as int));
                assert(s@.subrange(0, it.index() + 1).last() == c);
            }
            let mut x = self.cursor_x;
            let mut y = self.cursor_y;
            if c == '\n' {
                x = 0;
                y = y + 1;
                if y * self.char_height >= self.info.height {
                    self.scroll(pixels);
                    y = y - 1;
                }
            } else if c == '\r' {
                x = 0;
            } else if c == '\t' {
                let x4 = x + 4;
                assert(x4 & !3usize == x4 - x4 % 4) by (bit_vector);
                x = x4 & !3usize;
            } else {
                self.draw_char(pixels, x, y);
                x = x + 1;
                if x * self.char_width >= self.info.width {
                    x = 0;
                    y = y + 1;
                    if y * self.char_height >= self.info.height {
                        self.scroll(pixels);
                        y = y - 1;
                    }
                }
            }
            self.cursor_x = x;
            self.cursor_y = y;
        }
        assert(s@.subrange(0, s@.len() as int) =~= s@);
    }
}

/// A pixel value holds the colour's three bytes under an opaque alpha.
pub proof fn law_argb_fields(c: Color)
    ensures
        argb(c) >> 24u32 == 0xFF,
        (argb(c) >> 16u32) & 0xFF == c.r,
        (argb(c) >> 8u32) & 0xFF == c.g,
        argb(c) & 0xFF == c.b,
{
    let r = c.r;
    let g = c.g;
    let b = c.b;
    assert((0xFF00_0000u32 | ((r as u32) << 16u32) | ((g as u32) << 8u32) | (b as u32)) >> 24u32 == 0xFF)
        by (bit_vector);
    assert(((0xFF00_0000u32 | ((r as u32) << 16u32) | ((g as u32) << 8u32) | (b as u32)) >> 16u32)
        & 0xFF == r) by (bit_vector);
    assert(((0xFF00_0000u32 | ((r as u32) << 16u32) | ((g as u32) << 8u32) | (b as u32)) >> 8u32)
        & 0xFF == g) by (bit_vector);
    assert((0xFF00_0000u32 | ((r as u32) << 16u32) | ((g as u32) << 8u32) | (b as u32)) & 0xFF == b)
        by (bit_vector);
}

/// The text cursor's row never leaves the screen, whatever is written.
pub proof fn law_cursor_row_on_screen(m: FbModel, chars: Seq<char>)
    requires
        0 <= m.cx,
        0 <= m.cy < 150,
    ensures
        0 <= fb_write(m, chars).cy < 150,
        0 <= fb_write(m, chars).cx,
    decreases chars.len(),
{
    if chars.len() > 0 {
        law_cursor_row_on_screen(m, chars.drop_last());
    }
}

/// Writing a string in two pieces has the same effect as writing it whole.
pub proof fn law_fb_write_concat(m: FbModel, a: Seq<char>, b: Seq<char>)
    ensures
        fb_write(m, a + b) == fb_write(fb_write(m, a), b),
    decreases b.len(),
{
    if b.len() == 0 {
        assert(a + b =~= a);
    } else {
        law_fb_write_concat(m, a, b.drop_last());
        assert((a + b).drop_last() =~= a + b.drop_last());
    }
}

/// Framebuffer settings for the display described by the device tree
/// (the blob carries no display node that is read, so the defaults apply).
pub fn init_framebuffer_from_dtb(blob: Option<&[u8]>) -> (r: FramebufferInfo)
    ensures
        r == default_info(),
{
    FramebufferInfo::new()
}

/// A tab moves the cursor to the next tab stop: the smallest multiple of 4
/// strictly greater than the current column. The row and the pixels stay
/// as they were.
pub proof fn law_tab_moves_to_next_stop(m: FbModel)
    requires
        0 <= m.cx,
    ensures
        fb_step(m, '\t').cx == m.cx + 4 - m.cx % 4,
        fb_step(m, '\t').cx % 4 == 0,
        m.cx < fb_step(m, '\t').cx <= m.cx + 4,
        fb_step(m, '\t').cy == m.cy,
        fb_step(m, '\t').pixels == m.pixels,
{
    vstd::arithmetic::div_mod::lemma_fundamental_div_mod(m.cx + 4, 4);
    vstd::arithmetic::div_mod::lemma_fundamental_div_mod(m.cx, 4);
    vstd::arithmetic::div_mod::lemma_mod_add_multiples_vanish(m.cx, 4);
    vstd::arithmetic::mul::lemma_mul_is_commutative(4, (m.cx + 4) / 4);
}

} // verus!
