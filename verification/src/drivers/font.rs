//! Fixed-width 8x16 text rendering for the UI.
//!
//! Every character occupies one 8x16 cell and is drawn as the block outline
//! the framebuffer console uses.
use vstd::prelude::*;
use crate::drivers::framebuffer::{Color, PIXEL_COUNT, draw_glyph, drawn_glyph};

verus! {

/// Horizontal placement of text in a box.
#[derive(Debug, Clone, Copy, PartialEq, Eq, Structural)]
pub enum TextAlign {
    Left,
    Center,
    Right,
}

/// Text renderer with fixed 8x16 cells.
pub struct FontRenderer {
    char_width: usize,
    char_height: usize,
}

/// Pixels after drawing `n` character cells side by side from (`x`, `y`).
pub open spec fn glyph_run(pixels: Seq<u32>, n: nat, x: int, y: int, fg: Color, bg: Color) -> Seq<u32>
    decreases n,
{
    if n == 0 {
        pixels
    } else {
        drawn_glyph(glyph_run(pixels, (n - 1) as nat, x, y, fg, bg), x + 8 * (n - 1), y, fg, bg)
    }
}

/// Width in pixels of a string of `n` characters.
pub open spec fn text_width(n: nat) -> int {
    (8 * n) as int
}

impl FontRenderer {
    #[verifier::type_invariant]
    closed spec fn inv(&self) -> bool {
        self.char_width == 8 && self.char_height == 16
    }

    /// Width and height of a character cell.
    pub closed spec fn cell_size(&self) -> (usize, usize) {
        (self.char_width, self.char_height)
    }

    /// The 8x16 renderer.
    pub fn new() -> (r: Self)
        ensures
            r.cell_size() == (8usize, 16usize),
    {
        FontRenderer { char_width: 8, char_height: 16 }
    }

    /// Width of a character cell.
    pub fn char_width(&self) -> (r: usize)
        ensures
            r == 8,
    {
        proof {
            use_type_invariant(self);
        }
        self.char_width
    }

    /// Height of a character cell.
    pub fn char_height(&self) -> (r: usize)
        ensures
            r == 16,
    {
        proof {
            use_type_invariant(self);
        }
        self.char_height
    }

    /// Width in pixels of `text`.
    pub fn measure_string(&self, text: &str) -> (r: usize)
        requires
            8 * text@.len() <= usize::MAX,
        ensures
            r == text_width(text@.len()),
    {
        proof {
            use_type_invariant(self);
        }
        let mut n: usize = 0;
        for c in it: text.chars()
            invariant
                it.seq() == text@,
                n == it.index(),
                8 * text@.len() <= usize::MAX,
        {
            n = n + 1;
        }
        n * self.char_width
    }

    /// Draw `text` with its first cell's top-left corner at (`x`, `y`).
    pub fn draw_string(&self, pixels: &mut Vec<u32>, text: &str, x: usize, y: usize, fg: Color, bg: Color)
        requires
            old(pixels)@.len() == PIXEL_COUNT,
            x + 8 * text@.len() + 8 <= usize::MAX,
            y + 16 <= usize::MAX,
        ensures
            final(pixels)@ == glyph_run(old(pixels)@, text@.len(), x as int, y as int, fg, bg),
            final(pixels)@.len() == PIXEL_COUNT,
    {
        proof {
            use_type_invariant(self);
        }
        let ghost before = pixels@;
        let mut cx = x;
        for c in it: text.chars()
            invariant
                it.seq() == text@,
                x + 8 * text@.len() + 8 <= usize::MAX,
                y + 16 <= usize::MAX,
                cx == x + 8 * it.index(),
                self.char_width == 8,
                pixels@ == glyph_run(before, it.index() as nat, x as int, y as int, fg, bg),
                pixels@.len() == PIXEL_COUNT,
        {
            draw_glyph(pixels, cx, y, fg, bg);
            cx = cx + self.char_width;
        }
        proof {
            law_glyph_run_len(before, text@.len(), x as int, y as int, fg, bg);
        }
    }
}

/// A run of cells leaves the buffer size unchanged.
pub proof fn law_glyph_run_len(pixels: Seq<u32>, n: nat, x: int, y: int, fg: Color, bg: Color)
    ensures
        glyph_run(pixels, n, x, y, fg, bg).len() == pixels.len(),
    decreases n,
{
    if n > 0 {
        law_glyph_run_len(pixels, (n - 1) as nat, x, y, fg, bg);
    }
}

} // verus!
