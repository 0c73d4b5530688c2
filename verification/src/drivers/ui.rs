//! UI widgets: labels, buttons, panels, sliders, checkboxes and progress
//! bars, and a screen that dispatches touch events to them.
//!
//! Widgets draw into the 1080x2400 pixel buffer of the framebuffer module;
//! pixels that fall off the screen are skipped.
use vstd::prelude::*;
use crate::drivers::font::{FontRenderer, TextAlign, glyph_run, text_width};
use crate::drivers::framebuffer::{
    Color,
    PIXEL_COUNT,
    argb,
    put_pixel,
    px_of,
    py_of,
    rgb,
};
use crate::drivers::touch::TouchEvent;

verus! {

/// UI event types.
#[derive(Debug, Clone, Copy, PartialEq, Eq, Structural)]
pub enum UIEvent {
    /// No event.
    NoEvent,
    /// x, y in screen coordinates.
    TouchDown(usize, usize),
    TouchUp(usize, usize),
    TouchMove(usize, usize),
    Click(usize, usize),
}

/// The UI event a touch event becomes: presses go down, releases up, moves
/// and multi-touch move; coordinates are reinterpreted as unsigned.
pub open spec fn ui_event_of(event: TouchEvent) -> UIEvent {
    match event {
        TouchEvent::Press(x, y) => UIEvent::TouchDown(x as usize, y as usize),
        TouchEvent::Release(x, y) => UIEvent::TouchUp(x as usize, y as usize),
        TouchEvent::Move(x, y) => UIEvent::TouchMove(x as usize, y as usize),
        TouchEvent::MultiTouch(_, x, y) => UIEvent::TouchMove(x as usize, y as usize),
        TouchEvent::NoTouch => UIEvent::NoEvent,
    }
}

impl UIEvent {
    /// Convert a touch event.
    pub fn from_touch(event: TouchEvent) -> (r: Self)
        ensures
            r == ui_event_of(event),
    {
        match event {
            TouchEvent::Press(x, y) => UIEvent::TouchDown(x as usize, y as usize),
            TouchEvent::Release(x, y) => UIEvent::TouchUp(x as usize, y as usize),
            TouchEvent::Move(x, y) => UIEvent::TouchMove(x as usize, y as usize),
            TouchEvent::MultiTouch(_, x, y) => UIEvent::TouchMove(x as usize, y as usize),
            TouchEvent::NoTouch => UIEvent::NoEvent,
        }
    }

    /// Coordinates of the event, if it has any.
    pub fn get_coords(&self) -> (r: Option<(usize, usize)>)
        ensures
            r == (match *self {
                UIEvent::TouchDown(x, y) => Some((x, y)),
                UIEvent::TouchUp(x, y) => Some((x, y)),
                UIEvent::TouchMove(x, y) => Some((x, y)),
                UIEvent::Click(x, y) => Some((x, y)),
                UIEvent::NoEvent => None,
            }),
    {
        match self {
            UIEvent::TouchDown(x, y) => Some((*x, *y)),
            UIEvent::TouchUp(x, y) => Some((*x, *y)),
            UIEvent::TouchMove(x, y) => Some((*x, *y)),
            UIEvent::Click(x, y) => Some((*x, *y)),
            UIEvent::NoEvent => None,
        }
    }
}

/// Rectangle for bounding boxes.
#[derive(Debug, Clone, Copy, PartialEq, Eq, Structural)]
pub struct Rect {
    pub x: usize,
    pub y: usize,
    pub width: usize,
    pub height: usize,
}

/// The point (`x`, `y`) lies inside `r` (left and top edges included).
pub open spec fn rect_contains(r: Rect, x: int, y: int) -> bool {
    r.x <= x < r.x + r.width && r.y <= y < r.y + r.height
}

/// The rectangle's right and bottom edges are addresses of the machine.
pub open spec fn rect_fits(r: Rect) -> bool {
    r.x + r.width <= usize::MAX && r.y + r.height <= usize::MAX
}

impl Rect {
    /// A rectangle at (`x`, `y`) of the given size.
    pub fn new(x: usize, y: usize, width: usize, height: usize) -> (r: Self)
        ensures
            r == (Rect { x, y, width, height }),
    {
        Rect { x, y, width, height }
    }

    /// Whether (`x`, `y`) is inside.
    pub fn contains(&self, x: usize, y: usize) -> (r: bool)
        requires
            x >= self.x ==> self.x + self.width <= usize::MAX,
            x >= self.x && x < self.x + self.width && y >= self.y ==> self.y + self.height
                <= usize::MAX,
        ensures
            r == rect_contains(*self, x as int, y as int),
    {
        x >= self.x && x < self.x + self.width && y >= self.y && y < self.y + self.height
    }

    /// The centre point (rounded down).
    pub fn center(&self) -> (r: (usize, usize))
        requires
            self.x + self.width / 2 <= usize::MAX,
            self.y + self.height / 2 <= usize::MAX,
        ensures
            r == ((self.x + self.width / 2) as usize, (self.y + self.height / 2) as usize),
    {
        (self.x + self.width / 2, self.y + self.height / 2)
    }
}

/// Which pixels of a rectangle a paint operation covers.
#[derive(Debug, Clone, Copy, PartialEq, Eq, Structural)]
pub enum Brush {
    /// Every pixel.
    Fill,
    /// The one-pixel outline.
    Frame,
    /// The check mark drawn inside a checkbox.
    Check,
    /// A disc of diameter `height` whose centre is `center_dx` pixels from
    /// the left edge and half the height from the top.
    Disc { center_dx: usize },
}

/// Whether `brush` covers offset (`dx`, `dy`) of a `w` x `h` rectangle.
pub open spec fn brush_covers(brush: Brush, dx: int, dy: int, w: int, h: int) -> bool {
    match brush {
        Brush::Fill => true,
        Brush::Frame => dx == 0 || dx == w - 1 || dy == 0 || dy == h - 1,
        Brush::Check => (dx >= dy / 2 && dx <= w - dy / 3) || (dy >= w / 3 && dx >= dy / 3
            && dx <= w * 2 / 3),
        Brush::Disc { center_dx } => (dx - center_dx) * (dx - center_dx) + (dy - h / 2) * (dy - h / 2) <= (h
            / 2) * (h / 2),
    }
}

/// Pixels after painting the first `rows` full rows, and `cols` columns of
/// the next row, of `r` with `brush` in `color`.
pub open spec fn paint_prefix(pixels: Seq<u32>, r: Rect, brush: Brush, color: Color, rows: int, cols: int) -> Seq<u32> {
    Seq::new(
        pixels.len(),
        |p: int|
            {
                let dx = px_of(p) - r.x;
                let dy = py_of(p) - r.y;
                if 0 <= dx < r.width && 0 <= dy && (dy < rows || (dy == rows && dx < cols)) && brush_covers(
                    brush,
                    dx,
                    dy,
                    r.width as int,
                    r.height as int,
                ) {
                    argb(color)
                } else {
                    pixels[p]
                }
            },
    )
}

/// Pixels after painting `r` with `brush` in `color`.
pub open spec fn painted(pixels: Seq<u32>, r: Rect, brush: Brush, color: Color) -> Seq<u32> {
    paint_prefix(pixels, r, brush, color, r.height as int, 0)
}

/// The pixel coordinates of every part of the rectangle are addresses of
/// the machine.
pub open spec fn rect_paintable(r: Rect) -> bool {
    r.width == 0 || r.height == 0 || (r.x + r.width - 1 <= usize::MAX && r.y + r.height - 1 <= usize::MAX)
}

fn covers(brush: Brush, dx: usize, dy: usize, w: usize, h: usize) -> (r: bool)
    requires
        dx < w,
        dy < h,
        brush is Check ==> w * 2 <= usize::MAX,
    ensures
        r == brush_covers(brush, dx as int, dy as int, w as int, h as int),
{
    match brush {
        Brush::Fill => true,
        Brush::Frame => dx == 0 || dx == w - 1 || dy == 0 || dy == h - 1,
        Brush::Check => (dx >= dy / 2 && dx <= w - dy / 3) || (dy >= w / 3 && dx >= dy / 3 && dx <= w * 2 / 3),
        Brush::Disc { center_dx } => {
            let ddx = (if dx >= center_dx { dx - center_dx } else { center_dx - dx }) as u128;
            let ddy = (if dy >= h / 2 { dy - h / 2 } else { h / 2 - dy }) as u128;
            let radius = (h / 2) as u128;
            proof {
                lemma_square_fits(ddx);
                lemma_square_fits(ddy);
                lemma_square_fits(radius);
            }
            assert((dx - center_dx) * (dx - center_dx) == ddx * ddx) by (nonlinear_arith)
                requires
                    ddx == if dx >= center_dx { dx - center_dx } else { center_dx - dx },
            ;
            assert((dy - h / 2) * (dy - h / 2) == ddy * ddy) by (nonlinear_arith)
                requires
                    ddy == if dy >= h / 2 { dy - h / 2 } else { h / 2 - dy },
            ;
            let dist_x = ddx * ddx;
            let dist_y = ddy * ddy;
            let limit = radius * radius;
            dist_x <= limit && dist_y <= limit - dist_x
        },
    }
}

/// The square of a machine word fits a `u128`.
proof fn lemma_square_fits(a: u128)
    requires
        a <= usize::MAX,
    ensures
        a * a <= u128::MAX,
{
    assert(a * a <= 0xFFFF_FFFF_FFFF_FFFFu128 * 0xFFFF_FFFF_FFFF_FFFFu128) by (nonlinear_arith)
        requires
            a <= 0xFFFF_FFFF_FFFF_FFFFu128,
    ;
}

/// Pixel `p` sits at column `px_of(p)` and row `py_of(p)`.
proof fn lemma_position(x: int, y: int)
    requires
        0 <= x < 1080,
        0 <= y,
    ensures
        px_of(y * 1080 + x) == x,
        py_of(y * 1080 + x) == y,
{
    vstd::arithmetic::div_mod::lemma_fundamental_div_mod_converse(y * 1080 + x, 1080, y, x);
}

/// Every pixel of the screen is at a column and row of the screen.
proof fn lemma_on_screen(p: int)
    requires
        0 <= p < 2592000,
    ensures
        0 <= px_of(p) < 1080,
        0 <= py_of(p) < 2400,
        p == py_of(p) * 1080 + px_of(p),
{
    vstd::arithmetic::div_mod::lemma_fundamental_div_mod(p, 1080);
}

/// Paint `rect` with `brush` in `color`, skipping pixels off the screen.
pub fn paint(pixels: &mut Vec<u32>, rect: Rect, brush: Brush, color: Color)
    requires
        old(pixels)@.len() == PIXEL_COUNT,
        rect_paintable(rect),
        brush is Check ==> rect.width * 2 <= usize::MAX,
    ensures
        final(pixels)@ == painted(old(pixels)@, rect, brush, color),
        final(pixels)@.len() == PIXEL_COUNT,
{
    let ghost before = pixels@;
    assert(pixels@ =~= paint_prefix(before, rect, brush, color, 0, 0));
    let mut dy: usize = 0;
    while dy < rect.height
        invariant
            rect_paintable(rect),
            brush is Check ==> rect.width * 2 <= usize::MAX,
            dy <= rect.height,
            before.len() == PIXEL_COUNT,
            pixels@ == paint_prefix(before, rect, brush, color, dy as int, 0),
        decreases rect.height - dy,
    {
        let mut dx: usize = 0;
        while dx < rect.width
            invariant
                rect_paintable(rect),
                brush is Check ==> rect.width * 2 <= usize::MAX,
                dy < rect.height,
                dx <= rect.width,
                before.len() == PIXEL_COUNT,
                pixels@ == paint_prefix(before, rect, brush, color, dy as int, dx as int),
            decreases rect.width - dx,
        {
            let on = covers(brush, dx, dy, rect.width, rect.height);
            let x = rect.x + dx;
            let y = rect.y + dy;
            if on {
                put_pixel(pixels, x, y, color);
            }
            proof {
                let next = paint_prefix(before, rect, brush, color, dy as int, dx + 1);
                assert forall|p: int| 0 <= p < PIXEL_COUNT implies pixels@[p] == next[p] by {
                    lemma_on_screen(p);
                    if x < 1080 && y < 2400 && p == y * 1080 + x {
                        lemma_position(x as int, y as int);
                    } else if px_of(p) - rect.x == dx && py_of(p) - rect.y == dy {
                        assert(p == y * 1080 + x);
                    }
                }
                assert(pixels@ =~= next);
            }
            dx = dx + 1;
        }
        proof {
            let a = paint_prefix(before, rect, brush, color, dy as int, rect.width as int);
            let b = paint_prefix(before, rect, brush, color, dy + 1, 0);
            assert(a =~= b);
        }
        dy = dy + 1;
    }
}

/// Painting keeps the buffer size.
pub proof fn law_painted_len(pixels: Seq<u32>, r: Rect, brush: Brush, color: Color)
    ensures
        painted(pixels, r, brush, color).len() == pixels.len(),
{
}

/// A pixel outside the rectangle keeps its value; one inside that the
/// brush covers takes the colour.
pub proof fn law_painted_pixels(pixels: Seq<u32>, r: Rect, brush: Brush, color: Color, x: int, y: int)
    requires
        pixels.len() == PIXEL_COUNT,
        0 <= x < 1080,
        0 <= y < 2400,
    ensures
        !rect_contains(r, x, y) ==> painted(pixels, r, brush, color)[y * 1080 + x] == pixels[y * 1080 + x],
        rect_contains(r, x, y) && brush_covers(brush, x - r.x, y - r.y, r.width as int, r.height as int)
            ==> painted(pixels, r, brush, color)[y * 1080 + x] == argb(color),
{
    lemma_position(x, y);
    assert(y * 1080 + x < 2592000) by (nonlinear_arith)
        requires
            0 <= x < 1080,
            0 <= y < 2400,
    ;
}

/// Common interface of the widgets a `Screen` manages.
///
/// A widget that does not describe itself (keeps the default `touchable`
/// and `drawable`) can be held by a screen, but verified code can neither
/// draw it nor hand it touches.
pub trait Widget {
    /// The widget's touch handling stays within machine arithmetic and its
    /// callbacks accept their arguments.
    open spec fn touchable(&self) -> bool {
        false
    }

    /// The widget's geometry and text allow drawing it.
    open spec fn drawable(&self) -> bool {
        false
    }

    /// The widget takes `event` (stops it from reaching widgets below).
    open spec fn consumes(&self, event: TouchEvent) -> bool {
        false
    }

    /// Bounding rectangle.
    fn bounds(&self) -> (r: Rect);

    /// The pixels after the widget has drawn itself over `pixels`.
    open spec fn drawn(&self, pixels: Seq<u32>) -> Seq<u32> {
        pixels
    }

    /// Draw into the screen's pixel buffer.
    fn draw(&self, pixels: &mut Vec<u32>, font: &FontRenderer)
        requires
            self.drawable(),
            old(pixels)@.len() == PIXEL_COUNT,
        ensures
            final(pixels)@ == self.drawn(old(pixels)@),
            final(pixels)@.len() == PIXEL_COUNT,
    ;

    /// The touch events offered to the widget so far, oldest first.
    open spec fn touches(&self) -> Seq<TouchEvent> {
        Seq::empty()
    }

    /// Handle a touch event; returns whether it was consumed.
    fn handle_touch(&mut self, event: TouchEvent) -> (r: bool)
        requires
            old(self).touchable(),
        ensures
            r == old(self).consumes(event),
            final(self).touchable(),
            final(self).touches() == old(self).touches().push(event),
    ;

    /// Whether the widget is shown.
    fn is_visible(&self) -> (r: bool)
        ensures
            r == self.is_visible_spec(),
    ;

    /// Show or hide the widget.
    fn set_visible(&mut self, visible: bool)
        requires
            old(self).touchable(),
        ensures
            final(self).touchable(),
            final(self).is_visible_spec() == visible,
            final(self).touches() == old(self).touches(),
    ;

    /// Whether the widget is shown.
    open spec fn is_visible_spec(&self) -> bool {
        false
    }
}

/// Vertical position that centres a text line in a box.
pub open spec fn text_top(r: Rect) -> int {
    r.y + (r.height - 16) / 2
}

/// Left edge of a `tw`-pixel-wide text placed in a box by `align`.
pub open spec fn text_left(r: Rect, align: TextAlign, tw: int) -> int {
    match align {
        TextAlign::Left => r.x as int,
        TextAlign::Center => r.x + (r.width - tw) / 2,
        TextAlign::Right => r.x + r.width - tw,
    }
}

/// A label of `n` characters aligned by `align` can be drawn in `r`: the
/// box is at least a text line high (and, unless left-aligned, as wide as
/// the text), and every coordinate drawn is an address of the machine.
pub open spec fn label_fits(r: Rect, align: TextAlign, n: nat) -> bool {
    let tw = text_width(n);
    &&& rect_paintable(r)
    &&& r.height >= 16
    &&& (align != TextAlign::Left ==> r.width >= tw)
    &&& r.x + r.width <= usize::MAX
    &&& r.y + r.height <= usize::MAX
    &&& text_left(r, align, tw) + tw + 8 <= usize::MAX
    &&& text_top(r) + 16 <= usize::MAX
}

/// A button with `n` characters of text can be drawn in `r`.
pub open spec fn button_fits(r: Rect, n: nat) -> bool {
    &&& label_fits(r, TextAlign::Center, n)
}

/// A checkbox in `r` (checked or not) with a label of `n` characters can
/// be drawn: its box, the check mark's square when checked, and the label
/// to the right of the box lie within the machine's addresses.
pub open spec fn checkbox_fits(r: Rect, checked: bool, n: nat) -> bool {
    &&& rect_paintable(r)
    &&& r.x + r.width <= usize::MAX
    &&& r.y + r.height <= usize::MAX
    &&& (checked ==> {
        &&& r.height >= 4
        &&& r.x + r.height <= usize::MAX
        &&& (r.height - 4) * 2 <= usize::MAX
    })
    &&& (n > 0 ==> {
        &&& r.height >= 16
        &&& r.x + r.width + 8 + text_width(n) + 8 <= usize::MAX
        &&& text_top(r) + 16 <= usize::MAX
    })
}

/// A panel can be drawn in `r`.
pub open spec fn panel_fits(r: Rect) -> bool {
    rect_paintable(r)
}

/// Label widget for displaying text.
pub struct Label {
    rect: Rect,
    text: &'static str,
    fg_color: Color,
    bg_color: Color,
    align: TextAlign,
    visible: bool,
    history: Ghost<Seq<TouchEvent>>,
}

impl Label {
    /// A white-on-black, left-aligned, visible label.
    pub fn new(text: &'static str, x: usize, y: usize, width: usize, height: usize) -> (r: Self)
        ensures
            r.rect() == (Rect { x, y, width, height }),
            r.text()@ == text@,
            r.fg() == rgb(255, 255, 255),
            r.bg() == rgb(0, 0, 0),
            r.align() == TextAlign::Left,
            r.is_visible_spec(),
    {
        Label {
            rect: Rect::new(x, y, width, height),
            text,
            fg_color: Color::white(),
            bg_color: Color::black(),
            align: TextAlign::Left,
            visible: true,
            history: Ghost(Seq::empty()),
        }
    }

    pub closed spec fn rect(&self) -> Rect {
        self.rect
    }

    pub closed spec fn text(&self) -> &'static str {
        self.text
    }

    pub closed spec fn fg(&self) -> Color {
        self.fg_color
    }

    pub closed spec fn bg(&self) -> Color {
        self.bg_color
    }

    pub closed spec fn align(&self) -> TextAlign {
        self.align
    }

    /// Replace the text.
    pub fn set_text(&mut self, text: &'static str)
        ensures
            final(self).text()@ == text@,
            final(self).rect() == old(self).rect(),
            final(self).fg() == old(self).fg(),
            final(self).bg() == old(self).bg(),
            final(self).align() == old(self).align(),
            final(self).is_visible_spec() == old(self).is_visible_spec(),
    {
        self.text = text;
    }

    /// Set the text and background colours.
    pub fn set_colors(&mut self, fg: Color, bg: Color)
        ensures
            final(self).fg() == fg,
            final(self).bg() == bg,
            final(self).rect() == old(self).rect(),
            final(self).text() == old(self).text(),
            final(self).align() == old(self).align(),
            final(self).is_visible_spec() == old(self).is_visible_spec(),
    {
        self.fg_color = fg;
        self.bg_color = bg;
    }

    /// Set the text alignment.
    pub fn set_align(&mut self, align: TextAlign)
        ensures
            final(self).align() == align,
            final(self).rect() == old(self).rect(),
            final(self).text() == old(self).text(),
            final(self).fg() == old(self).fg(),
            final(self).bg() == old(self).bg(),
            final(self).is_visible_spec() == old(self).is_visible_spec(),
    {
        self.align = align;
    }

    /// The label after `event` has been offered to it.
    pub closed spec fn with_touch(&self, event: TouchEvent) -> Self {
        Label { history: Ghost(self.history@.push(event)), ..*self }
    }

    /// Where the text goes.
    pub closed spec fn text_origin(&self) -> (int, int) {
        (text_left(self.rect, self.align, text_width(self.text@.len())), text_top(self.rect))
    }

}

impl Widget for Label {
    closed spec fn touches(&self) -> Seq<TouchEvent> {
        self.history@
    }

    /// Pixels of the label drawn over `pixels`: the background, then the
    /// text at its aligned position.
    closed spec fn drawn(&self, pixels: Seq<u32>) -> Seq<u32> {
        if !self.visible {
            pixels
        } else {
            glyph_run(
                painted(pixels, self.rect, Brush::Fill, self.bg_color),
                self.text@.len(),
                self.text_origin().0,
                self.text_origin().1,
                self.fg_color,
                self.bg_color,
            )
        }
    }

    closed spec fn touchable(&self) -> bool {
        true
    }

    closed spec fn drawable(&self) -> bool {
        !self.visible || label_fits(self.rect, self.align, self.text@.len())
    }

    closed spec fn consumes(&self, event: TouchEvent) -> bool {
        false
    }

    closed spec fn is_visible_spec(&self) -> bool {
        self.visible
    }

    fn bounds(&self) -> (r: Rect)
        ensures
            r == self.rect(),
    {
        self.rect
    }

    fn draw(&self, pixels: &mut Vec<u32>, font: &FontRenderer) {
        if !self.visible {
            return;
        }
        paint(pixels, self.rect, Brush::Fill, self.bg_color);
        let text_width = font.measure_string(self.text);
        let char_height = font.char_height();
        let (text_x, text_y) = match self.align {
            TextAlign::Left => (self.rect.x, self.rect.y + (self.rect.height - char_height) / 2),
            TextAlign::Center => (
                self.rect.x + (self.rect.width - text_width) / 2,
                self.rect.y + (self.rect.height - char_height) / 2,
            ),
            TextAlign::Right => (
                self.rect.x + self.rect.width - text_width,
                self.rect.y + (self.rect.height - char_height) / 2,
            ),
        };
        font.draw_string(pixels, self.text, text_x, text_y, self.fg_color, self.bg_color);
    }

    fn handle_touch(&mut self, event: TouchEvent) -> (r: bool)
        ensures
            *final(self) == old(self).with_touch(event),
    {
        proof {
            self.history@ = self.history@.push(event);
        }
        false
    }

    fn is_visible(&self) -> (r: bool)
        ensures
            r == self.is_visible_spec(),
    {
        self.visible
    }

    fn set_visible(&mut self, visible: bool)
        ensures
            final(self).rect() == old(self).rect(),
            final(self).text() == old(self).text(),
            final(self).fg() == old(self).fg(),
            final(self).bg() == old(self).bg(),
            final(self).align() == old(self).align(),
    {
        self.visible = visible;
    }
}

/// Button widget. `F` is the type of its click callback.
pub struct Button<F> {
    rect: Rect,
    text: &'static str,
    normal_bg: Color,
    pressed_bg: Color,
    fg_color: Color,
    visible: bool,
    is_pressed: bool,
    on_click: Option<F>,
    history: Ghost<Seq<TouchEvent>>,
}

/// Whether a touch at the event's coordinates lands in `r`.
pub open spec fn touch_in(r: Rect, x: i32, y: i32) -> bool {
    rect_contains(r, (x as usize) as int, (y as usize) as int)
}

impl<F> Button<F> {
    /// A visible, released button, white text on blue (dark gray while
    /// pressed), without callback.
    pub fn new(text: &'static str, x: usize, y: usize, width: usize, height: usize) -> (r: Self)
        ensures
            r.rect() == (Rect { x, y, width, height }),
            r.text()@ == text@,
            r.normal_bg() == rgb(0, 0, 255),
            r.pressed_bg() == rgb(64, 64, 64),
            r.fg() == rgb(255, 255, 255),
            r.visible(),
            !r.pressed(),
            r.on_click() is None,
    {
        Button {
            rect: Rect::new(x, y, width, height),
            text,
            normal_bg: Color::blue(),
            pressed_bg: Color::dark_gray(),
            fg_color: Color::white(),
            visible: true,
            is_pressed: false,
            on_click: None,
            history: Ghost(Seq::empty()),
        }
    }

    pub closed spec fn rect(&self) -> Rect {
        self.rect
    }

    pub closed spec fn text(&self) -> &'static str {
        self.text
    }

    pub closed spec fn normal_bg(&self) -> Color {
        self.normal_bg
    }

    pub closed spec fn pressed_bg(&self) -> Color {
        self.pressed_bg
    }

    pub closed spec fn fg(&self) -> Color {
        self.fg_color
    }

    pub closed spec fn visible(&self) -> bool {
        self.visible
    }

    pub closed spec fn pressed(&self) -> bool {
        self.is_pressed
    }

    pub closed spec fn on_click(&self) -> Option<F> {
        self.on_click
    }

    /// The button with only its pressed state changed.
    pub closed spec fn with_pressed(&self, pressed: bool) -> Self {
        Button { is_pressed: pressed, ..*self }
    }

    /// The button with `event` added to the touches offered to it.
    pub closed spec fn with_touch(&self, event: TouchEvent) -> Self {
        Button { history: Ghost(self.history@.push(event)), ..*self }
    }

    /// Pressed state after handling `event`: a press, move or multi-touch
    /// inside presses it, any release lets it go, anything else leaves it.
    pub open spec fn pressed_after(&self, event: TouchEvent) -> bool {
        match event {
            TouchEvent::Press(x, y) => touch_in(self.rect(), x, y) || self.pressed(),
            TouchEvent::Move(x, y) => touch_in(self.rect(), x, y) || self.pressed(),
            TouchEvent::MultiTouch(_, x, y) => touch_in(self.rect(), x, y) || self.pressed(),
            TouchEvent::Release(_, _) => false,
            TouchEvent::NoTouch => self.pressed(),
        }
    }

    /// The button takes `event`: a press, move or multi-touch inside it, or
    /// a click.
    pub open spec fn takes(&self, event: TouchEvent) -> bool {
        match event {
            TouchEvent::Press(x, y) => touch_in(self.rect(), x, y),
            TouchEvent::Move(x, y) => touch_in(self.rect(), x, y),
            TouchEvent::MultiTouch(_, x, y) => touch_in(self.rect(), x, y),
            TouchEvent::Release(x, y) => self.pressed() && touch_in(self.rect(), x, y),
            TouchEvent::NoTouch => false,
        }
    }

    /// The button is clicked by `event`: released inside while pressed.
    pub open spec fn clicked_by(&self, event: TouchEvent) -> bool {
        event matches TouchEvent::Release(x, y) && self.pressed() && touch_in(self.rect(), x, y)
    }

    /// Set the click callback.
    pub fn set_on_click(&mut self, callback: F)
        ensures
            final(self).on_click() == Some(callback),
            final(self).rect() == old(self).rect(),
            final(self).text() == old(self).text(),
            final(self).normal_bg() == old(self).normal_bg(),
            final(self).pressed_bg() == old(self).pressed_bg(),
            final(self).fg() == old(self).fg(),
            final(self).visible() == old(self).visible(),
            final(self).pressed() == old(self).pressed(),
    {
        self.on_click = Some(callback);
    }

    /// Set the normal background, pressed background and text colours.
    pub fn set_colors(&mut self, normal: Color, pressed: Color, fg: Color)
        ensures
            final(self).normal_bg() == normal,
            final(self).pressed_bg() == pressed,
            final(self).fg() == fg,
            final(self).rect() == old(self).rect(),
            final(self).text() == old(self).text(),
            final(self).visible() == old(self).visible(),
            final(self).pressed() == old(self).pressed(),
            final(self).on_click() == old(self).on_click(),
    {
        self.normal_bg = normal;
        self.pressed_bg = pressed;
        self.fg_color = fg;
    }

    /// Whether the button is held down.
    pub fn is_pressed(&self) -> (r: bool)
        ensures
            r == self.pressed(),
    {
        self.is_pressed
    }

    /// Background colour for the current state.
    pub closed spec fn current_bg(&self) -> Color {
        if self.is_pressed {
            self.pressed_bg
        } else {
            self.normal_bg
        }
    }

}

impl<F: Fn()> Widget for Button<F> {
    closed spec fn touches(&self) -> Seq<TouchEvent> {
        self.history@
    }

    /// Pixels of the button drawn over `pixels`: background, gray outline,
    /// then the text centred.
    closed spec fn drawn(&self, pixels: Seq<u32>) -> Seq<u32> {
        if !self.visible {
            pixels
        } else {
            let tw = text_width(self.text@.len());
            glyph_run(
                painted(painted(pixels, self.rect, Brush::Fill, self.current_bg()), self.rect, Brush::Frame, rgb(128, 128, 128)),
                self.text@.len(),
                text_left(self.rect, TextAlign::Center, tw),
                text_top(self.rect),
                self.fg_color,
                self.current_bg(),
            )
        }
    }

    closed spec fn touchable(&self) -> bool {
        &&& rect_fits(self.rect)
        &&& (self.on_click matches Some(f) ==> f.requires(()))
    }

    closed spec fn drawable(&self) -> bool {
        !self.visible || button_fits(self.rect, self.text@.len())
    }

    closed spec fn consumes(&self, event: TouchEvent) -> bool {
        self.takes(event)
    }

    closed spec fn is_visible_spec(&self) -> bool {
        self.visible
    }

    fn bounds(&self) -> (r: Rect)
        ensures
            r == self.rect(),
    {
        self.rect
    }

    fn draw(&self, pixels: &mut Vec<u32>, font: &FontRenderer) {
        if !self.visible {
            return;
        }
        let bg = if self.is_pressed { self.pressed_bg } else { self.normal_bg };
        paint(pixels, self.rect, Brush::Fill, bg);
        paint(pixels, self.rect, Brush::Frame, Color::gray());
        let text_width = font.measure_string(self.text);
        let text_x = self.rect.x + (self.rect.width - text_width) / 2;
        let text_y = self.rect.y + (self.rect.height - font.char_height()) / 2;
        font.draw_string(pixels, self.text, text_x, text_y, self.fg_color, bg);
    }

    /// Presses, moves and multi-touch inside press the button; a release
    /// inside a pressed button clicks it (running the callback); any other
    /// release lets it go unconsumed.
    fn handle_touch(&mut self, event: TouchEvent) -> (r: bool)
        ensures
            *final(self) == old(self).with_pressed(old(self).pressed_after(event)).with_touch(event),
            r == old(self).takes(event),
            final(self).pressed() == old(self).pressed_after(event),
            old(self).clicked_by(event) ==> (old(self).on_click() matches Some(f) ==> call_ensures(f, (), ())),
    {
        proof {
            self.history@ = self.history@.push(event);
        }
        match event {
            TouchEvent::Press(x, y) | TouchEvent::Move(x, y) | TouchEvent::MultiTouch(_, x, y) => {
                if self.rect.contains(x as usize, y as usize) {
                    self.is_pressed = true;
                    return true;
                }
            },
            TouchEvent::Release(x, y) => {
                if self.is_pressed && self.rect.contains(x as usize, y as usize) {
                    self.is_pressed = false;
                    if let Some(callback) = &self.on_click {
                        callback();
                    }
                    return true;
                }
                self.is_pressed = false;
            },
            _ => {},
        }
        false
    }

    fn is_visible(&self) -> (r: bool)
        ensures
            r == self.visible(),
    {
        self.visible
    }

    fn set_visible(&mut self, visible: bool)
        ensures
            final(self).visible() == visible,
            final(self).rect() == old(self).rect(),
            final(self).text() == old(self).text(),
            final(self).normal_bg() == old(self).normal_bg(),
            final(self).pressed_bg() == old(self).pressed_bg(),
            final(self).fg() == old(self).fg(),
            final(self).pressed() == old(self).pressed(),
            final(self).on_click() == old(self).on_click(),
    {
        self.visible = visible;
    }
}

/// Panel widget for grouping other widgets.
pub struct Panel {
    rect: Rect,
    bg_color: Color,
    border_color: Color,
    has_border: bool,
    visible: bool,
    history: Ghost<Seq<TouchEvent>>,
}

impl Panel {
    /// A visible black panel with a gray border.
    pub fn new(x: usize, y: usize, width: usize, height: usize) -> (r: Self)
        ensures
            r.rect() == (Rect { x, y, width, height }),
            r.bg() == rgb(0, 0, 0),
            r.border() == rgb(128, 128, 128),
            r.has_border(),
            r.visible(),
    {
        Panel {
            rect: Rect::new(x, y, width, height),
            bg_color: Color::black(),
            border_color: Color::gray(),
            has_border: true,
            visible: true,
            history: Ghost(Seq::empty()),
        }
    }

    pub closed spec fn rect(&self) -> Rect {
        self.rect
    }

    pub closed spec fn bg(&self) -> Color {
        self.bg_color
    }

    pub closed spec fn border(&self) -> Color {
        self.border_color
    }

    pub closed spec fn has_border(&self) -> bool {
        self.has_border
    }

    pub closed spec fn visible(&self) -> bool {
        self.visible
    }

    /// Set the background and border colours.
    pub fn set_colors(&mut self, bg: Color, border: Color)
        ensures
            final(self).bg() == bg,
            final(self).border() == border,
            final(self).rect() == old(self).rect(),
            final(self).has_border() == old(self).has_border(),
            final(self).visible() == old(self).visible(),
    {
        self.bg_color = bg;
        self.border_color = border;
    }

    /// Show or hide the border.
    pub fn set_has_border(&mut self, has_border: bool)
        ensures
            final(self).has_border() == has_border,
            final(self).rect() == old(self).rect(),
            final(self).bg() == old(self).bg(),
            final(self).border() == old(self).border(),
            final(self).visible() == old(self).visible(),
    {
        self.has_border = has_border;
    }

}

impl Panel {
    /// The panel after `event` has been offered to it.
    pub closed spec fn with_touch(&self, event: TouchEvent) -> Self {
        Panel { history: Ghost(self.history@.push(event)), ..*self }
    }
}

impl Widget for Panel {
    closed spec fn touches(&self) -> Seq<TouchEvent> {
        self.history@
    }

    /// Pixels of the panel drawn over `pixels`: background, then the border
    /// if it has one.
    closed spec fn drawn(&self, pixels: Seq<u32>) -> Seq<u32> {
        if !self.visible {
            pixels
        } else if self.has_border {
            painted(painted(pixels, self.rect, Brush::Fill, self.bg_color), self.rect, Brush::Frame, self.border_color)
        } else {
            painted(pixels, self.rect, Brush::Fill, self.bg_color)
        }
    }

    closed spec fn touchable(&self) -> bool {
        true
    }

    closed spec fn drawable(&self) -> bool {
        !self.visible || panel_fits(self.rect)
    }

    closed spec fn consumes(&self, event: TouchEvent) -> bool {
        false
    }

    closed spec fn is_visible_spec(&self) -> bool {
        self.visible
    }

    fn bounds(&self) -> (r: Rect)
        ensures
            r == self.rect(),
    {
        self.rect
    }

    fn draw(&self, pixels: &mut Vec<u32>, font: &FontRenderer) {
        if !self.visible {
            return;
        }
        paint(pixels, self.rect, Brush::Fill, self.bg_color);
        if self.has_border {
            paint(pixels, self.rect, Brush::Frame, self.border_color);
        }
    }

    fn handle_touch(&mut self, event: TouchEvent) -> (r: bool)
        ensures
            *final(self) == old(self).with_touch(event),
    {
        proof {
            self.history@ = self.history@.push(event);
        }
        false
    }

    fn is_visible(&self) -> (r: bool)
        ensures
            r == self.visible(),
    {
        self.visible
    }

    fn set_visible(&mut self, visible: bool)
        ensures
            final(self).visible() == visible,
            final(self).rect() == old(self).rect(),
            final(self).bg() == old(self).bg(),
            final(self).border() == old(self).border(),
            final(self).has_border() == old(self).has_border(),
    {
        self.visible = visible;
    }
}

/// Checkbox widget for boolean selection. `F` is the type of its toggle
/// callback.
pub struct Checkbox<F> {
    rect: Rect,
    label: &'static str,
    checked: bool,
    check_color: Color,
    bg_color: Color,
    label_color: Color,
    visible: bool,
    on_toggle: Option<F>,
    history: Ghost<Seq<TouchEvent>>,
}

impl<F> Checkbox<F> {
    /// A visible, unchecked `size` x `size` box: white mark and label on
    /// dark gray, without callback.
    pub fn new(label: &'static str, x: usize, y: usize, size: usize) -> (r: Self)
        ensures
            r.rect() == (Rect { x, y, width: size, height: size }),
            r.label()@ == label@,
            !r.checked(),
            r.check_color() == rgb(255, 255, 255),
            r.bg() == rgb(64, 64, 64),
            r.label_color() == rgb(255, 255, 255),
            r.visible(),
            r.on_toggle() is None,
    {
        Checkbox {
            rect: Rect::new(x, y, size, size),
            label,
            checked: false,
            check_color: Color::white(),
            bg_color: Color::dark_gray(),
            label_color: Color::white(),
            visible: true,
            on_toggle: None,
            history: Ghost(Seq::empty()),
        }
    }

    pub closed spec fn rect(&self) -> Rect {
        self.rect
    }

    pub closed spec fn label(&self) -> &'static str {
        self.label
    }

    pub closed spec fn checked(&self) -> bool {
        self.checked
    }

    pub closed spec fn check_color(&self) -> Color {
        self.check_color
    }

    pub closed spec fn bg(&self) -> Color {
        self.bg_color
    }

    pub closed spec fn label_color(&self) -> Color {
        self.label_color
    }

    pub closed spec fn visible(&self) -> bool {
        self.visible
    }

    pub closed spec fn on_toggle(&self) -> Option<F> {
        self.on_toggle
    }

    /// The checkbox with only its checked state changed.
    pub closed spec fn with_checked(&self, checked: bool) -> Self {
        Checkbox { checked, ..*self }
    }

    /// The checkbox with `event` added to the touches offered to it.
    pub closed spec fn with_touch(&self, event: TouchEvent) -> Self {
        Checkbox { history: Ghost(self.history@.push(event)), ..*self }
    }

    /// The checkbox is toggled by `event`: a release inside the box.
    pub open spec fn toggled_by(&self, event: TouchEvent) -> bool {
        event matches TouchEvent::Release(x, y) && touch_in(self.rect(), x, y)
    }

    /// Check or uncheck.
    pub fn set_checked(&mut self, checked: bool)
        ensures
            *final(self) == old(self).with_checked(checked),
            final(self).checked() == checked,
            final(self).rect() == old(self).rect(),
            final(self).label() == old(self).label(),
            final(self).check_color() == old(self).check_color(),
            final(self).bg() == old(self).bg(),
            final(self).label_color() == old(self).label_color(),
            final(self).visible() == old(self).visible(),
            final(self).on_toggle() == old(self).on_toggle(),
    {
        self.checked = checked;
    }

    /// Whether the box is checked.
    pub fn is_checked(&self) -> (r: bool)
        ensures
            r == self.checked(),
    {
        self.checked
    }

    /// Set the mark, box and label colours.
    pub fn set_colors(&mut self, check: Color, bg: Color, label: Color)
        ensures
            final(self).check_color() == check,
            final(self).bg() == bg,
            final(self).label_color() == label,
            final(self).rect() == old(self).rect(),
            final(self).label() == old(self).label(),
            final(self).checked() == old(self).checked(),
            final(self).visible() == old(self).visible(),
            final(self).on_toggle() == old(self).on_toggle(),
    {
        self.check_color = check;
        self.bg_color = bg;
        self.label_color = label;
    }

    /// Set or remove the toggle callback.
    pub fn set_on_toggle(&mut self, callback: Option<F>)
        ensures
            final(self).on_toggle() == callback,
            final(self).rect() == old(self).rect(),
            final(self).label() == old(self).label(),
            final(self).checked() == old(self).checked(),
            final(self).check_color() == old(self).check_color(),
            final(self).bg() == old(self).bg(),
            final(self).label_color() == old(self).label_color(),
            final(self).visible() == old(self).visible(),
    {
        self.on_toggle = callback;
    }

    /// Bounding box including the label, 8 pixels to the right of the box.
    pub fn full_bounds(&self, font: &FontRenderer) -> (r: Rect)
        requires
            8 * self.label()@.len() <= usize::MAX,
            self.rect().width + text_width(self.label()@.len()) + 8 <= usize::MAX,
        ensures
            r == (Rect {
                x: self.rect().x,
                y: self.rect().y,
                width: (self.rect().width + text_width(self.label()@.len()) + 8) as usize,
                height: if self.rect().height >= 16 { self.rect().height } else { 16 },
            }),
    {
        let label_width = font.measure_string(self.label);
        let total_width = self.rect.width + label_width + 8;
        let char_height = font.char_height();
        let height = if self.rect.height >= char_height { self.rect.height } else { char_height };
        Rect::new(self.rect.x, self.rect.y, total_width, height)
    }

    /// The square the check mark is drawn in.
    pub open spec fn check_area(&self) -> Rect {
        Rect {
            x: (self.rect().x + 2) as usize,
            y: (self.rect().y + 2) as usize,
            width: (self.rect().height - 4) as usize,
            height: (self.rect().height - 4) as usize,
        }
    }

}

impl<F: Fn(bool)> Widget for Checkbox<F> {
    closed spec fn touches(&self) -> Seq<TouchEvent> {
        self.history@
    }

    /// Pixels of the checkbox drawn over `pixels`: the box with a border in
    /// the label colour, the mark if checked, then the label on black to the
    /// right of the box.
    closed spec fn drawn(&self, pixels: Seq<u32>) -> Seq<u32> {
        if !self.visible {
            pixels
        } else {
            let boxed = painted(painted(pixels, self.rect, Brush::Fill, self.bg_color), self.rect, Brush::Frame, self.label_color);
            let marked = if self.checked {
                painted(boxed, self.check_area(), Brush::Check, self.check_color)
            } else {
                boxed
            };
            if self.label@.len() > 0 {
                glyph_run(
                    marked,
                    self.label@.len(),
                    self.rect.x + self.rect.width + 8,
                    text_top(self.rect),
                    self.label_color,
                    rgb(0, 0, 0),
                )
            } else {
                marked
            }
        }
    }

    closed spec fn touchable(&self) -> bool {
        &&& rect_fits(self.rect)
        &&& (self.on_toggle matches Some(f) ==> forall|b: bool| f.requires((b,)))
    }

    closed spec fn drawable(&self) -> bool {
        !self.visible || checkbox_fits(self.rect, self.checked, self.label@.len())
    }

    closed spec fn consumes(&self, event: TouchEvent) -> bool {
        self.toggled_by(event)
    }

    closed spec fn is_visible_spec(&self) -> bool {
        self.visible
    }

    fn bounds(&self) -> (r: Rect)
        ensures
            r == self.rect(),
    {
        self.rect
    }

    fn draw(&self, pixels: &mut Vec<u32>, font: &FontRenderer) {
        if !self.visible {
            return;
        }
        paint(pixels, self.rect, Brush::Fill, self.bg_color);
        paint(pixels, self.rect, Brush::Frame, self.label_color);
        if self.checked {
            let margin: usize = 2;
            let check_size = self.rect.height - 2 * margin;
            let area = Rect::new(self.rect.x + margin, self.rect.y + margin, check_size, check_size);
            paint(pixels, area, Brush::Check, self.check_color);
        }
        if !self.label.is_empty() {
            let label_x = self.rect.x + self.rect.width + 8;
            let label_y = self.rect.y + (self.rect.height - font.char_height()) / 2;
            font.draw_string(pixels, self.label, label_x, label_y, self.label_color, Color::black());
        }
    }

    /// A release inside the box toggles it and runs the callback with the
    /// new state.
    fn handle_touch(&mut self, event: TouchEvent) -> (r: bool)
        ensures
            *final(self) == (if old(self).toggled_by(event) {
                old(self).with_checked(!old(self).checked())
            } else {
                *old(self)
            }).with_touch(event),
            r == old(self).toggled_by(event),
            final(self).checked() == (old(self).checked() != old(self).toggled_by(event)),
            old(self).toggled_by(event) ==> (old(self).on_toggle() matches Some(f) ==> call_ensures(
                f,
                (final(self).checked(),),
                (),
            )),
    {
        proof {
            self.history@ = self.history@.push(event);
        }
        if let TouchEvent::Release(x, y) = event {
            if self.rect.contains(x as usize, y as usize) {
                self.checked = !self.checked;
                if let Some(callback) = &self.on_toggle {
                    callback(self.checked);
                }
                return true;
            }
        }
        false
    }

    fn is_visible(&self) -> (r: bool)
        ensures
            r == self.visible(),
    {
        self.visible
    }

    fn set_visible(&mut self, visible: bool)
        ensures
            final(self).visible() == visible,
            final(self).rect() == old(self).rect(),
            final(self).label() == old(self).label(),
            final(self).checked() == old(self).checked(),
            final(self).check_color() == old(self).check_color(),
            final(self).bg() == old(self).bg(),
            final(self).label_color() == old(self).label_color(),
            final(self).on_toggle() == old(self).on_toggle(),
    {
        self.visible = visible;
    }
}

/// When a label can be drawn.
pub proof fn lemma_label_drawable(l: &Label)
    ensures
        l.drawable() == (!l.is_visible_spec() || label_fits(l.rect(), l.align(), l.text()@.len())),
{
}

/// When a button can be drawn.
pub proof fn lemma_button_drawable<F: Fn()>(b: &Button<F>)
    ensures
        b.drawable() == (!b.visible() || button_fits(b.rect(), b.text()@.len())),
{
}

/// When a panel can be drawn.
pub proof fn lemma_panel_drawable(p: &Panel)
    ensures
        p.drawable() == (!p.visible() || panel_fits(p.rect())),
{
}

/// What a label's widget interface means: it accepts every touch without
/// taking any, and draws its background and then its aligned text.
pub proof fn lemma_label_widget(l: &Label, pixels: Seq<u32>, event: TouchEvent)
    ensures
        l.touchable(),
        !l.consumes(event),
        l.drawn(pixels) == (if !l.is_visible_spec() {
            pixels
        } else {
            glyph_run(
                painted(pixels, l.rect(), Brush::Fill, l.bg()),
                l.text()@.len(),
                text_left(l.rect(), l.align(), text_width(l.text()@.len())),
                text_top(l.rect()),
                l.fg(),
                l.bg(),
            )
        }),
{
}

/// What a button's widget interface means: touches are accepted when its
/// edges are machine addresses and its callback takes no arguments; it
/// takes presses, moves and clicks inside it; it draws its background for
/// the current state, a gray outline, then its centred text.
pub proof fn lemma_button_widget<F: Fn()>(b: &Button<F>, pixels: Seq<u32>, event: TouchEvent)
    ensures
        b.touchable() == (rect_fits(b.rect()) && (b.on_click() matches Some(f) ==> f.requires(()))),
        b.consumes(event) == b.takes(event),
        b.is_visible_spec() == b.visible(),
        b.drawn(pixels) == (if !b.visible() {
            pixels
        } else {
            glyph_run(
                painted(
                    painted(pixels, b.rect(), Brush::Fill, if b.pressed() { b.pressed_bg() } else { b.normal_bg() }),
                    b.rect(),
                    Brush::Frame,
                    rgb(128, 128, 128),
                ),
                b.text()@.len(),
                text_left(b.rect(), TextAlign::Center, text_width(b.text()@.len())),
                text_top(b.rect()),
                b.fg(),
                if b.pressed() { b.pressed_bg() } else { b.normal_bg() },
            )
        }),
{
}

/// What a panel's widget interface means: it accepts every touch without
/// taking any, and draws its background and, if it has one, its border.
pub proof fn lemma_panel_widget(p: &Panel, pixels: Seq<u32>, event: TouchEvent)
    ensures
        p.touchable(),
        !p.consumes(event),
        p.is_visible_spec() == p.visible(),
        p.drawn(pixels) == (if !p.visible() {
            pixels
        } else if p.has_border() {
            painted(painted(pixels, p.rect(), Brush::Fill, p.bg()), p.rect(), Brush::Frame, p.border())
        } else {
            painted(pixels, p.rect(), Brush::Fill, p.bg())
        }),
{
}

/// What a checkbox's widget interface means: touches are accepted when its
/// edges are machine addresses and its callback takes any state; it takes
/// releases inside it; it can be drawn when `checkbox_fits`; it draws the
/// outlined box, the mark when checked, then the label on black.
pub proof fn lemma_checkbox_widget<F: Fn(bool)>(c: &Checkbox<F>, pixels: Seq<u32>, event: TouchEvent)
    ensures
        c.touchable() == (rect_fits(c.rect()) && (c.on_toggle() matches Some(f) ==> forall|v: bool| f.requires((v,)))),
        c.consumes(event) == c.toggled_by(event),
        c.is_visible_spec() == c.visible(),
        c.drawable() == (!c.visible() || checkbox_fits(c.rect(), c.checked(), c.label()@.len())),
        c.drawn(pixels) == (if !c.visible() {
            pixels
        } else {
            let boxed = painted(painted(pixels, c.rect(), Brush::Fill, c.bg()), c.rect(), Brush::Frame, c.label_color());
            let marked = if c.checked() {
                painted(boxed, c.check_area(), Brush::Check, c.check_color())
            } else {
                boxed
            };
            if c.label()@.len() > 0 {
                glyph_run(
                    marked,
                    c.label()@.len(),
                    c.rect().x + c.rect().width + 8,
                    text_top(c.rect()),
                    c.label_color(),
                    rgb(0, 0, 0),
                )
            } else {
                marked
            }
        }),
{
}

/// What a progress bar draws: its background, the first `fill_width`
/// columns in the fill colour, then its border if it has one.
pub proof fn lemma_progress_bar_drawn(p: &ProgressBar, pixels: Seq<u32>, fill_width: usize)
    ensures
        p.drawn(pixels, fill_width) == (if !p.visible() {
            pixels
        } else {
            let filled = painted(
                painted(pixels, p.rect(), Brush::Fill, p.bg()),
                Rect { width: fill_width, ..p.rect() },
                Brush::Fill,
                p.fill(),
            );
            if p.has_border() {
                painted(filled, p.rect(), Brush::Frame, p.border())
            } else {
                filled
            }
        }),
{
}

/// What a slider draws: its track band in the track colour, and its thumb
/// as a disc in the thumb colour.
pub proof fn lemma_slider_drawn<F>(s: &Slider<F>, pixels: Seq<u32>, thumb_x: usize)
    ensures
        s.track_drawn(pixels) == (if !s.visible() {
            pixels
        } else {
            painted(pixels, s.track_band(), Brush::Fill, s.track())
        }),
        s.thumb_drawn(pixels, thumb_x) == (if !s.visible() {
            pixels
        } else {
            painted(
                pixels,
                s.thumb_box(thumb_x),
                Brush::Disc { center_dx: (thumb_x - s.thumb_box(thumb_x).x) as usize },
                s.thumb(),
            )
        }),
{
}

/// `value` moved up to `lo` if below it, else down to `hi` if above it
/// (so limited to `[lo, hi]` when `lo <= hi`).
pub open spec fn clamp_i32(value: i32, lo: i32, hi: i32) -> i32 {
    if value < lo {
        lo
    } else if value > hi {
        hi
    } else {
        value
    }
}

fn clamp_value(value: i32, lo: i32, hi: i32) -> (r: i32)
    requires
        lo <= hi,
    ensures
        r == clamp_i32(value, lo, hi),
{
    if value < lo {
        lo
    } else if value > hi {
        hi
    } else {
        value
    }
}

/// Progress bar widget for showing progress.
pub struct ProgressBar {
    rect: Rect,
    min_value: i32,
    max_value: i32,
    current_value: i32,
    bg_color: Color,
    fill_color: Color,
    border_color: Color,
    has_border: bool,
    visible: bool,
}

impl ProgressBar {
    /// A visible bar over 0..100 at 0: green fill on dark gray, gray border.
    pub fn new(x: usize, y: usize, width: usize, height: usize) -> (r: Self)
        ensures
            r.rect() == (Rect { x, y, width, height }),
            r.min() == 0,
            r.max() == 100,
            r.value() == 0,
            r.bg() == rgb(64, 64, 64),
            r.fill() == rgb(0, 255, 0),
            r.border() == rgb(128, 128, 128),
            r.has_border(),
            r.visible(),
    {
        ProgressBar {
            rect: Rect::new(x, y, width, height),
            min_value: 0,
            max_value: 100,
            current_value: 0,
            bg_color: Color::dark_gray(),
            fill_color: Color::green(),
            border_color: Color::gray(),
            has_border: true,
            visible: true,
        }
    }

    pub closed spec fn rect(&self) -> Rect {
        self.rect
    }

    pub closed spec fn min(&self) -> i32 {
        self.min_value
    }

    pub closed spec fn max(&self) -> i32 {
        self.max_value
    }

    pub closed spec fn value(&self) -> i32 {
        self.current_value
    }

    pub closed spec fn bg(&self) -> Color {
        self.bg_color
    }

    pub closed spec fn fill(&self) -> Color {
        self.fill_color
    }

    pub closed spec fn border(&self) -> Color {
        self.border_color
    }

    pub closed spec fn has_border(&self) -> bool {
        self.has_border
    }

    pub closed spec fn visible(&self) -> bool {
        self.visible
    }

    /// Set the range; the value is pulled into it.
    pub fn set_range(&mut self, min: i32, max: i32)
        ensures
            final(self).min() == min,
            final(self).max() == max,
            final(self).value() == clamp_i32(old(self).value(), min, max),
            final(self).rect() == old(self).rect(),
            final(self).bg() == old(self).bg(),
            final(self).fill() == old(self).fill(),
            final(self).border() == old(self).border(),
            final(self).has_border() == old(self).has_border(),
            final(self).visible() == old(self).visible(),
    {
        self.min_value = min;
        self.max_value = max;
        if self.current_value < min {
            self.current_value = min;
        } else if self.current_value > max {
            self.current_value = max;
        }
    }

    /// Set the value, clamped to the range.
    pub fn set_value(&mut self, value: i32)
        requires
            old(self).min() <= old(self).max(),
        ensures
            final(self).value() == clamp_i32(value, old(self).min(), old(self).max()),
            final(self).min() == old(self).min(),
            final(self).max() == old(self).max(),
            final(self).rect() == old(self).rect(),
            final(self).bg() == old(self).bg(),
            final(self).fill() == old(self).fill(),
            final(self).border() == old(self).border(),
            final(self).has_border() == old(self).has_border(),
            final(self).visible() == old(self).visible(),
    {
        self.current_value = clamp_value(value, self.min_value, self.max_value);
    }

    /// Current value.
    pub fn get_value(&self) -> (r: i32)
        ensures
            r == self.value(),
    {
        self.current_value
    }

    /// Range bounds.
    pub fn range(&self) -> (r: (i32, i32))
        ensures
            r == (self.min(), self.max()),
    {
        (self.min_value, self.max_value)
    }

    /// Set the background, fill and border colours.
    pub fn set_colors(&mut self, bg: Color, fill: Color, border: Color)
        ensures
            final(self).bg() == bg,
            final(self).fill() == fill,
            final(self).border() == border,
            final(self).rect() == old(self).rect(),
            final(self).min() == old(self).min(),
            final(self).max() == old(self).max(),
            final(self).value() == old(self).value(),
            final(self).has_border() == old(self).has_border(),
            final(self).visible() == old(self).visible(),
    {
        self.bg_color = bg;
        self.fill_color = fill;
        self.border_color = border;
    }

    /// Show or hide the border.
    pub fn set_has_border(&mut self, has_border: bool)
        ensures
            final(self).has_border() == has_border,
            final(self).rect() == old(self).rect(),
            final(self).min() == old(self).min(),
            final(self).max() == old(self).max(),
            final(self).value() == old(self).value(),
            final(self).bg() == old(self).bg(),
            final(self).fill() == old(self).fill(),
            final(self).border() == old(self).border(),
            final(self).visible() == old(self).visible(),
    {
        self.has_border = has_border;
    }

    /// Bounding rectangle.
    pub fn bounds(&self) -> (r: Rect)
        ensures
            r == self.rect(),
    {
        self.rect
    }

    /// Whether the bar is shown.
    pub fn is_visible(&self) -> (r: bool)
        ensures
            r == self.visible(),
    {
        self.visible
    }

    /// Show or hide the bar.
    pub fn set_visible(&mut self, visible: bool)
        ensures
            final(self).visible() == visible,
            final(self).rect() == old(self).rect(),
            final(self).min() == old(self).min(),
            final(self).max() == old(self).max(),
            final(self).value() == old(self).value(),
            final(self).bg() == old(self).bg(),
            final(self).fill() == old(self).fill(),
            final(self).border() == old(self).border(),
            final(self).has_border() == old(self).has_border(),
    {
        self.visible = visible;
    }

    /// Pixels of the bar drawn over `pixels` with the first `fill_width`
    /// columns filled: background, fill, then the border if it has one.
    pub closed spec fn drawn(&self, pixels: Seq<u32>, fill_width: usize) -> Seq<u32> {
        if !self.visible {
            pixels
        } else {
            let filled = painted(
                painted(pixels, self.rect, Brush::Fill, self.bg_color),
                Rect { width: fill_width, ..self.rect },
                Brush::Fill,
                self.fill_color,
            );
            if self.has_border {
                painted(filled, self.rect, Brush::Frame, self.border_color)
            } else {
                filled
            }
        }
    }

    /// Draw the bar with its first `fill_width` columns filled.
    pub fn draw_with_fill(&self, pixels: &mut Vec<u32>, fill_width: usize)
        requires
            old(pixels)@.len() == PIXEL_COUNT,
            self.visible() ==> {
                &&& rect_paintable(self.rect())
                &&& rect_paintable(Rect { width: fill_width, ..self.rect() })
            },
        ensures
            final(pixels)@ == self.drawn(old(pixels)@, fill_width),
            final(pixels)@.len() == PIXEL_COUNT,
    {
        if !self.visible {
            return;
        }
        paint(pixels, self.rect, Brush::Fill, self.bg_color);
        let fill_rect = Rect::new(self.rect.x, self.rect.y, fill_width, self.rect.height);
        paint(pixels, fill_rect, Brush::Fill, self.fill_color);
        if self.has_border {
            paint(pixels, self.rect, Brush::Frame, self.border_color);
        }
    }
}

/// What a slider does with a touch event.
#[derive(Debug, Clone, Copy, PartialEq, Eq, Structural)]
pub struct SliderResponse {
    /// The event was consumed.
    pub consumed: bool,
    /// Move the value to the track position under this x coordinate.
    pub update_from_x: Option<usize>,
}

/// Where an x coordinate falls on a slider's track: `offset` pixels into
/// a usable track of `available` pixels spanning `range` values.
#[derive(Debug, Clone, Copy, PartialEq, Eq, Structural)]
pub struct TrackPosition {
    pub offset: usize,
    pub available: usize,
    pub range: i32,
}

/// Slider widget for selecting a value in a range. `F` is the type of its
/// change callback.
pub struct Slider<F> {
    rect: Rect,
    min_value: i32,
    max_value: i32,
    current_value: i32,
    track_color: Color,
    thumb_color: Color,
    visible: bool,
    is_dragging: bool,
    on_change: Option<F>,
}

impl<F> Slider<F> {
    /// A visible slider over 0..100 at 50: gray track, blue thumb, no
    /// callback.
    pub fn new(x: usize, y: usize, width: usize, height: usize) -> (r: Self)
        ensures
            r.rect() == (Rect { x, y, width, height }),
            r.min() == 0,
            r.max() == 100,
            r.value() == 50,
            r.track() == rgb(128, 128, 128),
            r.thumb() == rgb(0, 0, 255),
            r.visible(),
            !r.dragging(),
            r.on_change() is None,
    {
        Slider {
            rect: Rect::new(x, y, width, height),
            min_value: 0,
            max_value: 100,
            current_value: 50,
            track_color: Color::gray(),
            thumb_color: Color::blue(),
            visible: true,
            is_dragging: false,
            on_change: None,
        }
    }

    pub closed spec fn rect(&self) -> Rect {
        self.rect
    }

    pub closed spec fn min(&self) -> i32 {
        self.min_value
    }

    pub closed spec fn max(&self) -> i32 {
        self.max_value
    }

    pub closed spec fn value(&self) -> i32 {
        self.current_value
    }

    pub closed spec fn track(&self) -> Color {
        self.track_color
    }

    pub closed spec fn thumb(&self) -> Color {
        self.thumb_color
    }

    pub closed spec fn visible(&self) -> bool {
        self.visible
    }

    pub closed spec fn dragging(&self) -> bool {
        self.is_dragging
    }

    pub closed spec fn on_change(&self) -> Option<F> {
        self.on_change
    }

    /// Set the range; the value is pulled into it.
    pub fn set_range(&mut self, min: i32, max: i32)
        ensures
            final(self).min() == min,
            final(self).max() == max,
            final(self).value() == clamp_i32(old(self).value(), min, max),
            final(self).rect() == old(self).rect(),
            final(self).track() == old(self).track(),
            final(self).thumb() == old(self).thumb(),
            final(self).visible() == old(self).visible(),
            final(self).dragging() == old(self).dragging(),
            final(self).on_change() == old(self).on_change(),
    {
        self.min_value = min;
        self.max_value = max;
        if self.current_value < min {
            self.current_value = min;
        } else if self.current_value > max {
            self.current_value = max;
        }
    }

    /// Set the value, clamped to the range (the callback is not run).
    pub fn set_value(&mut self, value: i32)
        requires
            old(self).min() <= old(self).max(),
        ensures
            final(self).value() == clamp_i32(value, old(self).min(), old(self).max()),
            final(self).min() == old(self).min(),
            final(self).max() == old(self).max(),
            final(self).rect() == old(self).rect(),
            final(self).track() == old(self).track(),
            final(self).thumb() == old(self).thumb(),
            final(self).visible() == old(self).visible(),
            final(self).dragging() == old(self).dragging(),
            final(self).on_change() == old(self).on_change(),
    {
        self.current_value = clamp_value(value, self.min_value, self.max_value);
    }

    /// Current value.
    pub fn get_value(&self) -> (r: i32)
        ensures
            r == self.value(),
    {
        self.current_value
    }

    /// Range bounds.
    pub fn range(&self) -> (r: (i32, i32))
        ensures
            r == (self.min(), self.max()),
    {
        (self.min_value, self.max_value)
    }

    /// Set the track and thumb colours.
    pub fn set_colors(&mut self, track: Color, thumb: Color)
        ensures
            final(self).track() == track,
            final(self).thumb() == thumb,
            final(self).rect() == old(self).rect(),
            final(self).min() == old(self).min(),
            final(self).max() == old(self).max(),
            final(self).value() == old(self).value(),
            final(self).visible() == old(self).visible(),
            final(self).dragging() == old(self).dragging(),
            final(self).on_change() == old(self).on_change(),
    {
        self.track_color = track;
        self.thumb_color = thumb;
    }

    /// Set the change callback.
    pub fn set_on_change(&mut self, callback: F)
        ensures
            final(self).on_change() == Some(callback),
            final(self).rect() == old(self).rect(),
            final(self).min() == old(self).min(),
            final(self).max() == old(self).max(),
            final(self).value() == old(self).value(),
            final(self).track() == old(self).track(),
            final(self).thumb() == old(self).thumb(),
            final(self).visible() == old(self).visible(),
            final(self).dragging() == old(self).dragging(),
    {
        self.on_change = Some(callback);
    }

    /// Bounding rectangle.
    pub fn bounds(&self) -> (r: Rect)
        ensures
            r == self.rect(),
    {
        self.rect
    }

    /// Whether the slider is shown.
    pub fn is_visible(&self) -> (r: bool)
        ensures
            r == self.visible(),
    {
        self.visible
    }

    /// Whether the thumb is being dragged.
    pub fn is_dragging(&self) -> (r: bool)
        ensures
            r == self.dragging(),
    {
        self.is_dragging
    }

    /// Show or hide the slider.
    pub fn set_visible(&mut self, visible: bool)
        ensures
            final(self).visible() == visible,
            final(self).rect() == old(self).rect(),
            final(self).min() == old(self).min(),
            final(self).max() == old(self).max(),
            final(self).value() == old(self).value(),
            final(self).track() == old(self).track(),
            final(self).thumb() == old(self).thumb(),
            final(self).dragging() == old(self).dragging(),
            final(self).on_change() == old(self).on_change(),
    {
        self.visible = visible;
    }

    /// The square the thumb occupies when its centre is at `thumb_x`.
    pub open spec fn thumb_rect(&self, thumb_x: usize) -> Rect {
        Rect {
            x: if thumb_x >= self.rect().height / 2 {
                (thumb_x - self.rect().height / 2) as usize
            } else {
                0
            },
            y: self.rect().y,
            width: self.rect().height,
            height: self.rect().height,
        }
    }

    /// Response to `event` with the thumb centred at `thumb_x`, and whether
    /// dragging is on afterwards.
    pub open spec fn touch_response(&self, event: TouchEvent, thumb_x: usize) -> (SliderResponse, bool) {
        let r = self.rect();
        match event {
            TouchEvent::Press(x, y) => if touch_in(self.thumb_rect(thumb_x), x, y) {
                (SliderResponse { consumed: true, update_from_x: None }, true)
            } else if touch_in(r, x, y) {
                (SliderResponse { consumed: true, update_from_x: Some(x as usize) }, self.dragging())
            } else {
                (SliderResponse { consumed: false, update_from_x: None }, self.dragging())
            },
            TouchEvent::Move(x, _) => if self.dragging() && rect_contains(r, (x as usize) as int, r.y + r.height / 2) {
                (SliderResponse { consumed: true, update_from_x: Some(x as usize) }, true)
            } else {
                (SliderResponse { consumed: false, update_from_x: None }, self.dragging())
            },
            TouchEvent::MultiTouch(_, x, _) => if self.dragging() && rect_contains(
                r,
                (x as usize) as int,
                r.y + r.height / 2,
            ) {
                (SliderResponse { consumed: true, update_from_x: Some(x as usize) }, true)
            } else {
                (SliderResponse { consumed: false, update_from_x: None }, self.dragging())
            },
            TouchEvent::Release(_, _) => if self.dragging() {
                (SliderResponse { consumed: true, update_from_x: None }, false)
            } else {
                (SliderResponse { consumed: false, update_from_x: None }, false)
            },
            TouchEvent::NoTouch => (SliderResponse { consumed: false, update_from_x: None }, self.dragging()),
        }
    }

    /// Handle a touch event with the thumb centred at `thumb_x`: a press on
    /// the thumb starts dragging, a press elsewhere on the track jumps
    /// there, moves while dragging follow the finger, and a release ends
    /// dragging.
    pub fn handle_touch_at(&mut self, event: TouchEvent, thumb_x: usize) -> (r: SliderResponse)
        requires
            rect_fits(old(self).rect()),
            old(self).thumb_rect(thumb_x).x + old(self).rect().height <= usize::MAX,
        ensures
            (r, final(self).dragging()) == old(self).touch_response(event, thumb_x),
            final(self).rect() == old(self).rect(),
            final(self).min() == old(self).min(),
            final(self).max() == old(self).max(),
            final(self).value() == old(self).value(),
            final(self).track() == old(self).track(),
            final(self).thumb() == old(self).thumb(),
            final(self).visible() == old(self).visible(),
            final(self).on_change() == old(self).on_change(),
    {
        match event {
            TouchEvent::Press(x, y) => {
                let thumb_rect = Rect::new(
                    thumb_x.saturating_sub(self.rect.height / 2),
                    self.rect.y,
                    self.rect.height,
                    self.rect.height,
                );
                if thumb_rect.contains(x as usize, y as usize) {
                    self.is_dragging = true;
                    return SliderResponse { consumed: true, update_from_x: None };
                }
                if self.rect.contains(x as usize, y as usize) {
                    return SliderResponse { consumed: true, update_from_x: Some(x as usize) };
                }
            },
            TouchEvent::Move(x, _y) | TouchEvent::MultiTouch(_, x, _y) => {
                if self.is_dragging && self.rect.contains(x as usize, self.rect.y + self.rect.height / 2) {
                    return SliderResponse { consumed: true, update_from_x: Some(x as usize) };
                }
            },
            TouchEvent::Release(_x, _y) => {
                if self.is_dragging {
                    self.is_dragging = false;
                    return SliderResponse { consumed: true, update_from_x: None };
                }
            },
            _ => {},
        }
        SliderResponse { consumed: false, update_from_x: None }
    }
}

/// Pixel (`x`, `y`) lies in `r` and on the screen.
pub open spec fn pixel_in_view(r: Rect, x: int, y: int) -> bool {
    r.x <= x < r.x + r.width && r.y <= y < r.y + r.height && 0 <= x < 1080 && 0 <= y < 2400
}

/// The thumb's distance arithmetic stays in range: the squared radius is a
/// machine word, and for every pixel of the thumb's square that is on the
/// screen, the centre's coordinates and the squared distance from them fit
/// an `i32`.
pub open spec fn thumb_distances_fit<F>(s: &Slider<F>, thumb_x: usize) -> bool {
    let b = s.thumb_box(thumb_x);
    &&& (s.rect().height / 2) * (s.rect().height / 2) <= usize::MAX
    &&& forall|x: int, y: int|
        #[trigger] pixel_in_view(b, x, y) ==> {
            &&& thumb_x <= i32::MAX
            &&& s.track_y() <= i32::MAX
            &&& (x - thumb_x) * (x - thumb_x) + (y - s.track_y()) * (y - s.track_y()) <= i32::MAX
        }
}

/// Inputs for which a slider's track arithmetic stays in range: the track
/// ends lie within the machine, the usable part is not inverted and the
/// value range fits an `i32`.
pub open spec fn track_in_range<F>(s: &Slider<F>) -> bool {
    let r = s.rect();
    &&& r.x + r.width <= usize::MAX
    &&& r.x + r.height / 2 <= r.x + r.width - r.height / 2
    &&& i32::MIN <= s.max() - s.min() <= i32::MAX
}

/// First usable track column (half a thumb in from the left edge).
pub open spec fn track_start<F>(s: &Slider<F>) -> int {
    s.rect().x + s.rect().height / 2
}

/// Last usable track column (half a thumb in from the right edge).
pub open spec fn track_end<F>(s: &Slider<F>) -> int {
    s.rect().x + s.rect().width - s.rect().height / 2
}

/// `x` limited to `[lo, hi]`.
pub open spec fn clamp_int(x: int, lo: int, hi: int) -> int {
    if x < lo {
        lo
    } else if x > hi {
        hi
    } else {
        x
    }
}

impl<F> Slider<F> {
    /// Where `x` falls on the usable track; `None` when the track has no
    /// usable width.
    pub fn track_position(&self, x: usize) -> (r: Option<TrackPosition>)
        requires
            track_in_range(self),
        ensures
            track_end(self) - track_start(self) > 0 ==> r == Some(
                TrackPosition {
                    offset: (clamp_int(x as int, track_start(self), track_end(self)) - track_start(self)) as usize,
                    available: (track_end(self) - track_start(self)) as usize,
                    range: (self.max() - self.min()) as i32,
                },
            ),
            track_end(self) - track_start(self) <= 0 ==> r is None,
    {
        let thumb_width = self.rect.height;
        let available_start = self.rect.x + thumb_width / 2;
        let available_end = self.rect.x + self.rect.width - thumb_width / 2;
        let clamped_x = if x < available_start {
            available_start
        } else if x > available_end {
            available_end
        } else {
            x
        };
        let range = self.max_value - self.min_value;
        let available_width = available_end - available_start;
        if available_width > 0 {
            Some(TrackPosition { offset: clamped_x - available_start, available: available_width, range })
        } else {
            None
        }
    }

    /// Row of the middle of the track.
    pub open spec fn track_y(&self) -> int {
        self.rect().y + self.rect().height / 2
    }

    /// The band the track occupies: a third of the height, centred.
    pub open spec fn track_band(&self) -> Rect {
        Rect {
            x: self.rect().x,
            y: (self.track_y() - self.rect().height / 3 / 2) as usize,
            width: self.rect().width,
            height: self.rect().height / 3,
        }
    }

    /// The square the thumb is drawn in when centred at `thumb_x`.
    pub open spec fn thumb_box(&self, thumb_x: usize) -> Rect {
        Rect {
            x: self.thumb_rect(thumb_x).x,
            y: (self.track_y() - self.rect().height / 2) as usize,
            width: self.rect().height,
            height: self.rect().height,
        }
    }

    /// Pixels after drawing the track (nothing if hidden).
    pub closed spec fn track_drawn(&self, pixels: Seq<u32>) -> Seq<u32> {
        if !self.visible {
            pixels
        } else {
            painted(pixels, self.track_band(), Brush::Fill, self.track_color)
        }
    }

    /// Pixels after drawing the thumb centred at `thumb_x` (nothing if
    /// hidden): a disc of the slider's height in the thumb colour.
    pub closed spec fn thumb_drawn(&self, pixels: Seq<u32>, thumb_x: usize) -> Seq<u32> {
        if !self.visible {
            pixels
        } else {
            painted(
                pixels,
                self.thumb_box(thumb_x),
                Brush::Disc { center_dx: (thumb_x - self.thumb_box(thumb_x).x) as usize },
                self.thumb_color,
            )
        }
    }

    /// Draw the track.
    pub fn draw_track(&self, pixels: &mut Vec<u32>)
        requires
            old(pixels)@.len() == PIXEL_COUNT,
            self.visible() ==> self.rect().y + self.rect().height <= usize::MAX && rect_paintable(
                self.track_band(),
            ),
        ensures
            final(pixels)@ == self.track_drawn(old(pixels)@),
            final(pixels)@.len() == PIXEL_COUNT,
    {
        if !self.visible {
            return;
        }
        let track_y = self.rect.y + self.rect.height / 2;
        let track_height = self.rect.height / 3;
        let band = Rect::new(self.rect.x, track_y - track_height / 2, self.rect.width, track_height);
        paint(pixels, band, Brush::Fill, self.track_color);
    }

    /// Draw the thumb as a disc centred at (`thumb_x`, middle of the track).
    pub fn draw_thumb(&self, pixels: &mut Vec<u32>, thumb_x: usize)
        requires
            old(pixels)@.len() == PIXEL_COUNT,
            self.visible() ==> {
                &&& self.rect().y + self.rect().height <= usize::MAX
                &&& rect_paintable(self.thumb_box(thumb_x))
                &&& thumb_distances_fit(self, thumb_x)
            },
        ensures
            final(pixels)@ == self.thumb_drawn(old(pixels)@, thumb_x),
            final(pixels)@.len() == PIXEL_COUNT,
    {
        if !self.visible {
            return;
        }
        let track_y = self.rect.y + self.rect.height / 2;
        let thumb_size = self.rect.height;
        let thumb_left = thumb_x.saturating_sub(thumb_size / 2);
        let area = Rect::new(thumb_left, track_y - thumb_size / 2, thumb_size, thumb_size);
        paint(pixels, area, Brush::Disc { center_dx: thumb_x - thumb_left }, self.thumb_color);
    }
}

impl<F: Fn(i32)> Slider<F> {
    /// Move the value to `new_value`, clamped to the range, and run the
    /// callback with the new value if it changed. Returns whether it
    /// changed.
    pub fn update_value(&mut self, new_value: i32) -> (changed: bool)
        requires
            old(self).min() <= old(self).max(),
            old(self).on_change() matches Some(f) ==> forall|v: i32| f.requires((v,)),
        ensures
            final(self).value() == clamp_i32(new_value, old(self).min(), old(self).max()),
            changed == (final(self).value() != old(self).value()),
            changed ==> (old(self).on_change() matches Some(f) ==> call_ensures(f, (final(self).value(),), ())),
            final(self).rect() == old(self).rect(),
            final(self).min() == old(self).min(),
            final(self).max() == old(self).max(),
            final(self).track() == old(self).track(),
            final(self).thumb() == old(self).thumb(),
            final(self).visible() == old(self).visible(),
            final(self).dragging() == old(self).dragging(),
            final(self).on_change() == old(self).on_change(),
    {
        let old_value = self.current_value;
        self.current_value = clamp_value(new_value, self.min_value, self.max_value);
        if self.current_value != old_value {
            if let Some(callback) = &self.on_change {
                callback(self.current_value);
            }
            return true;
        }
        false
    }
}

/// Most widgets a screen holds.
pub const MAX_WIDGETS: usize = 32;

/// Whether the widget in a screen slot (if any) can handle touches.
pub open spec fn slot_touchable(slot: Option<Box<dyn Widget>>) -> bool {
    slot matches Some(w) ==> w.touchable()
}

/// Whether the widget in a screen slot (if any) can be drawn.
pub open spec fn slot_drawable(slot: Option<Box<dyn Widget>>) -> bool {
    slot matches Some(w) ==> w.drawable()
}

/// Whether the widget in a screen slot takes `event`.
pub open spec fn slot_consumes(slot: Option<Box<dyn Widget>>, event: TouchEvent) -> bool {
    slot matches Some(w) && w.consumes(event)
}

/// The slot `after` holds the widget of slot `before` after `event` was
/// offered to it.
pub open spec fn slot_offered(after: Option<Box<dyn Widget>>, before: Option<Box<dyn Widget>>, event: TouchEvent) -> bool {
    match (after, before) {
        (Some(a), Some(b)) => a.touches() == b.touches().push(event),
        (None, None) => true,
        _ => false,
    }
}

/// Pixels after drawing the widgets of `slots` in order, bottom-most first.
pub open spec fn slots_drawn(slots: Seq<Option<Box<dyn Widget>>>, pixels: Seq<u32>) -> Seq<u32>
    decreases slots.len(),
{
    if slots.len() == 0 {
        pixels
    } else {
        let below = slots_drawn(slots.drop_last(), pixels);
        match slots.last() {
            Some(w) => w.drawn(below),
            None => below,
        }
    }
}

/// The slots screens keep their widgets in, bottom-most first. The system
/// has one store, shared by every screen: each screen uses the first
/// `count()` slots.
pub struct WidgetStore {
    slots: Vec<Option<Box<dyn Widget>>>,
}

impl WidgetStore {
    /// `MAX_WIDGETS` empty slots.
    pub fn new() -> (r: Self)
        ensures
            r.slots().len() == MAX_WIDGETS,
            forall|i: int| 0 <= i < MAX_WIDGETS ==> #[trigger] r.slots()[i] is None,
    {
        let mut slots: Vec<Option<Box<dyn Widget>>> = Vec::new();
        let mut i: usize = 0;
        while i < MAX_WIDGETS
            invariant
                i <= MAX_WIDGETS,
                slots@.len() == i,
                forall|j: int| 0 <= j < i ==> #[trigger] slots@[j] is None,
            decreases MAX_WIDGETS - i,
        {
            slots.push(None);
            i = i + 1;
        }
        WidgetStore { slots }
    }

    pub closed spec fn slots(&self) -> Seq<Option<Box<dyn Widget>>> {
        self.slots@
    }
}

/// Offer `event` to the widget in slot `i`, if there is one; returns
/// whether it took the event.
fn offer_touch(slots: &mut Vec<Option<Box<dyn Widget>>>, i: usize, event: TouchEvent) -> (consumed: bool)
    requires
        i < old(slots)@.len(),
        slot_touchable(old(slots)@[i as int]),
    ensures
        final(slots)@.len() == old(slots)@.len(),
        consumed == slot_consumes(old(slots)@[i as int], event),
        slot_touchable(final(slots)@[i as int]),
        slot_offered(final(slots)@[i as int], old(slots)@[i as int], event),
        forall|j: int| 0 <= j < old(slots)@.len() && j != i ==> #[trigger] final(slots)@[j] == old(slots)@[j],
{
    let ghost ws = slots@;
    let slot = slots.remove(i);
    let (back, consumed) = match slot {
        Some(mut widget) => {
            let consumed = widget.handle_touch(event);
            (Some(widget), consumed)
        },
        None => (None, false),
    };
    let ghost touched = back;
    slots.insert(i, back);
    proof {
        ws.remove_ensures(i as int);
        ws.remove(i as int).insert_ensures(i as int, touched);
        assert forall|j: int| 0 <= j < ws.len() && j != i implies #[trigger] slots@[j] == ws[j] by {
            if j > i {
                assert(ws.remove(i as int)[j - 1] == ws[j]);
            }
        }
    }
    consumed
}

/// Screen manager: the number of widgets it has in the shared store, the
/// font and the background colour.
pub struct Screen {
    widget_count: usize,
    font: FontRenderer,
    bg_color: Color,
}

impl Screen {
    #[verifier::type_invariant]
    closed spec fn inv(&self) -> bool {
        self.widget_count <= MAX_WIDGETS
    }

    /// An empty black screen.
    pub fn new() -> (r: Self)
        ensures
            r.count() == 0,
            r.bg() == rgb(0, 0, 0),
    {
        Screen { widget_count: 0, font: FontRenderer::new(), bg_color: Color::black() }
    }

    /// Number of store slots the screen uses.
    pub closed spec fn count(&self) -> nat {
        self.widget_count as nat
    }

    pub closed spec fn bg(&self) -> Color {
        self.bg_color
    }

    /// Number of widgets; never more than `MAX_WIDGETS`.
    pub fn widget_count(&self) -> (r: usize)
        ensures
            r == self.count(),
            r <= MAX_WIDGETS,
    {
        proof {
            use_type_invariant(self);
        }
        self.widget_count
    }

    /// Put a widget in the next slot of the store, on top of the screen's
    /// others; refused when the screen already uses `MAX_WIDGETS` slots.
    pub fn add_widget(&mut self, store: &mut WidgetStore, widget: Box<dyn Widget>) -> (added: bool)
        requires
            old(store).slots().len() == MAX_WIDGETS,
        ensures
            added == (old(self).count() < MAX_WIDGETS),
            added ==> final(store).slots() == old(store).slots().update(old(self).count() as int, Some(widget)),
            added ==> final(self).count() == old(self).count() + 1,
            !added ==> final(store).slots() == old(store).slots() && final(self).count() == old(self).count(),
            final(self).bg() == old(self).bg(),
    {
        if self.widget_count < MAX_WIDGETS {
            store.slots.set(self.widget_count, Some(widget));
            self.widget_count = self.widget_count + 1;
            true
        } else {
            false
        }
    }

    /// Fill the whole screen with the background colour.
    pub fn clear(&mut self, pixels: &mut Vec<u32>)
        requires
            old(pixels)@.len() == PIXEL_COUNT,
        ensures
            final(pixels)@ == Seq::new(PIXEL_COUNT as nat, |p: int| argb(old(self).bg())),
            final(self).count() == old(self).count(),
            final(self).bg() == old(self).bg(),
    {
        let screen = Rect::new(0, 0, 1080, 2400);
        paint(pixels, screen, Brush::Fill, self.bg_color);
        assert forall|p: int| 0 <= p < PIXEL_COUNT implies pixels@[p] == argb(self.bg()) by {
            lemma_on_screen(p);
        }
        assert(pixels@ =~= Seq::new(PIXEL_COUNT as nat, |p: int| argb(self.bg())));
    }

    /// Draw the screen's widgets, bottom-most first.
    pub fn draw_all(&mut self, store: &WidgetStore, pixels: &mut Vec<u32>)
        requires
            store.slots().len() == MAX_WIDGETS,
            old(pixels)@.len() == PIXEL_COUNT,
            forall|i: int| 0 <= i < old(self).count() ==> slot_drawable(#[trigger] store.slots()[i]),
        ensures
            final(pixels)@ == slots_drawn(store.slots().subrange(0, old(self).count() as int), old(pixels)@),
            final(pixels)@.len() == PIXEL_COUNT,
            final(self).count() == old(self).count(),
            final(self).bg() == old(self).bg(),
    {
        proof {
            use_type_invariant(&*self);
        }
        let ghost start = pixels@;
        let ghost slots = store.slots();
        let mut i: usize = 0;
        assert(slots.subrange(0, 0) =~= Seq::<Option<Box<dyn Widget>>>::empty());
        while i < self.widget_count
            invariant
                self.widget_count <= MAX_WIDGETS,
                slots == store.slots(),
                slots.len() == MAX_WIDGETS,
                i <= self.widget_count,
                self.count() == old(self).count(),
                self.bg() == old(self).bg(),
                pixels@.len() == PIXEL_COUNT,
                forall|j: int| 0 <= j < self.count() ==> slot_drawable(#[trigger] slots[j]),
                pixels@ == slots_drawn(slots.subrange(0, i as int), start),
            decreases self.widget_count - i,
        {
            assert(slot_drawable(slots[i as int]));
            assert(slots.subrange(0, i + 1).drop_last() =~= slots.subrange(0, i as int));
            if let Some(widget) = &store.slots[i] {
                widget.draw(pixels, &self.font);
            }
            i = i + 1;
        }
    }

    /// Offer a touch event to the screen's widgets from the top-most down;
    /// the first one that takes it stops the search. Returns its slot.
    pub fn handle_touch(&mut self, store: &mut WidgetStore, event: TouchEvent) -> (r: Option<usize>)
        requires
            old(store).slots().len() == MAX_WIDGETS,
            forall|i: int| 0 <= i < old(self).count() ==> slot_touchable(#[trigger] old(store).slots()[i]),
        ensures
            final(store).slots().len() == MAX_WIDGETS,
            final(self).count() == old(self).count(),
            final(self).bg() == old(self).bg(),
            forall|i: int| 0 <= i < old(self).count() ==> slot_touchable(#[trigger] final(store).slots()[i]),
            forall|j: int| old(self).count() <= j < MAX_WIDGETS ==> #[trigger] final(store).slots()[j] == old(store).slots()[j],
            r matches Some(k) ==> {
                &&& k < old(self).count()
                &&& slot_consumes(old(store).slots()[k as int], event)
                &&& forall|j: int| k < j < old(self).count() ==> !slot_consumes(#[trigger] old(store).slots()[j], event)
                &&& forall|j: int| 0 <= j < k ==> #[trigger] final(store).slots()[j] == old(store).slots()[j]
                &&& forall|j: int| k <= j < old(self).count() ==> slot_offered(#[trigger] final(store).slots()[j], old(store).slots()[j], event)
            },
            r is None ==> forall|j: int| 0 <= j < old(self).count() ==> !slot_consumes(#[trigger] old(store).slots()[j], event),
            r is None ==> forall|j: int| 0 <= j < old(self).count() ==> slot_offered(#[trigger] final(store).slots()[j], old(store).slots()[j], event),
    {
        proof {
            use_type_invariant(&*self);
        }
        let ghost before = store.slots();
        let n = self.widget_count;
        let mut i = n;
        while i > 0
            invariant
                n == old(self).count(),
                n <= MAX_WIDGETS,
                i <= n,
                before == old(store).slots(),
                before.len() == MAX_WIDGETS,
                store.slots().len() == MAX_WIDGETS,
                forall|j: int| 0 <= j < n ==> slot_touchable(#[trigger] store.slots()[j]),
                forall|j: int| 0 <= j < i ==> #[trigger] store.slots()[j] == before[j],
                forall|j: int| n <= j < MAX_WIDGETS ==> #[trigger] store.slots()[j] == before[j],
                forall|j: int| i <= j < n ==> !slot_consumes(#[trigger] before[j], event),
                forall|j: int| i <= j < n ==> slot_offered(#[trigger] store.slots()[j], before[j], event),
            decreases i,
        {
            i = i - 1;
            let ghost ws = store.slots();
            assert(slot_touchable(ws[i as int]));
            assert(ws[i as int] == before[i as int]);
            let consumed = offer_touch(&mut store.slots, i, event);
            assert forall|j: int| 0 <= j < n implies slot_touchable(#[trigger] store.slots()[j]) by {
                if j != i {
                    assert(store.slots()[j] == ws[j]);
                }
            }
            assert forall|j: int| i <= j < n implies slot_offered(#[trigger] store.slots()[j], before[j], event) by {
                if j != i {
                    assert(store.slots()[j] == ws[j]);
                }
            }
            assert forall|j: int| 0 <= j < i implies #[trigger] store.slots()[j] == before[j] by {
                assert(store.slots()[j] == ws[j]);
            }
            assert forall|j: int| n <= j < MAX_WIDGETS implies #[trigger] store.slots()[j] == before[j] by {
                assert(store.slots()[j] == ws[j]);
            }
            if consumed {
                return Some(i);
            }
        }
        None
    }

    /// Set the background colour.
    pub fn set_background(&mut self, color: Color)
        ensures
            final(self).bg() == color,
            final(self).count() == old(self).count(),
    {
        proof {
            use_type_invariant(&*self);
        }
        self.bg_color = color;
    }
}

impl Default for Screen {
    fn default() -> (r: Self)
        ensures
            r.count() == 0,
            r.bg() == rgb(0, 0, 0),
    {
        Screen::new()
    }
}

/// A clamped value lies in the range whenever the range is not inverted.
pub proof fn law_clamp_within_range(value: i32, lo: i32, hi: i32)
    requires
        lo <= hi,
    ensures
        lo <= clamp_i32(value, lo, hi) <= hi,
        lo <= value <= hi ==> clamp_i32(value, lo, hi) == value,
        clamp_i32(clamp_i32(value, lo, hi), lo, hi) == clamp_i32(value, lo, hi),
{
}

/// A press inside a button followed by a release inside it is a click.
pub proof fn law_press_then_release_clicks<F>(b: Button<F>, x: i32, y: i32, x2: i32, y2: i32)
    requires
        touch_in(b.rect(), x, y),
        touch_in(b.rect(), x2, y2),
    ensures
        b.pressed_after(TouchEvent::Press(x, y)),
        b.with_pressed(b.pressed_after(TouchEvent::Press(x, y))).clicked_by(TouchEvent::Release(x2, y2)),
        !b.with_pressed(b.pressed_after(TouchEvent::Press(x, y))).with_pressed(false).pressed(),
{
    lemma_with_pressed(b, true);
    lemma_with_pressed(b.with_pressed(true), false);
}

/// Changing a button's pressed state changes nothing else.
pub proof fn lemma_with_pressed<F>(b: Button<F>, p: bool)
    ensures
        b.with_pressed(p).pressed() == p,
        b.with_pressed(p).rect() == b.rect(),
        b.with_pressed(p).text() == b.text(),
        b.with_pressed(p).normal_bg() == b.normal_bg(),
        b.with_pressed(p).pressed_bg() == b.pressed_bg(),
        b.with_pressed(p).fg() == b.fg(),
        b.with_pressed(p).visible() == b.visible(),
        b.with_pressed(p).on_click() == b.on_click(),
{
}

/// Offering a touch to a button only adds it to the button's touch
/// history.
pub proof fn lemma_button_with_touch<F: Fn()>(b: Button<F>, event: TouchEvent)
    ensures
        b.with_touch(event).touches() == b.touches().push(event),
        b.with_touch(event).pressed() == b.pressed(),
        b.with_touch(event).rect() == b.rect(),
        b.with_touch(event).text() == b.text(),
        b.with_touch(event).normal_bg() == b.normal_bg(),
        b.with_touch(event).pressed_bg() == b.pressed_bg(),
        b.with_touch(event).fg() == b.fg(),
        b.with_touch(event).visible() == b.visible(),
        b.with_touch(event).on_click() == b.on_click(),
{
}

/// A release inside a checkbox toggles it; two such releases give the box
/// its earlier state back.
pub proof fn law_checkbox_double_toggle<F>(c: Checkbox<F>, x: i32, y: i32)
    requires
        touch_in(c.rect(), x, y),
    ensures
        c.toggled_by(TouchEvent::Release(x, y)),
        c.with_checked(!c.checked()).toggled_by(TouchEvent::Release(x, y)),
        c.with_checked(!c.checked()).with_checked(!c.with_checked(!c.checked()).checked()) == c,
{
    lemma_with_checked(c, !c.checked());
    lemma_with_checked(c.with_checked(!c.checked()), c.checked());
}

/// Changing a checkbox's checked state changes nothing else.
pub proof fn lemma_with_checked<F>(c: Checkbox<F>, v: bool)
    ensures
        c.with_checked(v).checked() == v,
        c.with_checked(v).rect() == c.rect(),
        c.with_checked(v).label() == c.label(),
        c.with_checked(v).check_color() == c.check_color(),
        c.with_checked(v).bg() == c.bg(),
        c.with_checked(v).label_color() == c.label_color(),
        c.with_checked(v).visible() == c.visible(),
        c.with_checked(v).on_toggle() == c.on_toggle(),
        c.with_checked(c.checked()) == c,
        c.with_checked(v).with_checked(c.checked()) == c,
{
}

/// Offering a touch to a checkbox only adds it to the box's touch history.
pub proof fn lemma_checkbox_with_touch<F: Fn(bool)>(c: Checkbox<F>, event: TouchEvent)
    ensures
        c.with_touch(event).touches() == c.touches().push(event),
        c.with_touch(event).checked() == c.checked(),
        c.with_touch(event).rect() == c.rect(),
        c.with_touch(event).label() == c.label(),
        c.with_touch(event).check_color() == c.check_color(),
        c.with_touch(event).bg() == c.bg(),
        c.with_touch(event).label_color() == c.label_color(),
        c.with_touch(event).visible() == c.visible(),
        c.with_touch(event).on_toggle() == c.on_toggle(),
{
}

/// Offering a touch to a label only adds it to the label's touch history.
pub proof fn lemma_label_with_touch(l: Label, event: TouchEvent)
    ensures
        l.with_touch(event).touches() == l.touches().push(event),
        l.with_touch(event).rect() == l.rect(),
        l.with_touch(event).text() == l.text(),
        l.with_touch(event).fg() == l.fg(),
        l.with_touch(event).bg() == l.bg(),
        l.with_touch(event).align() == l.align(),
        l.with_touch(event).is_visible_spec() == l.is_visible_spec(),
{
}

/// Offering a touch to a panel only adds it to the panel's touch history.
pub proof fn lemma_panel_with_touch(p: Panel, event: TouchEvent)
    ensures
        p.with_touch(event).touches() == p.touches().push(event),
        p.with_touch(event).rect() == p.rect(),
        p.with_touch(event).bg() == p.bg(),
        p.with_touch(event).border() == p.border(),
        p.with_touch(event).has_border() == p.has_border(),
        p.with_touch(event).visible() == p.visible(),
{
}

/// The centre of a non-empty rectangle lies inside it.
pub proof fn law_center_inside(r: Rect)
    requires
        r.width > 0,
        r.height > 0,
    ensures
        rect_contains(r, r.x + r.width / 2, r.y + r.height / 2),
{
}

/// Converting a touch event keeps its coordinates (reinterpreted as
/// unsigned) and only an empty event has none.
pub proof fn law_touch_coordinates_kept(event: TouchEvent)
    ensures
        ui_event_of(event) == UIEvent::NoEvent <==> event == TouchEvent::NoTouch,
        event matches TouchEvent::Press(x, y) ==> ui_event_of(event) == UIEvent::TouchDown(x as usize, y as usize),
        event matches TouchEvent::Release(x, y) ==> ui_event_of(event) == UIEvent::TouchUp(x as usize, y as usize),
{
}

/// A touch inside a button (a press, a move, or a multi-touch with any
/// finger) presses it and is taken by it, so it does not reach the widgets
/// below; a touch outside does neither unless the button was already held.
pub proof fn law_touch_inside_presses_button<F>(b: Button<F>, finger: u8, x: i32, y: i32)
    ensures
        touch_in(b.rect(), x, y) ==> {
            &&& b.pressed_after(TouchEvent::Press(x, y)) && b.takes(TouchEvent::Press(x, y))
            &&& b.pressed_after(TouchEvent::Move(x, y)) && b.takes(TouchEvent::Move(x, y))
            &&& b.pressed_after(TouchEvent::MultiTouch(finger, x, y)) && b.takes(TouchEvent::MultiTouch(finger, x, y))
        },
        !touch_in(b.rect(), x, y) ==> {
            &&& !b.takes(TouchEvent::Press(x, y))
            &&& !b.takes(TouchEvent::MultiTouch(finger, x, y))
            &&& b.pressed_after(TouchEvent::MultiTouch(finger, x, y)) == b.pressed()
        },
{
}

} // verus!
