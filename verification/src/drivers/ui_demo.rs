//! Demo home screen: a status bar, a navigation bar, a welcome label and
//! three buttons whose colour flips each time they are clicked.
use vstd::prelude::*;
use crate::drivers::font::{FontRenderer, TextAlign, glyph_run};
use crate::drivers::framebuffer::{Color, PIXEL_COUNT, rgb};
use crate::drivers::touch::TouchEvent;
use crate::drivers::ui::{
    Button,
    Label,
    Panel,
    Rect,
    Screen,
    UIEvent,
    Widget,
    button_fits,
    label_fits,
    lemma_button_drawable,
    lemma_label_drawable,
    lemma_panel_drawable,
    panel_fits,
};

verus! {

/// The demo screen's widgets. `F` is the click callback type of the
/// buttons, which are created without one: clicks are applied with the
/// `on_buttonN_click` methods.
pub struct DemoUi<F> {
    screen: Screen,
    top_panel: Panel,
    bottom_panel: Panel,
    home_label: Label,
    button1: Button<F>,
    button2: Button<F>,
    button3: Button<F>,
    button1_on: bool,
    button2_on: bool,
    button3_on: bool,
}

/// Background of a demo button: green when switched on, blue otherwise.
pub open spec fn demo_button_bg(on: bool) -> Color {
    if on {
        rgb(0, 255, 0)
    } else {
        rgb(0, 0, 255)
    }
}

/// A demo button as created: where it sits and what it says, visible and
/// released, white text, dark gray while pressed, no callback.
pub open spec fn demo_button_placed<F>(b: Button<F>, x: usize, text: Seq<char>) -> bool {
    &&& b.rect() == (Rect { x, y: 300, width: 280, height: 80 })
    &&& b.text()@ == text
    &&& b.visible()
    &&& !b.pressed()
    &&& b.pressed_bg() == rgb(64, 64, 64)
    &&& b.fg() == rgb(255, 255, 255)
    &&& b.on_click() is None
}

/// A panel spanning the screen width, 40 pixels high, at row `y`, dark
/// gray with a gray border.
pub open spec fn demo_bar(p: Panel, y: usize) -> bool {
    &&& p.rect() == (Rect { x: 0, y, width: 1080, height: 40 })
    &&& p.bg() == rgb(64, 64, 64)
    &&& p.border() == rgb(128, 128, 128)
    &&& p.has_border()
    &&& p.visible()
}

impl<F> DemoUi<F> {
    /// Every widget of the demo can be drawn.
    pub closed spec fn wf(&self) -> bool {
        &&& panel_fits(self.top_panel.rect())
        &&& panel_fits(self.bottom_panel.rect())
        &&& label_fits(self.home_label.rect(), self.home_label.align(), self.home_label.text()@.len())
        &&& button_fits(self.button1.rect(), self.button1.text()@.len())
        &&& button_fits(self.button2.rect(), self.button2.text()@.len())
        &&& button_fits(self.button3.rect(), self.button3.text()@.len())
    }

    pub closed spec fn screen(&self) -> &Screen {
        &self.screen
    }

    pub closed spec fn top_panel(&self) -> Panel {
        self.top_panel
    }

    pub closed spec fn bottom_panel(&self) -> Panel {
        self.bottom_panel
    }

    pub closed spec fn home_label(&self) -> Label {
        self.home_label
    }

    pub closed spec fn button1(&self) -> Button<F> {
        self.button1
    }

    pub closed spec fn button2(&self) -> Button<F> {
        self.button2
    }

    pub closed spec fn button3(&self) -> Button<F> {
        self.button3
    }

    /// Whether each button has been switched on by its clicks.
    pub closed spec fn toggles(&self) -> (bool, bool, bool) {
        (self.button1_on, self.button2_on, self.button3_on)
    }
}

/// Build the demo screen: dark gray bars at the top and bottom, the
/// centred welcome label, three buttons in a row, and an empty black
/// screen.
pub fn init_demo_ui<F>() -> (ui: DemoUi<F>)
    ensures
        demo_bar(ui.top_panel(), 0),
        demo_bar(ui.bottom_panel(), 1880),
        ui.home_label().rect() == (Rect { x: 50, y: 100, width: 980, height: 60 }),
        ui.home_label().text()@ == "Welcome to PhoneOS!"@,
        ui.home_label().fg() == rgb(255, 255, 255),
        ui.home_label().bg() == rgb(0, 0, 0),
        ui.home_label().align() == TextAlign::Center,
        ui.home_label().is_visible_spec(),
        demo_button_placed(ui.button1(), 100, "Button 1"@),
        demo_button_placed(ui.button2(), 400, "Button 2"@),
        demo_button_placed(ui.button3(), 700, "Button 3"@),
        ui.button1().normal_bg() == demo_button_bg(false),
        ui.button2().normal_bg() == demo_button_bg(false),
        ui.button3().normal_bg() == demo_button_bg(false),
        ui.toggles() == (false, false, false),
        ui.screen().count() == 0,
        ui.screen().bg() == rgb(0, 0, 0),
        ui.wf(),
{
    let mut top_panel = Panel::new(0, 0, 1080, 40);
    top_panel.set_colors(Color::dark_gray(), Color::gray());
    let mut bottom_panel = Panel::new(0, 1880, 1080, 40);
    bottom_panel.set_colors(Color::dark_gray(), Color::gray());
    let mut home_label = Label::new("Welcome to PhoneOS!", 50, 100, 980, 60);
    home_label.set_colors(Color::white(), Color::black());
    home_label.set_align(TextAlign::Center);
    let button1 = Button::<F>::new("Button 1", 100, 300, 280, 80);
    let button2 = Button::<F>::new("Button 2", 400, 300, 280, 80);
    let button3 = Button::<F>::new("Button 3", 700, 300, 280, 80);
    let mut screen = Screen::new();
    screen.set_background(Color::black());
    proof {
        reveal_strlit("Welcome to PhoneOS!");
        reveal_strlit("Button 1");
        reveal_strlit("Button 2");
        reveal_strlit("Button 3");
    }
    DemoUi {
        screen,
        top_panel,
        bottom_panel,
        home_label,
        button1,
        button2,
        button3,
        button1_on: false,
        button2_on: false,
        button3_on: false,
    }
}

impl<F> DemoUi<F> {
    /// Click on button 1: switch it over and recolour it (green when on,
    /// blue when off; dark gray while pressed; white text).
    pub fn on_button1_click(&mut self)
        ensures
            final(self).toggles() == (!old(self).toggles().0, old(self).toggles().1, old(self).toggles().2),
            final(self).button1().normal_bg() == demo_button_bg(final(self).toggles().0),
            final(self).button1().pressed_bg() == rgb(64, 64, 64),
            final(self).button1().fg() == rgb(255, 255, 255),
            final(self).button1().rect() == old(self).button1().rect(),
            final(self).button1().text() == old(self).button1().text(),
            final(self).button1().visible() == old(self).button1().visible(),
            final(self).button1().pressed() == old(self).button1().pressed(),
            final(self).button2() == old(self).button2(),
            final(self).button3() == old(self).button3(),
            final(self).top_panel() == old(self).top_panel(),
            final(self).bottom_panel() == old(self).bottom_panel(),
            final(self).home_label() == old(self).home_label(),
            final(self).wf() == old(self).wf(),
    {
        let on = !self.button1_on;
        self.button1_on = on;
        let bg = if on { Color::green() } else { Color::blue() };
        self.button1.set_colors(bg, Color::dark_gray(), Color::white());
    }

    /// Click on button 2: switch it over and recolour it.
    pub fn on_button2_click(&mut self)
        ensures
            final(self).toggles() == (old(self).toggles().0, !old(self).toggles().1, old(self).toggles().2),
            final(self).button2().normal_bg() == demo_button_bg(final(self).toggles().1),
            final(self).button2().pressed_bg() == rgb(64, 64, 64),
            final(self).button2().fg() == rgb(255, 255, 255),
            final(self).button2().rect() == old(self).button2().rect(),
            final(self).button2().text() == old(self).button2().text(),
            final(self).button2().visible() == old(self).button2().visible(),
            final(self).button2().pressed() == old(self).button2().pressed(),
            final(self).button1() == old(self).button1(),
            final(self).button3() == old(self).button3(),
            final(self).top_panel() == old(self).top_panel(),
            final(self).bottom_panel() == old(self).bottom_panel(),
            final(self).home_label() == old(self).home_label(),
            final(self).wf() == old(self).wf(),
    {
        let on = !self.button2_on;
        self.button2_on = on;
        let bg = if on { Color::green() } else { Color::blue() };
        self.button2.set_colors(bg, Color::dark_gray(), Color::white());
    }

    /// Click on button 3: switch it over and recolour it.
    pub fn on_button3_click(&mut self)
        ensures
            final(self).toggles() == (old(self).toggles().0, old(self).toggles().1, !old(self).toggles().2),
            final(self).button3().normal_bg() == demo_button_bg(final(self).toggles().2),
            final(self).button3().pressed_bg() == rgb(64, 64, 64),
            final(self).button3().fg() == rgb(255, 255, 255),
            final(self).button3().rect() == old(self).button3().rect(),
            final(self).button3().text() == old(self).button3().text(),
            final(self).button3().visible() == old(self).button3().visible(),
            final(self).button3().pressed() == old(self).button3().pressed(),
            final(self).button1() == old(self).button1(),
            final(self).button2() == old(self).button2(),
            final(self).top_panel() == old(self).top_panel(),
            final(self).bottom_panel() == old(self).bottom_panel(),
            final(self).home_label() == old(self).home_label(),
            final(self).wf() == old(self).wf(),
    {
        let on = !self.button3_on;
        self.button3_on = on;
        let bg = if on { Color::green() } else { Color::blue() };
        self.button3.set_colors(bg, Color::dark_gray(), Color::white());
    }
}

impl<F: Fn()> DemoUi<F> {
    /// Pixels of the demo drawn over `pixels`: panels, label, buttons, then
    /// the caption at (50, 500) in light gray on black.
    pub closed spec fn drawn(&self, pixels: Seq<u32>) -> Seq<u32> {
        glyph_run(
            self.button3.drawn(self.button2.drawn(self.button1.drawn(self.home_label.drawn(
                self.bottom_panel.drawn(self.top_panel.drawn(pixels)),
            )))),
            21,
            50,
            500,
            rgb(192, 192, 192),
            rgb(0, 0, 0),
        )
    }

    /// The demo's pixels in terms of its widgets: top bar, bottom bar,
    /// label and the three buttons drawn in that order, then the caption.
    pub proof fn lemma_demo_drawn(&self, pixels: Seq<u32>)
        ensures
            self.drawn(pixels) == glyph_run(
                self.button3().drawn(self.button2().drawn(self.button1().drawn(self.home_label().drawn(
                    self.bottom_panel().drawn(self.top_panel().drawn(pixels)),
                )))),
                21,
                50,
                500,
                rgb(192, 192, 192),
                rgb(0, 0, 0),
            ),
    {
    }

    /// Draw the demo: panels, label and buttons, then the caption.
    pub fn draw_demo_ui(&self, pixels: &mut Vec<u32>)
        requires
            self.wf(),
            old(pixels)@.len() == PIXEL_COUNT,
        ensures
            final(pixels)@ == self.drawn(old(pixels)@),
            final(pixels)@.len() == PIXEL_COUNT,
    {
        proof {
            lemma_panel_drawable(&self.top_panel);
            lemma_panel_drawable(&self.bottom_panel);
            lemma_label_drawable(&self.home_label);
            lemma_button_drawable(&self.button1);
            lemma_button_drawable(&self.button2);
            lemma_button_drawable(&self.button3);
        }
        let font = FontRenderer::new();
        self.top_panel.draw(pixels, &font);
        self.bottom_panel.draw(pixels, &font);
        self.home_label.draw(pixels, &font);
        self.button1.draw(pixels, &font);
        self.button2.draw(pixels, &font);
        self.button3.draw(pixels, &font);
        let count_text = "Touch events received";
        proof {
            reveal_strlit("Touch events received");
        }
        font.draw_string(pixels, count_text, 50, 500, Color::light_gray(), Color::black());
    }
}

/// The UI event the demo derives from a touch: presses, releases and moves
/// all become a touch-down at the same place; other events give none.
pub fn handle_demo_input(event: TouchEvent) -> (r: Option<UIEvent>)
    ensures
        r == (match event {
            TouchEvent::Press(x, y) => Some(UIEvent::TouchDown(x as usize, y as usize)),
            TouchEvent::Release(x, y) => Some(UIEvent::TouchDown(x as usize, y as usize)),
            TouchEvent::Move(x, y) => Some(UIEvent::TouchDown(x as usize, y as usize)),
            _ => None,
        }),
{
    match event {
        TouchEvent::Press(x, y) | TouchEvent::Release(x, y) | TouchEvent::Move(x, y) => Some(
            UIEvent::TouchDown(x as usize, y as usize),
        ),
        _ => None,
    }
}

/// Status lines written below the demo, with their rows.
pub open spec fn demo_status_drawn(pixels: Seq<u32>) -> Seq<u32> {
    glyph_run(
        glyph_run(
            glyph_run(
                glyph_run(pixels, 15, 50, 600, rgb(0, 255, 0), rgb(0, 0, 0)),
                22,
                50,
                650,
                rgb(192, 192, 192),
                rgb(0, 0, 0),
            ),
            20,
            50,
            700,
            rgb(192, 192, 192),
            rgb(0, 0, 0),
        ),
        19,
        50,
        750,
        rgb(192, 192, 192),
        rgb(0, 0, 0),
    )
}

/// Build and draw the demo, then write the status lines under it.
pub fn run_demo_loop<F: Fn()>(pixels: &mut Vec<u32>) -> (ui: DemoUi<F>)
    requires
        old(pixels)@.len() == PIXEL_COUNT,
    ensures
        final(pixels)@ == demo_status_drawn(ui.drawn(old(pixels)@)),
        final(pixels)@.len() == PIXEL_COUNT,
        ui.toggles() == (false, false, false),
        ui.button1().normal_bg() == demo_button_bg(false),
        demo_button_placed(ui.button1(), 100, "Button 1"@),
        demo_bar(ui.top_panel(), 0),
        ui.wf(),
{
    let ui = init_demo_ui::<F>();
    ui.draw_demo_ui(pixels);
    let font = FontRenderer::new();
    proof {
        reveal_strlit("UI System Ready");
        reveal_strlit("Framebuffer: 1080x1920");
        reveal_strlit("Touch Driver: Active");
        reveal_strlit("Font Renderer: 8x16");
    }
    font.draw_string(pixels, "UI System Ready", 50, 600, Color::green(), Color::black());
    font.draw_string(pixels, "Framebuffer: 1080x1920", 50, 650, Color::light_gray(), Color::black());
    font.draw_string(pixels, "Touch Driver: Active", 50, 700, Color::light_gray(), Color::black());
    font.draw_string(pixels, "Font Renderer: 8x16", 50, 750, Color::light_gray(), Color::black());
    ui
}

} // verus!
