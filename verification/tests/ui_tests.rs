use std::cell::Cell;
use std::rc::Rc;

use phone_os::drivers::font::{FontRenderer, TextAlign};
use phone_os::drivers::framebuffer::{Color, PIXEL_COUNT};
use phone_os::drivers::touch::TouchEvent;
use phone_os::drivers::ui::{
    paint, Brush, Button, Checkbox, Label, Panel, ProgressBar, Rect, Screen, Slider, SliderResponse, WidgetStore,
    TrackPosition, UIEvent, Widget, MAX_WIDGETS,
};

const W: usize = 1080;
const BLACK: u32 = 0xFF00_0000;
const WHITE: u32 = 0xFFFF_FFFF;
const GRAY: u32 = 0xFF80_8080;
const DARK_GRAY: u32 = 0xFF40_4040;
const BLUE: u32 = 0xFF00_00FF;
const GREEN: u32 = 0xFF00_FF00;

fn screen() -> Vec<u32> {
    vec![0u32; PIXEL_COUNT]
}

fn at(pixels: &[u32], x: usize, y: usize) -> u32 {
    pixels[y * W + x]
}

#[test]
fn ui_event_from_touch() {
    assert_eq!(UIEvent::from_touch(TouchEvent::Press(3, 4)), UIEvent::TouchDown(3, 4));
    assert_eq!(UIEvent::from_touch(TouchEvent::Release(3, 4)), UIEvent::TouchUp(3, 4));
    assert_eq!(UIEvent::from_touch(TouchEvent::Move(3, 4)), UIEvent::TouchMove(3, 4));
    assert_eq!(UIEvent::from_touch(TouchEvent::MultiTouch(2, 3, 4)), UIEvent::TouchMove(3, 4));
    assert_eq!(UIEvent::from_touch(TouchEvent::NoTouch), UIEvent::NoEvent);
    assert_eq!(UIEvent::from_touch(TouchEvent::Press(-1, 0)), UIEvent::TouchDown(usize::MAX, 0));
}

#[test]
fn ui_event_coords() {
    assert_eq!(UIEvent::TouchDown(1, 2).get_coords(), Some((1, 2)));
    assert_eq!(UIEvent::Click(5, 6).get_coords(), Some((5, 6)));
    assert_eq!(UIEvent::NoEvent.get_coords(), None);
}

#[test]
fn rect_contains_and_center() {
    let r = Rect::new(10, 20, 30, 40);
    assert!(r.contains(10, 20));
    assert!(r.contains(39, 59));
    assert!(!r.contains(40, 20));
    assert!(!r.contains(10, 60));
    assert!(!r.contains(9, 30));
    assert_eq!(r.center(), (25, 40));
    assert!(r.contains(r.center().0, r.center().1));
    assert!(!Rect::new(5, 5, 0, 10).contains(5, 5));
}

#[test]
fn paint_frame_and_fill() {
    let mut px = screen();
    paint(&mut px, Rect::new(10, 10, 5, 4), Brush::Frame, Color::white());
    assert_eq!(at(&px, 10, 10), WHITE);
    assert_eq!(at(&px, 14, 13), WHITE);
    assert_eq!(at(&px, 12, 11), 0);
    assert_eq!(px.iter().filter(|p| **p == WHITE).count(), 5 * 4 - 3 * 2);
    paint(&mut px, Rect::new(1078, 2398, 10, 10), Brush::Fill, Color::blue());
    assert_eq!(px.iter().filter(|p| **p == BLUE).count(), 4);
}

#[test]
fn label_draws_background_and_text() {
    let font = FontRenderer::new();
    let mut px = screen();
    let l = Label::new("Hi", 10, 20, 100, 30);
    l.draw(&mut px, &font);
    assert_eq!(at(&px, 9, 20), 0);
    assert_eq!(at(&px, 50, 21), BLACK);
    assert_eq!(at(&px, 10, 27), WHITE);
    assert_eq!(at(&px, 12, 29), BLACK);
    assert_eq!(at(&px, 26, 27), 0xFF00_0000);
    assert_eq!(at(&px, 18, 27), WHITE);
}

#[test]
fn label_alignment() {
    let font = FontRenderer::new();
    let mut px = screen();
    let mut l = Label::new("Hi", 10, 20, 100, 30);
    l.set_align(TextAlign::Center);
    l.draw(&mut px, &font);
    assert_eq!(at(&px, 52, 27), WHITE);
    assert_eq!(at(&px, 10, 27), BLACK);
    let mut px = screen();
    l.set_align(TextAlign::Right);
    l.set_colors(Color::red(), Color::blue());
    l.draw(&mut px, &font);
    assert_eq!(at(&px, 94, 27), 0xFFFF_0000);
    assert_eq!(at(&px, 10, 27), BLUE);
}

#[test]
fn hidden_widgets_draw_nothing() {
    let font = FontRenderer::new();
    let mut px = screen();
    let mut l = Label::new("Hi", 10, 20, 100, 30);
    l.set_visible(false);
    assert!(!l.is_visible());
    l.draw(&mut px, &font);
    let mut p = Panel::new(0, 0, 50, 50);
    p.set_visible(false);
    p.draw(&mut px, &font);
    assert!(px.iter().all(|v| *v == 0));
}

#[test]
fn label_and_panel_ignore_touches() {
    let mut l = Label::new("Hi", 0, 0, 100, 30);
    assert!(!l.handle_touch(TouchEvent::Press(5, 5)));
    let mut p = Panel::new(0, 0, 100, 100);
    assert!(!p.handle_touch(TouchEvent::Release(5, 5)));
    assert_eq!(p.bounds(), Rect::new(0, 0, 100, 100));
}

#[test]
fn panel_draw() {
    let font = FontRenderer::new();
    let mut px = screen();
    let mut p = Panel::new(0, 0, 20, 10);
    p.draw(&mut px, &font);
    assert_eq!(at(&px, 0, 0), GRAY);
    assert_eq!(at(&px, 5, 5), BLACK);
    p.set_has_border(false);
    p.set_colors(Color::green(), Color::red());
    p.draw(&mut px, &font);
    assert_eq!(at(&px, 0, 0), GREEN);
}

#[test]
fn button_draw_normal_and_pressed() {
    let font = FontRenderer::new();
    let mut px = screen();
    let mut b: Button<fn()> = Button::new("OK", 0, 0, 100, 40);
    b.draw(&mut px, &font);
    assert_eq!(at(&px, 0, 0), GRAY);
    assert_eq!(at(&px, 50, 5), BLUE);
    assert_eq!(at(&px, 42, 12), WHITE);
    assert_eq!(at(&px, 44, 14), BLUE);
    assert!(b.handle_touch(TouchEvent::Press(50, 20)));
    b.draw(&mut px, &font);
    assert_eq!(at(&px, 50, 5), DARK_GRAY);
}

#[test]
fn button_press_release_clicks() {
    let clicks = Rc::new(Cell::new(0u32));
    let c = clicks.clone();
    let mut b = Button::new("Go", 10, 10, 50, 20);
    b.set_on_click(move || c.set(c.get() + 1));
    assert!(!b.is_pressed());
    assert!(b.handle_touch(TouchEvent::Press(15, 15)));
    assert!(b.is_pressed());
    assert!(b.handle_touch(TouchEvent::Release(20, 20)));
    assert!(!b.is_pressed());
    assert_eq!(clicks.get(), 1);
}

#[test]
fn button_release_outside_cancels() {
    let clicks = Rc::new(Cell::new(0u32));
    let c = clicks.clone();
    let mut b = Button::new("Go", 10, 10, 50, 20);
    b.set_on_click(move || c.set(c.get() + 1));
    assert!(b.handle_touch(TouchEvent::Press(15, 15)));
    assert!(!b.handle_touch(TouchEvent::Release(100, 100)));
    assert!(!b.is_pressed());
    assert!(!b.handle_touch(TouchEvent::Release(15, 15)));
    assert_eq!(clicks.get(), 0);
    assert!(!b.handle_touch(TouchEvent::Press(0, 0)));
    assert!(b.handle_touch(TouchEvent::Move(20, 15)));
    assert!(b.is_pressed());
    assert!(!b.handle_touch(TouchEvent::NoTouch));
    assert!(b.is_pressed());
}

#[test]
fn checkbox_toggles_on_release() {
    let seen = Rc::new(Cell::new(None));
    let s = seen.clone();
    let mut cb = Checkbox::new("Wifi", 0, 0, 20);
    cb.set_on_toggle(Some(move |v: bool| s.set(Some(v))));
    assert!(!cb.is_checked());
    assert!(!cb.handle_touch(TouchEvent::Press(5, 5)));
    assert!(cb.handle_touch(TouchEvent::Release(5, 5)));
    assert!(cb.is_checked());
    assert_eq!(seen.get(), Some(true));
    assert!(cb.handle_touch(TouchEvent::Release(19, 19)));
    assert!(!cb.is_checked());
    assert_eq!(seen.get(), Some(false));
    assert!(!cb.handle_touch(TouchEvent::Release(20, 5)));
}

#[test]
fn checkbox_draw_and_bounds() {
    let font = FontRenderer::new();
    let mut px = screen();
    let mut cb: Checkbox<fn(bool)> = Checkbox::new("A", 0, 0, 20);
    assert_eq!(cb.full_bounds(&font), Rect::new(0, 0, 36, 20));
    cb.draw(&mut px, &font);
    assert_eq!(at(&px, 0, 0), WHITE);
    assert_eq!(at(&px, 10, 10), DARK_GRAY);
    assert_eq!(at(&px, 28, 2), WHITE);
    assert_eq!(at(&px, 30, 4), BLACK);
    cb.set_checked(true);
    cb.draw(&mut px, &font);
    assert_eq!(at(&px, 2, 2), WHITE);
    let small: Checkbox<fn(bool)> = Checkbox::new("", 0, 0, 8);
    assert_eq!(small.full_bounds(&font), Rect::new(0, 0, 16, 16));
}

#[test]
fn progress_bar_values() {
    let mut p = ProgressBar::new(0, 0, 100, 10);
    assert_eq!(p.get_value(), 0);
    assert_eq!(p.range(), (0, 100));
    p.set_value(150);
    assert_eq!(p.get_value(), 100);
    p.set_value(-5);
    assert_eq!(p.get_value(), 0);
    p.set_value(40);
    p.set_range(50, 80);
    assert_eq!(p.get_value(), 50);
    p.set_range(0, 10);
    assert_eq!(p.get_value(), 10);
    assert_eq!(p.range(), (0, 10));
}

#[test]
fn progress_bar_draw_fill() {
    let mut px = screen();
    let p = ProgressBar::new(0, 0, 100, 10);
    p.draw_with_fill(&mut px, 30);
    assert_eq!(at(&px, 10, 5), GREEN);
    assert_eq!(at(&px, 50, 5), DARK_GRAY);
    assert_eq!(at(&px, 0, 0), GRAY);
    assert_eq!(at(&px, 99, 9), GRAY);
}

#[test]
fn slider_values_and_callback() {
    let seen = Rc::new(Cell::new(0i32));
    let s = seen.clone();
    let mut sl = Slider::new(100, 500, 200, 40);
    assert_eq!(sl.get_value(), 50);
    sl.set_on_change(move |v: i32| s.set(v));
    assert!(sl.update_value(75));
    assert_eq!(seen.get(), 75);
    assert!(!sl.update_value(75));
    assert!(sl.update_value(200));
    assert_eq!(sl.get_value(), 100);
    assert_eq!(seen.get(), 100);
    sl.set_value(-3);
    assert_eq!(sl.get_value(), 0);
    assert_eq!(seen.get(), 100);
}

#[test]
fn slider_track_position() {
    let sl: Slider<fn(i32)> = Slider::new(100, 500, 200, 40);
    let tp = |offset| Some(TrackPosition { offset, available: 160, range: 100 });
    assert_eq!(sl.track_position(50), tp(0));
    assert_eq!(sl.track_position(200), tp(80));
    assert_eq!(sl.track_position(400), tp(160));
    let narrow: Slider<fn(i32)> = Slider::new(0, 0, 40, 40);
    assert_eq!(narrow.track_position(10), None);
}

#[test]
fn slider_touch_dragging() {
    let mut sl: Slider<fn(i32)> = Slider::new(100, 500, 200, 40);
    let on_thumb = sl.handle_touch_at(TouchEvent::Press(200, 510), 200);
    assert_eq!(on_thumb, SliderResponse { consumed: true, update_from_x: None });
    assert!(sl.is_dragging());
    let moved = sl.handle_touch_at(TouchEvent::Move(250, 0), 200);
    assert_eq!(moved, SliderResponse { consumed: true, update_from_x: Some(250) });
    let off = sl.handle_touch_at(TouchEvent::Move(400, 510), 200);
    assert_eq!(off, SliderResponse { consumed: false, update_from_x: None });
    let released = sl.handle_touch_at(TouchEvent::Release(250, 510), 200);
    assert_eq!(released, SliderResponse { consumed: true, update_from_x: None });
    assert!(!sl.is_dragging());
    let again = sl.handle_touch_at(TouchEvent::Release(250, 510), 200);
    assert_eq!(again, SliderResponse { consumed: false, update_from_x: None });
}

#[test]
fn slider_press_on_track_jumps() {
    let mut sl: Slider<fn(i32)> = Slider::new(100, 500, 200, 40);
    let r = sl.handle_touch_at(TouchEvent::Press(280, 520), 120);
    assert_eq!(r, SliderResponse { consumed: true, update_from_x: Some(280) });
    assert!(!sl.is_dragging());
    let miss = sl.handle_touch_at(TouchEvent::Press(10, 10), 120);
    assert_eq!(miss, SliderResponse { consumed: false, update_from_x: None });
    let mv = sl.handle_touch_at(TouchEvent::Move(200, 520), 120);
    assert_eq!(mv, SliderResponse { consumed: false, update_from_x: None });
}

#[test]
fn slider_draw_track_and_thumb() {
    let mut px = screen();
    let sl: Slider<fn(i32)> = Slider::new(100, 500, 200, 40);
    sl.draw_track(&mut px);
    assert_eq!(at(&px, 100, 514), GRAY);
    assert_eq!(at(&px, 299, 526), GRAY);
    assert_eq!(at(&px, 100, 513), 0);
    assert_eq!(at(&px, 100, 527), 0);
    sl.draw_thumb(&mut px, 200);
    assert_eq!(at(&px, 200, 520), BLUE);
    assert_eq!(at(&px, 181, 520), BLUE);
    assert_eq!(at(&px, 180, 500), 0);
}

#[test]
fn screen_add_and_limit() {
    let mut store = WidgetStore::new();
    let mut s = Screen::new();
    assert_eq!(s.widget_count(), 0);
    for i in 0..MAX_WIDGETS {
        assert!(s.add_widget(&mut store, Box::new(Panel::new(i, 0, 1, 1))));
    }
    assert!(!s.add_widget(&mut store, Box::new(Panel::new(0, 0, 1, 1))));
    assert_eq!(s.widget_count(), 32);
    let d = Screen::default();
    assert_eq!(d.widget_count(), 0);
}

#[test]
fn screen_touch_goes_to_topmost() {
    let hits = Rc::new(Cell::new(0u32));
    let h1 = hits.clone();
    let h2 = hits.clone();
    let mut store = WidgetStore::new();
    let mut s = Screen::new();
    let mut lower = Button::new("A", 0, 0, 100, 100);
    lower.set_on_click(move || h1.set(h1.get() + 1));
    let mut upper = Button::new("B", 50, 50, 100, 100);
    upper.set_on_click(move || h2.set(h2.get() + 10));
    s.add_widget(&mut store, Box::new(Label::new("x", 0, 0, 200, 200)));
    s.add_widget(&mut store, Box::new(lower));
    s.add_widget(&mut store, Box::new(upper));
    assert_eq!(s.handle_touch(&mut store, TouchEvent::Press(60, 60)), Some(2));
    assert_eq!(s.handle_touch(&mut store, TouchEvent::Release(60, 60)), Some(2));
    assert_eq!(hits.get(), 10);
    assert_eq!(s.handle_touch(&mut store, TouchEvent::Press(10, 10)), Some(1));
    assert_eq!(s.handle_touch(&mut store, TouchEvent::Release(10, 10)), Some(1));
    assert_eq!(hits.get(), 11);
    assert_eq!(s.handle_touch(&mut store, TouchEvent::Press(180, 180)), None);
    assert_eq!(s.widget_count(), 3);
}

#[test]
fn screen_clear_and_draw() {
    let mut px = screen();
    let mut store = WidgetStore::new();
    let mut s = Screen::new();
    s.set_background(Color::gray());
    s.clear(&mut px);
    assert!(px.iter().all(|p| *p == GRAY));
    s.add_widget(&mut store, Box::new(Panel::new(10, 10, 20, 20)));
    s.draw_all(&store, &mut px);
    assert_eq!(at(&px, 15, 15), BLACK);
    assert_eq!(at(&px, 10, 10), GRAY);
    assert_eq!(at(&px, 5, 5), GRAY);
}

#[test]
fn tiny_unchecked_checkbox_draws() {
    let font = FontRenderer::new();
    let mut px = screen();
    let cb: Checkbox<fn(bool)> = Checkbox::new("", 0, 0, 2);
    cb.draw(&mut px, &font);
    assert_eq!(px.iter().filter(|p| **p == WHITE).count(), 4);
}

#[test]
fn check_mark_shape() {
    let mut px = screen();
    paint(&mut px, Rect::new(0, 0, 6, 6), Brush::Check, Color::white());
    assert_eq!(at(&px, 0, 0), WHITE);
    assert_eq!(at(&px, 5, 0), WHITE);
    assert_eq!(at(&px, 0, 2), WHITE);
    assert_eq!(at(&px, 0, 3), 0);
    assert_eq!(at(&px, 2, 5), WHITE);
    assert_eq!(at(&px, 0, 5), 0);
}

#[test]
fn set_checked_changes_only_the_state() {
    let calls = Rc::new(Cell::new(0u32));
    let c = calls.clone();
    let mut cb = Checkbox::new("A", 3, 4, 20);
    cb.set_on_toggle(Some(move |_v: bool| c.set(c.get() + 1)));
    cb.set_checked(true);
    assert!(cb.is_checked());
    assert_eq!(cb.bounds(), Rect::new(3, 4, 20, 20));
    assert!(cb.is_visible());
    cb.set_checked(false);
    assert!(!cb.is_checked());
    assert_eq!(calls.get(), 0);
}

#[test]
fn large_slider_thumb_draws() {
    let mut px = screen();
    let sl: Slider<fn(i32)> = Slider::new(0, 0, 1080, 33000);
    sl.draw_thumb(&mut px, 540);
    assert_eq!(at(&px, 540, 2000), BLUE);
}

#[test]
fn screens_share_the_widget_store() {
    let mut px = screen();
    let mut store = WidgetStore::new();
    let mut first = Screen::new();
    let mut second = Screen::new();
    first.add_widget(&mut store, Box::new(Panel::new(0, 0, 10, 10)));
    let mut green = Panel::new(100, 100, 10, 10);
    green.set_colors(Color::green(), Color::green());
    second.add_widget(&mut store, Box::new(green));
    first.draw_all(&store, &mut px);
    assert_eq!(at(&px, 105, 105), GREEN);
    assert_eq!(at(&px, 5, 5), 0);
}
