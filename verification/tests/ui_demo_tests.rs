use phone_os::drivers::font::FontRenderer;
use phone_os::drivers::framebuffer::{Color, PIXEL_COUNT};
use phone_os::drivers::touch::TouchEvent;
use phone_os::drivers::ui::{Button, Label, Panel, UIEvent, Widget};
use phone_os::drivers::ui_demo::{handle_demo_input, init_demo_ui, run_demo_loop};

const W: usize = 1080;

fn px(pixels: &[u32], x: usize, y: usize) -> u32 {
    pixels[y * W + x]
}

#[test]
fn demo_draw_matches_widgets() {
    let ui = init_demo_ui::<fn()>();
    let mut a = vec![0u32; PIXEL_COUNT];
    ui.draw_demo_ui(&mut a);

    let font = FontRenderer::new();
    let mut b = vec![0u32; PIXEL_COUNT];
    let mut top = Panel::new(0, 0, 1080, 40);
    top.set_colors(Color::dark_gray(), Color::gray());
    let mut bottom = Panel::new(0, 1880, 1080, 40);
    bottom.set_colors(Color::dark_gray(), Color::gray());
    let mut label = Label::new("Welcome to PhoneOS!", 50, 100, 980, 60);
    label.set_align(phone_os::drivers::font::TextAlign::Center);
    top.draw(&mut b, &font);
    bottom.draw(&mut b, &font);
    label.draw(&mut b, &font);
    Button::<fn()>::new("Button 1", 100, 300, 280, 80).draw(&mut b, &font);
    Button::<fn()>::new("Button 2", 400, 300, 280, 80).draw(&mut b, &font);
    Button::<fn()>::new("Button 3", 700, 300, 280, 80).draw(&mut b, &font);
    font.draw_string(&mut b, "Touch events received", 50, 500, Color::light_gray(), Color::black());
    assert!(a == b);
    assert_eq!(px(&a, 5, 5), 0xFF40_4040);
    assert_eq!(px(&a, 0, 0), 0xFF80_8080);
    assert_eq!(px(&a, 150, 310), 0xFF00_00FF);
}

#[test]
fn clicking_flips_button_colour() {
    let mut ui = init_demo_ui::<fn()>();
    ui.on_button2_click();
    let mut a = vec![0u32; PIXEL_COUNT];
    ui.draw_demo_ui(&mut a);
    assert_eq!(px(&a, 150, 310), 0xFF00_00FF);
    assert_eq!(px(&a, 450, 310), 0xFF00_FF00);
    ui.on_button2_click();
    ui.on_button1_click();
    ui.on_button3_click();
    ui.draw_demo_ui(&mut a);
    assert_eq!(px(&a, 150, 310), 0xFF00_FF00);
    assert_eq!(px(&a, 450, 310), 0xFF00_00FF);
    assert_eq!(px(&a, 750, 310), 0xFF00_FF00);
}

#[test]
fn demo_input_becomes_touch_down() {
    assert_eq!(handle_demo_input(TouchEvent::Press(1, 2)), Some(UIEvent::TouchDown(1, 2)));
    assert_eq!(handle_demo_input(TouchEvent::Release(3, 4)), Some(UIEvent::TouchDown(3, 4)));
    assert_eq!(handle_demo_input(TouchEvent::Move(5, 6)), Some(UIEvent::TouchDown(5, 6)));
    assert_eq!(handle_demo_input(TouchEvent::MultiTouch(1, 5, 6)), None);
    assert_eq!(handle_demo_input(TouchEvent::NoTouch), None);
}

#[test]
fn demo_run_writes_status_lines() {
    let mut a = vec![0u32; PIXEL_COUNT];
    let _ui = run_demo_loop::<fn()>(&mut a);
    assert_eq!(px(&a, 50, 600), 0xFF00_FF00);
    assert_eq!(px(&a, 50, 650), 0xFFC0_C0C0);
    assert_eq!(px(&a, 50, 750), 0xFFC0_C0C0);
    assert_eq!(px(&a, 50, 500), 0xFFC0_C0C0);
    assert_eq!(px(&a, 52, 602), 0xFF00_0000);
}
