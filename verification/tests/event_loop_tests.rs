use phone_os::drivers::touch::TouchEvent;
use phone_os::kernel::event_loop::{loop_step, LoopState, PressFeedback, IDLE_TICKS};

#[test]
fn loop_starts_idle() {
    let s = LoopState::new();
    assert_eq!(s.touch_count, 0);
    assert_eq!(s.last_touch_time, 0);
}

#[test]
fn press_is_counted_and_answered() {
    let mut s = LoopState::new();
    let mut timer: u64 = 10;
    let a = loop_step(&mut s, &mut timer, TouchEvent::Press(3, 4));
    assert_eq!(a.press, Some(PressFeedback { touch_number: 1, x: 3, y: 4, performance: false }));
    assert_eq!(a.release, None);
    assert!(!a.idle_eco);
    assert_eq!(s, LoopState { touch_count: 1, last_touch_time: 10 });
    assert_eq!(timer, 12);
}

#[test]
fn every_fifth_press_asks_for_performance() {
    let mut s = LoopState::new();
    let mut timer: u64 = 0;
    let mut modes = Vec::new();
    for i in 0..10 {
        let a = loop_step(&mut s, &mut timer, TouchEvent::Press(i, i));
        modes.push(a.press.unwrap().performance);
    }
    assert_eq!(modes, vec![false, false, false, false, true, false, false, false, false, true]);
    assert_eq!(s.touch_count, 10);
}

#[test]
fn release_is_logged_without_state_change() {
    let mut s = LoopState { touch_count: 3, last_touch_time: 5 };
    let mut timer: u64 = 7;
    let a = loop_step(&mut s, &mut timer, TouchEvent::Release(8, 9));
    assert_eq!(a.release, Some((8, 9)));
    assert!(a.press.is_none());
    assert!(!a.idle_eco);
    assert_eq!(s, LoopState { touch_count: 3, last_touch_time: 5 });
    assert_eq!(timer, 8);
}

#[test]
fn long_idle_asks_for_economy() {
    let mut s = LoopState { touch_count: 1, last_touch_time: 0 };
    let mut timer: u64 = IDLE_TICKS;
    assert!(!loop_step(&mut s, &mut timer, TouchEvent::NoTouch).idle_eco);
    let a = loop_step(&mut s, &mut timer, TouchEvent::Move(1, 1));
    assert!(a.idle_eco);
    assert!(a.press.is_none() && a.release.is_none());
    let a = loop_step(&mut s, &mut timer, TouchEvent::Press(1, 1));
    assert!(!a.idle_eco);
}
