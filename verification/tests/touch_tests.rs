use phone_os::drivers::mmio::RegWrite;
use phone_os::drivers::touch::{
    init_touch, poll_touch, touch_available, TouchDriver, TouchEvent, TouchInfo, TouchRegisters, TouchSystem,
    TOUCH_CTRL_BASE,
};

fn regs(status: u32, x: u32, y: u32, pressure: u32, finger: u32) -> TouchRegisters {
    TouchRegisters { status, x, y, pressure, finger }
}

#[test]
fn info_defaults() {
    let info = TouchInfo::new();
    assert_eq!(info, TouchInfo { width: 1080, height: 1920, max_touch_points: 10, calibrated: false });
}

#[test]
fn init_without_controller() {
    let mut d = TouchDriver::new(TOUCH_CTRL_BASE);
    let mut available = false;
    assert_eq!(d.init(&mut available, 0), None);
    assert_eq!(d.init(&mut available, 0xFFFF_FFFF), None);
    assert!(!available);
    assert!(!d.get_info().calibrated);
}

#[test]
fn init_with_controller() {
    let mut d = TouchDriver::new(TOUCH_CTRL_BASE);
    let mut available = false;
    let (reset, clear) = d.init(&mut available, 0x4).unwrap();
    assert_eq!(reset, RegWrite { word: 0, value: 1 });
    assert_eq!(clear, RegWrite { word: 0, value: 0 });
    assert!(available);
    assert!(d.get_info().calibrated);
    assert_eq!(d.base_address(), 0x1000_0000);
}

#[test]
fn pending_touch_flag() {
    let d = TouchDriver::new(TOUCH_CTRL_BASE);
    assert!(d.has_touch_event(true, 1));
    assert!(d.has_touch_event(true, 3));
    assert!(!d.has_touch_event(true, 2));
    assert!(!d.has_touch_event(false, 1));
}

#[test]
fn read_press_release_multitouch() {
    let d = TouchDriver::new(TOUCH_CTRL_BASE);
    let r = d.read_touch(true, regs(1, 100, 200, 50, 0));
    assert_eq!(r.event, TouchEvent::Press(100, 200));
    assert_eq!(r.clear, Some(RegWrite { word: 0, value: 1 }));
    let r = d.read_touch(true, regs(3, 5, 6, 0, 2));
    assert_eq!(r.event, TouchEvent::Release(5, 6));
    assert_eq!(r.clear, Some(RegWrite { word: 0, value: 3 }));
    let r = d.read_touch(true, regs(1, 7, 8, 9, 0x12));
    assert_eq!(r.event, TouchEvent::MultiTouch(2, 7, 8));
}

#[test]
fn read_nothing_pending() {
    let d = TouchDriver::new(TOUCH_CTRL_BASE);
    let r = d.read_touch(true, regs(2, 100, 200, 50, 0));
    assert_eq!(r.event, TouchEvent::NoTouch);
    assert!(r.clear.is_none());
    let r = d.read_touch(false, regs(1, 100, 200, 50, 0));
    assert_eq!(r.event, TouchEvent::NoTouch);
    assert!(r.clear.is_none());
}

#[test]
fn coordinates_reinterpreted_as_signed() {
    let d = TouchDriver::new(TOUCH_CTRL_BASE);
    let r = d.read_touch(true, regs(1, 0xFFFF_FFFF, 0x8000_0000, 1, 0));
    assert_eq!(r.event, TouchEvent::Press(-1, i32::MIN));
}

#[test]
fn calibrate_marks_calibrated() {
    let mut d = TouchDriver::new(TOUCH_CTRL_BASE);
    assert!(d.calibrate());
    assert!(d.get_info().calibrated);
    assert_eq!(d.get_info().width, 1080);
}

#[test]
fn interrupt_enable_disable() {
    let d = TouchDriver::new(TOUCH_CTRL_BASE);
    assert_eq!(d.enable_interrupts(0x5), RegWrite { word: 0, value: 0x7 });
    assert_eq!(d.disable_interrupts(0x7), RegWrite { word: 0, value: 0x5 });
    let on = d.enable_interrupts(0x9).value;
    assert_eq!(d.disable_interrupts(on).value, 0x9);
}

#[test]
fn touch_system_flow() {
    let mut sys = TouchSystem::new();
    assert!(!touch_available(&sys));
    assert_eq!(poll_touch(&sys, regs(1, 1, 1, 1, 0)).event, TouchEvent::NoTouch);
    assert!(init_touch(&mut sys, TOUCH_CTRL_BASE, 0).is_none());
    assert!(sys.driver.is_none());
    assert!(init_touch(&mut sys, TOUCH_CTRL_BASE, 1).is_some());
    assert!(touch_available(&sys));
    let r = poll_touch(&sys, regs(1, 10, 20, 3, 0));
    assert_eq!(r.event, TouchEvent::Press(10, 20));
    assert_eq!(r.clear, Some(RegWrite { word: 0, value: 1 }));
}

#[test]
fn touch_stays_available() {
    let mut sys = TouchSystem::new();
    assert!(init_touch(&mut sys, TOUCH_CTRL_BASE, 1).is_some());
    assert!(touch_available(&sys));
    assert!(init_touch(&mut sys, TOUCH_CTRL_BASE, 0).is_none());
    assert!(touch_available(&sys));
    let _ = poll_touch(&sys, regs(1, 1, 1, 1, 0));
    assert!(touch_available(&sys));
}
