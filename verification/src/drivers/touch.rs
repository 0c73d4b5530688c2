//! Touch screen driver.
//!
//! The caller reads the controller's registers and hands the values in;
//! the driver turns them into touch events and tells the caller which
//! register writes to make (relative to the controller's base address).
use vstd::prelude::*;
use crate::drivers::mmio::RegWrite;

verus! {

/// Default touch controller base address.
pub const TOUCH_CTRL_BASE: u64 = 0x1000_0000;

/// Status register: bit 0 touch pending, bit 1 interrupts enabled.
pub const TOUCH_STATUS_REG: u64 = 0x00;

/// X coordinate register.
pub const TOUCH_X_REG: u64 = 0x04;

/// Y coordinate register.
pub const TOUCH_Y_REG: u64 = 0x08;

/// Pressure register.
pub const TOUCH_PRESSURE_REG: u64 = 0x0C;

/// Finger id register (bits 0..3).
pub const TOUCH_FINGER_REG: u64 = 0x10;

/// Number of busy-wait iterations after resetting the controller.
pub const TOUCH_RESET_SPINS: u32 = 1000;

/// Touch event types.
#[derive(Debug, Clone, Copy, PartialEq, Eq, Structural)]
pub enum TouchEvent {
    /// No touch.
    NoTouch,
    /// x, y coordinates.
    Press(i32, i32),
    /// x, y coordinates.
    Release(i32, i32),
    /// x, y coordinates.
    Move(i32, i32),
    /// finger id, x, y.
    MultiTouch(u8, i32, i32),
}

/// Touch screen information.
#[derive(Debug, Clone, Copy, PartialEq, Eq, Structural)]
pub struct TouchInfo {
    pub width: u32,
    pub height: u32,
    pub max_touch_points: u8,
    pub calibrated: bool,
}

impl TouchInfo {
    /// A 1080x1920 panel with 10 touch points, not calibrated.
    pub fn new() -> (r: Self)
        ensures
            r == (TouchInfo { width: 1080, height: 1920, max_touch_points: 10, calibrated: false }),
    {
        TouchInfo { width: 1080, height: 1920, max_touch_points: 10, calibrated: false }
    }
}

/// Values read from the controller's registers.
#[derive(Debug, Clone, Copy)]
pub struct TouchRegisters {
    pub status: u32,
    pub x: u32,
    pub y: u32,
    pub pressure: u32,
    pub finger: u32,
}

/// A touch reading: the event, and the status write that acknowledges it.
#[derive(Debug, Clone, Copy)]
pub struct TouchReading {
    pub event: TouchEvent,
    pub clear: Option<RegWrite>,
}

/// Touch screen driver.
pub struct TouchDriver {
    info: TouchInfo,
    base_addr: u64,
}

/// A status value of all ones or all zeros means no controller.
pub open spec fn controller_present(status: u32) -> bool {
    status != 0xFFFF_FFFF && status != 0
}

/// The event the registers describe while a touch is pending.
pub open spec fn decode_touch(regs: TouchRegisters) -> TouchEvent {
    let x = regs.x as i32;
    let y = regs.y as i32;
    let finger = (regs.finger & 0xF) as u8;
    if regs.pressure == 0 {
        TouchEvent::Release(x, y)
    } else if finger > 0 {
        TouchEvent::MultiTouch(finger, x, y)
    } else {
        TouchEvent::Press(x, y)
    }
}

/// Write to the status register.
pub open spec fn status_write(value: u32) -> RegWrite {
    RegWrite { word: (TOUCH_STATUS_REG / 4) as usize, value }
}

/// What one poll of the controller yields.
pub open spec fn reading_of(available: bool, regs: TouchRegisters) -> TouchReading {
    if available && regs.status & 1 != 0 {
        TouchReading { event: decode_touch(regs), clear: Some(status_write(regs.status)) }
    } else {
        TouchReading { event: TouchEvent::NoTouch, clear: None }
    }
}

impl TouchDriver {
    /// A driver for the controller at `base_addr`.
    pub fn new(base_addr: u64) -> (r: Self)
        ensures
            r.info() == (TouchInfo { width: 1080, height: 1920, max_touch_points: 10, calibrated: false }),
            r.base() == base_addr,
    {
        TouchDriver { info: TouchInfo::new(), base_addr }
    }

    pub closed spec fn info(&self) -> TouchInfo {
        self.info
    }

    pub closed spec fn base(&self) -> u64 {
        self.base_addr
    }

    /// Controller base address.
    pub fn base_address(&self) -> (r: u64)
        ensures
            r == self.base(),
    {
        self.base_addr
    }

    /// Initialise from the status register value. Without a controller
    /// nothing changes and `None` comes back. Otherwise touch is marked
    /// available, the panel calibrated, and the caller gets the reset write
    /// and, to make after `TOUCH_RESET_SPINS` idle iterations, the write
    /// that clears pending interrupts.
    pub fn init(&mut self, available: &mut bool, status: u32) -> (r: Option<(RegWrite, RegWrite)>)
        ensures
            availability_kept(*old(available), *final(available)),
            r is Some <==> controller_present(status),
            !controller_present(status) ==> *final(self) == *old(self) && *final(available) == *old(available),
            controller_present(status) ==> {
                &&& r == Some((status_write(1), status_write(0)))
                &&& *final(available)
                &&& final(self).info() == (TouchInfo { calibrated: true, ..old(self).info() })
                &&& final(self).base() == old(self).base()
            },
    {
        if status == 0xFFFF_FFFF || status == 0 {
            return None;
        }
        let reset = RegWrite { word: (TOUCH_STATUS_REG / 4) as usize, value: 1 };
        let clear = RegWrite { word: (TOUCH_STATUS_REG / 4) as usize, value: 0 };
        *available = true;
        self.info.calibrated = true;
        Some((reset, clear))
    }

    /// Whether a touch is pending, given the status register value.
    pub fn has_touch_event(&self, available: bool, status: u32) -> (r: bool)
        ensures
            r == (available && status & 1 != 0),
    {
        if !available {
            return false;
        }
        (status & 0x1) != 0
    }

    /// Decode the registers into a touch event; a pending touch is also
    /// acknowledged by writing the status value back.
    pub fn read_touch(&self, available: bool, regs: TouchRegisters) -> (r: TouchReading)
        ensures
            r == reading_of(available, regs),
    {
        if !available {
            return TouchReading { event: TouchEvent::NoTouch, clear: None };
        }
        let status = regs.status;
        if (status & 0x1) == 0 {
            return TouchReading { event: TouchEvent::NoTouch, clear: None };
        }
        let x = regs.x as i32;
        let y = regs.y as i32;
        let pressure = regs.pressure;
        let finger_id = (regs.finger & 0xF) as u8;
        let clear = RegWrite { word: (TOUCH_STATUS_REG / 4) as usize, value: status };
        let event = if pressure == 0 {
            TouchEvent::Release(x, y)
        } else if finger_id > 0 {
            TouchEvent::MultiTouch(finger_id, x, y)
        } else {
            TouchEvent::Press(x, y)
        };
        TouchReading { event, clear: Some(clear) }
    }

    /// Mark the panel calibrated.
    pub fn calibrate(&mut self) -> (r: bool)
        ensures
            r,
            final(self).info() == (TouchInfo { calibrated: true, ..old(self).info() }),
            final(self).base() == old(self).base(),
    {
        self.info.calibrated = true;
        true
    }

    /// Touch screen information.
    pub fn get_info(&self) -> (r: &TouchInfo)
        ensures
            *r == self.info(),
    {
        &self.info
    }

    /// Status write that enables touch interrupts, given the current status.
    pub fn enable_interrupts(&self, current: u32) -> (w: RegWrite)
        ensures
            w == status_write(current | 2),
    {
        RegWrite { word: (TOUCH_STATUS_REG / 4) as usize, value: current | 0x2 }
    }

    /// Status write that disables touch interrupts, given the current status.
    pub fn disable_interrupts(&self, current: u32) -> (w: RegWrite)
        ensures
            w == status_write(current & !2u32),
    {
        RegWrite { word: (TOUCH_STATUS_REG / 4) as usize, value: current & !0x2u32 }
    }
}

/// The touch subsystem: whether a controller answered, and the installed
/// driver.
pub struct TouchSystem {
    pub available: bool,
    pub driver: Option<TouchDriver>,
}

impl TouchSystem {
    /// No controller found yet.
    pub fn new() -> (r: Self)
        ensures
            !r.available,
            r.driver is None,
    {
        TouchSystem { available: false, driver: None }
    }
}

/// Create and initialise a driver for the controller at `base_addr`; it is
/// installed only when the controller answers.
pub fn init_touch(sys: &mut TouchSystem, base_addr: u64, status: u32) -> (r: Option<(RegWrite, RegWrite)>)
    ensures
        availability_kept(old(sys).available, final(sys).available),
        r is Some <==> controller_present(status),
        controller_present(status) ==> final(sys).available && (final(sys).driver matches Some(d)
            && d.base() == base_addr && d.info().calibrated),
        !controller_present(status) ==> final(sys).available == old(sys).available && final(sys).driver
            == old(sys).driver,
{
    let mut driver = TouchDriver::new(base_addr);
    let r = driver.init(&mut sys.available, status);
    if r.is_some() {
        sys.driver = Some(driver);
    }
    r
}

/// Poll the installed driver; no driver means no event.
pub fn poll_touch(sys: &TouchSystem, regs: TouchRegisters) -> (r: TouchReading)
    ensures
        sys.driver is Some ==> r == reading_of(sys.available, regs),
        sys.driver is None ==> r.event == TouchEvent::NoTouch && r.clear is None,
{
    match &sys.driver {
        Some(driver) => driver.read_touch(sys.available, regs),
        None => TouchReading { event: TouchEvent::NoTouch, clear: None },
    }
}

/// Whether a touch controller has answered.
pub fn touch_available(sys: &TouchSystem) -> (r: bool)
    ensures
        r == sys.available,
{
    sys.available
}

/// A reading either reports no touch and writes nothing, or reports a
/// press, release or multi-touch and acknowledges it with exactly the
/// status value read.
pub proof fn law_reading_acknowledged(available: bool, regs: TouchRegisters)
    ensures
        reading_of(available, regs).event == TouchEvent::NoTouch <==> reading_of(available, regs).clear is None,
        reading_of(available, regs).clear is Some ==> reading_of(available, regs).clear == Some(
            status_write(regs.status),
        ),
        !(reading_of(available, regs).event is Move),
{
}

/// Enabling interrupts sets bit 1 of the status, disabling clears it, and
/// disabling right after enabling writes the same status as disabling alone.
pub proof fn law_enable_disable_interrupts(current: u32)
    ensures
        status_write(current | 2u32).value & 2u32 == 2u32,
        status_write(current & !2u32).value & 2u32 == 0u32,
        status_write((current | 2u32) & !2u32) == status_write(current & !2u32),
{
    assert((current | 2u32) & 2u32 == 2u32) by (bit_vector);
    assert((current & !2u32) & 2u32 == 0u32) by (bit_vector);
    assert((current | 2u32) & !2u32 == current & !2u32) by (bit_vector);
}

/// An operation on the touch system keeps it available once a controller
/// has answered (no operation clears the flag).
pub open spec fn availability_kept(before: bool, after: bool) -> bool {
    before ==> after
}

/// Once a touch controller has answered, touch stays available: along any
/// run of states in which each step keeps the flag, as `init_touch` and
/// `TouchDriver::init` do, the flag set at one state is set at every later
/// one.
pub proof fn law_touch_availability_sticky(available: Seq<bool>, i: int, j: int)
    requires
        forall|k: int| 0 <= k < available.len() - 1 ==> #[trigger] availability_kept(available[k], available[k + 1]),
        0 <= i <= j < available.len(),
        available[i],
    ensures
        available[j],
    decreases j - i,
{
    if j > i {
        law_touch_availability_sticky(available, i, j - 1);
        assert(availability_kept(available[j - 1], available[j - 1 + 1]));
    }
}

/// A pending reading with pressure is a multi-touch carrying the finger id
/// (the low four bits of the finger register) whenever that id is not 0,
/// and a press only for finger 0; without pressure it is a release. The
/// coordinates are the registers reinterpreted as signed.
pub proof fn law_finger_id_decides_multitouch(regs: TouchRegisters)
    requires
        regs.status & 1 != 0,
    ensures
        regs.pressure != 0 && regs.finger & 0xF != 0 ==> reading_of(true, regs).event == TouchEvent::MultiTouch(
            (regs.finger & 0xF) as u8,
            regs.x as i32,
            regs.y as i32,
        ),
        regs.pressure != 0 && regs.finger & 0xF == 0 ==> reading_of(true, regs).event == TouchEvent::Press(
            regs.x as i32,
            regs.y as i32,
        ),
        regs.pressure == 0 ==> reading_of(true, regs).event == TouchEvent::Release(regs.x as i32, regs.y as i32),
{
    let f = regs.finger;
    assert(f & 0xF <= 15) by (bit_vector);
    assert((f & 0xF) as u8 as int == f & 0xF);
}

} // verus!
