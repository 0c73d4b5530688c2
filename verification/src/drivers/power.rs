//! Power management: battery monitoring, CPU performance states and system
//! power states.
//!
//! The PMU registers are read by the caller and handed in as
//! `BatteryRegisters`; the writes the manager decides on come back as
//! `RegWrite`s relative to the PMU base. System-wide state
//! (current power state, battery presence, last battery level) lives in
//! `PowerGlobals`.
use vstd::prelude::*;
use crate::drivers::mmio::RegWrite;

verus! {

/// Default PMU base address.
pub const PMU_BASE: u64 = 0x2000_0000;

/// PMU control register.
pub const PMU_CTRL_REG: u64 = 0x00;

/// PMU status register.
pub const PMU_STATUS_REG: u64 = 0x04;

/// Battery status register: level in bits 0..7, charging in bit 8.
pub const PMU_BATTERY_REG: u64 = 0x08;

/// Battery voltage register (mV in bits 0..15).
pub const PMU_VOLTAGE_REG: u64 = 0x0C;

/// Battery current register (offset-binary mA in bits 0..15).
pub const PMU_CURRENT_REG: u64 = 0x10;

/// Battery temperature register (degrees + 40 in bits 0..7).
pub const PMU_TEMP_REG: u64 = 0x14;

/// CPU frequency register.
pub const PMU_CPU_FREQ_REG: u64 = 0x18;

/// Power states.
#[derive(Debug, Clone, Copy, PartialEq, Eq, Structural)]
pub enum PowerState {
    Active,
    Idle,
    Sleep,
    DeepSleep,
    Shutdown,
}

/// Battery health status.
#[derive(Debug, Clone, Copy, PartialEq, Eq, Structural)]
pub enum BatteryHealth {
    Good,
    Overheat,
    Dead,
    OverVoltage,
    UnspecFailure,
    Cold,
}

/// CPU performance states.
#[derive(Debug, Clone, Copy, PartialEq, Eq, Structural)]
pub enum CpuPerfState {
    /// Maximum frequency.
    Performance,
    /// Balanced.
    Normal,
    /// Lower frequency.
    Powersave,
    /// Minimum frequency.
    Idle,
}

/// Battery information.
#[derive(Debug, Clone, Copy, PartialEq, Eq, Structural)]
pub struct BatteryInfo {
    pub level_percent: u8,
    pub charging: bool,
    pub voltage_mv: u16,
    pub current_ma: i16,
    pub temperature_c: i8,
    pub health: BatteryHealth,
}

impl BatteryInfo {
    /// A full, idle battery at 3.8V and 25 degrees.
    pub fn new() -> (r: Self)
        ensures
            r == battery_info_default(),
    {
        BatteryInfo {
            level_percent: 100,
            charging: false,
            voltage_mv: 3800,
            current_ma: 0,
            temperature_c: 25,
            health: BatteryHealth::Good,
        }
    }
}

/// Values read from the PMU's battery registers.
#[derive(Debug, Clone, Copy)]
pub struct BatteryRegisters {
    pub battery: u32,
    pub voltage: u32,
    pub current: u32,
    pub temperature: u32,
}

/// Power state shared by every power manager.
#[derive(Debug, Clone, Copy)]
pub struct PowerGlobals {
    pub current_power_state: PowerState,
    pub battery_present: bool,
    pub last_battery_level: u32,
}

impl PowerGlobals {
    /// State at boot: active, no battery seen, last level 100%.
    pub fn new() -> (r: Self)
        ensures
            r.current_power_state == PowerState::Active,
            !r.battery_present,
            r.last_battery_level == 100,
    {
        PowerGlobals { current_power_state: PowerState::Active, battery_present: false, last_battery_level: 100 }
    }
}

/// Power manager.
pub struct PowerManager {
    pmu_base: u64,
    battery_info: BatteryInfo,
    current_perf_state: CpuPerfState,
}

/// What the caller must do to carry out a power state change.
#[derive(Debug, Clone, Copy)]
pub struct PowerTransition {
    /// The state change was taken.
    pub accepted: bool,
    /// Frequency register write, if the CPU performance state changed.
    pub freq_write: Option<RegWrite>,
    /// Execute WFI after the writes.
    pub wait_for_interrupt: bool,
}

pub open spec fn battery_info_default() -> BatteryInfo {
    BatteryInfo {
        level_percent: 100,
        charging: false,
        voltage_mv: 3800,
        current_ma: 0,
        temperature_c: 25,
        health: BatteryHealth::Good,
    }
}

/// A raw temperature byte is within the range the conversion handles: the
/// byte is degrees + 40, and the result must fit an `i8` (at most 127
/// degrees).
pub open spec fn temperature_in_range(temperature: u32) -> bool {
    temperature & 0xFF <= 167
}

/// Health verdict from temperature, voltage and level, in that priority.
pub open spec fn health_of(temperature_c: i8, voltage_mv: u16, level_percent: u8) -> BatteryHealth {
    if temperature_c > 45 {
        BatteryHealth::Overheat
    } else if temperature_c < 0 {
        BatteryHealth::Cold
    } else if voltage_mv > 4200 {
        BatteryHealth::OverVoltage
    } else if level_percent == 0 {
        BatteryHealth::Dead
    } else {
        BatteryHealth::Good
    }
}

/// Battery information decoded from the registers.
pub open spec fn decode_battery(regs: BatteryRegisters) -> BatteryInfo {
    let level = (regs.battery & 0xFF) as u8;
    let voltage = (regs.voltage & 0xFFFF) as u16;
    let temperature = ((regs.temperature & 0xFF) - 40) as i8;
    BatteryInfo {
        level_percent: level,
        charging: (regs.battery & 0x100) != 0,
        voltage_mv: voltage,
        current_ma: (((regs.current & 0xFFFF) as int) - 32768) as i16,
        temperature_c: temperature,
        health: health_of(temperature, voltage, level),
    }
}

/// Value written to the CPU frequency register for a performance state.
pub open spec fn freq_value(state: CpuPerfState) -> u32 {
    match state {
        CpuPerfState::Performance => 3,
        CpuPerfState::Normal => 2,
        CpuPerfState::Powersave => 1,
        CpuPerfState::Idle => 0,
    }
}

/// The frequency register write for a performance state.
pub open spec fn freq_write(state: CpuPerfState) -> RegWrite {
    RegWrite { word: (PMU_CPU_FREQ_REG / 4) as usize, value: freq_value(state) }
}

/// A PMU control register of all ones or all zeros means no PMU.
pub open spec fn pmu_present(ctrl: u32) -> bool {
    ctrl != 0xFFFF_FFFF && ctrl != 0
}

/// CPU performance state a power state runs at, if it sets one.
pub open spec fn perf_for_power_state(state: PowerState) -> Option<CpuPerfState> {
    match state {
        PowerState::Active => Some(CpuPerfState::Normal),
        PowerState::Idle => Some(CpuPerfState::Idle),
        PowerState::Sleep => Some(CpuPerfState::Idle),
        PowerState::DeepSleep => None,
        PowerState::Shutdown => None,
    }
}

/// Decode the battery registers.
fn decode_battery_registers(regs: BatteryRegisters) -> (r: BatteryInfo)
    requires
        temperature_in_range(regs.temperature),
    ensures
        r == decode_battery(regs),
{
    let level = (regs.battery & 0xFF) as u8;
    let charging = (regs.battery & 0x100) != 0;
    let voltage = (regs.voltage & 0xFFFF) as u16;
    let raw_current = regs.current;
    assert(raw_current & 0xFFFF <= 0xFFFF) by (bit_vector);
    let current = (((regs.current & 0xFFFF) as i32) - 32768) as i16;
    let raw = regs.temperature;
    assert(raw & 0xFF <= 0xFF) by (bit_vector);
    let temperature = (((regs.temperature & 0xFF) as i16) - 40) as i8;
    let health = if temperature > 45 {
        BatteryHealth::Overheat
    } else if temperature < 0 {
        BatteryHealth::Cold
    } else if voltage > 4200 {
        BatteryHealth::OverVoltage
    } else if level == 0 {
        BatteryHealth::Dead
    } else {
        BatteryHealth::Good
    };
    BatteryInfo {
        level_percent: level,
        charging,
        voltage_mv: voltage,
        current_ma: current,
        temperature_c: temperature,
        health,
    }
}

impl PowerManager {
    /// A manager for the PMU at `pmu_base`, with default battery information
    /// and normal performance.
    pub fn new(pmu_base: u64) -> (r: Self)
        ensures
            r.pmu_base() == pmu_base,
            r.battery() == battery_info_default(),
            r.perf_state() == CpuPerfState::Normal,
    {
        PowerManager { pmu_base, battery_info: BatteryInfo::new(), current_perf_state: CpuPerfState::Normal }
    }

    pub closed spec fn pmu_base(&self) -> u64 {
        self.pmu_base
    }

    pub closed spec fn battery(&self) -> BatteryInfo {
        self.battery_info
    }

    pub closed spec fn perf_state(&self) -> CpuPerfState {
        self.current_perf_state
    }

    /// PMU base address.
    pub fn base_address(&self) -> (r: u64)
        ensures
            r == self.pmu_base(),
    {
        self.pmu_base
    }

    /// Initialise from the PMU control register `ctrl` and the battery
    /// registers. Without a PMU nothing changes and `None` is returned;
    /// otherwise the battery is read, recorded as present when its level is
    /// above 0, the CPU is set to normal performance and the frequency
    /// register write is returned.
    pub fn init(&mut self, globals: &mut PowerGlobals, ctrl: u32, regs: BatteryRegisters) -> (r: Option<RegWrite>)
        requires
            temperature_in_range(regs.temperature),
        ensures
            presence_kept(*old(globals), *final(globals)),
            r is Some <==> pmu_present(ctrl),
            !pmu_present(ctrl) ==> *final(self) == *old(self) && *final(globals) == *old(globals),
            pmu_present(ctrl) ==> {
                &&& r == Some(freq_write(CpuPerfState::Normal))
                &&& final(self).battery() == decode_battery(regs)
                &&& final(self).perf_state() == CpuPerfState::Normal
                &&& final(self).pmu_base() == old(self).pmu_base()
                &&& final(globals).last_battery_level == decode_battery(regs).level_percent
                &&& final(globals).battery_present == (old(globals).battery_present
                    || decode_battery(regs).level_percent > 0)
                &&& final(globals).current_power_state == old(globals).current_power_state
            },
    {
        if ctrl == 0xFFFF_FFFF || ctrl == 0 {
            return None;
        }
        self.update_battery_info(globals, regs);
        if self.battery_info.level_percent > 0 {
            globals.battery_present = true;
        }
        Some(self.set_cpu_performance(CpuPerfState::Normal))
    }

    /// Take new battery readings and record the level as the last one seen.
    pub fn update_battery_info(&mut self, globals: &mut PowerGlobals, regs: BatteryRegisters)
        requires
            temperature_in_range(regs.temperature),
        ensures
            presence_kept(*old(globals), *final(globals)),
            final(self).battery() == decode_battery(regs),
            final(self).perf_state() == old(self).perf_state(),
            final(self).pmu_base() == old(self).pmu_base(),
            final(globals).last_battery_level == decode_battery(regs).level_percent,
            final(globals).battery_present == old(globals).battery_present,
            final(globals).current_power_state == old(globals).current_power_state,
    {
        self.battery_info = decode_battery_registers(regs);
        globals.last_battery_level = self.battery_info.level_percent as u32;
    }

    /// Current battery information.
    pub fn get_battery_info(&self) -> (r: &BatteryInfo)
        ensures
            *r == self.battery(),
    {
        &self.battery_info
    }

    /// Whether a battery has been seen.
    pub fn battery_present(&self, globals: &PowerGlobals) -> (r: bool)
        ensures
            r == globals.battery_present,
    {
        globals.battery_present
    }

    /// Current system power state.
    pub fn get_power_state(&self, globals: &PowerGlobals) -> (r: PowerState)
        ensures
            r == globals.current_power_state,
    {
        globals.current_power_state
    }

    /// Switch the CPU performance state; returns the frequency register
    /// write.
    pub fn set_cpu_performance(&mut self, state: CpuPerfState) -> (w: RegWrite)
        ensures
            final(self).perf_state() == state,
            final(self).battery() == old(self).battery(),
            final(self).pmu_base() == old(self).pmu_base(),
            w == freq_write(state),
    {
        self.current_perf_state = state;
        let freq_value: u32 = match state {
            CpuPerfState::Performance => 3,
            CpuPerfState::Normal => 2,
            CpuPerfState::Powersave => 1,
            CpuPerfState::Idle => 0,
        };
        RegWrite { word: (PMU_CPU_FREQ_REG / 4) as usize, value: freq_value }
    }

    /// Enter a power state. Active runs at normal performance, Idle and
    /// Sleep at idle performance (Idle also waits for an interrupt); deep
    /// sleep and shutdown leave the performance state alone. Always
    /// accepted.
    pub fn enter_power_state(&mut self, globals: &mut PowerGlobals, state: PowerState) -> (r: PowerTransition)
        ensures
            presence_kept(*old(globals), *final(globals)),
            r.accepted,
            final(globals).current_power_state == state,
            final(globals).battery_present == old(globals).battery_present,
            final(globals).last_battery_level == old(globals).last_battery_level,
            r.wait_for_interrupt == (state == PowerState::Idle),
            final(self).perf_state() == (match perf_for_power_state(state) {
                Some(p) => p,
                None => old(self).perf_state(),
            }),
            r.freq_write == (match perf_for_power_state(state) {
                Some(p) => Some(freq_write(p)),
                None => None,
            }),
            final(self).battery() == old(self).battery(),
            final(self).pmu_base() == old(self).pmu_base(),
    {
        match state {
            PowerState::Active => {
                globals.current_power_state = PowerState::Active;
                let w = self.set_cpu_performance(CpuPerfState::Normal);
                PowerTransition { accepted: true, freq_write: Some(w), wait_for_interrupt: false }
            },
            PowerState::Idle => {
                globals.current_power_state = PowerState::Idle;
                let w = self.set_cpu_performance(CpuPerfState::Idle);
                PowerTransition { accepted: true, freq_write: Some(w), wait_for_interrupt: true }
            },
            PowerState::Sleep => {
                globals.current_power_state = PowerState::Sleep;
                let w = self.set_cpu_performance(CpuPerfState::Idle);
                PowerTransition { accepted: true, freq_write: Some(w), wait_for_interrupt: false }
            },
            PowerState::DeepSleep => {
                globals.current_power_state = PowerState::DeepSleep;
                PowerTransition { accepted: true, freq_write: None, wait_for_interrupt: false }
            },
            PowerState::Shutdown => {
                globals.current_power_state = PowerState::Shutdown;
                PowerTransition { accepted: true, freq_write: None, wait_for_interrupt: false }
            },
        }
    }

    /// Return to the active state at normal performance; returns the
    /// frequency register write.
    pub fn wake_from_sleep(&mut self, globals: &mut PowerGlobals) -> (w: RegWrite)
        ensures
            presence_kept(*old(globals), *final(globals)),
            final(globals).current_power_state == PowerState::Active,
            final(globals).battery_present == old(globals).battery_present,
            final(globals).last_battery_level == old(globals).last_battery_level,
            final(self).perf_state() == CpuPerfState::Normal,
            final(self).battery() == old(self).battery(),
            final(self).pmu_base() == old(self).pmu_base(),
            w == freq_write(CpuPerfState::Normal),
    {
        globals.current_power_state = PowerState::Active;
        self.set_cpu_performance(CpuPerfState::Normal)
    }

    /// The system may drop to low power unless it runs at full performance.
    pub fn should_idle(&self) -> (r: bool)
        ensures
            r == (self.perf_state() != CpuPerfState::Performance),
    {
        self.current_perf_state != CpuPerfState::Performance
    }

    /// Current CPU performance state.
    pub fn get_cpu_performance(&self) -> (r: CpuPerfState)
        ensures
            r == self.perf_state(),
    {
        self.current_perf_state
    }
}

/// The power subsystem: shared state and the installed manager, if any.
pub struct PowerSystem {
    pub globals: PowerGlobals,
    pub manager: Option<PowerManager>,
}

impl PowerSystem {
    /// No manager installed yet.
    pub fn new() -> (r: Self)
        ensures
            r.manager is None,
            r.globals.current_power_state == PowerState::Active,
            !r.globals.battery_present,
            r.globals.last_battery_level == 100,
    {
        PowerSystem { globals: PowerGlobals::new(), manager: None }
    }
}

/// Create and initialise a manager for the PMU at `pmu_base`; it is
/// installed only when the PMU answers. Returns the frequency register
/// write when it does.
pub fn init_power(sys: &mut PowerSystem, pmu_base: u64, ctrl: u32, regs: BatteryRegisters) -> (r: Option<RegWrite>)
    requires
        temperature_in_range(regs.temperature),
    ensures
        presence_kept(old(sys).globals, final(sys).globals),
        r is Some <==> pmu_present(ctrl),
        !pmu_present(ctrl) ==> final(sys).manager == old(sys).manager,
        pmu_present(ctrl) ==> (final(sys).manager matches Some(m) && m.pmu_base() == pmu_base
            && m.battery() == decode_battery(regs) && m.perf_state() == CpuPerfState::Normal),
        pmu_present(ctrl) ==> final(sys).globals.last_battery_level == decode_battery(regs).level_percent,
{
    let mut pm = PowerManager::new(pmu_base);
    let r = pm.init(&mut sys.globals, ctrl, regs);
    if r.is_some() {
        sys.manager = Some(pm);
    }
    r
}

/// Battery level: from the installed manager, or the last level any
/// manager read.
pub fn get_battery_level(sys: &PowerSystem) -> (r: u8)
    ensures
        r == (match sys.manager {
            Some(m) => m.battery().level_percent,
            None => sys.globals.last_battery_level as u8,
        }),
{
    match &sys.manager {
        Some(pm) => pm.get_battery_info().level_percent,
        None => sys.globals.last_battery_level as u8,
    }
}

/// Whether the installed manager sees the battery charging.
pub fn is_charging(sys: &PowerSystem) -> (r: bool)
    ensures
        r == (match sys.manager {
            Some(m) => m.battery().charging,
            None => false,
        }),
{
    match &sys.manager {
        Some(pm) => pm.get_battery_info().charging,
        None => false,
    }
}

/// Refresh the installed manager's battery information.
pub fn update_battery(sys: &mut PowerSystem, regs: BatteryRegisters)
    requires
        temperature_in_range(regs.temperature),
    ensures
        presence_kept(old(sys).globals, final(sys).globals),
        old(sys).manager is None ==> *final(sys) == *old(sys),
        old(sys).manager is Some ==> (final(sys).manager matches Some(m) && m.battery() == decode_battery(regs)
            && m.perf_state() == old(sys).manager.unwrap().perf_state()
            && m.pmu_base() == old(sys).manager.unwrap().pmu_base()),
        old(sys).manager is Some ==> final(sys).globals.last_battery_level == decode_battery(regs).level_percent,
{
    if let Some(pm) = &mut sys.manager {
        pm.update_battery_info(&mut sys.globals, regs);
    }
}

/// Idle hook for the scheduler: enter the idle state when a manager is
/// installed and not at full performance. Returns the transition to carry
/// out, if any.
pub fn idle(sys: &mut PowerSystem) -> (r: Option<PowerTransition>)
    ensures
        presence_kept(old(sys).globals, final(sys).globals),
        (old(sys).manager matches Some(m) && m.perf_state() != CpuPerfState::Performance) ==> {
            &&& r matches Some(t) && t.wait_for_interrupt && t.freq_write == Some(freq_write(CpuPerfState::Idle))
            &&& final(sys).globals.current_power_state == PowerState::Idle
            &&& final(sys).manager matches Some(m2) && m2.perf_state() == CpuPerfState::Idle
        },
        !(old(sys).manager matches Some(m) && m.perf_state() != CpuPerfState::Performance) ==> r is None
            && *final(sys) == *old(sys),
{
    if let Some(pm) = &mut sys.manager {
        if pm.should_idle() {
            let t = pm.enter_power_state(&mut sys.globals, PowerState::Idle);
            return Some(t);
        }
    }
    None
}

/// Battery health follows the readings: overheat above 45 degrees, cold
/// below 0, over-voltage above 4.2V, dead at 0%, good otherwise.
pub proof fn law_health_classification(regs: BatteryRegisters)
    ensures
        decode_battery(regs).temperature_c > 45 ==> decode_battery(regs).health == BatteryHealth::Overheat,
        decode_battery(regs).temperature_c < 0 ==> decode_battery(regs).health == BatteryHealth::Cold,
        (0 <= decode_battery(regs).temperature_c <= 45 && decode_battery(regs).voltage_mv <= 4200
            && decode_battery(regs).level_percent > 0) ==> decode_battery(regs).health == BatteryHealth::Good,
        decode_battery(regs).health != BatteryHealth::UnspecFailure,
{
}

/// An operation on the power state keeps the battery-present flag once it
/// is set (no operation clears it).
pub open spec fn presence_kept(before: PowerGlobals, after: PowerGlobals) -> bool {
    before.battery_present ==> after.battery_present
}

/// Once a battery has been seen it stays seen: along any run of states in
/// which each step keeps the flag, as the contract of every operation on
/// `PowerGlobals` does, the flag set at one state is set at every later one.
pub proof fn law_battery_presence_sticky(states: Seq<PowerGlobals>, i: int, j: int)
    requires
        forall|k: int| 0 <= k < states.len() - 1 ==> #[trigger] presence_kept(states[k], states[k + 1]),
        0 <= i <= j < states.len(),
        states[i].battery_present,
    ensures
        states[j].battery_present,
    decreases j - i,
{
    if j > i {
        law_battery_presence_sticky(states, i, j - 1);
        assert(presence_kept(states[j - 1], states[j - 1 + 1]));
    }
}

} // verus!
