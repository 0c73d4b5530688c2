use phone_os::drivers::mmio::RegWrite;
use phone_os::drivers::power::{
    get_battery_level, idle, init_power, is_charging, update_battery, BatteryHealth, BatteryInfo,
    BatteryRegisters, CpuPerfState, PowerGlobals, PowerManager, PowerState, PowerSystem, PMU_BASE,
};

fn regs(battery: u32, voltage: u32, current: u32, temperature: u32) -> BatteryRegisters {
    BatteryRegisters { battery, voltage, current, temperature }
}

fn normal_regs() -> BatteryRegisters {
    regs(0x132, 0x10_0F3C, 0x8000 + 100, 65)
}

const FREQ_WORD: usize = 6;

#[test]
fn battery_defaults() {
    let b = BatteryInfo::new();
    assert_eq!(b.level_percent, 100);
    assert!(!b.charging);
    assert_eq!(b.voltage_mv, 3800);
    assert_eq!(b.current_ma, 0);
    assert_eq!(b.temperature_c, 25);
    assert_eq!(b.health, BatteryHealth::Good);
}

#[test]
fn globals_at_boot() {
    let g = PowerGlobals::new();
    assert_eq!(g.current_power_state, PowerState::Active);
    assert!(!g.battery_present);
    assert_eq!(g.last_battery_level, 100);
}

#[test]
fn new_manager() {
    let pm = PowerManager::new(PMU_BASE);
    assert_eq!(pm.base_address(), 0x2000_0000);
    assert_eq!(pm.get_cpu_performance(), CpuPerfState::Normal);
    assert_eq!(*pm.get_battery_info(), BatteryInfo::new());
}

#[test]
fn init_without_pmu_changes_nothing() {
    let mut pm = PowerManager::new(PMU_BASE);
    let mut g = PowerGlobals::new();
    assert_eq!(pm.init(&mut g, 0, normal_regs()), None);
    assert_eq!(pm.init(&mut g, 0xFFFF_FFFF, normal_regs()), None);
    assert_eq!(*pm.get_battery_info(), BatteryInfo::new());
    assert!(!g.battery_present);
    assert_eq!(g.last_battery_level, 100);
}

#[test]
fn init_with_pmu_reads_battery() {
    let mut pm = PowerManager::new(PMU_BASE);
    let mut g = PowerGlobals::new();
    assert_eq!(pm.init(&mut g, 1, normal_regs()), Some(RegWrite { word: FREQ_WORD, value: 2 }));
    let b = *pm.get_battery_info();
    assert_eq!(b.level_percent, 50);
    assert!(b.charging);
    assert_eq!(b.voltage_mv, 3900);
    assert_eq!(b.current_ma, 100);
    assert_eq!(b.temperature_c, 25);
    assert_eq!(b.health, BatteryHealth::Good);
    assert!(g.battery_present);
    assert!(pm.battery_present(&g));
    assert_eq!(g.last_battery_level, 50);
}

#[test]
fn init_with_empty_battery_is_not_present() {
    let mut pm = PowerManager::new(PMU_BASE);
    let mut g = PowerGlobals::new();
    assert!(pm.init(&mut g, 1, regs(0, 3700, 0x8000, 65)).is_some());
    assert!(!g.battery_present);
    assert_eq!(pm.get_battery_info().health, BatteryHealth::Dead);
}

#[test]
fn decode_current_and_temperature_extremes() {
    let mut pm = PowerManager::new(PMU_BASE);
    let mut g = PowerGlobals::new();
    pm.update_battery_info(&mut g, regs(0x50, 3700, 0, 0));
    assert_eq!(pm.get_battery_info().current_ma, -32768);
    assert_eq!(pm.get_battery_info().temperature_c, -40);
    assert_eq!(pm.get_battery_info().health, BatteryHealth::Cold);
    pm.update_battery_info(&mut g, regs(0x50, 3700, 0, 0xA7));
    assert_eq!(pm.get_battery_info().temperature_c, 127);
    assert_eq!(pm.get_battery_info().health, BatteryHealth::Overheat);
    pm.update_battery_info(&mut g, regs(0x50, 3700, 0, 0x80));
    assert_eq!(pm.get_battery_info().temperature_c, 88);
    pm.update_battery_info(&mut g, regs(0x50, 3700, 0xFFFF, 0x7F));
    assert_eq!(pm.get_battery_info().current_ma, 32767);
    assert_eq!(pm.get_battery_info().temperature_c, 87);
    assert_eq!(pm.get_battery_info().health, BatteryHealth::Overheat);
}

#[test]
fn health_priorities() {
    let mut pm = PowerManager::new(PMU_BASE);
    let mut g = PowerGlobals::new();
    pm.update_battery_info(&mut g, regs(0, 5000, 0, 86));
    assert_eq!(pm.get_battery_info().health, BatteryHealth::Overheat);
    pm.update_battery_info(&mut g, regs(0, 5000, 0, 39));
    assert_eq!(pm.get_battery_info().health, BatteryHealth::Cold);
    pm.update_battery_info(&mut g, regs(0, 4201, 0, 40));
    assert_eq!(pm.get_battery_info().health, BatteryHealth::OverVoltage);
    pm.update_battery_info(&mut g, regs(0, 4200, 0, 85));
    assert_eq!(pm.get_battery_info().health, BatteryHealth::Dead);
    pm.update_battery_info(&mut g, regs(1, 4200, 0, 85));
    assert_eq!(pm.get_battery_info().health, BatteryHealth::Good);
    assert_eq!(g.last_battery_level, 1);
}

#[test]
fn performance_writes() {
    let mut pm = PowerManager::new(PMU_BASE);
    assert_eq!(pm.set_cpu_performance(CpuPerfState::Performance), RegWrite { word: FREQ_WORD, value: 3 });
    assert!(!pm.should_idle());
    assert_eq!(pm.set_cpu_performance(CpuPerfState::Powersave), RegWrite { word: FREQ_WORD, value: 1 });
    assert!(pm.should_idle());
    assert_eq!(pm.set_cpu_performance(CpuPerfState::Idle), RegWrite { word: FREQ_WORD, value: 0 });
    assert_eq!(pm.get_cpu_performance(), CpuPerfState::Idle);
}

#[test]
fn power_state_transitions() {
    let mut pm = PowerManager::new(PMU_BASE);
    let mut g = PowerGlobals::new();
    let t = pm.enter_power_state(&mut g, PowerState::Idle);
    assert!(t.accepted && t.wait_for_interrupt);
    assert_eq!(t.freq_write, Some(RegWrite { word: FREQ_WORD, value: 0 }));
    assert_eq!(pm.get_power_state(&g), PowerState::Idle);
    let t = pm.enter_power_state(&mut g, PowerState::Sleep);
    assert!(t.accepted && !t.wait_for_interrupt);
    assert_eq!(t.freq_write, Some(RegWrite { word: FREQ_WORD, value: 0 }));
    pm.set_cpu_performance(CpuPerfState::Performance);
    let t = pm.enter_power_state(&mut g, PowerState::DeepSleep);
    assert!(t.accepted && t.freq_write.is_none());
    assert_eq!(pm.get_cpu_performance(), CpuPerfState::Performance);
    let t = pm.enter_power_state(&mut g, PowerState::Shutdown);
    assert!(t.accepted && t.freq_write.is_none());
    assert_eq!(g.current_power_state, PowerState::Shutdown);
    let t = pm.enter_power_state(&mut g, PowerState::Active);
    assert_eq!(t.freq_write, Some(RegWrite { word: FREQ_WORD, value: 2 }));
    assert_eq!(g.current_power_state, PowerState::Active);
}

#[test]
fn wake_returns_to_active() {
    let mut pm = PowerManager::new(PMU_BASE);
    let mut g = PowerGlobals::new();
    pm.enter_power_state(&mut g, PowerState::Sleep);
    assert_eq!(pm.wake_from_sleep(&mut g), RegWrite { word: FREQ_WORD, value: 2 });
    assert_eq!(g.current_power_state, PowerState::Active);
    assert_eq!(pm.get_cpu_performance(), CpuPerfState::Normal);
}

#[test]
fn system_without_manager() {
    let mut sys = PowerSystem::new();
    assert_eq!(get_battery_level(&sys), 100);
    assert!(!is_charging(&sys));
    update_battery(&mut sys, normal_regs());
    assert!(sys.manager.is_none());
    assert!(idle(&mut sys).is_none());
    assert_eq!(init_power(&mut sys, PMU_BASE, 0, normal_regs()), None);
    assert!(sys.manager.is_none());
}

#[test]
fn system_with_manager() {
    let mut sys = PowerSystem::new();
    assert!(init_power(&mut sys, PMU_BASE, 0x1, normal_regs()).is_some());
    assert_eq!(get_battery_level(&sys), 50);
    assert!(is_charging(&sys));
    update_battery(&mut sys, regs(0x20, 3700, 0x8000, 60));
    assert_eq!(get_battery_level(&sys), 32);
    assert!(!is_charging(&sys));
    assert_eq!(sys.globals.last_battery_level, 32);
    let t = idle(&mut sys).unwrap();
    assert!(t.wait_for_interrupt);
    assert_eq!(sys.globals.current_power_state, PowerState::Idle);
}

#[test]
fn idle_skipped_at_full_performance() {
    let mut sys = PowerSystem::new();
    init_power(&mut sys, PMU_BASE, 0x1, normal_regs());
    sys.manager.as_mut().unwrap().set_cpu_performance(CpuPerfState::Performance);
    assert!(idle(&mut sys).is_none());
    assert_eq!(sys.globals.current_power_state, PowerState::Active);
}

#[test]
fn battery_presence_stays_set() {
    let mut sys = PowerSystem::new();
    assert!(!sys.globals.battery_present);
    init_power(&mut sys, PMU_BASE, 1, normal_regs());
    assert!(sys.globals.battery_present);
    update_battery(&mut sys, regs(0, 3700, 0x8000, 60));
    assert!(sys.globals.battery_present);
    idle(&mut sys);
    init_power(&mut sys, PMU_BASE, 0, normal_regs());
    assert!(sys.globals.battery_present);
    let pm = sys.manager.as_mut().unwrap();
    pm.enter_power_state(&mut sys.globals, PowerState::Shutdown);
    pm.wake_from_sleep(&mut sys.globals);
    assert!(sys.globals.battery_present);
}
