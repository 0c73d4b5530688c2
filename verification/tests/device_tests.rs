use phone_os::arch::aarch64::devices::oneplus9::OnePlus9Config;
use phone_os::arch::aarch64::devices::pinephone::PinePhoneConfig;
use phone_os::arch::aarch64::devices::pixel6::Pixel6Config;
use phone_os::arch::aarch64::devices::qemu::QemuVirtConfig;
use phone_os::arch::aarch64::devices::{
    get_device_config, get_device_name, get_gic_addresses, get_soc_name, get_uart_base, DeviceConfig,
    DeviceKind,
};

fn check_lookups<C: DeviceConfig>(kind: DeviceKind) {
    assert_eq!(get_uart_base(Some(kind)), Some(C::UART_BASE));
    assert_eq!(get_gic_addresses(Some(kind)), Some((C::GICD_BASE, C::GICC_BASE)));
    assert_eq!(get_device_name(Some(kind)), C::NAME);
    assert_eq!(get_soc_name(Some(kind)), C::SOC);
}

#[test]
fn lookups_agree_with_board_configs() {
    check_lookups::<QemuVirtConfig>(DeviceKind::Qemu);
    check_lookups::<PinePhoneConfig>(DeviceKind::PinePhone);
    check_lookups::<Pixel6Config>(DeviceKind::Pixel6);
    check_lookups::<OnePlus9Config>(DeviceKind::OnePlus9);
}

#[test]
fn generic_build_lookups() {
    assert_eq!(get_device_config(None), None);
    assert_eq!(get_uart_base(None), None);
    assert_eq!(get_gic_addresses(None), None);
    assert_eq!(get_device_name(None), "Unknown Device");
    assert_eq!(get_soc_name(None), "Unknown SoC");
}

#[test]
fn config_names() {
    assert_eq!(get_device_config(Some(DeviceKind::Qemu)), Some("qemu"));
    assert_eq!(get_device_config(Some(DeviceKind::PinePhone)), Some("pinephone"));
    assert_eq!(get_device_config(Some(DeviceKind::Pixel6)), Some("pixel_6"));
    assert_eq!(get_device_config(Some(DeviceKind::OnePlus9)), Some("oneplus_9"));
}

#[test]
fn qemu_config() {
    assert_eq!(QemuVirtConfig::UART_BASE, 0x0900_0000);
    assert_eq!(QemuVirtConfig::UART_CLOCK, 24_000_000);
    assert_eq!(QemuVirtConfig::SCREEN_WIDTH, 1024);
    assert_eq!(QemuVirtConfig::SCREEN_HEIGHT, 768);
    assert_eq!(QemuVirtConfig::framebuffer_addr(), Some(0x5000_0000));
    assert_eq!(QemuVirtConfig::mmio_regions().len(), 8);
    assert_eq!(QemuVirtConfig::mmio_regions()[0], (0x0800_0000, 0x0002_0000));
}

#[test]
fn pinephone_config() {
    assert_eq!(PinePhoneConfig::KERNEL_LOAD_ADDR, 0x4100_0000);
    assert_eq!(PinePhoneConfig::RAM_SIZE, 0x8000_0000);
    assert_eq!(PinePhoneConfig::SCREEN_WIDTH, 720);
    assert_eq!(PinePhoneConfig::SCREEN_HEIGHT, 1280);
    assert_eq!(PinePhoneConfig::framebuffer_addr(), Some(0x5A00_0000));
    assert_eq!(PinePhoneConfig::mmio_regions().len(), 11);
}

#[test]
fn pixel6_and_oneplus9_configs() {
    assert_eq!(Pixel6Config::UART_CLOCK, 73_728_000);
    assert_eq!(Pixel6Config::RAM_SIZE, 0x2_0000_0000);
    assert_eq!(Pixel6Config::framebuffer_addr(), None);
    assert_eq!(Pixel6Config::mmio_regions().len(), 9);
    assert_eq!(OnePlus9Config::UART_CLOCK, 19_200_000);
    assert_eq!(OnePlus9Config::framebuffer_addr(), None);
    assert_eq!(OnePlus9Config::mmio_regions().len(), 10);
    assert_eq!(OnePlus9Config::mmio_regions()[9], (0x1D80_0000, 0x1000));
}

use phone_os::arch::aarch64::devices::init_device;
use phone_os::arch::aarch64::devices::oneplus9::init_oneplus9;
use phone_os::arch::aarch64::devices::pinephone::init_pinephone;
use phone_os::arch::aarch64::devices::pixel6::init_pixel6;
use phone_os::arch::aarch64::devices::qemu::init_qemu;
use phone_os::drivers::mmio::MmioWrite;

#[test]
fn qemu_init_enables_uart() {
    assert_eq!(
        init_qemu(),
        vec![MmioWrite { addr: 0x0900_0030, value: 0x301 }, MmioWrite { addr: 0x0900_002C, value: 0x60 }]
    );
}

#[test]
fn pinephone_init_sequence() {
    assert_eq!(
        init_pinephone(),
        vec![
            MmioWrite { addr: 0x01c2_0824, value: 0x22 },
            MmioWrite { addr: 0x01c2_0068, value: 0x8000_0000 },
            MmioWrite { addr: 0x01c2_8008, value: 0x07 },
            MmioWrite { addr: 0x01c2_8004, value: 13 },
            MmioWrite { addr: 0x01c2_800C, value: 0x03 },
        ]
    );
    assert_eq!(24_000_000 / (16 * 115_200), 13);
}

#[test]
fn phone_boards_need_no_writes() {
    assert!(init_pixel6().is_empty());
    assert!(init_oneplus9().is_empty());
}

#[test]
fn init_device_dispatches() {
    assert_eq!(init_device(Some(DeviceKind::Qemu)), init_qemu());
    assert_eq!(init_device(Some(DeviceKind::PinePhone)), init_pinephone());
    assert!(init_device(Some(DeviceKind::Pixel6)).is_empty());
    assert!(init_device(Some(DeviceKind::OnePlus9)).is_empty());
    assert!(init_device(None).is_empty());
}

use phone_os::arch::aarch64::devices::board_specific_init;

#[test]
fn only_phones_boot_board_specific() {
    assert!(!board_specific_init(None));
    assert!(!board_specific_init(Some(DeviceKind::Qemu)));
    assert!(board_specific_init(Some(DeviceKind::PinePhone)));
    assert!(board_specific_init(Some(DeviceKind::Pixel6)));
    assert!(board_specific_init(Some(DeviceKind::OnePlus9)));
}
