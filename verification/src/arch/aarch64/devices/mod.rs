//! Device-specific configurations for real phone hardware and QEMU.
//!
//! Each supported board has a memory map, peripheral addresses and screen
//! geometry. The board a kernel is built for is passed to the lookup
//! functions as a `DeviceKind`; `None` stands for a generic build.
pub mod oneplus9;
pub mod pinephone;
pub mod pixel6;
pub mod qemu;

use vstd::prelude::*;
use crate::drivers::mmio::MmioWrite;
use self::pinephone::{init_pinephone, pinephone_init_writes};
use self::qemu::{init_qemu, qemu_init_writes};
use self::pixel6::init_pixel6;
use self::oneplus9::init_oneplus9;

verus! {

/// Hardware configuration of one board.
pub trait DeviceConfig {
    /// Device name.
    const NAME: &'static str;

    /// SoC name.
    const SOC: &'static str;

    /// Kernel load address (physical).
    const KERNEL_LOAD_ADDR: u64;

    /// DTB load address.
    const DTB_LOAD_ADDR: u64;

    /// UART base address for the early console.
    const UART_BASE: u64;

    /// UART clock frequency.
    const UART_CLOCK: u32;

    /// GIC distributor base address.
    const GICD_BASE: u64;

    /// GIC CPU interface base address.
    const GICC_BASE: u64;

    /// Screen width.
    const SCREEN_WIDTH: usize;

    /// Screen height.
    const SCREEN_HEIGHT: usize;

    /// RAM base address.
    const RAM_BASE: u64;

    /// RAM size in bytes.
    const RAM_SIZE: u64;

    /// Framebuffer address, where the bootloader leaves it at a fixed place.
    fn framebuffer_addr() -> Option<u64>;

    /// Additional MMIO regions as (base, size) pairs.
    fn mmio_regions() -> &'static [(u64, u64)];
}

/// The boards a kernel can be built for.
#[derive(Clone, Copy, Debug, PartialEq, Eq, Structural)]
pub enum DeviceKind {
    Qemu,
    PinePhone,
    Pixel6,
    OnePlus9,
}

/// Short configuration name of the selected board.
pub fn get_device_config(device: Option<DeviceKind>) -> (r: Option<&'static str>)
    ensures
        device is None ==> r is None,
        device == Some(DeviceKind::Qemu) ==> (r matches Some(s) && s@ == "qemu"@),
        device == Some(DeviceKind::PinePhone) ==> (r matches Some(s) && s@ == "pinephone"@),
        device == Some(DeviceKind::Pixel6) ==> (r matches Some(s) && s@ == "pixel_6"@),
        device == Some(DeviceKind::OnePlus9) ==> (r matches Some(s) && s@ == "oneplus_9"@),
{
    match device {
        Some(DeviceKind::Qemu) => Some("qemu"),
        Some(DeviceKind::PinePhone) => Some("pinephone"),
        Some(DeviceKind::Pixel6) => Some("pixel_6"),
        Some(DeviceKind::OnePlus9) => Some("oneplus_9"),
        None => None,
    }
}

/// Register writes of the selected board's own initialisation, in order;
/// none for a generic build.
pub fn init_device(device: Option<DeviceKind>) -> (w: Vec<MmioWrite>)
    ensures
        w@ == (match device {
            Some(DeviceKind::Qemu) => qemu_init_writes(),
            Some(DeviceKind::PinePhone) => pinephone_init_writes(),
            _ => Seq::empty(),
        }),
{
    match device {
        Some(DeviceKind::Qemu) => init_qemu(),
        Some(DeviceKind::PinePhone) => init_pinephone(),
        Some(DeviceKind::Pixel6) => init_pixel6(),
        Some(DeviceKind::OnePlus9) => init_oneplus9(),
        None => Vec::new(),
    }
}

/// Whether the kernel boots through the board's own initialisation (the
/// phones) rather than the generic path (QEMU, or a generic build): the
/// board must be a phone and have a configuration.
pub fn board_specific_init(device: Option<DeviceKind>) -> (r: bool)
    ensures
        r == (device == Some(DeviceKind::PinePhone) || device == Some(DeviceKind::Pixel6) || device == Some(
            DeviceKind::OnePlus9,
        )),
{
    let phone = match device {
        Some(DeviceKind::PinePhone) | Some(DeviceKind::Pixel6) | Some(DeviceKind::OnePlus9) => true,
        _ => false,
    };
    phone && get_device_config(device).is_some()
}

/// UART base address of the selected board.
pub fn get_uart_base(device: Option<DeviceKind>) -> (r: Option<u64>)
    ensures
        r == (match device {
            Some(DeviceKind::Qemu) => Some(0x0900_0000u64),
            Some(DeviceKind::PinePhone) => Some(0x01c2_8000u64),
            Some(DeviceKind::Pixel6) => Some(0x10A0_0000u64),
            Some(DeviceKind::OnePlus9) => Some(0x1100_0000u64),
            None => None,
        }),
{
    match device {
        Some(DeviceKind::Qemu) => Some(0x0900_0000),
        Some(DeviceKind::PinePhone) => Some(0x01c2_8000),
        Some(DeviceKind::Pixel6) => Some(0x10A0_0000),
        Some(DeviceKind::OnePlus9) => Some(0x1100_0000),
        None => None,
    }
}

/// GIC distributor and CPU interface addresses of the selected board.
pub fn get_gic_addresses(device: Option<DeviceKind>) -> (r: Option<(u64, u64)>)
    ensures
        r == (match device {
            Some(DeviceKind::Qemu) => Some((0x0800_0000u64, 0x0801_0000u64)),
            Some(DeviceKind::PinePhone) => Some((0x01c8_1000u64, 0x01c8_2000u64)),
            Some(DeviceKind::Pixel6) => Some((0x17A0_0000u64, 0x17A8_0000u64)),
            Some(DeviceKind::OnePlus9) => Some((0x1700_0000u64, 0x1710_0000u64)),
            None => None,
        }),
{
    match device {
        Some(DeviceKind::Qemu) => Some((0x0800_0000, 0x0801_0000)),
        Some(DeviceKind::PinePhone) => Some((0x01c8_1000, 0x01c8_2000)),
        Some(DeviceKind::Pixel6) => Some((0x17A0_0000, 0x17A8_0000)),
        Some(DeviceKind::OnePlus9) => Some((0x1700_0000, 0x1710_0000)),
        None => None,
    }
}

/// Human-readable name of the selected board.
pub fn get_device_name(device: Option<DeviceKind>) -> (r: &'static str)
    ensures
        device is None ==> r@ == "Unknown Device"@,
        device == Some(DeviceKind::Qemu) ==> r@ == "QEMU virt"@,
        device == Some(DeviceKind::PinePhone) ==> r@ == "Pine64 PinePhone"@,
        device == Some(DeviceKind::Pixel6) ==> r@ == "Google Pixel 6"@,
        device == Some(DeviceKind::OnePlus9) ==> r@ == "OnePlus 9"@,
{
    match device {
        Some(DeviceKind::Qemu) => "QEMU virt",
        Some(DeviceKind::PinePhone) => "Pine64 PinePhone",
        Some(DeviceKind::Pixel6) => "Google Pixel 6",
        Some(DeviceKind::OnePlus9) => "OnePlus 9",
        None => "Unknown Device",
    }
}

/// SoC name of the selected board.
pub fn get_soc_name(device: Option<DeviceKind>) -> (r: &'static str)
    ensures
        device is None ==> r@ == "Unknown SoC"@,
        device == Some(DeviceKind::Qemu) ==> r@ == "ARM Cortex-A53/A72 (virt)"@,
        device == Some(DeviceKind::PinePhone) ==> r@ == "Allwinner A64"@,
        device == Some(DeviceKind::Pixel6) ==> r@ == "Google Tensor GS101"@,
        device == Some(DeviceKind::OnePlus9) ==> r@ == "Qualcomm Snapdragon 888"@,
{
    match device {
        Some(DeviceKind::Qemu) => "ARM Cortex-A53/A72 (virt)",
        Some(DeviceKind::PinePhone) => "Allwinner A64",
        Some(DeviceKind::Pixel6) => "Google Tensor GS101",
        Some(DeviceKind::OnePlus9) => "Qualcomm Snapdragon 888",
        None => "Unknown SoC",
    }
}

} // verus!
