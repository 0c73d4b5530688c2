//! QEMU virt machine configuration for aarch64.
//!
//! Generic ARMv8 virtual hardware: PL011 UART, GICv2, VirtIO devices.
use vstd::prelude::*;
use super::DeviceConfig;
use crate::drivers::mmio::MmioWrite;

verus! {

pub struct QemuVirtConfig;

impl DeviceConfig for QemuVirtConfig {
    const NAME: &'static str = "QEMU virt";
    const SOC: &'static str = "ARM Cortex-A53/A72 (virt)";
    const KERNEL_LOAD_ADDR: u64 = 0x4000_0000;
    const DTB_LOAD_ADDR: u64 = 0x4100_0000;
    const UART_BASE: u64 = 0x0900_0000;
    const UART_CLOCK: u32 = 24_000_000;
    const GICD_BASE: u64 = 0x0800_0000;
    const GICC_BASE: u64 = 0x0801_0000;
    const SCREEN_WIDTH: usize = 1024;
    const SCREEN_HEIGHT: usize = 768;
    const RAM_BASE: u64 = 0x4000_0000;
    const RAM_SIZE: u64 = 0x4000_0000;

    fn framebuffer_addr() -> (r: Option<u64>)
        ensures r == Some(0x5000_0000u64),
    {
        Some(0x5000_0000)
    }

    fn mmio_regions() -> (r: &'static [(u64, u64)])
        ensures r@ == seq![(0x08000000u64, 0x00020000u64), (0x09000000u64, 0x1000u64), (0x09011000u64, 0x1000u64), (0x09030000u64, 0x1000u64), (0x09040000u64, 0x1000u64), (0x0a000000u64, 0x00010000u64), (0x10000000u64, 0x20000000u64), (0x30000000u64, 0x10000000u64)],
    {
        &[(0x08000000, 0x00020000), (0x09000000, 0x1000), (0x09011000, 0x1000), (0x09030000, 0x1000), (0x09040000, 0x1000), (0x0a000000, 0x00010000), (0x10000000, 0x20000000), (0x30000000, 0x10000000)]
    }
}

/// UART control register of the virt machine's PL011.
pub const QEMU_UART_CR: u64 = 0x0900_0030;

/// UART line control register of the virt machine's PL011.
pub const QEMU_UART_LCRH: u64 = 0x0900_002C;

/// The writes that make sure the PL011 (already set up by the bootloader)
/// is on: UART, transmit and receive enabled, then 8-bit words with no
/// parity and one stop bit.
pub open spec fn qemu_init_writes() -> Seq<MmioWrite> {
    seq![MmioWrite { addr: QEMU_UART_CR, value: 0x301 }, MmioWrite { addr: QEMU_UART_LCRH, value: 0x60 }]
}

/// Register writes of the QEMU-specific initialisation, in order.
pub fn init_qemu() -> (w: Vec<MmioWrite>)
    ensures
        w@ == qemu_init_writes(),
{
    let mut w: Vec<MmioWrite> = Vec::new();
    w.push(MmioWrite { addr: QEMU_UART_CR, value: 0x301 });
    w.push(MmioWrite { addr: QEMU_UART_LCRH, value: 0x60 });
    w
}

} // verus!
