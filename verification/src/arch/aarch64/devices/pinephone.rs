//! Pine64 PinePhone configuration.
//!
//! Allwinner A64 SoC, quad-core Cortex-A53, 720x1280 LCD.
use vstd::prelude::*;
use super::DeviceConfig;
use crate::drivers::mmio::MmioWrite;

verus! {

pub struct PinePhoneConfig;

impl DeviceConfig for PinePhoneConfig {
    const NAME: &'static str = "Pine64 PinePhone";
    const SOC: &'static str = "Allwinner A64";
    const KERNEL_LOAD_ADDR: u64 = 0x4100_0000;
    const DTB_LOAD_ADDR: u64 = 0x4180_0000;
    const UART_BASE: u64 = 0x01c2_8000;
    const UART_CLOCK: u32 = 24_000_000;
    const GICD_BASE: u64 = 0x01c8_1000;
    const GICC_BASE: u64 = 0x01c8_2000;
    const SCREEN_WIDTH: usize = 720;
    const SCREEN_HEIGHT: usize = 1280;
    const RAM_BASE: u64 = 0x4000_0000;
    const RAM_SIZE: u64 = 0x8000_0000;

    fn framebuffer_addr() -> (r: Option<u64>)
        ensures r == Some(0x5A00_0000u64),
    {
        Some(0x5A00_0000)
    }

    fn mmio_regions() -> (r: &'static [(u64, u64)])
        ensures r@ == seq![(0x01c28000u64, 0x400u64), (0x01f01400u64, 0x400u64), (0x01c20000u64, 0x400u64), (0x01c20800u64, 0x400u64), (0x01c81000u64, 0x2000u64), (0x01c20c00u64, 0x400u64), (0x01c0f000u64, 0x400u64), (0x01c10000u64, 0x400u64), (0x01c19000u64, 0x400u64), (0x01e60000u64, 0x10000u64), (0x01ee0000u64, 0x1000u64)],
    {
        &[(0x01c28000, 0x400), (0x01f01400, 0x400), (0x01c20000, 0x400), (0x01c20800, 0x400), (0x01c81000, 0x2000), (0x01c20c00, 0x400), (0x01c0f000, 0x400), (0x01c10000, 0x400), (0x01c19000, 0x400), (0x01e60000, 0x10000), (0x01ee0000, 0x1000)]
    }
}

/// GPIO port B configuration register 0 (PB0/PB1 function select).
pub const PIO_GPB_CFG0: u64 = 0x01c2_0800 + 0x24;

/// UART0 clock gate register of the clock control unit.
pub const CCU_UART_CLK_REG: u64 = 0x01c2_0000 + 0x68;

/// UART0 FIFO control register.
pub const UART0_FCR: u64 = 0x01c2_8000 + 0x08;

/// UART0 divisor latch (low byte).
pub const UART0_DLL: u64 = 0x01c2_8000 + 0x04;

/// UART0 line control register.
pub const UART0_LCR: u64 = 0x01c2_8000 + 0x0C;

/// Divisor for 115200 baud from the 24MHz UART clock: 24MHz / (16 * 115200).
pub const UART0_DIVISOR: u32 = 13;

/// The Allwinner A64 bring-up writes: PB0/PB1 to their UART0 function,
/// UART0 clock gate on, FIFOs reset, the 115200-baud divisor's low byte,
/// then 8 data bits, no parity, one stop bit.
pub open spec fn pinephone_init_writes() -> Seq<MmioWrite> {
    seq![
        MmioWrite { addr: PIO_GPB_CFG0, value: 0x22 },
        MmioWrite { addr: CCU_UART_CLK_REG, value: 0x8000_0000 },
        MmioWrite { addr: UART0_FCR, value: 0x07 },
        MmioWrite { addr: UART0_DLL, value: UART0_DIVISOR & 0xFF },
        MmioWrite { addr: UART0_LCR, value: 0x03 },
    ]
}

/// Register writes of the PinePhone-specific initialisation, in order.
pub fn init_pinephone() -> (w: Vec<MmioWrite>)
    ensures
        w@ == pinephone_init_writes(),
{
    let mut w: Vec<MmioWrite> = Vec::new();
    w.push(MmioWrite { addr: PIO_GPB_CFG0, value: 0x22 });
    w.push(MmioWrite { addr: CCU_UART_CLK_REG, value: 0x8000_0000 });
    w.push(MmioWrite { addr: UART0_FCR, value: 0x07 });
    w.push(MmioWrite { addr: UART0_DLL, value: UART0_DIVISOR & 0xFF });
    w.push(MmioWrite { addr: UART0_LCR, value: 0x03 });
    w
}

} // verus!
