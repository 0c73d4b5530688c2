//! OnePlus 9 configuration.
//!
//! Qualcomm Snapdragon 888 (SM8350), 1080x2400 AMOLED.
use vstd::prelude::*;
use super::DeviceConfig;
use crate::drivers::mmio::MmioWrite;

verus! {

pub struct OnePlus9Config;

impl DeviceConfig for OnePlus9Config {
    const NAME: &'static str = "OnePlus 9";
    const SOC: &'static str = "Qualcomm Snapdragon 888";
    const KERNEL_LOAD_ADDR: u64 = 0x8000_0000;
    const DTB_LOAD_ADDR: u64 = 0x8800_0000;
    const UART_BASE: u64 = 0x1100_0000;
    const UART_CLOCK: u32 = 19_200_000;
    const GICD_BASE: u64 = 0x1700_0000;
    const GICC_BASE: u64 = 0x1710_0000;
    const SCREEN_WIDTH: usize = 1080;
    const SCREEN_HEIGHT: usize = 2400;
    const RAM_BASE: u64 = 0x8000_0000;
    const RAM_SIZE: u64 = 0x2_0000_0000;

    fn framebuffer_addr() -> (r: Option<u64>)
        ensures r == None::<u64>,
    {
        None
    }

    fn mmio_regions() -> (r: &'static [(u64, u64)])
        ensures r@ == seq![(0x11000000u64, 0x1000u64), (0x17000000u64, 0x200000u64), (0x10C00000u64, 0x1000u64), (0x11A00000u64, 0x10000u64), (0x10000000u64, 0x100000u64), (0x10400000u64, 0x10000u64), (0x15000000u64, 0x100000u64), (0x15100000u64, 0x1000u64), (0x11800000u64, 0x1000u64), (0x1D800000u64, 0x1000u64)],
    {
        &[(0x11000000, 0x1000), (0x17000000, 0x200000), (0x10C00000, 0x1000), (0x11A00000, 0x10000), (0x10000000, 0x100000), (0x10400000, 0x10000), (0x15000000, 0x100000), (0x15100000, 0x1000), (0x11800000, 0x1000), (0x1D800000, 0x1000)]
    }
}

/// Register writes of the OnePlus 9-specific initialisation: none, the
/// bootloader has already brought the hardware up.
pub fn init_oneplus9() -> (w: Vec<MmioWrite>)
    ensures
        w@.len() == 0,
{
    Vec::new()
}

} // verus!
