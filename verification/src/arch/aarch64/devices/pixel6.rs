//! Google Pixel 6 configuration.
//!
//! Google Tensor GS101, 1080x2400 OLED.
use vstd::prelude::*;
use super::DeviceConfig;
use crate::drivers::mmio::MmioWrite;

verus! {

pub struct Pixel6Config;

impl DeviceConfig for Pixel6Config {
    const NAME: &'static str = "Google Pixel 6";
    const SOC: &'static str = "Google Tensor GS101";
    const KERNEL_LOAD_ADDR: u64 = 0x8000_0000;
    const DTB_LOAD_ADDR: u64 = 0x8800_0000;
    const UART_BASE: u64 = 0x10A0_0000;
    const UART_CLOCK: u32 = 73_728_000;
    const GICD_BASE: u64 = 0x17A0_0000;
    const GICC_BASE: u64 = 0x17A8_0000;
    const SCREEN_WIDTH: usize = 1080;
    const SCREEN_HEIGHT: usize = 2400;
    const RAM_BASE: u64 = 0x8000_0000;
    const RAM_SIZE: u64 = 0x2_0000_0000;

    fn framebuffer_addr() -> (r: Option<u64>)
        ensures r == None::<u64>,
    {
        None
    }

    fn mmio_regions() -> (r: &'static [(u64, u64)])
        ensures r@ == seq![(0x10A00000u64, 0x1000u64), (0x17A00000u64, 0x100000u64), (0x10C20000u64, 0x1000u64), (0x11A00000u64, 0x1000u64), (0x10500000u64, 0x10000u64), (0x15A00000u64, 0x1000u64), (0x14000000u64, 0x10000u64), (0x14200000u64, 0x1000u64), (0x16000000u64, 0x1000u64)],
    {
        &[(0x10A00000, 0x1000), (0x17A00000, 0x100000), (0x10C20000, 0x1000), (0x11A00000, 0x1000), (0x10500000, 0x10000), (0x15A00000, 0x1000), (0x14000000, 0x10000), (0x14200000, 0x1000), (0x16000000, 0x1000)]
    }
}

/// Register writes of the Pixel 6-specific initialisation: none, the
/// bootloader has already brought the hardware up.
pub fn init_pixel6() -> (w: Vec<MmioWrite>)
    ensures
        w@.len() == 0,
{
    Vec::new()
}

} // verus!
