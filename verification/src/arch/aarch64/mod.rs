//! ARM64 architecture-specific code.
pub mod devices;
pub mod dtb;
pub mod gic;
pub mod mmu;

use vstd::prelude::*;
use self::dtb::parse_dtb;

verus! {

/// Architecture name.
pub const ARCH_NAME: &'static str = "aarch64";

/// Read the demo timer: return the current count and advance it by one
/// (wrapping, like an atomic fetch-add).
pub fn get_timer_value(timer: &mut u64) -> (r: u64)
    ensures
        r == *old(timer),
        *final(timer) == (if *old(timer) == u64::MAX { 0 } else { (*old(timer) + 1) as u64 }),
{
    let r = *timer;
    *timer = timer.wrapping_add(1);
    r
}

/// Number of CPUs the device tree reports; 1 when the blob is missing or
/// invalid.
pub fn get_cpu_count(blob: Option<&[u8]>) -> (r: u32)
    ensures
        r == 1,
{
    match parse_dtb(blob) {
        Some(info) => info.cpu_count,
        None => 1,
    }
}

} // verus!
