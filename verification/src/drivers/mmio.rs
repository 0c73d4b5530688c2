//! Register writes computed by the drivers and carried out by the caller.
use vstd::prelude::*;

verus! {

/// A 32-bit write to the `word`-th register (4-byte unit) of a device's
/// register block.
#[derive(Clone, Copy, Debug, PartialEq, Eq, Structural)]
pub struct RegWrite {
    pub word: usize,
    pub value: u32,
}

/// A 32-bit write to the register at physical address `addr`.
#[derive(Clone, Copy, Debug, PartialEq, Eq, Structural)]
pub struct MmioWrite {
    pub addr: u64,
    pub value: u32,
}

/// A register write as a value of the model.
pub open spec fn reg_write(word: usize, value: u32) -> RegWrite {
    RegWrite { word, value }
}

} // verus!
