//! PL011 UART driver.
//!
//! The driver computes the register writes that configure the UART and the
//! byte stream a string is sent as; the caller carries out the volatile
//! accesses (register writes are relative to `base_address`).
use vstd::prelude::*;
use crate::drivers::mmio::RegWrite;
use vstd::string::StringSliceAdditionalSpecFns;

verus! {

/// Default base address of the PL011 UART on the QEMU virt machine.
pub const UART_BASE_DEFAULT: usize = 0x900_0000;

/// Data register.
pub const UART_DR: usize = 0x00;

/// Flag register.
pub const UART_FR: usize = 0x18;

/// Integer baud rate divisor.
pub const UART_IBRD: usize = 0x24;

/// Fractional baud rate divisor.
pub const UART_FBRD: usize = 0x28;

/// Line control register.
pub const UART_LCRH: usize = 0x2C;

/// Control register.
pub const UART_CR: usize = 0x30;

/// Interrupt mask set/clear register.
pub const UART_IMSC: usize = 0x38;

/// Flag register: transmit FIFO full.
pub const UART_FR_TXFF: u32 = 0x20;

/// Flag register: UART busy.
pub const UART_FR_BUSY: u32 = 0x08;

/// Line control: 8-bit words.
pub const UART_LCRH_WLEN_8: u32 = 0x60;

/// Line control: FIFO enable.
pub const UART_LCRH_FEN: u32 = 0x10;

/// Control: UART enable.
pub const UART_CR_UARTEN: u32 = 0x01;

/// Control: transmit enable.
pub const UART_CR_TXE: u32 = 0x100;

/// Control: receive enable.
pub const UART_CR_RXE: u32 = 0x200;

/// Default baud rate.
pub const DEFAULT_BAUD: u32 = 115200;

/// Default UART reference clock.
pub const DEFAULT_CLOCK_HZ: u32 = 48_000_000;

/// PL011 UART.
pub struct Uart {
    base_address: usize,
    initialized: bool,
}

/// Register write at byte offset `offset`.
pub open spec fn uart_write(offset: usize, value: u32) -> RegWrite {
    RegWrite { word: offset / 4, value }
}

/// The baud rate divisor `clock_hz / (16 * baud)` in 64ths, rounded to the
/// nearest: the PL011 runs at `clock / (16 * (IBRD + FBRD / 64))`.
pub open spec fn divisor_64ths(baud: u32, clock_hz: u32) -> int {
    (8 * clock_hz as int / baud as int + 1) / 2
}

/// The writes that configure the UART for `baud` from a `clock_hz`
/// reference: disable, integer and fractional divisors (whole and 64ths of
/// the rounded divisor), 8-bit words with FIFO, no interrupts, then enable
/// UART, transmitter and receiver.
pub open spec fn baud_writes(baud: u32, clock_hz: u32) -> Seq<RegWrite> {
    seq![
        uart_write(UART_CR, 0),
        uart_write(UART_IBRD, (divisor_64ths(baud, clock_hz) / 64) as u32),
        uart_write(UART_FBRD, (divisor_64ths(baud, clock_hz) % 64) as u32),
        uart_write(UART_LCRH, UART_LCRH_WLEN_8 | UART_LCRH_FEN),
        uart_write(UART_IMSC, 0),
        uart_write(UART_CR, UART_CR_UARTEN | UART_CR_TXE | UART_CR_RXE),
    ]
}

/// The byte stream a string is sent as: every line feed preceded by a
/// carriage return.
pub open spec fn serial_bytes(bytes: Seq<u8>) -> Seq<u8>
    decreases bytes.len(),
{
    if bytes.len() == 0 {
        Seq::empty()
    } else {
        let last = bytes.last();
        serial_bytes(bytes.drop_last()) + (if last == 10u8 {
            seq![13u8, 10u8]
        } else {
            seq![last]
        })
    }
}

/// The baud rate and clock can be divided without overflow or a zero
/// divisor.
pub open spec fn baud_in_range(baud: u32) -> bool {
    0 < baud && 16 * baud <= u32::MAX
}

impl Uart {
    /// A UART at the default base address, not initialised.
    pub fn new() -> (r: Self)
        ensures
            r.base() == UART_BASE_DEFAULT,
            !r.is_initialized(),
    {
        Uart { base_address: UART_BASE_DEFAULT, initialized: false }
    }

    /// A UART at `base`, not initialised.
    pub fn with_base(base: usize) -> (r: Self)
        ensures
            r.base() == base,
            !r.is_initialized(),
    {
        Uart { base_address: base, initialized: false }
    }

    pub closed spec fn base(&self) -> usize {
        self.base_address
    }

    pub closed spec fn is_initialized(&self) -> bool {
        self.initialized
    }

    /// Configure for 115200 baud from a 48MHz clock.
    pub fn init(&mut self) -> (writes: Vec<RegWrite>)
        ensures
            writes@ == baud_writes(DEFAULT_BAUD, DEFAULT_CLOCK_HZ),
            final(self).is_initialized(),
            final(self).base() == old(self).base(),
    {
        self.init_with_baud(DEFAULT_BAUD, DEFAULT_CLOCK_HZ)
    }

    /// Configure for `baud` from a `clock_hz` reference clock.
    pub fn init_with_baud(&mut self, baud: u32, clock_hz: u32) -> (writes: Vec<RegWrite>)
        requires
            baud_in_range(baud),
        ensures
            writes@ == baud_writes(baud, clock_hz),
            final(self).is_initialized(),
            final(self).base() == old(self).base(),
    {
        let mut writes: Vec<RegWrite> = Vec::new();
        writes.push(RegWrite { word: UART_CR / 4, value: 0 });
        let eighths: u64 = (8 * clock_hz as u64) / baud as u64;
        let total: u64 = (eighths + 1) / 2;
        assert(total <= 0x1_0000_0000u64 * 4) by (nonlinear_arith)
            requires
                eighths <= 8 * clock_hz as u64,
                total == (eighths + 1) / 2,
                clock_hz <= u32::MAX,
        ;
        let ibrd = (total / 64) as u32;
        let fbrd = (total % 64) as u32;
        writes.push(RegWrite { word: UART_IBRD / 4, value: ibrd });
        writes.push(RegWrite { word: UART_FBRD / 4, value: fbrd });
        writes.push(RegWrite { word: UART_LCRH / 4, value: UART_LCRH_WLEN_8 | UART_LCRH_FEN });
        writes.push(RegWrite { word: UART_IMSC / 4, value: 0 });
        writes.push(RegWrite { word: UART_CR / 4, value: UART_CR_UARTEN | UART_CR_TXE | UART_CR_RXE });
        self.initialized = true;
        writes
    }

    /// The transmitter accepts a byte unless the flag register `fr` reports
    /// its FIFO full.
    pub fn is_tx_ready(&self, fr: u32) -> (r: bool)
        ensures
            r == (fr & UART_FR_TXFF == 0),
    {
        (fr & UART_FR_TXFF) == 0
    }

    /// One step of sending `byte`: the data register write when the flag
    /// register `fr` shows room, otherwise `None` (read the flags again).
    pub fn write_byte(&self, fr: u32, byte: u8) -> (w: Option<RegWrite>)
        ensures
            fr & UART_FR_TXFF == 0 ==> w == Some(uart_write(UART_DR, byte as u32)),
            fr & UART_FR_TXFF != 0 ==> w is None,
    {
        if !self.is_tx_ready(fr) {
            return None;
        }
        Some(RegWrite { word: UART_DR / 4, value: byte as u32 })
    }

    /// The bytes to send for `s`, with a carriage return before each line
    /// feed.
    pub fn write_str(&self, s: &str) -> (out: Vec<u8>)
        ensures
            out@ == serial_bytes(s.spec_bytes()),
    {
        let bytes = s.as_bytes();
        let mut out: Vec<u8> = Vec::new();
        let mut i: usize = 0;
        while i < bytes.len()
            invariant
                i <= bytes@.len(),
                bytes@ == s.spec_bytes(),
                out@ == serial_bytes(bytes@.subrange(0, i as int)),
            decreases bytes.len() - i,
        {
            let byte = bytes[i];
            proof {
                assert(bytes@.subrange(0, i + 1).drop_last() =~= bytes@.subrange(0, i as int));
            }
            if byte == 10u8 {
                out.push(13u8);
            }
            out.push(byte);
            i = i + 1;
        }
        assert(bytes@.subrange(0, bytes@.len() as int) =~= bytes@);
        out
    }

    /// Current base address.
    pub fn base_address(&self) -> (r: usize)
        ensures
            r == self.base(),
    {
        self.base_address
    }
}

/// Sending a string never drops or reorders bytes: the stream holds the
/// string's bytes with carriage returns added, so it is at least as long.
pub proof fn law_serial_bytes_grow(bytes: Seq<u8>)
    ensures
        serial_bytes(bytes).len() >= bytes.len(),
        (forall|i: int| 0 <= i < bytes.len() ==> bytes[i] != 10u8) ==> serial_bytes(bytes) == bytes,
    decreases bytes.len(),
{
    if bytes.len() > 0 {
        law_serial_bytes_grow(bytes.drop_last());
        if forall|i: int| 0 <= i < bytes.len() ==> bytes[i] != 10u8 {
            assert(forall|i: int| 0 <= i < bytes.drop_last().len() ==> bytes.drop_last()[i] != 10u8) by {
                assert forall|i: int| 0 <= i < bytes.drop_last().len() implies bytes.drop_last()[i] != 10u8 by {
                    assert(bytes.drop_last()[i] == bytes[i]);
                }
            }
            assert(bytes.drop_last().push(bytes.last()) =~= bytes);
        }
    } else {
        assert(serial_bytes(bytes) =~= bytes);
    }
}

/// Sending two strings one after the other sends the same bytes as sending
/// their concatenation.
pub proof fn law_serial_bytes_concat(a: Seq<u8>, b: Seq<u8>)
    ensures
        serial_bytes(a + b) == serial_bytes(a) + serial_bytes(b),
    decreases b.len(),
{
    if b.len() == 0 {
        assert(a + b =~= a);
        assert(serial_bytes(b) =~= Seq::<u8>::empty());
        assert(serial_bytes(a) + serial_bytes(b) =~= serial_bytes(a));
    } else {
        law_serial_bytes_concat(a, b.drop_last());
        assert((a + b).drop_last() =~= a + b.drop_last());
        assert((a + b).last() == b.last());
        let tail = if b.last() == 10u8 {
            seq![13u8, 10u8]
        } else {
            seq![b.last()]
        };
        assert(serial_bytes(a) + serial_bytes(b.drop_last()) + tail =~= serial_bytes(a) + (serial_bytes(
            b.drop_last(),
        ) + tail));
    }
}

} // verus!
