//! ARM Generic Interrupt Controller (GICv2) driver.
//!
//! The driver decides which distributor and CPU-interface registers to
//! write and decodes the values read back; the caller performs the volatile
//! accesses. Distributor writes are relative to `gicd_base`, CPU-interface
//! writes to `gicc_base`.
use vstd::prelude::*;
use crate::drivers::mmio::RegWrite;

verus! {

/// GIC distributor base address (QEMU virt).
pub const GICD_BASE: u64 = 0x0800_0000;

/// GIC CPU interface base address (QEMU virt).
pub const GICC_BASE: u64 = 0x0801_0000;

/// Distributor control register.
pub const GICD_CTLR: u64 = 0x000;

/// Interrupt controller type register.
pub const GICD_TYPER: u64 = 0x004;

/// Interrupt group registers.
pub const GICD_IGROUPR: u64 = 0x080;

/// Interrupt set-enable registers.
pub const GICD_ISENABLER: u64 = 0x100;

/// Interrupt clear-enable registers.
pub const GICD_ICENABLER: u64 = 0x180;

/// Interrupt set-pending registers.
pub const GICD_ISPENDR: u64 = 0x200;

/// Interrupt priority registers.
pub const GICD_IPRIORITYR: u64 = 0x400;

/// Interrupt target registers.
pub const GICD_ITARGETSR: u64 = 0x800;

/// Software generated interrupt register.
pub const GICD_SGIR: u64 = 0xF00;

/// CPU interface control register.
pub const GICC_CTLR: u64 = 0x000;

/// Priority mask register.
pub const GICC_PMR: u64 = 0x004;

/// Binary point register.
pub const GICC_BPR: u64 = 0x008;

/// Interrupt acknowledge register.
pub const GICC_IAR: u64 = 0x00C;

/// End of interrupt register.
pub const GICC_EOIR: u64 = 0x010;

/// Running priority register.
pub const GICC_RPR: u64 = 0x014;

/// Interrupt ID that the acknowledge register reports when nothing is
/// pending.
pub const SPURIOUS_IRQ: u32 = 1023;

/// Interrupt types.
#[derive(Debug, Clone, Copy)]
pub enum InterruptType {
    /// Private peripheral interrupt.
    PPI,
    /// Shared peripheral interrupt.
    SPI,
    /// Software generated interrupt.
    SGI,
}

/// What the distributor reports about itself.
#[derive(Debug, Clone, Copy)]
pub struct GicInfo {
    pub spi_count: u32,
    pub cpu_count: u32,
    pub gic_version: u32,
}

impl GicInfo {
    /// Information before the distributor has been probed.
    pub fn new() -> (r: Self)
        ensures
            r.spi_count == 0,
            r.cpu_count == 1,
            r.gic_version == 2,
    {
        GicInfo { spi_count: 0, cpu_count: 1, gic_version: 2 }
    }
}

/// GIC driver state.
pub struct GicDriver {
    gicd_base: u64,
    gicc_base: u64,
    info: GicInfo,
}

/// Interrupt lines the distributor reports in GICD_TYPER.
pub open spec fn spi_count_of(typer: u32) -> u32 {
    (((typer & 0x1F) + 1) * 32) as u32
}

/// CPUs the distributor reports in GICD_TYPER.
pub open spec fn cpu_count_of(typer: u32) -> u32 {
    (((typer >> 5u32) & 0x7) + 1) as u32
}

/// Number of 32-interrupt register banks for `spi_count` lines.
pub open spec fn bank_count(spi_count: u32) -> nat {
    ((spi_count + 31) / 32) as nat
}

/// The distributor writes after GICD_TYPER has been read: all interrupts to
/// group 0 (every group bit clear), all disabled, every priority byte of lines 32 and up set to the
/// lowest priority, then the distributor enabled.
pub open spec fn distributor_writes(spi_count: u32) -> Seq<RegWrite> {
    let n = bank_count(spi_count);
    let prio_count: nat = if spi_count > 32 {
        (spi_count - 32) as nat
    } else {
        0
    };
    Seq::new(n, |i: int| RegWrite { word: (GICD_IGROUPR / 4 + i) as usize, value: 0 })
        + Seq::new(n, |i: int| RegWrite { word: (GICD_ICENABLER / 4 + i) as usize, value: 0xFFFF_FFFF })
        + Seq::new(prio_count, |j: int| RegWrite { word: ((GICD_IPRIORITYR + 32 + j) / 4) as usize, value: 0xFFFF_FFFF })
        + seq![RegWrite { word: (GICD_CTLR / 4) as usize, value: 1 }]
}

/// The CPU interface writes: accept all priorities, binary point 0, enable.
pub open spec fn cpu_interface_writes() -> Seq<RegWrite> {
    seq![
        RegWrite { word: (GICC_PMR / 4) as usize, value: 0xFF },
        RegWrite { word: (GICC_BPR / 4) as usize, value: 0 },
        RegWrite { word: (GICC_CTLR / 4) as usize, value: 1 },
    ]
}

/// The distributor write that enables shared interrupt `irq` (none for
/// the banked interrupts below 32).
pub open spec fn enable_write(irq: u32) -> Option<RegWrite> {
    if irq < 32 {
        None
    } else {
        Some(
            RegWrite {
                word: ((GICD_ISENABLER + (irq / 32) * 4) / 4) as usize,
                value: (1u32 << (irq % 32)) as u32,
            },
        )
    }
}

/// GICD_SGIR value for software interrupt `sgi_id` sent to the CPUs in
/// `target_list`.
pub open spec fn sgi_value(sgi_id: u32, target_list: u32) -> u32 {
    (sgi_id & 0xF) | ((target_list & 0xFF) << 16u32)
}

proof fn lemma_typer_decode(typer: u32)
    ensures
        typer & 0x1F <= 31,
        (typer >> 5u32) & 0x7 <= 7,
{
    assert(typer & 0x1F <= 31) by (bit_vector);
    assert((typer >> 5u32) & 0x7 <= 7) by (bit_vector);
}

impl GicDriver {
    /// A driver for the blocks at `gicd_base` and `gicc_base`, not yet
    /// probed.
    pub fn new(gicd_base: u64, gicc_base: u64) -> (r: Self)
        ensures
            r.gicd_base() == gicd_base,
            r.gicc_base() == gicc_base,
            r.info() == GicInfo::new_spec(),
    {
        GicDriver { gicd_base, gicc_base, info: GicInfo::new() }
    }

    pub closed spec fn gicd_base(&self) -> u64 {
        self.gicd_base
    }

    pub closed spec fn gicc_base(&self) -> u64 {
        self.gicc_base
    }

    pub closed spec fn info(&self) -> GicInfo {
        self.info
    }

    /// Distributor base address.
    pub fn distributor_base(&self) -> (r: u64)
        ensures
            r == self.gicd_base(),
    {
        self.gicd_base
    }

    /// CPU interface base address.
    pub fn cpu_interface_base(&self) -> (r: u64)
        ensures
            r == self.gicc_base(),
    {
        self.gicc_base
    }

    /// First step of distributor initialisation: disable it before probing.
    pub fn begin_init_distributor(&self) -> (w: RegWrite)
        ensures
            w == (RegWrite { word: (GICD_CTLR / 4) as usize, value: 0 }),
    {
        RegWrite { word: (GICD_CTLR / 4) as usize, value: 0 }
    }

    /// Record what GICD_TYPER (`typer`) reports and return the distributor
    /// writes that configure and enable it.
    pub fn init_distributor(&mut self, typer: u32) -> (writes: Vec<RegWrite>)
        ensures
            final(self).info().spi_count == spi_count_of(typer),
            final(self).info().cpu_count == cpu_count_of(typer),
            final(self).info().gic_version == old(self).info().gic_version,
            final(self).gicd_base() == old(self).gicd_base(),
            final(self).gicc_base() == old(self).gicc_base(),
            writes@ == distributor_writes(spi_count_of(typer)),
    {
        proof {
            lemma_typer_decode(typer);
        }
        self.info.spi_count = ((typer & 0x1F) + 1) * 32;
        self.info.cpu_count = ((typer >> 5u32) & 0x7) + 1;
        let spi_count = self.info.spi_count;
        let num_registers = ((spi_count + 31) / 32) as usize;
        let ghost n = bank_count(spi_count);
        let mut writes: Vec<RegWrite> = Vec::new();
        let mut i: usize = 0;
        while i < num_registers
            invariant
                num_registers == n,
                n <= 32,
                i <= num_registers,
                writes@ =~= Seq::new(i as nat, |k: int| RegWrite { word: (GICD_IGROUPR / 4 + k) as usize, value: 0 }),
            decreases num_registers - i,
        {
            writes.push(RegWrite { word: ((GICD_IGROUPR + (i as u64) * 4) / 4) as usize, value: 0 });
            i = i + 1;
        }
        let ghost groups = writes@;
        i = 0;
        while i < num_registers
            invariant
                num_registers == n,
                n <= 32,
                i <= num_registers,
                groups =~= Seq::new(n, |k: int| RegWrite { word: (GICD_IGROUPR / 4 + k) as usize, value: 0 }),
                writes@ =~= groups + Seq::new(i as nat, |k: int| RegWrite { word: (GICD_ICENABLER / 4 + k) as usize, value: 0xFFFF_FFFF }),
            decreases num_registers - i,
        {
            writes.push(RegWrite { word: ((GICD_ICENABLER + (i as u64) * 4) / 4) as usize, value: 0xFFFF_FFFF });
            i = i + 1;
        }
        let ghost banks = writes@;
        let mut p: u32 = 32;
        while p < spi_count
            invariant
                spi_count <= 1024,
                32 <= p,
                p <= spi_count || p == 32,
                writes@ =~= banks + Seq::new((p - 32) as nat, |j: int| RegWrite { word: ((GICD_IPRIORITYR + 32 + j) / 4) as usize, value: 0xFFFF_FFFF }),
            decreases spi_count - p,
        {
            writes.push(RegWrite { word: ((GICD_IPRIORITYR + (p as u64)) / 4) as usize, value: 0xFFFF_FFFF });
            p = p + 1;
        }
        writes.push(RegWrite { word: (GICD_CTLR / 4) as usize, value: 1 });
        writes
    }

    /// CPU interface writes that let every priority through and enable it.
    pub fn init_cpu_interface(&self) -> (writes: Vec<RegWrite>)
        ensures
            writes@ == cpu_interface_writes(),
    {
        let mut writes: Vec<RegWrite> = Vec::new();
        writes.push(RegWrite { word: (GICC_PMR / 4) as usize, value: 0xFF });
        writes.push(RegWrite { word: (GICC_BPR / 4) as usize, value: 0 });
        writes.push(RegWrite { word: (GICC_CTLR / 4) as usize, value: 1 });
        writes
    }

    /// Distributor write that enables shared interrupt `irq`; interrupts
    /// below 32 (SGIs and PPIs) are left alone.
    pub fn enable_interrupt(&self, irq: u32) -> (w: Option<RegWrite>)
        ensures
            w == enable_write(irq),
    {
        if irq < 32 {
            return None;
        }
        let reg_index = (irq / 32) as usize;
        let bit_index = irq % 32;
        Some(RegWrite { word: ((GICD_ISENABLER + (reg_index as u64) * 4) / 4) as usize, value: 1u32 << bit_index })
    }

    /// Distributor write that sends software interrupt `sgi_id` (0-15) to
    /// the CPUs in `target_list`.
    pub fn send_sgi(&self, sgi_id: u32, target_list: u32) -> (w: RegWrite)
        ensures
            w == (RegWrite { word: (GICD_SGIR / 4) as usize, value: sgi_value(sgi_id, target_list) }),
    {
        let sgir_value = (sgi_id & 0xF) | ((target_list & 0xFF) << 16u32);
        RegWrite { word: (GICD_SGIR / 4) as usize, value: sgir_value }
    }

    /// Interrupt ID (0-1023) from a value read from GICC_IAR; 1023 means
    /// nothing is pending.
    pub fn acknowledge_interrupt(&self, iar: u32) -> (r: u32)
        ensures
            r == iar & 0x3FF,
            r <= SPURIOUS_IRQ,
    {
        assert(iar & 0x3FF <= 1023) by (bit_vector);
        iar & 0x3FF
    }

    /// CPU interface write that signals the end of interrupt `irq_id`.
    pub fn end_interrupt(&self, irq_id: u32) -> (w: RegWrite)
        ensures
            w == (RegWrite { word: (GICC_EOIR / 4) as usize, value: irq_id }),
    {
        RegWrite { word: (GICC_EOIR / 4) as usize, value: irq_id }
    }

    /// What the distributor reported.
    pub fn get_info(&self) -> (r: &GicInfo)
        ensures
            *r == self.info(),
    {
        &self.info
    }
}

impl GicInfo {
    pub open spec fn new_spec() -> GicInfo {
        GicInfo { spi_count: 0, cpu_count: 1, gic_version: 2 }
    }
}

/// How the IRQ vector handles one interrupt: the ID to pass to the handler
/// and the end-of-interrupt write that follows it.
pub struct IrqDispatch {
    pub irq: u32,
    pub eoi: RegWrite,
}

/// IRQ vector step for a value read from GICC_IAR: a real interrupt is
/// handled and then completed; the spurious ID 1023 is ignored.
pub fn irq_vector_entry(gic: &GicDriver, iar: u32) -> (r: Option<IrqDispatch>)
    ensures
        (iar & 0x3FF) < SPURIOUS_IRQ ==> (r matches Some(d) && d.irq == iar & 0x3FF && d.eoi == (
        RegWrite { word: (GICC_EOIR / 4) as usize, value: iar & 0x3FF })),
        (iar & 0x3FF) >= SPURIOUS_IRQ ==> r is None,
{
    let irq_id = gic.acknowledge_interrupt(iar);
    if irq_id < SPURIOUS_IRQ {
        let eoi = gic.end_interrupt(irq_id);
        Some(IrqDispatch { irq: irq_id, eoi })
    } else {
        None
    }
}

/// Whether IRQs are unmasked, from a value read from DAIF (I bit clear).
pub fn interrupts_enabled(daif: u64) -> (r: bool)
    ensures
        r == (daif & 0x80 == 0),
{
    (daif & 0x80) == 0
}

/// Probing never reports fewer than 32 or more than 1024 lines, nor more
/// than 8 CPUs.
pub proof fn law_typer_ranges(typer: u32)
    ensures
        32 <= spi_count_of(typer) <= 1024,
        spi_count_of(typer) % 32 == 0,
        1 <= cpu_count_of(typer) <= 8,
{
    lemma_typer_decode(typer);
}

/// Every enable write targets the bank of `irq` and sets exactly its bit.
pub proof fn law_enable_targets_own_bit(irq: u32)
    requires
        irq >= 32,
    ensures
        (enable_write(irq) matches Some(w) && w.word == 0x40 + irq / 32 && w.value == (1u32 << (irq
            % 32)) as u32),
{
}

/// The software interrupt register value carries the interrupt ID in bits
/// 0..3 and the CPU target list in bits 16..23, and nothing elsewhere.
pub proof fn law_sgi_value_fields(sgi_id: u32, target_list: u32)
    requires
        sgi_id < 16,
    ensures
        sgi_value(sgi_id, target_list) & 0xF == sgi_id,
        (sgi_value(sgi_id, target_list) >> 16u32) & 0xFF == target_list & 0xFF,
        sgi_value(sgi_id, target_list) & 0xFF00_FFF0 == 0,
{
    assert(((sgi_id & 0xF) | ((target_list & 0xFF) << 16u32)) & 0xF == sgi_id) by (bit_vector)
        requires
            sgi_id < 16,
    ;
    assert(((((sgi_id & 0xF) | ((target_list & 0xFF) << 16u32)) >> 16u32) & 0xFF) == target_list & 0xFF)
        by (bit_vector);
    assert(((sgi_id & 0xF) | ((target_list & 0xFF) << 16u32)) & 0xFF00_FFF0 == 0) by (bit_vector);
}

} // verus!
