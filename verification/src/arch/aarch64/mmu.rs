//! AArch64 page tables and the register values that switch the MMU on.
//!
//! A `PageTable` is one level of 512 descriptors. `map_block` writes a block
//! descriptor for a virtual address; the boot table and the system register
//! values used to enable translation are computed here, and written to the
//! hardware by the caller.
use vstd::prelude::*;

verus! {

/// Page size (4KB).
pub const PAGE_SIZE: usize = 4096;

/// Page shift amount.
pub const PAGE_SHIFT: usize = 12;

/// Bit position of the ASID in TTBR0_EL1.
pub const TTBR0_ASID_SHIFT: u64 = 48;

/// MAIR attribute: device nGnRnE memory.
pub const MAIR_DEVICE_NGNRNE: u64 = 0x00;

/// MAIR attribute: normal write-through memory.
pub const MAIR_NORMAL_WT_RA_WA: u64 = 0xAA;

/// MAIR attribute: normal write-back memory.
pub const MAIR_NORMAL_WB_RA_WA: u64 = 0xFF;

/// Descriptor is valid.
pub const PTE_VALID: u64 = 1;

/// Descriptor points to a next-level table.
pub const PTE_TABLE: u64 = 2;

/// Descriptor maps a page (last level).
pub const PTE_PAGE: u64 = 2;

/// Descriptor maps a block.
pub const PTE_BLOCK: u64 = 0;

/// Accessible from EL0.
pub const PTE_USER: u64 = 0x40;

/// Read-only.
pub const PTE_RDONLY: u64 = 0x80;

/// Access flag.
pub const PTE_AF: u64 = 0x400;

/// Inner shareable.
pub const PTE_SH_INNER: u64 = 0x300;

/// Outer shareable.
pub const PTE_SH_OUTER: u64 = 0x200;

/// Execute never.
pub const PTE_XN: u64 = 0x40_0000_0000_0000;

/// Privileged execute never.
pub const PTE_PXN: u64 = 0x20_0000_0000_0000;

/// MAIR index of device memory.
pub const ATTR_INDEX_DEVICE: u64 = 0;

/// MAIR index of normal memory.
pub const ATTR_INDEX_NORMAL: u64 = 1;

/// Number of descriptors in one table.
pub const ENTRY_COUNT: usize = 512;

/// Output-address bits kept in a 1GB block descriptor.
pub const BLOCK_ADDRESS_MASK: u64 = 0x0000_FFFF_FFC0_0000;

/// One level of translation table.
pub struct PageTable {
    entries: [u64; 512],
}

/// Table slot that `map_block` uses for a virtual address.
pub open spec fn block_index(virt_addr: u64) -> int {
    ((virt_addr >> 30u64) & 0x1FF) as int
}

/// Block descriptor that `map_block` writes.
pub open spec fn block_entry(phys_addr: u64, flags: u64) -> u64 {
    (phys_addr & BLOCK_ADDRESS_MASK) | flags | PTE_VALID
}

/// What `get_entry` reads at `index` from a table viewed as `t`.
pub open spec fn entry_at(t: Seq<u64>, index: usize) -> u64 {
    if index < ENTRY_COUNT {
        t[index as int]
    } else {
        0
    }
}

/// The view of a table after `set_entry(index, value)`.
pub open spec fn table_after_set(t: Seq<u64>, index: usize, value: u64) -> Seq<u64> {
    if index < ENTRY_COUNT {
        t.update(index as int, value)
    } else {
        t
    }
}

/// A table with every descriptor zero.
pub open spec fn empty_table() -> Seq<u64> {
    Seq::new(512, |i: int| 0u64)
}

/// The view of a table after `map_block` on a table viewed as `t`.
pub open spec fn mapped(t: Seq<u64>, virt_addr: u64, phys_addr: u64, flags: u64) -> Seq<u64> {
    t.update(block_index(virt_addr), block_entry(phys_addr, flags))
}

/// Descriptor flags of the kernel's normal-memory blocks.
pub open spec fn kernel_block_flags() -> u64 {
    PTE_BLOCK | PTE_AF | PTE_SH_INNER | ((ATTR_INDEX_NORMAL & 0x7) << 2u64) | PTE_XN
}

/// Descriptor flags of the device blocks.
pub open spec fn device_block_flags() -> u64 {
    PTE_BLOCK | PTE_AF | PTE_SH_OUTER | ((ATTR_INDEX_DEVICE & 0x7) << 2u64) | PTE_XN
}

/// The boot table: two 1GB identity blocks of normal memory at 0 and 1GB,
/// then device blocks at 0x1000_0000 and 0x2000_0000, applied in that order.
pub open spec fn boot_table() -> Seq<u64> {
    mapped(
        mapped(
            mapped(
                mapped(empty_table(), 0, 0, kernel_block_flags()),
                0x4000_0000,
                0x4000_0000,
                kernel_block_flags(),
            ),
            0x1000_0000,
            0x1000_0000,
            device_block_flags(),
        ),
        0x2000_0000,
        0x2000_0000,
        device_block_flags(),
    )
}

/// `block_index` always names a slot of the table.
pub proof fn lemma_block_index_in_range(virt_addr: u64)
    ensures
        0 <= block_index(virt_addr) < 512,
{
    assert((virt_addr >> 30u64) & 0x1FF <= 0x1FF) by (bit_vector);
}

impl View for PageTable {
    type V = Seq<u64>;

    closed spec fn view(&self) -> Seq<u64> {
        self.entries@
    }
}

impl PageTable {
    /// An empty table: every descriptor invalid (zero).
    pub fn new() -> (t: Self)
        ensures
            t@ == empty_table(),
    {
        let t = PageTable { entries: [0u64; 512] };
        assert(t@ =~= empty_table());
        t
    }

    /// Every table has exactly 512 descriptors.
    pub proof fn law_entry_count(&self)
        ensures
            self@.len() == 512,
    {
    }

    /// Read the descriptor at `index`; out-of-range indices read as 0.
    pub fn get_entry(&self, index: usize) -> (r: u64)
        ensures
            r == entry_at(self@, index),
    {
        if index < ENTRY_COUNT {
            self.entries[index]
        } else {
            0
        }
    }

    /// Write the descriptor at `index`; out-of-range writes are ignored.
    pub fn set_entry(&mut self, index: usize, value: u64)
        ensures
            final(self)@ == table_after_set(old(self)@, index, value),
    {
        if index < ENTRY_COUNT {
            self.entries[index] = value;
        }
    }

    /// Map the 1GB block holding `phys_addr` at the slot chosen by bits
    /// 30..38 of `virt_addr` (its 1GB level-1 index), with `flags` and the valid bit.
    pub fn map_block(&mut self, virt_addr: u64, phys_addr: u64, flags: u64)
        ensures
            final(self)@ == mapped(old(self)@, virt_addr, phys_addr, flags),
    {
        proof {
            lemma_block_index_in_range(virt_addr);
        }
        let index = ((virt_addr >> 30u64) & 0x1FF) as usize;
        let entry = (phys_addr & BLOCK_ADDRESS_MASK) | flags | PTE_VALID;
        self.set_entry(index, entry);
    }

    /// Make every descriptor zero.
    pub fn clear(&mut self)
        ensures
            final(self)@ == empty_table(),
    {
        let mut i: usize = 0;
        while i < ENTRY_COUNT
            invariant
                0 <= i <= ENTRY_COUNT,
                self@.len() == 512,
                forall|j: int| 0 <= j < i ==> self@[j] == 0,
            decreases ENTRY_COUNT - i,
        {
            self.entries[i] = 0;
            i = i + 1;
        }
        assert(self@ =~= empty_table());
    }
}

/// Flags of the kernel's normal-memory blocks.
pub fn kernel_flags() -> (r: u64)
    ensures
        r == kernel_block_flags(),
{
    PTE_BLOCK | PTE_AF | PTE_SH_INNER | ((ATTR_INDEX_NORMAL & 0x7) << 2u64) | PTE_XN
}

/// Flags of the device blocks.
pub fn device_flags() -> (r: u64)
    ensures
        r == device_block_flags(),
{
    PTE_BLOCK | PTE_AF | PTE_SH_OUTER | ((ATTR_INDEX_DEVICE & 0x7) << 2u64) | PTE_XN
}

/// Build the table that `init_mmu` installs: the kernel blocks at 0 and
/// 1GB, then the device blocks at 0x1000_0000 and 0x2000_0000.
pub fn boot_page_table() -> (t: PageTable)
    ensures
        t@ == boot_table(),
{
    let mut l1_table = PageTable::new();
    let kernel = kernel_flags();
    let mut i: u64 = 0;
    while i < 2
        invariant
            i <= 2,
            kernel == kernel_block_flags(),
            i == 0 ==> l1_table@ == empty_table(),
            i == 1 ==> l1_table@ == mapped(empty_table(), 0, 0, kernel_block_flags()),
            i == 2 ==> l1_table@ == mapped(
                mapped(empty_table(), 0, 0, kernel_block_flags()),
                0x4000_0000,
                0x4000_0000,
                kernel_block_flags(),
            ),
        decreases 2 - i,
    {
        let virt_addr = i * 0x4000_0000u64;
        let phys_addr = virt_addr;
        l1_table.map_block(virt_addr, phys_addr, kernel);
        i = i + 1;
    }
    let device = device_flags();
    l1_table.map_block(0x1000_0000, 0x1000_0000, device);
    l1_table.map_block(0x2000_0000, 0x2000_0000, device);
    l1_table
}

/// System register values that switch the MMU on.
pub struct MmuRegisters {
    pub mair_el1: u64,
    pub tcr_el1: u64,
    pub ttbr0_el1: u64,
    pub sctlr_el1: u64,
}

/// MAIR_EL1: device memory at index 0, write-back normal memory at index 1.
pub open spec fn mair_value() -> u64 {
    (MAIR_DEVICE_NGNRNE << (ATTR_INDEX_DEVICE * 8)) | (MAIR_NORMAL_WB_RA_WA << (ATTR_INDEX_NORMAL * 8))
}

/// TCR_EL1: 48-bit physical addresses, 4KB granule, inner shareable,
/// write-back walks, T0SZ = 35.
pub open spec fn tcr_value() -> u64 {
    (48u64 << 32u64) | (16u64 << 16u64) | (1u64 << 14u64) | (3u64 << 12u64) | (3u64 << 10u64) | (0u64
        << 8u64) | (35u64 << 0u64)
}

/// TTBR0_EL1 for a table at `table_addr`, with ASID 0.
pub open spec fn ttbr0_value(table_addr: u64) -> u64 {
    (table_addr & !0xFFFu64) | ((0u64 & 0xFFFF) << TTBR0_ASID_SHIFT)
}

/// SCTLR_EL1 with the MMU, data cache and instruction cache enabled.
pub open spec fn sctlr_value(current: u64) -> u64 {
    current | 1u64 | (1u64 << 2u64) | (1u64 << 12u64)
}

/// Compute the register values `init_mmu` writes, for a table at
/// `table_addr` and the SCTLR_EL1 value read before enabling.
pub fn mmu_register_values(table_addr: u64, current_sctlr: u64) -> (r: MmuRegisters)
    ensures
        r.mair_el1 == mair_value(),
        r.tcr_el1 == tcr_value(),
        r.ttbr0_el1 == ttbr0_value(table_addr),
        r.sctlr_el1 == sctlr_value(current_sctlr),
{
    let mair = (MAIR_DEVICE_NGNRNE << (ATTR_INDEX_DEVICE * 8)) | (MAIR_NORMAL_WB_RA_WA << (
    ATTR_INDEX_NORMAL * 8));
    let tcr = (48u64 << 32u64) | (16u64 << 16u64) | (1u64 << 14u64) | (3u64 << 12u64) | (3u64
        << 10u64) | (0u64 << 8u64) | (35u64 << 0u64);
    let ttbr0 = (table_addr & !0xFFFu64) | ((0u64 & 0xFFFF) << TTBR0_ASID_SHIFT);
    let sctlr = current_sctlr | 1u64 | (1u64 << 2u64) | (1u64 << 12u64);
    MmuRegisters { mair_el1: mair, tcr_el1: tcr, ttbr0_el1: ttbr0, sctlr_el1: sctlr }
}

/// Reading a slot after writing it gives the written value (0 for an
/// out-of-range slot, where the write is ignored); other slots keep theirs.
pub proof fn law_set_then_get(t: Seq<u64>, index: usize, value: u64, other: usize)
    requires
        t.len() == 512,
        other != index,
    ensures
        entry_at(table_after_set(t, index, value), index) == (if index < ENTRY_COUNT {
            value
        } else {
            0
        }),
        entry_at(table_after_set(t, index, value), other) == entry_at(t, other),
        table_after_set(t, index, value).len() == 512,
{
}

/// After `clear`, every slot reads as 0.
pub proof fn law_cleared_table_reads_zero(index: usize)
    ensures
        entry_at(empty_table(), index) == 0,
{
}

/// A descriptor written by `map_block` is always valid.
pub proof fn law_mapped_block_is_valid(phys_addr: u64, flags: u64)
    ensures
        block_entry(phys_addr, flags) & PTE_VALID == PTE_VALID,
{
    assert(((phys_addr & 0x0000_FFFF_FFC0_0000u64) | flags | 1u64) & 1u64 == 1u64) by (bit_vector);
}

/// Mapping keeps the table size and touches exactly one slot.
pub proof fn law_map_block_touches_one_slot(t: Seq<u64>, virt_addr: u64, phys_addr: u64, flags: u64, j: int)
    requires
        t.len() == 512,
        0 <= j < 512,
        j != block_index(virt_addr),
    ensures
        mapped(t, virt_addr, phys_addr, flags).len() == 512,
        mapped(t, virt_addr, phys_addr, flags)[j] == t[j],
        mapped(t, virt_addr, phys_addr, flags)[block_index(virt_addr)] == block_entry(phys_addr, flags),
{
    lemma_block_index_in_range(virt_addr);
}

/// The boot table identity-maps the first two gigabytes: the second as a
/// normal-memory block in slot 1, while slot 0 ends up holding the last
/// block mapped into the first gigabyte (the device block at 0x2000_0000);
/// every other slot stays invalid.
pub proof fn law_boot_table_slots(j: int)
    requires
        2 <= j < 512,
    ensures
        boot_table()[1] == block_entry(0x4000_0000, kernel_block_flags()),
        boot_table()[0] == block_entry(0x2000_0000, device_block_flags()),
        boot_table()[j] == 0,
        boot_table().len() == 512,
{
    assert((0u64 >> 30u64) & 0x1FF == 0) by (bit_vector);
    assert((0x4000_0000u64 >> 30u64) & 0x1FF == 1) by (bit_vector);
    assert((0x1000_0000u64 >> 30u64) & 0x1FF == 0) by (bit_vector);
    assert((0x2000_0000u64 >> 30u64) & 0x1FF == 0) by (bit_vector);
}

} // verus!
