use phone_os::arch::aarch64::mmu::{
    boot_page_table, device_flags, kernel_flags, mmu_register_values, PageTable, ENTRY_COUNT, PTE_VALID,
};

#[test]
fn new_table_is_empty() {
    let t = PageTable::new();
    for i in 0..ENTRY_COUNT {
        assert_eq!(t.get_entry(i), 0);
    }
}

#[test]
fn set_then_get() {
    let mut t = PageTable::new();
    t.set_entry(7, 0xABCD);
    assert_eq!(t.get_entry(7), 0xABCD);
    assert_eq!(t.get_entry(6), 0);
    assert_eq!(t.get_entry(8), 0);
}

#[test]
fn out_of_range_is_ignored() {
    let mut t = PageTable::new();
    t.set_entry(512, 5);
    assert_eq!(t.get_entry(512), 0);
    for i in 0..ENTRY_COUNT {
        assert_eq!(t.get_entry(i), 0);
    }
}

#[test]
fn map_block_uses_level_one_index() {
    let mut t = PageTable::new();
    t.map_block(3u64 << 30, 0x1234_5678_9ABC, 0x700);
    assert_eq!(t.get_entry(3), (0x1234_5678_9ABC & 0x0000_FFFF_FFC0_0000) | 0x700 | 1);
    assert_eq!(t.get_entry(3) & PTE_VALID, PTE_VALID);
    assert_eq!(t.get_entry(0), 0);
}

#[test]
fn clear_zeroes_everything() {
    let mut t = PageTable::new();
    t.set_entry(0, 1);
    t.set_entry(511, 2);
    t.clear();
    assert_eq!(t.get_entry(0), 0);
    assert_eq!(t.get_entry(511), 0);
}

#[test]
fn flags() {
    assert_eq!(kernel_flags(), 0x0040_0000_0000_0704);
    assert_eq!(device_flags(), 0x0040_0000_0000_0600);
}

#[test]
fn boot_table_identity_maps_first_two_gigabytes() {
    let t = boot_page_table();
    assert_eq!(t.get_entry(0), 0x0040_0000_2000_0601);
    assert_eq!(t.get_entry(1), 0x0040_0000_4000_0705);
    for i in 2..ENTRY_COUNT {
        assert_eq!(t.get_entry(i), 0);
    }
}

#[test]
fn second_gigabyte_lands_in_slot_one() {
    let mut t = PageTable::new();
    t.map_block(0x4000_0000, 0x4000_0000, 0);
    assert_eq!(t.get_entry(1), 0x4000_0001);
    assert_eq!(t.get_entry(0), 0);
}

#[test]
fn register_values() {
    let r = mmu_register_values(0x4008_1234, 0x30);
    assert_eq!(r.mair_el1, 0xFF00);
    assert_eq!(r.tcr_el1, 0x30_0010_7C23);
    assert_eq!(r.ttbr0_el1, 0x4008_1000);
    assert_eq!(r.sctlr_el1, 0x1035);
}
