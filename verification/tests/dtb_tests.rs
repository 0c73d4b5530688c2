use phone_os::arch::aarch64::dtb::{
    get_memory_map, parse_dtb, DeviceTreeHeader, DeviceTreeInfo, MemoryRegion, MemoryType, DTB_MAGIC,
};
use phone_os::arch::aarch64::{get_cpu_count, get_timer_value, ARCH_NAME};

fn blob(magic: u32) -> Vec<u8> {
    let words: [u32; 10] = [magic, 0x1000, 0x40, 0x800, 0x28, 17, 16, 0, 0x100, 0x700];
    words.iter().flat_map(|w| w.to_be_bytes()).collect()
}

#[test]
fn empty_info() {
    let info = DeviceTreeInfo::new();
    assert_eq!(info.cpu_count, 0);
    assert!(info.framebuffer_addr.is_none());
    assert!(info.framebuffer_size.is_none());
    assert!(info.memory_regions.iter().all(|r| r.is_none()));
}

#[test]
fn valid_blob_parses() {
    let h = blob(DTB_MAGIC);
    let info = parse_dtb(Some(&h[..])).unwrap();
    assert_eq!(info.cpu_count, 1);
    assert_eq!(
        info.memory_regions[0],
        Some(MemoryRegion { base: 0x8000_0000, size: 0x1000_0000, region_type: MemoryType::Ram })
    );
    assert!(info.memory_regions[1..].iter().all(|r| r.is_none()));
    assert!(info.framebuffer_addr.is_none());
}

#[test]
fn byte_swapped_magic_is_rejected() {
    let h = blob(0xedfe0dd0);
    assert!(parse_dtb(Some(&h[..])).is_none());
}

#[test]
fn blob_starts_with_big_endian_magic() {
    let h = blob(DTB_MAGIC);
    assert_eq!(&h[..4], &[0xd0, 0x0d, 0xfe, 0xed]);
    assert!(parse_dtb(Some(&h[..])).is_some());
}

#[test]
fn header_words_are_big_endian() {
    let h = DeviceTreeHeader::from_bytes(&blob(DTB_MAGIC)).unwrap();
    assert_eq!(h.magic, 0xd00dfeed);
    assert_eq!(h.totalsize, 0x1000);
    assert_eq!(h.version, 17);
    assert_eq!(h.size_dt_struct, 0x700);
}

#[test]
fn truncated_blob_is_rejected() {
    let h = blob(DTB_MAGIC);
    assert!(DeviceTreeHeader::from_bytes(&h[..39]).is_none());
    assert!(parse_dtb(Some(&h[..39])).is_none());
    assert!(parse_dtb(Some(&h[..4])).is_none());
}

#[test]
fn missing_blob_is_rejected() {
    assert!(parse_dtb(None).is_none());
}

#[test]
fn memory_map_of_valid_and_invalid() {
    let h = blob(DTB_MAGIC);
    let map = get_memory_map(Some(&h[..]));
    assert_eq!(map[0].unwrap().base, 0x8000_0000);
    assert_eq!(map[0].unwrap().size, 0x1000_0000);
    let bad = blob(0);
    assert!(get_memory_map(Some(&bad[..])).iter().all(|r| r.is_none()));
    assert!(get_memory_map(None).iter().all(|r| r.is_none()));
}

#[test]
fn cpu_count_is_one() {
    let h = blob(DTB_MAGIC);
    assert_eq!(get_cpu_count(Some(&h[..])), 1);
    assert_eq!(get_cpu_count(None), 1);
    assert_eq!(get_cpu_count(Some(&blob(7)[..])), 1);
}

#[test]
fn timer_counts_and_wraps() {
    let mut t: u64 = 0;
    assert_eq!(get_timer_value(&mut t), 0);
    assert_eq!(get_timer_value(&mut t), 1);
    assert_eq!(t, 2);
    let mut m: u64 = u64::MAX;
    assert_eq!(get_timer_value(&mut m), u64::MAX);
    assert_eq!(m, 0);
}

#[test]
fn arch_name() {
    assert_eq!(ARCH_NAME, "aarch64");
}
