//! Device tree blob (DTB) header decoding and check, and the hardware facts
//! taken from the blob.
//!
//! A blob is handed in as its bytes; its header is ten big-endian 32-bit
//! words, the first of which is the magic number.
use vstd::prelude::*;

verus! {

/// Magic number of a device tree blob.
pub const DTB_MAGIC: u32 = 0xd00dfeed;

/// Number of memory region slots in `DeviceTreeInfo`.
pub const MAX_MEMORY_REGIONS: usize = 16;

/// Bytes in a device tree header.
pub const DTB_HEADER_SIZE: usize = 40;

/// Device tree header: the words at the start of the blob, decoded.
#[derive(Clone, Copy, Debug)]
pub struct DeviceTreeHeader {
    pub magic: u32,
    pub totalsize: u32,
    pub off_dt_struct: u32,
    pub off_dt_strings: u32,
    pub off_mem_rsvmap: u32,
    pub version: u32,
    pub last_comp_version: u32,
    pub boot_cpuid_phys: u32,
    pub size_dt_strings: u32,
    pub size_dt_struct: u32,
}

/// Memory region types.
#[derive(Debug, Clone, Copy, PartialEq, Eq, Structural)]
pub enum MemoryType {
    Ram,
    Reserved,
    Mmio,
    Acpi,
}

/// Memory region descriptor.
#[derive(Debug, Clone, Copy, PartialEq, Eq, Structural)]
pub struct MemoryRegion {
    pub base: u64,
    pub size: u64,
    pub region_type: MemoryType,
}

/// Parsed device tree information.
pub struct DeviceTreeInfo {
    pub memory_regions: [Option<MemoryRegion>; 16],
    pub cpu_count: u32,
    pub framebuffer_addr: Option<u64>,
    pub framebuffer_size: Option<u64>,
}

/// The RAM region assumed when the blob is valid: 256MB at 0x8000_0000.
pub open spec fn default_ram_region() -> MemoryRegion {
    MemoryRegion { base: 0x8000_0000, size: 0x1000_0000, region_type: MemoryType::Ram }
}

/// A memory map with every slot empty.
pub open spec fn empty_memory_map() -> Seq<Option<MemoryRegion>> {
    Seq::new(16, |i: int| None::<MemoryRegion>)
}

/// The memory map a valid blob yields: the default RAM region first.
pub open spec fn parsed_memory_map() -> Seq<Option<MemoryRegion>> {
    empty_memory_map().update(0, Some(default_ram_region()))
}

/// The big-endian 32-bit word at byte `i` of `bytes`.
pub open spec fn be_word(bytes: Seq<u8>, i: int) -> int {
    bytes[i] * 0x100_0000 + bytes[i + 1] * 0x1_0000 + bytes[i + 2] * 0x100 + bytes[i + 3]
}

/// The blob (`None` for a null blob pointer) holds a whole header whose
/// first word is the DTB magic number.
pub open spec fn header_valid(blob: Option<&[u8]>) -> bool {
    blob matches Some(b) && b@.len() >= DTB_HEADER_SIZE && be_word(b@, 0) == DTB_MAGIC as int
}

/// Read the big-endian word at byte `i`.
fn read_be_u32(bytes: &[u8], i: usize) -> (r: u32)
    requires
        i + 4 <= bytes@.len(),
    ensures
        r == be_word(bytes@, i as int),
{
    let b0 = bytes[i];
    let b1 = bytes[i + 1];
    let b2 = bytes[i + 2];
    let b3 = bytes[i + 3];
    let r = ((b0 as u32) << 24u32) | ((b1 as u32) << 16u32) | ((b2 as u32) << 8u32) | (b3 as u32);
    assert(r == b0 * 0x100_0000 + b1 * 0x1_0000 + b2 * 0x100 + b3) by (bit_vector)
        requires
            r == ((b0 as u32) << 24u32) | ((b1 as u32) << 16u32) | ((b2 as u32) << 8u32) | (b3 as u32),
    ;
    r
}

impl DeviceTreeHeader {
    /// Decode the header at the start of `bytes`; `None` when the bytes are
    /// too few to hold one.
    pub fn from_bytes(bytes: &[u8]) -> (r: Option<Self>)
        ensures
            r is Some <==> bytes@.len() >= DTB_HEADER_SIZE,
            r matches Some(h) ==> {
                &&& h.magic == be_word(bytes@, 0)
                &&& h.totalsize == be_word(bytes@, 4)
                &&& h.off_dt_struct == be_word(bytes@, 8)
                &&& h.off_dt_strings == be_word(bytes@, 12)
                &&& h.off_mem_rsvmap == be_word(bytes@, 16)
                &&& h.version == be_word(bytes@, 20)
                &&& h.last_comp_version == be_word(bytes@, 24)
                &&& h.boot_cpuid_phys == be_word(bytes@, 28)
                &&& h.size_dt_strings == be_word(bytes@, 32)
                &&& h.size_dt_struct == be_word(bytes@, 36)
            },
    {
        if bytes.len() < DTB_HEADER_SIZE {
            return None;
        }
        Some(
            DeviceTreeHeader {
                magic: read_be_u32(bytes, 0),
                totalsize: read_be_u32(bytes, 4),
                off_dt_struct: read_be_u32(bytes, 8),
                off_dt_strings: read_be_u32(bytes, 12),
                off_mem_rsvmap: read_be_u32(bytes, 16),
                version: read_be_u32(bytes, 20),
                last_comp_version: read_be_u32(bytes, 24),
                boot_cpuid_phys: read_be_u32(bytes, 28),
                size_dt_strings: read_be_u32(bytes, 32),
                size_dt_struct: read_be_u32(bytes, 36),
            },
        )
    }
}

impl DeviceTreeInfo {
    /// No regions, no CPUs, no framebuffer.
    pub fn new() -> (r: Self)
        ensures
            r.memory_regions@ == empty_memory_map(),
            r.cpu_count == 0,
            r.framebuffer_addr is None,
            r.framebuffer_size is None,
    {
        let r = DeviceTreeInfo {
            memory_regions: [None; 16],
            cpu_count: 0,
            framebuffer_addr: None,
            framebuffer_size: None,
        };
        assert(r.memory_regions@ =~= empty_memory_map());
        r
    }
}

/// Check the blob's header (`None` for a null blob pointer) and return the
/// hardware description: one CPU and a 256MB RAM region at 0x8000_0000.
/// Invalid, truncated or missing blobs give `None`.
pub fn parse_dtb(blob: Option<&[u8]>) -> (r: Option<DeviceTreeInfo>)
    ensures
        r is Some <==> header_valid(blob),
        r matches Some(info) ==> {
            &&& info.memory_regions@ == parsed_memory_map()
            &&& info.cpu_count == 1
            &&& info.framebuffer_addr is None
            &&& info.framebuffer_size is None
        },
{
    let bytes = match blob {
        None => {
            return None;
        },
        Some(b) => b,
    };
    let h = match DeviceTreeHeader::from_bytes(bytes) {
        None => {
            return None;
        },
        Some(h) => h,
    };
    if h.magic != DTB_MAGIC {
        return None;
    }
    let mut info = DeviceTreeInfo::new();
    info.cpu_count = 1;
    info.memory_regions[0] = Some(
        MemoryRegion { base: 0x8000_0000, size: 0x1000_0000, region_type: MemoryType::Ram },
    );
    assert(info.memory_regions@ =~= parsed_memory_map());
    Some(info)
}

/// The memory map of the blob, or an empty map when it is missing or
/// invalid.
pub fn get_memory_map(blob: Option<&[u8]>) -> (r: [Option<MemoryRegion>; 16])
    ensures
        r@ == (if header_valid(blob) {
            parsed_memory_map()
        } else {
            empty_memory_map()
        }),
{
    match parse_dtb(blob) {
        Some(info) => info.memory_regions,
        None => {
            let r: [Option<MemoryRegion>; 16] = [None; 16];
            assert(r@ =~= empty_memory_map());
            r
        },
    }
}

} // verus!
