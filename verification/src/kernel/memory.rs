//! Bump allocator for early boot memory.
//!
//! The heap is a region `[base, end)`; `allocated` bytes from `base` are in
//! use. Each allocation rounds the next free address up to the requested
//! alignment (at least the machine word) and claims `size` bytes after it.
//! Nothing is freed individually; `reset` frees everything at once.
use vstd::prelude::*;

verus! {

/// Default heap size (16MB).
pub const HEAP_SIZE: usize = 16777216;

/// Heap base address before `init_heap` is called.
pub const DEFAULT_HEAP_BASE: usize = 0x9000_0000;

/// Size of the self-test heap used by `test_allocator`.
pub const TEST_HEAP_SIZE: usize = 4096;

/// Mathematical picture of the allocator's three registers.
pub struct HeapModel {
    pub base: nat,
    pub end: nat,
    pub allocated: nat,
}

/// State of the bump allocator: heap base, heap end and bytes handed out.
pub struct HeapState {
    heap_base: usize,
    heap_end: usize,
    allocated: usize,
}

/// Number of bytes in a machine word.
pub open spec fn word_size() -> int {
    (usize::BITS / 8) as int
}

/// `a` is a power of two.
pub open spec fn is_power_of_two(a: int) -> bool {
    a > 0 && exists|k: nat| vstd::arithmetic::power2::pow2(k) == a
}

/// The alignment actually used: the requested one, but at least a word.
pub open spec fn effective_align(align: usize) -> int {
    if align >= word_size() {
        align as int
    } else {
        word_size()
    }
}

/// Smallest multiple of `align` that is not below `start`.
pub open spec fn align_up(start: int, align: int) -> int {
    ((start + align - 1) / align) * align
}

/// The heap has been given a region, or has never been initialised.
pub open spec fn heap_wf(m: HeapModel) -> bool {
    m.end == 0 || m.base + m.allocated <= m.end
}

/// First address an allocation of `align` would get.
pub open spec fn next_aligned_start(m: HeapModel, align: usize) -> int {
    align_up((m.base + m.allocated) as int, effective_align(align))
}

/// The allocation arithmetic stays within machine words (the operands of
/// the rounding and of the final bound check do not overflow).
pub open spec fn allocate_in_range(m: HeapModel, size: usize, align: usize) -> bool {
    &&& is_power_of_two(effective_align(align))
    &&& m.base + m.allocated + effective_align(align) <= usize::MAX
    &&& next_aligned_start(m, align) + size <= usize::MAX
}

/// An allocation of `size` bytes at `align` fits before the heap end.
pub open spec fn allocation_fits(m: HeapModel, size: usize, align: usize) -> bool {
    next_aligned_start(m, align) + size <= m.end
}

/// Effect of one allocation: the new state and the returned address
/// (0 when the heap is exhausted).
pub open spec fn allocate_result(m: HeapModel, size: usize, align: usize) -> (HeapModel, int) {
    if allocation_fits(m, size, align) {
        let start = next_aligned_start(m, align);
        (HeapModel { base: m.base, end: m.end, allocated: (start + size - m.base) as nat }, start)
    } else {
        (m, 0)
    }
}

/// Bytes still free, as reported by `free_bytes`.
pub open spec fn free_bytes_of(m: HeapModel) -> int {
    if m.end == 0 {
        0
    } else {
        m.end - m.base - m.allocated
    }
}

impl View for HeapState {
    type V = HeapModel;

    closed spec fn view(&self) -> HeapModel {
        HeapModel {
            base: self.heap_base as nat,
            end: self.heap_end as nat,
            allocated: self.allocated as nat,
        }
    }
}

impl HeapState {
    #[verifier::type_invariant]
    closed spec fn inv(&self) -> bool {
        heap_wf(self@)
    }

    /// The allocator as it stands at boot: default base, no region, nothing
    /// allocated.
    pub fn new() -> (h: Self)
        ensures
            h@ == (HeapModel { base: DEFAULT_HEAP_BASE as nat, end: 0, allocated: 0 }),
    {
        HeapState { heap_base: DEFAULT_HEAP_BASE, heap_end: 0, allocated: 0 }
    }

    /// Heap base address.
    pub fn base(&self) -> (r: usize)
        ensures r == self@.base,
    {
        self.heap_base
    }

    /// Heap end address (0 before initialisation).
    pub fn end(&self) -> (r: usize)
        ensures r == self@.end,
    {
        self.heap_end
    }
}

/// A power of two that fits in a `usize` has an exponent below the word width.
proof fn lemma_pow2_exponent_fits(a: usize, k: nat)
    requires
        vstd::arithmetic::power2::pow2(k) == a,
    ensures
        k < usize::BITS,
{
    if k >= usize::BITS {
        vstd::arithmetic::power2::lemma2_to64();
        if k > usize::BITS {
            vstd::arithmetic::power2::lemma_pow2_strictly_increases(usize::BITS as nat, k);
        }
        assert(false);
    }
}

/// Clearing the low bits of `x` with the mask of a power of two `a`
/// rounds `x` down to a multiple of `a`.
proof fn lemma_mask_rounds_down(x: usize, a: usize)
    requires
        is_power_of_two(a as int),
    ensures
        a > 0,
        x & !((a - 1) as usize) == x - x % a,
{
    let k = choose|k: nat| vstd::arithmetic::power2::pow2(k) == a as int;
    lemma_pow2_exponent_fits(a, k);
    vstd::arithmetic::power2::lemma_pow2_pos(k);
    vstd::bits::lemma_usize_low_bits_mask_is_mod(x, k);
    assert(vstd::bits::low_bits_mask(k) == a - 1);
    let m = (a - 1) as usize;
    assert(x & m == x % a);
    assert(x & !m == x - (x & m)) by (bit_vector);
}

/// Rounding `y = start + align - 1` down to a multiple of `align` is
/// `align_up(start, align)`, which lies in `[start, start + align)` and is a
/// multiple of `align`.
proof fn lemma_align_up_facts(start: int, a: int)
    requires
        a > 0,
        start >= 0,
    ensures
        align_up(start, a) == (start + a - 1) - (start + a - 1) % a,
        start <= align_up(start, a) < start + a,
        align_up(start, a) % a == 0,
{
    let y = start + a - 1;
    vstd::arithmetic::div_mod::lemma_fundamental_div_mod(y, a);
    vstd::arithmetic::mul::lemma_mul_is_commutative(a, y / a);
    vstd::arithmetic::div_mod::lemma_mod_multiples_basic(y / a, a);
}

/// Reserve `size` bytes aligned to `align` (raised to at least a word).
///
/// Returns the address of the block, or 0 when the heap cannot hold it.
pub fn allocate(heap: &mut HeapState, size: usize, align: usize) -> (r: usize)
    requires
        allocate_in_range(old(heap)@, size, align),
    ensures
        (final(heap)@, r as int) == allocate_result(old(heap)@, size, align),
        heap_wf(final(heap)@),
{
    proof {
        use_type_invariant(&*heap);
        broadcast use vstd::layout::layout_of_primitives;
    }
    let word = core::mem::size_of::<usize>();
    let eff = if align > word { align } else { word };
    assert(eff == effective_align(align));
    let current = heap.allocated;
    let start = heap.heap_base + current;
    let aligned_start = (start + eff - 1) & !(eff - 1);
    proof {
        lemma_mask_rounds_down((start + eff - 1) as usize, eff);
        lemma_align_up_facts(start as int, eff as int);
    }
    let padding = aligned_start - start;
    let new_allocated = current + padding + size;
    if heap.heap_base + new_allocated > heap.heap_end {
        return 0;
    }
    heap.allocated = new_allocated;
    aligned_start
}

/// Hand the allocator the region `[base, base + size)` and forget every
/// earlier allocation.
pub fn init_heap(heap: &mut HeapState, base: usize, size: usize)
    requires
        base + size <= usize::MAX,
    ensures
        final(heap)@ == (HeapModel { base: base as nat, end: (base + size) as nat, allocated: 0 }),
{
    *heap = HeapState { heap_base: base, heap_end: base + size, allocated: 0 };
}

/// Give a block back. A bump allocator keeps no record of single blocks, so
/// nothing changes.
pub fn deallocate(heap: &mut HeapState, ptr: usize, size: usize, align: usize)
    ensures
        final(heap)@ == old(heap)@,
{
}

/// Bytes handed out since the last initialisation or reset, padding
/// included.
pub fn allocated_bytes(heap: &HeapState) -> (r: usize)
    ensures
        r == heap@.allocated,
{
    heap.allocated
}

/// Bytes still available before the heap end (0 before initialisation).
pub fn free_bytes(heap: &HeapState) -> (r: usize)
    ensures
        r == free_bytes_of(heap@),
{
    proof {
        use_type_invariant(heap);
    }
    if heap.heap_end == 0 {
        return 0;
    }
    heap.heap_end - heap.heap_base - heap.allocated
}

/// Free every allocation at once; the region stays the same.
pub fn reset(heap: &mut HeapState)
    ensures
        final(heap)@ == (HeapModel { base: old(heap)@.base, end: old(heap)@.end, allocated: 0 }),
{
    proof {
        use_type_invariant(&*heap);
    }
    heap.allocated = 0;
}

proof fn lemma_eight_and_sixty_four_are_powers()
    ensures
        is_power_of_two(8),
        is_power_of_two(64),
        word_size() == 4 || word_size() == 8,
{
    vstd::arithmetic::power2::lemma2_to64();
    assert(vstd::arithmetic::power2::pow2(3) == 8);
    assert(vstd::arithmetic::power2::pow2(6) == 64);
}

/// Self-test: install a 4096-byte heap at `test_base`, allocate 64 bytes at
/// word alignment and 128 bytes at 64-byte alignment, check that both are
/// non-null and the second is 64-byte aligned, then reset.
///
/// The heap keeps the test region afterwards, as the reset does not restore
/// the previous one.
pub fn test_allocator(heap: &mut HeapState, test_base: usize) -> (r: bool)
    requires
        test_base + TEST_HEAP_SIZE <= usize::MAX,
    ensures
        r == (test_base != 0),
        final(heap)@.base == test_base,
        final(heap)@.end == test_base + TEST_HEAP_SIZE,
        r ==> final(heap)@.allocated == 0,
{
    proof {
        lemma_eight_and_sixty_four_are_powers();
    }
    init_heap(heap, test_base, TEST_HEAP_SIZE);
    proof {
        lemma_align_up_facts(test_base as int, 8);
    }
    let ptr1 = allocate(heap, 64, 8);
    if ptr1 == 0 {
        return false;
    }
    proof {
        lemma_align_up_facts(test_base as int + heap@.allocated, 64);
    }
    let ptr2 = allocate(heap, 128, 64);
    if ptr2 == 0 {
        return false;
    }
    if ptr2 % 64 != 0 {
        return false;
    }
    reset(heap);
    true
}

/// The kernel's global allocator front end; it forwards to `allocate` and
/// `deallocate`.
pub struct GlobalAllocator;

impl GlobalAllocator {
    /// Allocate a block for a layout of `size` bytes and alignment `align`.
    pub fn allocate_block(&self, heap: &mut HeapState, size: usize, align: usize) -> (r: usize)
        requires
            allocate_in_range(old(heap)@, size, align),
        ensures
            (final(heap)@, r as int) == allocate_result(old(heap)@, size, align),
    {
        allocate(heap, size, align)
    }

    /// Release a block; the bump allocator ignores it.
    pub fn release_block(&self, heap: &mut HeapState, ptr: usize, size: usize, align: usize)
        ensures
            final(heap)@ == old(heap)@,
    {
        deallocate(heap, ptr, size, align)
    }
}

/// Every block the allocator hands out starts at a multiple of the
/// effective alignment, and its address is not 0 unless the heap itself
/// starts at 0.
pub proof fn law_allocation_is_aligned(m: HeapModel, size: usize, align: usize)
    requires
        allocate_in_range(m, size, align),
        allocate_result(m, size, align).1 != 0,
    ensures
        allocate_result(m, size, align).1 % effective_align(align) == 0,
{
    lemma_align_up_facts((m.base + m.allocated) as int, effective_align(align));
}

/// A successful allocation takes a block that starts at or after the first
/// free byte, ends inside the heap, and advances the first free byte to the
/// block's end; so blocks from successive allocations never overlap.
pub proof fn law_allocation_within_heap(m: HeapModel, size: usize, align: usize)
    requires
        allocate_in_range(m, size, align),
        allocation_fits(m, size, align),
    ensures
        ({
            let (m2, r) = allocate_result(m, size, align);
            &&& m.base + m.allocated <= r
            &&& r + size == m2.base + m2.allocated
            &&& m2.base + m2.allocated <= m2.end
            &&& m2.base == m.base && m2.end == m.end
        }),
{
    lemma_align_up_facts((m.base + m.allocated) as int, effective_align(align));
}

/// Two consecutive successful allocations return disjoint blocks.
pub proof fn law_consecutive_allocations_disjoint(
    m: HeapModel,
    size1: usize,
    align1: usize,
    size2: usize,
    align2: usize,
)
    requires
        allocate_in_range(m, size1, align1),
        allocation_fits(m, size1, align1),
        allocate_in_range(allocate_result(m, size1, align1).0, size2, align2),
        allocation_fits(allocate_result(m, size1, align1).0, size2, align2),
    ensures
        allocate_result(m, size1, align1).1 + size1 <= allocate_result(
            allocate_result(m, size1, align1).0,
            size2,
            align2,
        ).1,
{
    law_allocation_within_heap(m, size1, align1);
    law_allocation_within_heap(allocate_result(m, size1, align1).0, size2, align2);
}

/// A failed allocation changes nothing.
pub proof fn law_failed_allocation_unchanged(m: HeapModel, size: usize, align: usize)
    requires
        !allocation_fits(m, size, align),
    ensures
        allocate_result(m, size, align) == (m, 0int),
{
}

/// Once a region is installed, free and allocated bytes add up to the
/// region's size.
pub proof fn law_free_plus_allocated(m: HeapModel)
    requires
        heap_wf(m),
        m.end != 0,
    ensures
        free_bytes_of(m) + m.allocated == m.end - m.base,
{
}

} // verus!
