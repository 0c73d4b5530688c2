use phone_os::kernel::memory::{
    allocate, allocated_bytes, deallocate, free_bytes, init_heap, reset, test_allocator, GlobalAllocator,
    HeapState, DEFAULT_HEAP_BASE, HEAP_SIZE, TEST_HEAP_SIZE,
};

fn word() -> usize {
    core::mem::size_of::<usize>()
}

#[test]
fn boot_heap_has_no_region() {
    let heap = HeapState::new();
    assert_eq!(heap.base(), DEFAULT_HEAP_BASE);
    assert_eq!(heap.end(), 0);
    assert_eq!(allocated_bytes(&heap), 0);
    assert_eq!(free_bytes(&heap), 0);
}

#[test]
fn allocation_before_init_fails() {
    let mut heap = HeapState::new();
    assert_eq!(allocate(&mut heap, 16, 8), 0);
    assert_eq!(allocated_bytes(&heap), 0);
}

#[test]
fn init_heap_installs_region() {
    let mut heap = HeapState::new();
    init_heap(&mut heap, 0x9000_0000, HEAP_SIZE);
    assert_eq!(heap.base(), 0x9000_0000);
    assert_eq!(heap.end(), 0x9000_0000 + 16 * 1024 * 1024);
    assert_eq!(free_bytes(&heap), HEAP_SIZE);
}

#[test]
fn allocate_rounds_up_to_alignment() {
    let mut heap = HeapState::new();
    init_heap(&mut heap, 0x1001, 4096);
    let p = allocate(&mut heap, 10, 16);
    assert_eq!(p, 0x1010);
    assert_eq!(allocated_bytes(&heap), 0x1010 + 10 - 0x1001);
    reset(&mut heap);
    assert_eq!(allocated_bytes(&heap), 0);
    assert_eq!(free_bytes(&heap), 4096);
}

#[test]
fn small_alignment_is_raised_to_a_word() {
    let mut heap = HeapState::new();
    init_heap(&mut heap, 0x2001, 256);
    let p = allocate(&mut heap, 1, 1);
    assert_eq!(p % word(), 0);
    assert_eq!(p, (0x2001 + word() - 1) / word() * word());
}

#[test]
fn consecutive_allocations_do_not_overlap() {
    let mut heap = HeapState::new();
    init_heap(&mut heap, 0x4000, 1024);
    let a = allocate(&mut heap, 24, 8);
    let b = allocate(&mut heap, 40, 32);
    assert_eq!(a, 0x4000);
    assert_eq!(b, 0x4020);
    assert!(a + 24 <= b);
    assert_eq!(allocated_bytes(&heap), 0x20 + 40);
    assert_eq!(free_bytes(&heap) + allocated_bytes(&heap), 1024);
}

#[test]
fn exhausted_heap_returns_null_and_keeps_state() {
    let mut heap = HeapState::new();
    init_heap(&mut heap, 0x8000, 64);
    assert_eq!(allocate(&mut heap, 48, 8), 0x8000);
    assert_eq!(allocate(&mut heap, 32, 8), 0);
    assert_eq!(allocated_bytes(&heap), 48);
    assert_eq!(allocate(&mut heap, 16, 8), 0x8030);
    assert_eq!(free_bytes(&heap), 0);
}

#[test]
fn exact_fit_succeeds() {
    let mut heap = HeapState::new();
    init_heap(&mut heap, 0x100, 0x100);
    assert_eq!(allocate(&mut heap, 0x100, 8), 0x100);
    assert_eq!(free_bytes(&heap), 0);
}

#[test]
fn deallocate_changes_nothing() {
    let mut heap = HeapState::new();
    init_heap(&mut heap, 0x1000, 512);
    let p = allocate(&mut heap, 32, 8);
    deallocate(&mut heap, p, 32, 8);
    assert_eq!(allocated_bytes(&heap), 32);
}

#[test]
fn reset_keeps_region() {
    let mut heap = HeapState::new();
    init_heap(&mut heap, 0x1000, 512);
    allocate(&mut heap, 100, 8);
    reset(&mut heap);
    assert_eq!(heap.base(), 0x1000);
    assert_eq!(heap.end(), 0x1200);
    assert_eq!(allocate(&mut heap, 8, 8), 0x1000);
}

#[test]
fn self_test_passes_on_nonzero_base() {
    let mut heap = HeapState::new();
    assert!(test_allocator(&mut heap, 0x5003));
    assert_eq!(heap.base(), 0x5003);
    assert_eq!(heap.end(), 0x5003 + TEST_HEAP_SIZE);
    assert_eq!(allocated_bytes(&heap), 0);
}

#[test]
fn self_test_fails_on_zero_base() {
    let mut heap = HeapState::new();
    assert!(!test_allocator(&mut heap, 0));
    assert_eq!(heap.end(), TEST_HEAP_SIZE);
}

#[test]
fn global_allocator_forwards() {
    let mut heap = HeapState::new();
    init_heap(&mut heap, 0x3000, 128);
    let g = GlobalAllocator;
    let p = g.allocate_block(&mut heap, 16, 64);
    assert_eq!(p, 0x3000);
    g.release_block(&mut heap, p, 16, 64);
    assert_eq!(allocated_bytes(&heap), 16);
    assert_eq!(g.allocate_block(&mut heap, 16, 64), 0x3040);
}
