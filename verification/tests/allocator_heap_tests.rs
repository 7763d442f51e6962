use bootmem::frame_allocator::{
    allocate_frame, clear_frame, deallocate_frame, get_stats, init_frame_allocator,
    AllocationError, FrameAllocator, FrameAllocatorContext,
};
use bootmem::heap::{
    heap_stats, init_heap, is_initialized, is_poisoned, poison_memory, HeapError, HeapState,
    HEAP_START, MAX_HEAP_SIZE, MIN_HEAP_SIZE,
};
use bootmem::memory_map::MemoryMap;
use bootmem::phys::PhysicalFrame;

/// Append a 64-bit little-endian value.
fn push_u64(bytes: &mut Vec<u8>, v: u64) {
    bytes.extend_from_slice(&v.to_le_bytes());
}

/// Append a 32-bit little-endian value.
fn push_u32(bytes: &mut Vec<u8>, v: u32) {
    bytes.extend_from_slice(&v.to_le_bytes());
}

/// A stored memory map parsed back into a `MemoryMap`.
fn map_of(entries: &[(u64, u64, u32, u32)]) -> MemoryMap {
    let mut bytes = Vec::new();
    push_u32(&mut bytes, entries.len() as u32);
    for &(base, length, entry_type, attributes) in entries {
        push_u64(&mut bytes, base);
        push_u64(&mut bytes, length);
        push_u32(&mut bytes, entry_type);
        push_u32(&mut bytes, attributes);
    }
    bytes.resize(4 + 24 * 64, 0);
    MemoryMap::from_bootloader(&bytes).unwrap()
}

#[test]
fn new_allocator_stats() {
    let map = MemoryMap::create_fallback();
    let total_memory = map.total_usable_memory();
    let allocator = FrameAllocator::new(map);
    let stats = allocator.stats();
    assert_eq!(stats.total_frames, total_memory / 4096);
    assert_eq!(stats.allocated_frames, 0);
    assert_eq!(stats.free_frames, stats.total_frames);
    assert_eq!(stats.total_memory, total_memory);
    assert_eq!(stats.allocated_memory, 0);
}

#[test]
fn allocations_are_distinct_and_increasing() {
    let mut allocator = FrameAllocator::new(MemoryMap::create_fallback());
    let mut last: Option<u64> = None;
    for _ in 0..64 {
        let frame = allocator.allocate_frame().unwrap();
        if let Some(prev) = last {
            assert!(frame.number() > prev);
        }
        last = Some(frame.number());
    }
    assert_eq!(allocator.stats().allocated_frames, 64);
}

#[test]
fn first_allocation_starts_past_kernel_space() {
    // The fallback map's extended region covers the 4MiB cursor start.
    let mut allocator = FrameAllocator::new(MemoryMap::create_fallback());
    let frame = allocator.allocate_frame().unwrap();
    assert_eq!(frame.number(), 0x400000 / 4096);
}

#[test]
fn cursor_jumps_gap_to_region_start() {
    // One usable region far above the cursor: allocation lands on its start.
    let map = map_of(&[(0x10000000, 0x2000000, 1, 1)]);
    let mut allocator = FrameAllocator::new(map);
    let frame = allocator.allocate_frame().unwrap();
    assert_eq!(frame.number(), 0x10000000 / 4096);
}

#[test]
fn deallocate_then_allocate_returns_same_frame() {
    // The rewinding behavior, explicitly: allocate, free, allocate again on
    // an otherwise idle allocator hands the very same frame back out.
    let mut allocator = FrameAllocator::new(MemoryMap::create_fallback());
    let first = allocator.allocate_frame().unwrap();
    allocator.deallocate_frame(first).unwrap();
    let second = allocator.allocate_frame().unwrap();
    assert_eq!(first.number(), second.number());
    assert_eq!(allocator.stats().allocated_frames, 1);
}

#[test]
fn exhaustion_reports_out_of_memory_at_equality() {
    // A 32MiB usable region starting right at the cursor: the region holds
    // exactly as many frames as the derived total, so exhaustion and
    // count-equality coincide.
    let map = map_of(&[(0x400000, 0x2000000, 1, 1)]);
    let mut allocator = FrameAllocator::new(map);
    let total = allocator.stats().total_frames;
    assert_eq!(total, 0x2000000 / 4096);
    for _ in 0..total {
        allocator.allocate_frame().unwrap();
    }
    let stats = allocator.stats();
    assert_eq!(stats.allocated_frames, stats.total_frames);
    assert_eq!(
        allocator.allocate_frame().err(),
        Some(AllocationError::OutOfMemory)
    );
}

#[test]
fn deallocate_outside_usable_regions_is_invalid() {
    let mut allocator = FrameAllocator::new(MemoryMap::create_fallback());
    // Frame 0x30000 (768MiB) lies outside both fallback regions.
    let bogus = PhysicalFrame::from_number(0x30000);
    assert_eq!(
        allocator.deallocate_frame(bogus).err(),
        Some(AllocationError::InvalidFrame)
    );
}

#[test]
fn context_before_initialization_fails_softly() {
    let mut ctx = FrameAllocatorContext::new();
    assert_eq!(
        allocate_frame(&mut ctx).err(),
        Some(AllocationError::OutOfMemory)
    );
    let frame = PhysicalFrame::from_number(0x400);
    assert_eq!(
        deallocate_frame(&mut ctx, frame).err(),
        Some(AllocationError::InvalidFrame)
    );
    assert!(get_stats(&ctx).is_none());
}

#[test]
fn frame_allocator_is_initialized_exactly_once() {
    // A second initialization fails loudly and leaves the live allocator —
    // its outstanding count and cursor — untouched, so no frame already
    // handed out can be issued again.
    let mut ctx = FrameAllocatorContext::new();
    init_frame_allocator(&mut ctx, MemoryMap::create_fallback()).unwrap();
    let first = allocate_frame(&mut ctx).unwrap();
    assert_eq!(
        init_frame_allocator(&mut ctx, MemoryMap::create_fallback()).err(),
        Some(AllocationError::AlreadyInitialized)
    );
    assert_eq!(get_stats(&ctx).unwrap().allocated_frames, 1);
    let second = allocate_frame(&mut ctx).unwrap();
    assert!(second.number() > first.number());
}

#[test]
fn context_after_initialization_allocates() {
    let mut ctx = FrameAllocatorContext::new();
    init_frame_allocator(&mut ctx, MemoryMap::create_fallback()).unwrap();
    let frame = allocate_frame(&mut ctx).unwrap();
    assert_eq!(frame.number(), 0x400);
    let stats = get_stats(&ctx).unwrap();
    assert_eq!(stats.allocated_frames, 1);
    deallocate_frame(&mut ctx, frame).unwrap();
    assert_eq!(get_stats(&ctx).unwrap().allocated_frames, 0);
}

#[test]
fn clear_frame_zeroes_buffer() {
    let mut buf = vec![0xABu8; 4096];
    clear_frame(&mut buf);
    assert_eq!(buf.len(), 4096);
    assert!(buf.iter().all(|&b| b == 0));
}

#[test]
fn allocation_error_messages() {
    assert_eq!(AllocationError::OutOfMemory.message(), "Out of physical memory");
    assert_eq!(AllocationError::InvalidFrame.message(), "Invalid frame address");
    assert_eq!(
        AllocationError::FrameAlreadyAllocated.message(),
        "Frame already allocated"
    );
    assert_eq!(AllocationError::FrameNotAllocated.message(), "Frame not allocated");
    assert_eq!(
        AllocationError::AlreadyInitialized.message(),
        "Frame allocator already initialized"
    );
}

#[test]
fn heap_sizing_at_300_mib() {
    // 300MiB mapped with the heap starting at 4MiB leaves 296MiB, clamped
    // to the 256MiB ceiling: within bounds and frame-aligned.
    let mut state = HeapState::new();
    assert!(!is_initialized(&state));
    init_heap(&mut state, 300 * 1024 * 1024).unwrap();
    assert!(is_initialized(&state));
    let allocator = linked_list_allocator::Heap::empty();
    let stats = heap_stats(&state, &allocator);
    assert_eq!(stats.start_address, HEAP_START);
    assert!(stats.total_size >= MIN_HEAP_SIZE);
    assert!(stats.total_size <= MAX_HEAP_SIZE);
    assert_eq!(stats.total_size % 4096, 0);
    assert_eq!(stats.total_size, 256 * 1024 * 1024);
}

#[test]
fn heap_init_is_not_idempotent() {
    let mut state = HeapState::new();
    init_heap(&mut state, 300 * 1024 * 1024).unwrap();
    let allocator = linked_list_allocator::Heap::empty();
    let before = heap_stats(&state, &allocator);
    assert_eq!(
        init_heap(&mut state, 64 * 1024 * 1024).err(),
        Some(HeapError::AlreadyInitialized)
    );
    let after = heap_stats(&state, &allocator);
    assert_eq!(before.total_size, after.total_size);
    assert_eq!(before.used_size, after.used_size);
    assert_eq!(before.free_size, after.free_size);
    assert_eq!(before.start_address, after.start_address);
}

#[test]
fn heap_sizing_floors_at_minimum() {
    let mut state = HeapState::new();
    init_heap(&mut state, 0).unwrap();
    let allocator = linked_list_allocator::Heap::empty();
    assert_eq!(heap_stats(&state, &allocator).total_size, MIN_HEAP_SIZE);
}

#[test]
fn heap_sizing_between_bounds() {
    // 68MiB mapped: 64MiB past the heap start, between the bounds.
    let mut state = HeapState::new();
    init_heap(&mut state, 68 * 1024 * 1024).unwrap();
    let allocator = linked_list_allocator::Heap::empty();
    assert_eq!(heap_stats(&state, &allocator).total_size, 64 * 1024 * 1024);
}

#[test]
fn poison_roundtrip() {
    let mut buf = vec![0u8; 64];
    assert!(!is_poisoned(&buf));
    poison_memory(&mut buf);
    assert_eq!(buf.len(), 64);
    assert!(buf.iter().all(|&b| b == 0xDE));
    assert!(is_poisoned(&buf));
    buf[13] = 0;
    assert!(!is_poisoned(&buf));
}

#[test]
fn heap_error_messages() {
    assert_eq!(HeapError::AlreadyInitialized.message(), "Heap already initialized");
    assert_eq!(
        HeapError::FrameAllocationFailed.message(),
        "Failed to allocate frames for heap"
    );
    assert_eq!(
        HeapError::InvalidConfiguration.message(),
        "Invalid heap configuration"
    );
    assert_eq!(HeapError::CorruptionDetected.message(), "Heap corruption detected");
}
