//! Kernel heap bootstrap.
//!
//! Claims a dynamically sized address range starting at a fixed address,
//! sized from the mapped memory and clamped to configured bounds. The byte
//! range itself is owned by a `linked_list_allocator::Heap`; this module
//! decides the range, tracks the single-initialization state, and hardens
//! the surface with zero-on-allocate and poison-on-free patterns.

use vstd::prelude::*;

verus! {

/// Fixed start address of the heap (4MiB).
pub const HEAP_START: u64 = 0x400000;

/// Smallest heap the kernel accepts (4MiB).
pub const MIN_HEAP_SIZE: u64 = 4 * 1024 * 1024;

/// Largest heap the kernel claims (256MiB).
pub const MAX_HEAP_SIZE: u64 = 256 * 1024 * 1024;

/// The byte written over freed memory: a recognizable signature that reads
/// back as evidence of use-after-free.
pub const POISON_PATTERN: u8 = 0xDE;

/// Errors that can occur during heap operations.
#[derive(Debug, Clone, Copy, PartialEq, Eq, Structural)]
pub enum HeapError {
    /// Heap is already initialized.
    AlreadyInitialized,
    /// Failed to allocate physical frames for the heap.
    FrameAllocationFailed,
    /// Invalid heap configuration.
    InvalidConfiguration,
    /// Heap corruption detected.
    CorruptionDetected,
}

impl HeapError {
    /// A human-readable description of the error.
    pub fn message(self) -> (r: &'static str)
        ensures
            self is AlreadyInitialized ==> r@ == "Heap already initialized"@,
            self is FrameAllocationFailed ==> r@ == "Failed to allocate frames for heap"@,
            self is InvalidConfiguration ==> r@ == "Invalid heap configuration"@,
            self is CorruptionDetected ==> r@ == "Heap corruption detected"@,
    {
        match self {
            HeapError::AlreadyInitialized => "Heap already initialized",
            HeapError::FrameAllocationFailed => "Failed to allocate frames for heap",
            HeapError::InvalidConfiguration => "Invalid heap configuration",
            HeapError::CorruptionDetected => "Heap corruption detected",
        }
    }
}

/// The heap size chosen for a given amount of mapped memory: everything
/// mapped past the heap start, clamped to `[MIN_HEAP_SIZE, MAX_HEAP_SIZE]`
/// and rounded down to a whole number of frames.
pub open spec fn heap_size_for(mapped_memory: u64) -> u64 {
    let available: u64 = if mapped_memory >= HEAP_START {
        (mapped_memory - HEAP_START) as u64
    } else {
        0
    };
    let clamped: u64 = if available < MIN_HEAP_SIZE {
        MIN_HEAP_SIZE
    } else if available > MAX_HEAP_SIZE {
        MAX_HEAP_SIZE
    } else {
        available
    };
    ((clamped / 4096) * 4096) as u64
}

/// The chosen heap size always lies within the configured bounds and is a
/// whole number of frames.
pub proof fn lemma_heap_size_bounds(mapped_memory: u64)
    ensures
        MIN_HEAP_SIZE <= heap_size_for(mapped_memory) <= MAX_HEAP_SIZE,
        heap_size_for(mapped_memory) % 4096 == 0,
{
    let available: u64 = if mapped_memory >= HEAP_START {
        (mapped_memory - HEAP_START) as u64
    } else {
        0
    };
    let clamped: u64 = if available < MIN_HEAP_SIZE {
        MIN_HEAP_SIZE
    } else if available > MAX_HEAP_SIZE {
        MAX_HEAP_SIZE
    } else {
        available
    };
    assert(clamped % 4096 == 0 ==> clamped / 4096 * 4096 == clamped) by (nonlinear_arith);
    assert(MIN_HEAP_SIZE <= clamped <= MAX_HEAP_SIZE ==> MIN_HEAP_SIZE / 4096 * 4096 <= clamped / 4096 * 4096 <= MAX_HEAP_SIZE / 4096 * 4096)
        by (nonlinear_arith);
    assert((clamped / 4096 * 4096) % 4096 == 0) by (nonlinear_arith);
}

/// The single-initialization state of the heap: its fixed start, its chosen
/// size, and whether the backing allocator has been handed the range.
pub struct HeapState {
    heap_size: u64,
    initialized: bool,
}

impl HeapState {
    /// The chosen heap size; zero until initialization.
    pub closed spec fn size_spec(self) -> u64 {
        self.heap_size
    }

    /// Whether the heap has been initialized.
    pub closed spec fn initialized_spec(self) -> bool {
        self.initialized
    }

    /// A heap state that has not been initialized.
    pub fn new() -> (r: Self)
        ensures
            !r.initialized_spec(),
            r.size_spec() == 0,
    {
        HeapState {
            heap_size: 0,
            initialized: false,
        }
    }
}

/// Decide the heap range for the given mapped memory and mark the heap
/// initialized. A second call fails with `AlreadyInitialized` and leaves the
/// prior state untouched; the caller then hands exactly the chosen range,
/// starting at `HEAP_START`, to the backing allocator.
pub fn init_heap(state: &mut HeapState, mapped_memory: u64) -> (r: Result<(), HeapError>)
    ensures
        old(state).initialized_spec() ==> (
            r == Err::<(), HeapError>(HeapError::AlreadyInitialized)
            && *final(state) == *old(state)),
        !old(state).initialized_spec() ==> (
            r == Ok::<(), HeapError>(())
            && final(state).initialized_spec()
            && final(state).size_spec() == heap_size_for(mapped_memory)),
{
    if state.initialized {
        return Err(HeapError::AlreadyInitialized);
    }
    if HEAP_START % 4096 != 0 {
        return Err(HeapError::InvalidConfiguration);
    }
    let available: u64 = if mapped_memory >= HEAP_START {
        mapped_memory - HEAP_START
    } else {
        0
    };
    let clamped: u64 = if available < MIN_HEAP_SIZE {
        MIN_HEAP_SIZE
    } else if available > MAX_HEAP_SIZE {
        MAX_HEAP_SIZE
    } else {
        available
    };
    proof {
        assert(clamped / 4096 * 4096 <= clamped) by (nonlinear_arith);
    }
    let final_heap_size: u64 = (clamped / 4096) * 4096;
    if final_heap_size < MIN_HEAP_SIZE {
        proof {
            lemma_heap_size_bounds(mapped_memory);
        }
        return Err(HeapError::InvalidConfiguration);
    }
    state.heap_size = final_heap_size;
    state.initialized = true;
    Ok(())
}

/// Whether the heap has been initialized.
pub fn is_initialized(state: &HeapState) -> (r: bool)
    ensures
        r == state.initialized_spec(),
{
    state.initialized
}

/// Heap statistics.
#[derive(Debug, Clone, Copy)]
pub struct HeapStats {
    pub total_size: u64,
    pub used_size: u64,
    pub free_size: u64,
    pub start_address: u64,
}

/// Heap statistics: the chosen range together with the backing allocator's
/// own accounting of used and free bytes.
pub fn heap_stats(state: &HeapState, allocator: &linked_list_allocator::Heap) -> (r: HeapStats)
    ensures
        r.total_size == state.size_spec(),
        r.start_address == HEAP_START,
{
    HeapStats {
        total_size: state.heap_size,
        used_size: heap_used(allocator) as u64,
        free_size: heap_free(allocator) as u64,
        start_address: HEAP_START,
    }
}

#[verifier::external_type_specification]
#[verifier::external_body]
pub struct ExHeap(linked_list_allocator::Heap);

/// Relies on linked_list_allocator's `Heap::used`: the size in bytes of the
/// used part of the heap. Nothing further is assumed of the value.
#[verifier::external_body]
fn heap_used(allocator: &linked_list_allocator::Heap) -> usize {
    allocator.used()
}

/// Relies on linked_list_allocator's `Heap::free`: the size in bytes of the
/// free part of the heap. Nothing further is assumed of the value.
#[verifier::external_body]
fn heap_free(allocator: &linked_list_allocator::Heap) -> usize {
    allocator.free()
}

/// Overwrite a buffer with the poison pattern, as done to freed memory: a
/// cheap, deterministic defense against information leakage, and a
/// detectable signature if read after free.
pub fn poison_memory(buf: &mut Vec<u8>)
    ensures
        final(buf)@.len() == old(buf)@.len(),
        forall |i: int| 0 <= i < final(buf)@.len() ==> final(buf)@[i] == POISON_PATTERN,
{
    let mut i: usize = 0;
    while i < buf.len()
        invariant
            i <= buf@.len(),
            buf@.len() == old(buf)@.len(),
            forall |k: int| 0 <= k < i ==> buf@[k] == POISON_PATTERN,
        decreases buf@.len() - i,
    {
        buf.set(i, POISON_PATTERN);
        i += 1;
    }
}

/// Whether a buffer consists entirely of the poison pattern.
pub fn is_poisoned(buf: &Vec<u8>) -> (r: bool)
    ensures
        r == (forall |i: int| 0 <= i < buf@.len() ==> buf@[i] == POISON_PATTERN),
{
    let mut i: usize = 0;
    while i < buf.len()
        invariant
            i <= buf@.len(),
            forall |k: int| 0 <= k < i ==> buf@[k] == POISON_PATTERN,
        decreases buf@.len() - i,
    {
        if buf[i] != POISON_PATTERN {
            return false;
        }
        i += 1;
    }
    true
}

} // verus!
