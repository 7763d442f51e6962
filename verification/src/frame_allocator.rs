//! Physical frame allocator.
//!
//! First-fit allocation over the ordered usable regions of a memory map,
//! driven by a monotonically advancing cursor; deallocation rewinds the
//! cursor so an earlier frame can be reissued. The allocator is pure
//! bookkeeping over frame numbers; its client zeroes the backing memory of
//! every frame it hands out or takes back.

use vstd::prelude::*;
use crate::memory_map::{MemoryMap, MemoryMapEntry, usable_entries};
use crate::phys::{PhysicalFrame, FRAME_SIZE};

verus! {

/// Errors that can occur during frame allocation.
#[derive(Debug, Clone, Copy, PartialEq, Eq, Structural)]
pub enum AllocationError {
    /// No more physical memory available.
    OutOfMemory,
    /// Invalid frame address provided.
    InvalidFrame,
    /// Frame is already allocated.
    FrameAlreadyAllocated,
    /// Frame is not currently allocated.
    FrameNotAllocated,
    /// The allocator is already initialized.
    AlreadyInitialized,
}

impl AllocationError {
    /// A human-readable description of the error.
    pub fn message(self) -> (r: &'static str)
        ensures
            self is OutOfMemory ==> r@ == "Out of physical memory"@,
            self is InvalidFrame ==> r@ == "Invalid frame address"@,
            self is FrameAlreadyAllocated ==> r@ == "Frame already allocated"@,
            self is FrameNotAllocated ==> r@ == "Frame not allocated"@,
            self is AlreadyInitialized ==> r@ == "Frame allocator already initialized"@,
    {
        match self {
            AllocationError::OutOfMemory => "Out of physical memory",
            AllocationError::InvalidFrame => "Invalid frame address",
            AllocationError::FrameAlreadyAllocated => "Frame already allocated",
            AllocationError::FrameNotAllocated => "Frame not allocated",
            AllocationError::AlreadyInitialized => "Frame allocator already initialized",
        }
    }
}

/// First frame number of a region: the frame containing its base.
pub open spec fn range_start(e: MemoryMapEntry) -> u64 {
    e.base_addr / FRAME_SIZE
}

/// One past the last frame number of a non-empty region: the frame containing
/// its last byte, plus one.
pub open spec fn range_end(e: MemoryMapEntry) -> int {
    (e.base_addr + e.length - 1) as u64 / FRAME_SIZE + 1
}

/// The frame number first-fit allocation hands out: scanning the regions in
/// order, the first region whose end lies beyond the cursor yields either the
/// cursor itself (inside the region) or the region's start (cursor in a gap).
pub open spec fn first_candidate(rs: Seq<MemoryMapEntry>, cursor: u64) -> Option<u64>
    decreases rs.len(),
{
    if rs.len() == 0 {
        None
    } else {
        let e = rs.first();
        if cursor < range_end(e) {
            Some(if cursor >= range_start(e) { cursor } else { range_start(e) })
        } else {
            first_candidate(rs.drop_first(), cursor)
        }
    }
}

/// Whether frame number `n` lies inside some region of the list.
pub open spec fn frame_in_regions(rs: Seq<MemoryMapEntry>, n: u64) -> bool {
    exists |i: int| 0 <= i < rs.len()
        && range_start(#[trigger] rs[i]) <= n < range_end(rs[i])
}

/// A first-fit candidate never lies before the cursor.
pub proof fn lemma_first_candidate_ge(rs: Seq<MemoryMapEntry>, cursor: u64)
    ensures
        first_candidate(rs, cursor) matches Some(n) ==> n >= cursor,
    decreases rs.len(),
{
    if rs.len() > 0 && cursor >= range_end(rs.first()) {
        lemma_first_candidate_ge(rs.drop_first(), cursor);
    }
}

/// First-fit bump allocator over the usable regions of a memory map.
pub struct FrameAllocator {
    memory_map: MemoryMap,
    next_free_frame: PhysicalFrame,
    allocated_frames: u64,
    total_frames: u64,
}

/// Everything `allocate_frame` does, as a relation between the state before
/// the call, the state after it, and the result: the candidate frame is
/// handed out and the cursor advanced past it, or the call fails with
/// `OutOfMemory` leaving the state untouched.
pub open spec fn allocate_transition(
    pre: FrameAllocator,
    post: FrameAllocator,
    r: Result<PhysicalFrame, AllocationError>,
) -> bool {
    if pre.allocated_spec() >= pre.total_spec() {
        r == Err::<PhysicalFrame, AllocationError>(AllocationError::OutOfMemory) && post == pre
    } else {
        match first_candidate(pre.usable_ranges(), pre.cursor_spec()) {
            Some(n) => {
                &&& r matches Ok(f) && f@ == n
                &&& post.cursor_spec() == n + 1
                &&& post.allocated_spec() == pre.allocated_spec() + 1
                &&& post.total_spec() == pre.total_spec()
                &&& post.map_spec() == pre.map_spec()
            }
            None => {
                r == Err::<PhysicalFrame, AllocationError>(AllocationError::OutOfMemory)
                    && post == pre
            }
        }
    }
}

/// Everything `deallocate_frame` does: a frame outside every usable region is
/// rejected; otherwise the outstanding count drops (saturating at zero) and
/// the cursor rewinds to the freed frame if that frame lies before it.
pub open spec fn deallocate_transition(
    pre: FrameAllocator,
    post: FrameAllocator,
    frame: PhysicalFrame,
    r: Result<(), AllocationError>,
) -> bool {
    if !frame_in_regions(pre.usable_ranges(), frame@) {
        r == Err::<(), AllocationError>(AllocationError::InvalidFrame) && post == pre
    } else {
        &&& r == Ok::<(), AllocationError>(())
        &&& post.allocated_spec() == if pre.allocated_spec() > 0 {
                pre.allocated_spec() - 1
            } else {
                0int
            }
        &&& post.cursor_spec() == if frame@ < pre.cursor_spec() {
                frame@
            } else {
                pre.cursor_spec()
            }
        &&& post.total_spec() == pre.total_spec()
        &&& post.map_spec() == pre.map_spec()
    }
}

impl FrameAllocator {
    /// The memory map the allocator draws from.
    pub closed spec fn map_spec(self) -> MemoryMap {
        self.memory_map
    }

    /// The usable regions the allocator draws frames from.
    pub open spec fn usable_ranges(self) -> Seq<MemoryMapEntry> {
        usable_entries(self.map_spec().entries_spec())
    }

    /// The frame number of the next candidate frame to examine.
    pub closed spec fn cursor_spec(self) -> u64 {
        self.next_free_frame@
    }

    /// How many frames are currently handed out.
    pub closed spec fn allocated_spec(self) -> u64 {
        self.allocated_frames
    }

    /// How many frames the allocator may hand out in total.
    pub closed spec fn total_spec(self) -> u64 {
        self.total_frames
    }

    /// Maintained by every allocator: the outstanding count never exceeds the
    /// total, which is the usable memory of the map in whole frames.
    #[verifier::type_invariant]
    pub open spec fn wf(self) -> bool {
        &&& self.allocated_spec() <= self.total_spec()
        &&& self.total_spec() == self.map_spec().usable_memory_spec() / FRAME_SIZE
    }

    /// Create a frame allocator from a memory map. The cursor starts at the
    /// first frame past the space assumed to hold the kernel (4MiB); the
    /// total is the map's usable memory in whole frames.
    pub fn new(memory_map: MemoryMap) -> (r: Self)
        ensures
            r.map_spec() == memory_map,
            r.cursor_spec() == 0x400000u64 / FRAME_SIZE,
            r.allocated_spec() == 0,
            r.total_spec() == memory_map.usable_memory_spec() / FRAME_SIZE,
    {
        let kernel_end = crate::phys::PhysicalAddress::new(4 * 1024 * 1024);
        let next_free_frame = PhysicalFrame::containing_address(kernel_end);
        let total_frames = memory_map.total_usable_memory() / FRAME_SIZE;
        FrameAllocator {
            memory_map,
            next_free_frame,
            allocated_frames: 0,
            total_frames,
        }
    }

    /// Allocate a single physical frame: first fit at or after the cursor.
    /// The returned frame never precedes the cursor, so back-to-back
    /// allocations hand out strictly increasing frames.
    #[verifier::loop_isolation(false)]
    pub fn allocate_frame(&mut self) -> (r: Result<PhysicalFrame, AllocationError>)
        ensures
            allocate_transition(*old(self), *final(self), r),
            r matches Ok(f) ==> f@ >= old(self).cursor_spec(),
    {
        proof {
            use_type_invariant(&*self);
            use_type_invariant(&self.memory_map);
            crate::memory_map::lemma_usable_entries_valid(self.memory_map.entries_spec());
            lemma_first_candidate_ge(self.usable_ranges(), self.cursor_spec());
        }
        if self.allocated_frames >= self.total_frames {
            return Err(AllocationError::OutOfMemory);
        }
        let ranges = self.memory_map.usable_frame_ranges();
        let ghost rs = self.usable_ranges();
        proof {
            assert(rs.skip(0) =~= rs);
        }
        let mut j: usize = 0;
        while j < ranges.len()
            invariant
                j <= ranges@.len(),
                *self == *old(self),
                first_candidate(rs, self.cursor_spec())
                    == first_candidate(rs.skip(j as int), self.cursor_spec()),
            decreases ranges@.len() - j,
        {
            let region = ranges[j];
            let rstart = region.start();
            let rend = region.end();
            proof {
                assert(rs.skip(j as int).first() == rs[j as int]);
                assert(rs.skip(j as int).drop_first() =~= rs.skip(j as int + 1));
                use_type_invariant(rstart);
                use_type_invariant(rend);
            }
            let cursor = self.next_free_frame.number();
            if cursor >= rstart.number() && cursor < rend.number() {
                let frame = self.next_free_frame;
                self.next_free_frame = PhysicalFrame::from_number(cursor + 1);
                self.allocated_frames = self.allocated_frames + 1;
                return Ok(frame);
            }
            if cursor < rstart.number() {
                proof {
                    let e = rs[j as int];
                    let b = e.base_addr;
                    let l = e.length;
                    assert(b / FRAME_SIZE <= (b + l - 1) as u64 / FRAME_SIZE) by (nonlinear_arith)
                        requires
                            l >= 1,
                            b + l <= u64::MAX,
                            FRAME_SIZE == 4096;
                }
                self.next_free_frame = PhysicalFrame::from_number(rstart.number() + 1);
                self.allocated_frames = self.allocated_frames + 1;
                return Ok(rstart);
            }
            j += 1;
        }
        proof {
            assert(rs.skip(ranges@.len() as int) =~= Seq::<MemoryMapEntry>::empty());
        }
        Err(AllocationError::OutOfMemory)
    }

    /// Deallocate a physical frame. The frame must lie in some usable region
    /// of the allocator's map; freeing rewinds the cursor if the frame
    /// precedes it, so the very next allocation can return the same frame.
    #[verifier::loop_isolation(false)]
    pub fn deallocate_frame(&mut self, frame: PhysicalFrame) -> (r: Result<(), AllocationError>)
        ensures
            deallocate_transition(*old(self), *final(self), frame, r),
    {
        proof {
            use_type_invariant(&*self);
        }
        let ranges = self.memory_map.usable_frame_ranges();
        let ghost rs = self.usable_ranges();
        let n = frame.number();
        let mut found_in_region = false;
        let mut j: usize = 0;
        while j < ranges.len() && !found_in_region
            invariant
                j <= ranges@.len(),
                found_in_region ==> frame_in_regions(rs, n),
                !found_in_region ==> forall |k: int| 0 <= k < j
                    ==> !(range_start(#[trigger] rs[k]) <= n < range_end(rs[k])),
            decreases ranges@.len() - j,
        {
            let region = ranges[j];
            let rstart = region.start();
            let rend = region.end();
            if n >= rstart.number() && n < rend.number() {
                found_in_region = true;
            }
            j += 1;
        }
        if !found_in_region {
            proof {
                assert(!frame_in_regions(rs, n));
            }
            return Err(AllocationError::InvalidFrame);
        }
        if self.allocated_frames > 0 {
            self.allocated_frames = self.allocated_frames - 1;
        }
        if frame.number() < self.next_free_frame.number() {
            self.next_free_frame = frame;
        }
        Ok(())
    }

    /// Allocation statistics.
    pub fn stats(&self) -> (r: FrameAllocatorStats)
        ensures
            r.total_frames == self.total_spec(),
            r.allocated_frames == self.allocated_spec(),
            r.free_frames == self.total_spec() - self.allocated_spec(),
            r.total_memory == self.map_spec().usable_memory_spec(),
            r.allocated_memory == self.allocated_spec() * FRAME_SIZE,
    {
        proof {
            use_type_invariant(&*self);
            assert(self.allocated_frames * FRAME_SIZE <= self.memory_map.usable_memory_spec())
                by (nonlinear_arith)
                requires
                    self.allocated_frames <= self.total_frames,
                    self.total_frames == self.memory_map.usable_memory_spec() / FRAME_SIZE,
                    FRAME_SIZE == 4096;
        }
        FrameAllocatorStats {
            total_frames: self.total_frames,
            allocated_frames: self.allocated_frames,
            free_frames: self.total_frames - self.allocated_frames,
            total_memory: self.memory_map.total_usable_memory(),
            allocated_memory: self.allocated_frames * FRAME_SIZE,
        }
    }
}

/// The outstanding count of a well-formed allocator never exceeds its total;
/// `wf` is the type invariant, so every allocator an exec caller holds
/// satisfies it.
pub proof fn lemma_allocated_bounded(a: FrameAllocator)
    requires
        a.wf(),
    ensures
        a.allocated_spec() <= a.total_spec(),
{
}

/// Frames handed out by back-to-back allocations with no deallocation between
/// them are strictly increasing in frame number, hence pairwise distinct.
pub proof fn lemma_allocations_monotonic(
    s0: FrameAllocator,
    s1: FrameAllocator,
    s2: FrameAllocator,
    f1: PhysicalFrame,
    f2: PhysicalFrame,
)
    requires
        allocate_transition(s0, s1, Ok(f1)),
        allocate_transition(s1, s2, Ok(f2)),
    ensures
        f1@ < f2@,
{
    lemma_first_candidate_ge(s0.usable_ranges(), s0.cursor_spec());
    lemma_first_candidate_ge(s1.usable_ranges(), s1.cursor_spec());
}

/// When the regions can still supply a frame at the cursor, allocation fails
/// exactly when the outstanding count has reached the total.
pub proof fn lemma_out_of_memory_exact(
    pre: FrameAllocator,
    post: FrameAllocator,
    r: Result<PhysicalFrame, AllocationError>,
)
    requires
        pre.wf(),
        allocate_transition(pre, post, r),
        first_candidate(pre.usable_ranges(), pre.cursor_spec()) is Some,
    ensures
        r is Err <==> pre.allocated_spec() == pre.total_spec(),
{
}

/// Frame allocator statistics.
#[derive(Debug, Clone, Copy)]
pub struct FrameAllocatorStats {
    pub total_frames: u64,
    pub allocated_frames: u64,
    pub free_frames: u64,
    pub total_memory: u64,
    pub allocated_memory: u64,
}

/// The process-wide frame allocator slot: an explicit context object in place
/// of ambient global state, initialized exactly once per boot phase.
pub struct FrameAllocatorContext {
    inner: Option<FrameAllocator>,
}

impl FrameAllocatorContext {
    /// The held allocator, if initialized.
    pub closed spec fn inner_spec(self) -> Option<FrameAllocator> {
        self.inner
    }

    /// An empty, uninitialized context.
    pub fn new() -> (r: Self)
        ensures
            r.inner_spec() is None,
    {
        FrameAllocatorContext { inner: None }
    }
}

/// Install a fresh allocator for the given map into the context. The
/// context is a process-wide singleton initialized exactly once per boot
/// phase: a second call fails loudly and leaves the live allocator — its
/// outstanding count and cursor — untouched, so no frame already handed
/// out can be issued again.
pub fn init_frame_allocator(
    ctx: &mut FrameAllocatorContext,
    memory_map: MemoryMap,
) -> (r: Result<(), AllocationError>)
    ensures
        old(ctx).inner_spec() is Some ==> (
            r == Err::<(), AllocationError>(AllocationError::AlreadyInitialized)
            && *final(ctx) == *old(ctx)),
        old(ctx).inner_spec() is None ==> (
            r == Ok::<(), AllocationError>(())
            && (final(ctx).inner_spec() matches Some(a) && a.map_spec() == memory_map
                && a.cursor_spec() == 0x400000u64 / FRAME_SIZE
                && a.allocated_spec() == 0
                && a.total_spec() == memory_map.usable_memory_spec() / FRAME_SIZE)),
{
    if ctx.inner.is_some() {
        return Err(AllocationError::AlreadyInitialized);
    }
    ctx.inner = Some(FrameAllocator::new(memory_map));
    Ok(())
}

/// Allocate a frame from the context's allocator; `OutOfMemory` before
/// initialization.
pub fn allocate_frame(ctx: &mut FrameAllocatorContext) -> (r: Result<PhysicalFrame, AllocationError>)
    ensures
        old(ctx).inner_spec() is None ==> (
            r == Err::<PhysicalFrame, AllocationError>(AllocationError::OutOfMemory)
            && final(ctx).inner_spec() is None),
        old(ctx).inner_spec() matches Some(a) ==> (final(ctx).inner_spec() matches Some(b)
            && allocate_transition(a, b, r)),
{
    match &mut ctx.inner {
        Some(alloc) => alloc.allocate_frame(),
        None => Err(AllocationError::OutOfMemory),
    }
}

/// Return a frame to the context's allocator; `InvalidFrame` before
/// initialization.
pub fn deallocate_frame(
    ctx: &mut FrameAllocatorContext,
    frame: PhysicalFrame,
) -> (r: Result<(), AllocationError>)
    ensures
        old(ctx).inner_spec() is None ==> (
            r == Err::<(), AllocationError>(AllocationError::InvalidFrame)
            && final(ctx).inner_spec() is None),
        old(ctx).inner_spec() matches Some(a) ==> (final(ctx).inner_spec() matches Some(b)
            && deallocate_transition(a, b, frame, r)),
{
    match &mut ctx.inner {
        Some(alloc) => alloc.deallocate_frame(frame),
        None => Err(AllocationError::InvalidFrame),
    }
}

/// Statistics of the context's allocator, if initialized.
pub fn get_stats(ctx: &FrameAllocatorContext) -> (r: Option<FrameAllocatorStats>)
    ensures
        r is Some <==> ctx.inner_spec() is Some,
        ctx.inner_spec() matches Some(a) ==> (r matches Some(s)
            && s.total_frames == a.total_spec()
            && s.allocated_frames == a.allocated_spec()
            && s.free_frames == a.total_spec() - a.allocated_spec()
            && s.total_memory == a.map_spec().usable_memory_spec()
            && s.allocated_memory == a.allocated_spec() * FRAME_SIZE),
{
    match &ctx.inner {
        Some(alloc) => Some(alloc.stats()),
        None => None,
    }
}

/// Fill a frame-sized scratch buffer with zeroes: the pattern written over a
/// frame's backing memory before it is handed out or after it is taken back,
/// so no stale data leaks across owners.
pub fn clear_frame(buf: &mut Vec<u8>)
    ensures
        final(buf)@.len() == old(buf)@.len(),
        forall |i: int| 0 <= i < final(buf)@.len() ==> final(buf)@[i] == 0,
{
    let mut i: usize = 0;
    while i < buf.len()
        invariant
            i <= buf@.len(),
            buf@.len() == old(buf)@.len(),
            forall |k: int| 0 <= k < i ==> buf@[k] == 0,
        decreases buf@.len() - i,
    {
        buf.set(i, 0);
        i += 1;
    }
}

} // verus!
