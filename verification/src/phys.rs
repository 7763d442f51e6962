//! Physical address, frame, and frame-range value types.
//!
//! A frame is a 4KiB unit of physical memory, identified by its frame number
//! (`address / 4096`). A frame range is a half-open `[start, end)` run of
//! frames, empty iff `start >= end`.

use vstd::prelude::*;

verus! {

/// Size of a physical frame in bytes.
pub const FRAME_SIZE: u64 = 4096;

/// The greatest multiple of `a` that is at most `x`.
pub open spec fn align_down_spec(x: u64, a: u64) -> int {
    (x as int / a as int) * (a as int)
}

/// Physical address: a 64-bit byte address with alignment predicates and
/// checked arithmetic.
#[derive(Debug, Clone, Copy, PartialEq, Eq, Structural)]
pub struct PhysicalAddress(u64);

impl PhysicalAddress {
    /// Create a new physical address.
    pub fn new(addr: u64) -> (r: Self)
        ensures
            r@ == addr,
    {
        PhysicalAddress(addr)
    }

    /// The raw address value.
    pub fn as_u64(self) -> (r: u64)
        ensures
            r == self@,
    {
        self.0
    }

    /// The address as a mathematical integer.
    pub closed spec fn view(self) -> u64 {
        self.0
    }

    /// Whether the address is a multiple of `alignment`.
    pub fn is_aligned(self, alignment: u64) -> (r: bool)
        requires
            alignment > 0,
        ensures
            r == (self@ % alignment == 0),
    {
        self.0 % alignment == 0
    }

    /// Round the address up to the next multiple of `alignment`.
    pub fn align_up(self, alignment: u64) -> (r: Self)
        requires
            alignment > 0,
            self@ + alignment - 1 <= u64::MAX,
        ensures
            r@ == align_down_spec((self@ + alignment - 1) as u64, alignment),
            r@ % alignment == 0,
            r@ >= self@,
            r@ < self@ + alignment,
    {
        let bumped: u64 = self.0 + (alignment - 1);
        proof {
            lemma_align_down_props(bumped, alignment);
        }
        let r: u64 = (bumped / alignment) * alignment;
        proof {
            assert(r >= self.0) by {
                assert(bumped - r < alignment);
            }
        }
        PhysicalAddress(r)
    }

    /// Round the address down to a multiple of `alignment`.
    pub fn align_down(self, alignment: u64) -> (r: Self)
        requires
            alignment > 0,
        ensures
            r@ == align_down_spec(self@, alignment),
            r@ % alignment == 0,
            r@ <= self@,
            self@ - r@ < alignment,
    {
        proof {
            lemma_align_down_props(self.0, alignment);
        }
        PhysicalAddress((self.0 / alignment) * alignment)
    }

    /// Add a byte offset, or `None` on overflow.
    pub fn checked_add(self, rhs: u64) -> (r: Option<Self>)
        ensures
            self@ + rhs <= u64::MAX ==> (r is Some && r->0@ == self@ + rhs),
            self@ + rhs > u64::MAX ==> r is None,
    {
        match self.0.checked_add(rhs) {
            Some(v) => Some(PhysicalAddress(v)),
            None => None,
        }
    }

    /// Subtract a byte offset, or `None` on underflow.
    pub fn checked_sub(self, rhs: u64) -> (r: Option<Self>)
        ensures
            self@ >= rhs ==> (r is Some && r->0@ == self@ - rhs),
            self@ < rhs ==> r is None,
    {
        match self.0.checked_sub(rhs) {
            Some(v) => Some(PhysicalAddress(v)),
            None => None,
        }
    }
}

/// Largest frame number whose start address still fits in 64 bits.
pub const MAX_FRAME_NUMBER: u64 = 0xFFFF_FFFF_FFFF_FFFF / 4096;

/// A physical frame: a 4KiB-aligned page of physical memory, identified by
/// its frame number (`start address / 4096`).
#[derive(Debug, Clone, Copy, PartialEq, Eq, Structural)]
pub struct PhysicalFrame {
    number: u64,
}

impl PhysicalFrame {
    /// The frame number.
    pub closed spec fn view(self) -> u64 {
        self.number
    }

    /// The start address of the frame, as a mathematical integer.
    pub open spec fn spec_start_address(self) -> int {
        self@ * FRAME_SIZE
    }

    /// Maintained by every frame: its number stays within the addressable
    /// range, so its start address fits in 64 bits.
    #[verifier::type_invariant]
    pub open spec fn frame_wf(self) -> bool {
        self@ <= MAX_FRAME_NUMBER
    }

    /// The frame whose 4KiB page contains the given address.
    pub fn containing_address(addr: PhysicalAddress) -> (r: Self)
        ensures
            r@ == addr@ / FRAME_SIZE,
            r.spec_start_address() <= addr@ < r.spec_start_address() + FRAME_SIZE,
    {
        let number: u64 = addr.as_u64() / FRAME_SIZE;
        proof {
            lemma_align_down_props(addr@, FRAME_SIZE);
        }
        PhysicalFrame { number }
    }

    /// Create a frame from a frame number.
    pub fn from_number(number: u64) -> (r: Self)
        requires
            number <= MAX_FRAME_NUMBER,
        ensures
            r@ == number,
    {
        PhysicalFrame { number }
    }

    /// The start address of this frame.
    pub fn start_address(self) -> (r: PhysicalAddress)
        ensures
            r@ == self.spec_start_address(),
    {
        proof {
            use_type_invariant(self);
            assert(self.number * FRAME_SIZE <= MAX_FRAME_NUMBER * FRAME_SIZE) by (nonlinear_arith)
                requires self.number <= MAX_FRAME_NUMBER;
        }
        PhysicalAddress::new(self.number * FRAME_SIZE)
    }

    /// The end address of this frame, exclusive.
    pub fn end_address(self) -> (r: PhysicalAddress)
        requires
            self@ < MAX_FRAME_NUMBER,
        ensures
            r@ == self.spec_start_address() + FRAME_SIZE,
    {
        proof {
            assert(self.number * FRAME_SIZE + FRAME_SIZE <= MAX_FRAME_NUMBER * FRAME_SIZE)
                by (nonlinear_arith)
                requires self.number < MAX_FRAME_NUMBER;
        }
        PhysicalAddress::new(self.number * FRAME_SIZE + FRAME_SIZE)
    }

    /// The frame number.
    pub fn number(self) -> (r: u64)
        ensures
            r == self@,
    {
        self.number
    }
}

/// A half-open range `[start, end)` of physical frames, in ascending order;
/// empty iff `start >= end`. `next` restarts from wherever it left off.
#[derive(Debug, Clone, Copy, PartialEq, Eq, Structural)]
pub struct PhysicalFrameRange {
    start: PhysicalFrame,
    end: PhysicalFrame,
}

impl PhysicalFrameRange {
    /// Create a new frame range.
    pub fn new(start: PhysicalFrame, end: PhysicalFrame) -> (r: Self)
        ensures
            r.start_spec() == start@,
            r.end_spec() == end@,
    {
        PhysicalFrameRange { start, end }
    }

    /// The number of the first frame of the range.
    pub closed spec fn start_spec(self) -> u64 {
        self.start@
    }

    /// The number one past the last frame of the range.
    pub closed spec fn end_spec(self) -> u64 {
        self.end@
    }

    /// The start frame.
    pub fn start(self) -> (r: PhysicalFrame)
        ensures
            r@ == self.start_spec(),
    {
        self.start
    }

    /// The end frame (exclusive).
    pub fn end(self) -> (r: PhysicalFrame)
        ensures
            r@ == self.end_spec(),
    {
        self.end
    }

    /// Whether the range contains no frames.
    pub fn is_empty(self) -> (r: bool)
        ensures
            r == (self.start_spec() >= self.end_spec()),
    {
        self.start.number() >= self.end.number()
    }

    /// The number of frames in the range.
    pub fn len(self) -> (r: u64)
        ensures
            self.start_spec() >= self.end_spec() ==> r == 0,
            self.start_spec() < self.end_spec() ==> r == self.end_spec() - self.start_spec(),
    {
        if self.is_empty() {
            0
        } else {
            self.end.number() - self.start.number()
        }
    }

    /// Take the next frame of the range, advancing the start; `None` once the
    /// range is exhausted.
    pub fn next(&mut self) -> (r: Option<PhysicalFrame>)
        ensures
            old(self).start_spec() >= old(self).end_spec() ==> (r is None && *final(self) == *old(self)),
            old(self).start_spec() < old(self).end_spec() ==> (r matches Some(f)
                && f@ == old(self).start_spec()
                && final(self).start_spec() == old(self).start_spec() + 1
                && final(self).end_spec() == old(self).end_spec()),
    {
        if self.start.number() < self.end.number() {
            let frame = self.start;
            proof {
                use_type_invariant(self.end);
            }
            self.start = PhysicalFrame::from_number(self.start.number() + 1);
            Some(frame)
        } else {
            None
        }
    }
}

/// `(x / a) * a` is the greatest multiple of `a` that is at most `x`.
proof fn lemma_align_down_props(x: u64, a: u64)
    requires
        a > 0,
    ensures
        align_down_spec(x, a) % (a as int) == 0,
        align_down_spec(x, a) <= x,
        x - align_down_spec(x, a) < a,
        0 <= align_down_spec(x, a) <= u64::MAX,
{
    let xi = x as int;
    let ai = a as int;
    let q: int = xi / ai;
    assert(q * ai + xi % ai == xi) by (nonlinear_arith)
        requires ai > 0, q == xi / ai;
    assert(0 <= xi % ai < ai) by (nonlinear_arith)
        requires ai > 0;
    assert((q * ai) % ai == 0) by (nonlinear_arith)
        requires ai > 0;
}

} // verus!
