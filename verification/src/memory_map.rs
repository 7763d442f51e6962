//! Memory map handed over from the boot phase, and its parser.
//!
//! The boot phase stores the map at a fixed physical location as a 32-bit
//! little-endian entry count followed by packed 24-byte records
//! `{base: u64, length: u64, type: u32, attribute: u32}`. The kernel re-derives
//! its region list from those bytes rather than trusting bootloader-resident
//! state.

use vstd::prelude::*;
use crate::phys::{PhysicalAddress, PhysicalFrame, PhysicalFrameRange, FRAME_SIZE, MAX_FRAME_NUMBER};

verus! {

/// Largest admissible region end address: the last full frame boundary below
/// `2^64`. Entries ending above this cannot take part in frame arithmetic.
pub const MAX_REGION_END: u64 = (0xFFFF_FFFF_FFFF_FFFF / 4096) * 4096;

/// Most entries a stored memory map may hold; larger counts are treated as
/// corrupted data.
pub const MAX_MAP_ENTRIES: u32 = 64;

/// Classification of one memory region.
#[derive(Debug, Clone, Copy, PartialEq, Eq, Structural)]
pub enum MemoryType {
    /// Usable RAM
    Usable,
    /// Reserved memory
    Reserved,
    /// ACPI reclaimable memory
    AcpiReclaimable,
    /// ACPI NVS memory
    AcpiNvs,
    /// Bad memory
    BadMemory,
}

impl MemoryType {
    /// The memory type encoded by a raw region-type value, if any.
    pub open spec fn spec_from_u32(value: u32) -> Option<MemoryType> {
        if value == 1 {
            Some(MemoryType::Usable)
        } else if value == 2 {
            Some(MemoryType::Reserved)
        } else if value == 3 {
            Some(MemoryType::AcpiReclaimable)
        } else if value == 4 {
            Some(MemoryType::AcpiNvs)
        } else if value == 5 {
            Some(MemoryType::BadMemory)
        } else {
            None
        }
    }

    /// Decode a raw region-type value.
    pub fn from_u32(value: u32) -> (r: Option<Self>)
        ensures
            r == Self::spec_from_u32(value),
    {
        match value {
            1 => Some(MemoryType::Usable),
            2 => Some(MemoryType::Reserved),
            3 => Some(MemoryType::AcpiReclaimable),
            4 => Some(MemoryType::AcpiNvs),
            5 => Some(MemoryType::BadMemory),
            _ => None,
        }
    }

    /// Whether this memory type may be handed to the allocator.
    pub fn is_usable(self) -> (r: bool)
        ensures
            r == (self is Usable),
    {
        matches!(self, MemoryType::Usable)
    }
}

/// A single stored memory map entry: 24 bytes in the hand-off layout.
#[derive(Debug, Clone, Copy, PartialEq, Eq, Structural)]
pub struct MemoryMapEntry {
    /// Base address of the memory region (8 bytes in the stored form).
    pub base_addr: u64,
    /// Length of the memory region in bytes (8 bytes in the stored form).
    pub length: u64,
    /// Raw type of the memory region (4 bytes in the stored form).
    pub entry_type: u32,
    /// Extended attributes (4 bytes in the stored form); 1 for valid entries.
    pub attributes: u32,
}

impl MemoryMapEntry {
    /// An entry counts as usable RAM: valid attributes, non-empty, usable type.
    pub open spec fn spec_is_usable(self) -> bool {
        &&& self.attributes == 1
        &&& self.length > 0
        &&& MemoryType::spec_from_u32(self.entry_type) == Some(MemoryType::Usable)
    }

    /// An entry the parser keeps: non-empty, end address within frame
    /// arithmetic range, and a base that is zero or at least one page.
    pub open spec fn spec_basic_valid(self) -> bool {
        &&& self.length > 0
        &&& self.base_addr + self.length <= MAX_REGION_END
        &&& (self.base_addr == 0 || self.base_addr >= 0x1000)
    }

    /// The memory type of this entry.
    pub fn memory_type(&self) -> (r: Option<MemoryType>)
        ensures
            r == MemoryType::spec_from_u32(self.entry_type),
    {
        MemoryType::from_u32(self.entry_type)
    }

    /// The start address of this memory region.
    pub fn start_address(&self) -> (r: PhysicalAddress)
        ensures
            r@ == self.base_addr,
    {
        PhysicalAddress::new(self.base_addr)
    }

    /// The end address of this memory region, exclusive.
    pub fn end_address(&self) -> (r: PhysicalAddress)
        requires
            self.base_addr + self.length <= u64::MAX,
        ensures
            r@ == self.base_addr + self.length,
    {
        PhysicalAddress::new(self.base_addr + self.length)
    }

    /// The range of frames covered by this memory region: from the frame
    /// containing the base down to the frame containing the last byte.
    pub fn frame_range(&self) -> (r: PhysicalFrameRange)
        requires
            self.length > 0,
            self.base_addr + self.length <= MAX_REGION_END,
        ensures
            r.start_spec() == self.base_addr / FRAME_SIZE,
            r.end_spec() == (self.base_addr + self.length - 1) as u64 / FRAME_SIZE + 1,
    {
        let start_frame = PhysicalFrame::containing_address(self.start_address());
        let last_byte = PhysicalAddress::new(self.base_addr + (self.length - 1));
        let last_frame = PhysicalFrame::containing_address(last_byte);
        proof {
            assert((self.base_addr + self.length - 1) as u64 / FRAME_SIZE < MAX_FRAME_NUMBER)
                by (nonlinear_arith)
                requires
                    self.base_addr + self.length <= MAX_REGION_END,
                    self.length > 0,
                    MAX_REGION_END == MAX_FRAME_NUMBER * FRAME_SIZE,
                    FRAME_SIZE == 4096;
        }
        let end_frame = PhysicalFrame::from_number(last_frame.number() + 1);
        PhysicalFrameRange::new(start_frame, end_frame)
    }

    /// Whether this entry is valid, non-empty usable RAM.
    pub fn is_usable(&self) -> (r: bool)
        ensures
            r == self.spec_is_usable(),
    {
        self.attributes == 1 && self.length > 0
            && match self.memory_type() {
                Some(t) => t.is_usable(),
                None => false,
            }
    }

    /// Whether this entry represents system or hardware reserved memory:
    /// anything in the first megabyte, and reserved or bad regions.
    pub fn is_system_reserved(&self) -> (r: bool)
        ensures
            r == (self.base_addr < 0x100000
                || MemoryType::spec_from_u32(self.entry_type) == Some(MemoryType::Reserved)
                || MemoryType::spec_from_u32(self.entry_type) == Some(MemoryType::BadMemory)),
    {
        if self.base_addr < 0x100000 {
            return true;
        }
        match self.memory_type() {
            Some(MemoryType::Reserved) | Some(MemoryType::BadMemory) => true,
            _ => false,
        }
    }

    /// Whether this entry can be reclaimed once its ACPI tables are consumed.
    pub fn is_reclaimable(&self) -> (r: bool)
        ensures
            r == (MemoryType::spec_from_u32(self.entry_type) == Some(MemoryType::AcpiReclaimable)),
    {
        matches!(self.memory_type(), Some(MemoryType::AcpiReclaimable))
    }

    /// A human-readable description of this memory region's type.
    pub fn description(&self) -> (r: &'static str)
        ensures
            MemoryType::spec_from_u32(self.entry_type) == Some(MemoryType::Usable) ==> r@ == "Usable RAM"@,
            MemoryType::spec_from_u32(self.entry_type) == Some(MemoryType::Reserved) ==> r@ == "Reserved"@,
            MemoryType::spec_from_u32(self.entry_type) == Some(MemoryType::AcpiReclaimable) ==> r@ == "ACPI Reclaimable"@,
            MemoryType::spec_from_u32(self.entry_type) == Some(MemoryType::AcpiNvs) ==> r@ == "ACPI NVS"@,
            MemoryType::spec_from_u32(self.entry_type) == Some(MemoryType::BadMemory) ==> r@ == "Bad Memory"@,
            MemoryType::spec_from_u32(self.entry_type) is None ==> r@ == "Unknown"@,
    {
        match self.memory_type() {
            Some(MemoryType::Usable) => "Usable RAM",
            Some(MemoryType::Reserved) => "Reserved",
            Some(MemoryType::AcpiReclaimable) => "ACPI Reclaimable",
            Some(MemoryType::AcpiNvs) => "ACPI NVS",
            Some(MemoryType::BadMemory) => "Bad Memory",
            None => "Unknown",
        }
    }
}

/// Addition on `u64` that sticks at the largest value instead of wrapping.
pub open spec fn sat_add(a: u64, b: u64) -> u64 {
    if a + b > u64::MAX {
        u64::MAX
    } else {
        (a + b) as u64
    }
}

/// The 32-bit little-endian value stored at byte offset `off`.
pub open spec fn le_u32_spec(s: Seq<u8>, off: int) -> u32 {
    (s[off] + 0x100 * (s[off + 1] + 0x100 * (s[off + 2] + 0x100 * s[off + 3]))) as u32
}

/// The 64-bit little-endian value stored at byte offset `off`.
pub open spec fn le_u64_spec(s: Seq<u8>, off: int) -> u64 {
    (s[off] + 0x100 * (s[off + 1] + 0x100 * (s[off + 2] + 0x100 * (s[off + 3]
        + 0x100 * (s[off + 4] + 0x100 * (s[off + 5] + 0x100 * (s[off + 6]
        + 0x100 * s[off + 7]))))))) as u64
}

/// The `i`th packed 24-byte record of a stored memory map: 8-byte base,
/// 8-byte length, 4-byte type, 4-byte attribute, after the 4-byte count.
pub open spec fn stored_entry_at(s: Seq<u8>, i: int) -> MemoryMapEntry {
    MemoryMapEntry {
        base_addr: le_u64_spec(s, 4 + 24 * i),
        length: le_u64_spec(s, 4 + 24 * i + 8),
        entry_type: le_u32_spec(s, 4 + 24 * i + 16),
        attributes: le_u32_spec(s, 4 + 24 * i + 20),
    }
}

/// The first `count` records of a stored memory map.
pub open spec fn stored_entries(s: Seq<u8>, count: int) -> Seq<MemoryMapEntry> {
    Seq::new(count as nat, |i: int| stored_entry_at(s, i))
}

/// The entries the parser keeps, in order: those passing basic validation.
pub open spec fn kept_entries(s: Seq<MemoryMapEntry>) -> Seq<MemoryMapEntry>
    decreases s.len(),
{
    if s.len() == 0 {
        Seq::empty()
    } else {
        let prefix = kept_entries(s.drop_last());
        if s.last().spec_basic_valid() {
            prefix.push(s.last())
        } else {
            prefix
        }
    }
}

/// Total bytes of usable RAM over a list of entries, saturating.
pub open spec fn usable_sum(s: Seq<MemoryMapEntry>) -> u64
    decreases s.len(),
{
    if s.len() == 0 {
        0
    } else {
        sat_add(
            usable_sum(s.drop_last()),
            if s.last().spec_is_usable() { s.last().length } else { 0 },
        )
    }
}

/// Highest end address below 4GiB over the usable or reclaimable entries.
pub open spec fn highest_ram_end(s: Seq<MemoryMapEntry>) -> u64
    decreases s.len(),
{
    if s.len() == 0 {
        0
    } else {
        let prev = highest_ram_end(s.drop_last());
        let e = s.last();
        if (e.spec_is_usable()
            || MemoryType::spec_from_u32(e.entry_type) == Some(MemoryType::AcpiReclaimable))
            && e.base_addr + e.length < 0x1_0000_0000
            && e.base_addr + e.length > prev {
            (e.base_addr + e.length) as u64
        } else {
            prev
        }
    }
}

/// The total-usable-memory heuristic: if the summed usable memory looks
/// implausibly small next to the highest observed RAM address, re-estimate as
/// three quarters of that address, floored at 128MiB.
pub open spec fn adjusted_usable_memory(s: Seq<MemoryMapEntry>) -> u64 {
    let u = usable_sum(s);
    let h = highest_ram_end(s);
    if u < 16 * 1024 * 1024 || h > 2 * u {
        let est: u64 = if h > 0 { ((h * 3) as int / 4) as u64 } else { u };
        if est < 128 * 1024 * 1024 {
            (128 * 1024 * 1024) as u64
        } else {
            est
        }
    } else {
        u
    }
}

/// The whole parse of a stored memory map, as a mathematical function: either
/// an error, or the kept entries together with the adjusted usable total.
pub open spec fn spec_parse(raw: Seq<u8>) -> Result<(Seq<MemoryMapEntry>, u64), MemoryMapError> {
    let c = le_u32_spec(raw, 0);
    if c == 0 || c == 0xFFFF_FFFF {
        Err(MemoryMapError::NoMemoryMap)
    } else if c > MAX_MAP_ENTRIES {
        Err(MemoryMapError::InvalidMemoryMap)
    } else {
        let kept = kept_entries(stored_entries(raw, c as int));
        if kept.len() == 0 {
            Err(MemoryMapError::InvalidMemoryMap)
        } else {
            Ok((kept, adjusted_usable_memory(kept)))
        }
    }
}

/// Errors that can occur while parsing a stored memory map.
#[derive(Debug, Clone, Copy, PartialEq, Eq, Structural)]
pub enum MemoryMapError {
    /// No memory map found at the hand-off location.
    NoMemoryMap,
    /// Memory map data is invalid or corrupted.
    InvalidMemoryMap,
    /// Insufficient memory detected.
    InsufficientMemory,
}

impl MemoryMapError {
    /// A human-readable description of the error.
    pub fn message(self) -> (r: &'static str)
        ensures
            self is NoMemoryMap ==> r@ == "No memory map found"@,
            self is InvalidMemoryMap ==> r@ == "Invalid memory map data"@,
            self is InsufficientMemory ==> r@ == "Insufficient memory detected"@,
    {
        match self {
            MemoryMapError::NoMemoryMap => "No memory map found",
            MemoryMapError::InvalidMemoryMap => "Invalid memory map data",
            MemoryMapError::InsufficientMemory => "Insufficient memory detected",
        }
    }
}

/// Count of the entries satisfying `p`.
pub open spec fn count_pred(s: Seq<MemoryMapEntry>, p: spec_fn(MemoryMapEntry) -> bool) -> int
    decreases s.len(),
{
    if s.len() == 0 {
        0
    } else {
        count_pred(s.drop_last(), p) + if p(s.last()) { 1int } else { 0int }
    }
}

/// Saturating sum of the lengths of the entries satisfying `p`.
pub open spec fn sat_sum_pred(s: Seq<MemoryMapEntry>, p: spec_fn(MemoryMapEntry) -> bool) -> u64
    decreases s.len(),
{
    if s.len() == 0 {
        0
    } else {
        sat_add(sat_sum_pred(s.drop_last(), p), if p(s.last()) { s.last().length } else { 0 })
    }
}

/// The usable entries of a list, in order.
pub open spec fn usable_entries(s: Seq<MemoryMapEntry>) -> Seq<MemoryMapEntry>
    decreases s.len(),
{
    if s.len() == 0 {
        Seq::empty()
    } else {
        let prefix = usable_entries(s.drop_last());
        if s.last().spec_is_usable() {
            prefix.push(s.last())
        } else {
            prefix
        }
    }
}

/// The last usable entry of greatest length, if any usable entry exists.
pub open spec fn spec_largest_usable(s: Seq<MemoryMapEntry>) -> Option<MemoryMapEntry>
    decreases s.len(),
{
    if s.len() == 0 {
        None
    } else {
        let prev = spec_largest_usable(s.drop_last());
        let e = s.last();
        if e.spec_is_usable() && (prev is None || e.length >= prev->0.length) {
            Some(e)
        } else {
            prev
        }
    }
}

/// Every usable entry of a list of valid entries is itself valid and usable.
pub proof fn lemma_usable_entries_valid(s: Seq<MemoryMapEntry>)
    requires
        forall |i: int| 0 <= i < s.len() ==> (#[trigger] s[i]).spec_basic_valid(),
    ensures
        forall |i: int| 0 <= i < usable_entries(s).len()
            ==> (#[trigger] usable_entries(s)[i]).spec_basic_valid()
                && usable_entries(s)[i].spec_is_usable(),
    decreases s.len(),
{
    if s.len() > 0 {
        assert(forall |i: int| 0 <= i < s.drop_last().len()
            ==> (#[trigger] s.drop_last()[i]).spec_basic_valid());
        lemma_usable_entries_valid(s.drop_last());
        let up = usable_entries(s.drop_last());
        if s.last().spec_basic_valid() && s.last().spec_is_usable() {
            assert(usable_entries(s) == up.push(s.last()));
            assert(forall |i: int| 0 <= i < up.len() ==> up.push(s.last())[i] == up[i]);
        }
    }
}

/// Read a 32-bit little-endian value out of a byte buffer.
fn read_u32_le(bytes: &Vec<u8>, off: usize) -> (r: u32)
    requires
        off + 4 <= bytes.len(),
    ensures
        r == le_u32_spec(bytes@, off as int),
{
    let b0 = bytes[off] as u32;
    let b1 = bytes[off + 1] as u32;
    let b2 = bytes[off + 2] as u32;
    let b3 = bytes[off + 3] as u32;
    b0 + 0x100 * (b1 + 0x100 * (b2 + 0x100 * b3))
}

/// Read a 64-bit little-endian value out of a byte buffer.
fn read_u64_le(bytes: &Vec<u8>, off: usize) -> (r: u64)
    requires
        off + 8 <= bytes.len(),
    ensures
        r == le_u64_spec(bytes@, off as int),
{
    let b0 = bytes[off] as u64;
    let b1 = bytes[off + 1] as u64;
    let b2 = bytes[off + 2] as u64;
    let b3 = bytes[off + 3] as u64;
    let b4 = bytes[off + 4] as u64;
    let b5 = bytes[off + 5] as u64;
    let b6 = bytes[off + 6] as u64;
    let b7 = bytes[off + 7] as u64;
    b0 + 0x100 * (b1 + 0x100 * (b2 + 0x100 * (b3 + 0x100 * (b4 + 0x100 * (b5
        + 0x100 * (b6 + 0x100 * b7))))))
}

/// A memory map: an ordered list of validated region entries plus the derived
/// total of usable bytes. Constructed once per boot phase and immutable
/// afterwards; a fresh map replaces the old one if re-derivation is needed.
pub struct MemoryMap {
    entries: Vec<MemoryMapEntry>,
    usable_memory: u64,
}

impl MemoryMap {
    /// The stored entries.
    pub closed spec fn entries_spec(self) -> Seq<MemoryMapEntry> {
        self.entries@
    }

    /// The derived total of usable bytes.
    pub closed spec fn usable_memory_spec(self) -> u64 {
        self.usable_memory
    }

    /// Well-formedness, maintained by every map: few enough entries to have
    /// come from a stored map, each passing basic validation.
    #[verifier::type_invariant]
    pub open spec fn wf(self) -> bool {
        &&& self.entries_spec().len() <= MAX_MAP_ENTRIES
        &&& forall |i: int| 0 <= i < self.entries_spec().len()
                ==> (#[trigger] self.entries_spec()[i]).spec_basic_valid()
    }

    /// The conservative two-region fallback map used when no stored map can
    /// be trusted: low memory plus ~127MiB of extended memory.
    pub fn create_fallback() -> (r: Self)
        ensures
            r.wf(),
            r.entries_spec().len() == 2,
            r.entries_spec()[0] == (MemoryMapEntry {
                base_addr: 0,
                length: 0x9FC00,
                entry_type: 1,
                attributes: 1,
            }),
            r.entries_spec()[1] == (MemoryMapEntry {
                base_addr: 0x100000,
                length: 0x7F00000,
                entry_type: 1,
                attributes: 1,
            }),
            r.usable_memory_spec() == 0x9FC00 + 0x7F00000,
    {
        let mut entries: Vec<MemoryMapEntry> = Vec::new();
        entries.push(MemoryMapEntry {
            base_addr: 0,
            length: 0x9FC00,
            entry_type: 1,
            attributes: 1,
        });
        entries.push(MemoryMapEntry {
            base_addr: 0x100000,
            length: 0x7F00000,
            entry_type: 1,
            attributes: 1,
        });
        MemoryMap {
            entries,
            usable_memory: 0x9FC00 + 0x7F00000,
        }
    }

    /// Parse the memory map out of the bytes found at the hand-off location.
    ///
    /// The first four bytes hold the entry count; counts of zero or
    /// `0xFFFFFFFF` mean uninitialized memory, larger-than-sane counts mean
    /// corruption. Entries failing basic validation are skipped. The usable
    /// total is then taken from the kept entries, re-estimated if it looks
    /// implausibly small.
    pub fn from_bootloader(raw: &Vec<u8>) -> (r: Result<Self, MemoryMapError>)
        requires
            raw.len() >= 4 + 24 * (MAX_MAP_ENTRIES as int),
        ensures
            r is Ok <==> spec_parse(raw@) is Ok,
            r matches Ok(m) ==> (spec_parse(raw@) matches Ok(p)
                && m.entries_spec() == p.0
                && m.usable_memory_spec() == p.1
                && m.wf()),
            r matches Err(e) ==> spec_parse(raw@) == Err::<(Seq<MemoryMapEntry>, u64), MemoryMapError>(e),
    {
        let raw_count = read_u32_le(raw, 0);
        if raw_count == 0 || raw_count == 0xFFFF_FFFF {
            return Err(MemoryMapError::NoMemoryMap);
        }
        if raw_count > MAX_MAP_ENTRIES {
            return Err(MemoryMapError::InvalidMemoryMap);
        }
        let count = raw_count as usize;
        let mut entries: Vec<MemoryMapEntry> = Vec::new();
        let mut usable: u64 = 0;
        let mut highest: u64 = 0;
        let mut i: usize = 0;
        while i < count
            invariant
                raw.len() >= 4 + 24 * (MAX_MAP_ENTRIES as int),
                0 < count <= MAX_MAP_ENTRIES,
                count == le_u32_spec(raw@, 0),
                i <= count,
                entries@ == kept_entries(stored_entries(raw@, i as int)),
                entries@.len() <= i,
                forall |j: int| 0 <= j < entries@.len()
                    ==> (#[trigger] entries@[j]).spec_basic_valid(),
                usable == usable_sum(entries@),
                highest == highest_ram_end(entries@),
                highest < 0x1_0000_0000,
            decreases count - i,
        {
            let off = 4 + 24 * i;
            let e = MemoryMapEntry {
                base_addr: read_u64_le(raw, off),
                length: read_u64_le(raw, off + 8),
                entry_type: read_u32_le(raw, off + 16),
                attributes: read_u32_le(raw, off + 20),
            };
            proof {
                assert(e == stored_entry_at(raw@, i as int));
                assert(stored_entries(raw@, i + 1 as int).drop_last()
                    =~= stored_entries(raw@, i as int));
                assert(stored_entries(raw@, i + 1 as int).last() == e);
            }
            let keep = e.length > 0
                && (match e.base_addr.checked_add(e.length) {
                    Some(end) => end <= MAX_REGION_END,
                    None => false,
                })
                && (e.base_addr == 0 || e.base_addr >= 0x1000);
            if keep {
                let ghost old_entries = entries@;
                if e.is_usable() || e.is_reclaimable() {
                    let end = e.base_addr + e.length;
                    if end > highest && end < 0x1_0000_0000 {
                        highest = end;
                    }
                }
                if e.is_usable() {
                    usable = if usable > u64::MAX - e.length {
                        u64::MAX
                    } else {
                        usable + e.length
                    };
                }
                entries.push(e);
                proof {
                    assert(entries@.drop_last() =~= old_entries);
                }
            }
            i += 1;
        }
        if entries.len() == 0 {
            return Err(MemoryMapError::InvalidMemoryMap);
        }
        let total = if usable < 16 * 1024 * 1024
            || (usable <= u64::MAX / 2 && highest > 2 * usable) {
            let est = if highest > 0 { highest * 3 / 4 } else { usable };
            if est < 128 * 1024 * 1024 {
                128 * 1024 * 1024
            } else {
                est
            }
        } else {
            usable
        };
        Ok(MemoryMap {
            entries,
            usable_memory: total,
        })
    }

    /// Total usable memory in bytes, as derived at construction.
    pub fn total_usable_memory(&self) -> (r: u64)
        ensures
            r == self.usable_memory_spec(),
    {
        self.usable_memory
    }

    /// Total physical memory in bytes: the summed lengths of all regions
    /// based below 4GiB, saturating.
    #[verifier::loop_isolation(false)]
    pub fn total_physical_memory(&self) -> (r: u64)
        ensures
            r == sat_sum_pred(self.entries_spec(), |e: MemoryMapEntry| e.base_addr < 0x1_0000_0000),
    {
        let ghost p = |e: MemoryMapEntry| e.base_addr < 0x1_0000_0000;
        let mut total: u64 = 0;
        let mut i: usize = 0;
        while i < self.entries.len()
            invariant
                i <= self.entries@.len(),
                total == sat_sum_pred(self.entries@.subrange(0, i as int), p),
            decreases self.entries@.len() - i,
        {
            let e = self.entries[i];
            proof {
                assert(self.entries@.subrange(0, i + 1 as int).drop_last()
                    =~= self.entries@.subrange(0, i as int));
                assert(self.entries@.subrange(0, i + 1 as int).last() == e);
            }
            if e.base_addr < 0x1_0000_0000 {
                total = if total > u64::MAX - e.length {
                    u64::MAX
                } else {
                    total + e.length
                };
            }
            i += 1;
        }
        proof {
            assert(self.entries@.subrange(0, self.entries@.len() as int) =~= self.entries@);
        }
        total
    }

    /// All stored entries.
    pub fn entries(&self) -> (r: &Vec<MemoryMapEntry>)
        ensures
            r@ == self.entries_spec(),
    {
        &self.entries
    }

    /// The usable regions, in order.
    pub fn usable_regions(&self) -> (r: Vec<MemoryMapEntry>)
        ensures
            r@ == usable_entries(self.entries_spec()),
    {
        let mut regions: Vec<MemoryMapEntry> = Vec::new();
        let mut i: usize = 0;
        while i < self.entries.len()
            invariant
                i <= self.entries@.len(),
                regions@ == usable_entries(self.entries@.subrange(0, i as int)),
            decreases self.entries@.len() - i,
        {
            let e = self.entries[i];
            proof {
                assert(self.entries@.subrange(0, i + 1 as int).drop_last()
                    =~= self.entries@.subrange(0, i as int));
                assert(self.entries@.subrange(0, i + 1 as int).last() == e);
            }
            if e.is_usable() {
                regions.push(e);
            }
            i += 1;
        }
        proof {
            assert(self.entries@.subrange(0, self.entries@.len() as int) =~= self.entries@);
        }
        regions
    }

    /// The frame ranges of the usable regions, in order.
    pub fn usable_frame_ranges(&self) -> (r: Vec<PhysicalFrameRange>)
        ensures
            r@.len() == usable_entries(self.entries_spec()).len(),
            forall |i: int| 0 <= i < r@.len() ==> {
                let e = usable_entries(self.entries_spec())[i];
                (#[trigger] r@[i]).start_spec() == e.base_addr / FRAME_SIZE
                    && r@[i].end_spec() == (e.base_addr + e.length - 1) as u64 / FRAME_SIZE + 1
            },
    {
        proof {
            use_type_invariant(self);
            lemma_usable_entries_valid(self.entries@);
        }
        let regions = self.usable_regions();
        let mut ranges: Vec<PhysicalFrameRange> = Vec::new();
        let mut i: usize = 0;
        while i < regions.len()
            invariant
                i <= regions@.len(),
                regions@ == usable_entries(self.entries_spec()),
                forall |j: int| 0 <= j < regions@.len()
                    ==> (#[trigger] regions@[j]).spec_basic_valid(),
                ranges@.len() == i,
                forall |j: int| 0 <= j < i ==> {
                    let e = regions@[j];
                    (#[trigger] ranges@[j]).start_spec() == e.base_addr / FRAME_SIZE
                        && ranges@[j].end_spec() == (e.base_addr + e.length - 1) as u64 / FRAME_SIZE + 1
                },
            decreases regions@.len() - i,
        {
            let e = regions[i];
            ranges.push(e.frame_range());
            i += 1;
        }
        ranges
    }

    /// The last usable region of greatest length, if any usable region exists.
    pub fn largest_usable_region(&self) -> (r: Option<MemoryMapEntry>)
        ensures
            r == spec_largest_usable(self.entries_spec()),
    {
        let mut best: Option<MemoryMapEntry> = None;
        let mut i: usize = 0;
        while i < self.entries.len()
            invariant
                i <= self.entries@.len(),
                best == spec_largest_usable(self.entries@.subrange(0, i as int)),
            decreases self.entries@.len() - i,
        {
            let e = self.entries[i];
            proof {
                assert(self.entries@.subrange(0, i + 1 as int).drop_last()
                    =~= self.entries@.subrange(0, i as int));
                assert(self.entries@.subrange(0, i + 1 as int).last() == e);
            }
            if e.is_usable() {
                best = match best {
                    Some(b) => if e.length >= b.length { Some(e) } else { Some(b) },
                    None => Some(e),
                };
            }
            i += 1;
        }
        proof {
            assert(self.entries@.subrange(0, self.entries@.len() as int) =~= self.entries@);
        }
        best
    }

    /// Check the map for overflowing extents and unknown region types.
    pub fn validate(&self) -> (r: Result<(), MemoryMapError>)
        ensures
            r is Ok <==> forall |i: int| 0 <= i < self.entries_spec().len()
                ==> ((#[trigger] self.entries_spec()[i]).base_addr + self.entries_spec()[i].length <= u64::MAX
                    && MemoryType::spec_from_u32(self.entries_spec()[i].entry_type) is Some),
            r is Err ==> r == Err::<(), MemoryMapError>(MemoryMapError::InvalidMemoryMap),
    {
        let mut i: usize = 0;
        while i < self.entries.len()
            invariant
                i <= self.entries@.len(),
                forall |j: int| 0 <= j < i
                    ==> ((#[trigger] self.entries@[j]).base_addr + self.entries@[j].length <= u64::MAX
                        && MemoryType::spec_from_u32(self.entries@[j].entry_type) is Some),
            decreases self.entries@.len() - i,
        {
            let e = self.entries[i];
            if e.base_addr.checked_add(e.length).is_none() {
                return Err(MemoryMapError::InvalidMemoryMap);
            }
            if e.memory_type().is_none() {
                return Err(MemoryMapError::InvalidMemoryMap);
            }
            i += 1;
        }
        Ok(())
    }

    /// Per-type region counts and byte totals.
    #[verifier::loop_isolation(false)]
    pub fn stats(&self) -> (r: MemoryMapStats)
        ensures
            r.usable_regions == count_pred(self.entries_spec(), |e: MemoryMapEntry|
                MemoryType::spec_from_u32(e.entry_type) == Some(MemoryType::Usable)),
            r.usable_memory == sat_sum_pred(self.entries_spec(), |e: MemoryMapEntry|
                MemoryType::spec_from_u32(e.entry_type) == Some(MemoryType::Usable)),
            r.reserved_regions == count_pred(self.entries_spec(), |e: MemoryMapEntry|
                MemoryType::spec_from_u32(e.entry_type) == Some(MemoryType::Reserved)),
            r.reserved_memory == sat_sum_pred(self.entries_spec(), |e: MemoryMapEntry|
                MemoryType::spec_from_u32(e.entry_type) == Some(MemoryType::Reserved)),
            r.acpi_regions == count_pred(self.entries_spec(), |e: MemoryMapEntry|
                MemoryType::spec_from_u32(e.entry_type) == Some(MemoryType::AcpiReclaimable)
                    || MemoryType::spec_from_u32(e.entry_type) == Some(MemoryType::AcpiNvs)),
            r.acpi_memory == sat_sum_pred(self.entries_spec(), |e: MemoryMapEntry|
                MemoryType::spec_from_u32(e.entry_type) == Some(MemoryType::AcpiReclaimable)
                    || MemoryType::spec_from_u32(e.entry_type) == Some(MemoryType::AcpiNvs)),
            r.bad_regions == count_pred(self.entries_spec(), |e: MemoryMapEntry|
                MemoryType::spec_from_u32(e.entry_type) == Some(MemoryType::BadMemory)),
            r.bad_memory == sat_sum_pred(self.entries_spec(), |e: MemoryMapEntry|
                MemoryType::spec_from_u32(e.entry_type) == Some(MemoryType::BadMemory)),
            r.unknown_regions == count_pred(self.entries_spec(), |e: MemoryMapEntry|
                MemoryType::spec_from_u32(e.entry_type) is None),
            r.unknown_memory == sat_sum_pred(self.entries_spec(), |e: MemoryMapEntry|
                MemoryType::spec_from_u32(e.entry_type) is None),
    {
        proof {
            use_type_invariant(self);
        }
        let ghost p_usable = |e: MemoryMapEntry|
            MemoryType::spec_from_u32(e.entry_type) == Some(MemoryType::Usable);
        let ghost p_reserved = |e: MemoryMapEntry|
            MemoryType::spec_from_u32(e.entry_type) == Some(MemoryType::Reserved);
        let ghost p_acpi = |e: MemoryMapEntry|
            MemoryType::spec_from_u32(e.entry_type) == Some(MemoryType::AcpiReclaimable)
                || MemoryType::spec_from_u32(e.entry_type) == Some(MemoryType::AcpiNvs);
        let ghost p_bad = |e: MemoryMapEntry|
            MemoryType::spec_from_u32(e.entry_type) == Some(MemoryType::BadMemory);
        let ghost p_unknown = |e: MemoryMapEntry|
            MemoryType::spec_from_u32(e.entry_type) is None;
        let mut stats = MemoryMapStats {
            usable_regions: 0,
            usable_memory: 0,
            reserved_regions: 0,
            reserved_memory: 0,
            acpi_regions: 0,
            acpi_memory: 0,
            bad_regions: 0,
            bad_memory: 0,
            unknown_regions: 0,
            unknown_memory: 0,
        };
        let mut i: usize = 0;
        while i < self.entries.len()
            invariant
                i <= self.entries@.len(),
                self.entries@.len() <= MAX_MAP_ENTRIES,
                stats.usable_regions == count_pred(self.entries@.subrange(0, i as int), p_usable),
                stats.usable_memory == sat_sum_pred(self.entries@.subrange(0, i as int), p_usable),
                stats.reserved_regions == count_pred(self.entries@.subrange(0, i as int), p_reserved),
                stats.reserved_memory == sat_sum_pred(self.entries@.subrange(0, i as int), p_reserved),
                stats.acpi_regions == count_pred(self.entries@.subrange(0, i as int), p_acpi),
                stats.acpi_memory == sat_sum_pred(self.entries@.subrange(0, i as int), p_acpi),
                stats.bad_regions == count_pred(self.entries@.subrange(0, i as int), p_bad),
                stats.bad_memory == sat_sum_pred(self.entries@.subrange(0, i as int), p_bad),
                stats.unknown_regions == count_pred(self.entries@.subrange(0, i as int), p_unknown),
                stats.unknown_memory == sat_sum_pred(self.entries@.subrange(0, i as int), p_unknown),
                stats.usable_regions <= i,
                stats.reserved_regions <= i,
                stats.acpi_regions <= i,
                stats.bad_regions <= i,
                stats.unknown_regions <= i,
            decreases self.entries@.len() - i,
        {
            let e = self.entries[i];
            proof {
                assert(self.entries@.subrange(0, i + 1 as int).drop_last()
                    =~= self.entries@.subrange(0, i as int));
                assert(self.entries@.subrange(0, i + 1 as int).last() == e);
            }
            match e.memory_type() {
                Some(MemoryType::Usable) => {
                    stats.usable_regions = stats.usable_regions + 1;
                    stats.usable_memory = if stats.usable_memory > u64::MAX - e.length {
                        u64::MAX
                    } else {
                        stats.usable_memory + e.length
                    };
                }
                Some(MemoryType::Reserved) => {
                    stats.reserved_regions = stats.reserved_regions + 1;
                    stats.reserved_memory = if stats.reserved_memory > u64::MAX - e.length {
                        u64::MAX
                    } else {
                        stats.reserved_memory + e.length
                    };
                }
                Some(MemoryType::AcpiReclaimable) | Some(MemoryType::AcpiNvs) => {
                    stats.acpi_regions = stats.acpi_regions + 1;
                    stats.acpi_memory = if stats.acpi_memory > u64::MAX - e.length {
                        u64::MAX
                    } else {
                        stats.acpi_memory + e.length
                    };
                }
                Some(MemoryType::BadMemory) => {
                    stats.bad_regions = stats.bad_regions + 1;
                    stats.bad_memory = if stats.bad_memory > u64::MAX - e.length {
                        u64::MAX
                    } else {
                        stats.bad_memory + e.length
                    };
                }
                None => {
                    stats.unknown_regions = stats.unknown_regions + 1;
                    stats.unknown_memory = if stats.unknown_memory > u64::MAX - e.length {
                        u64::MAX
                    } else {
                        stats.unknown_memory + e.length
                    };
                }
            }
            i += 1;
        }
        proof {
            assert(self.entries@.subrange(0, self.entries@.len() as int) =~= self.entries@);
        }
        stats
    }
}

/// Per-type region counts and byte totals of a memory map.
#[derive(Debug, Clone, Copy, Default)]
pub struct MemoryMapStats {
    pub usable_regions: u32,
    pub usable_memory: u64,
    pub reserved_regions: u32,
    pub reserved_memory: u64,
    pub acpi_regions: u32,
    pub acpi_memory: u64,
    pub bad_regions: u32,
    pub bad_memory: u64,
    pub unknown_regions: u32,
    pub unknown_memory: u64,
}

} // verus!
