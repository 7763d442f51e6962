//! Identity-mapped page table construction and inspection.
//!
//! The boot phase writes a three-level hierarchy at fixed physical addresses:
//! one top-level table whose single active entry points at one middle-level
//! table, whose active entries each point at a leaf table of 512 two-megabyte
//! mappings. This module builds the exact table contents as owned values —
//! its client copies them to the fixed physical footprint — and re-derives
//! the mapped size by walking table contents read back from that footprint,
//! rather than trusting a cached scalar.

use vstd::prelude::*;
use crate::memory_map::MemoryMap;

verus! {

/// Entry flag: the entry is present. Table addresses and mapped targets are
/// at least page-aligned, so adding the flag bits equals setting them.
pub const PAGE_PRESENT: u64 = 1;

/// Entry flag: the mapping is writable.
pub const PAGE_WRITABLE: u64 = 2;

/// Entry flag: the entry maps a large (2MiB) page.
pub const PAGE_SIZE_BIT: u64 = 0x80;

/// Fixed physical address of the top-level table.
pub const PML4_ADDRESS: u64 = 0x70000;

/// Fixed physical address of the middle-level table.
pub const PDPT_ADDRESS: u64 = 0x71000;

/// Fixed physical address of the first leaf table; the rest follow page by
/// page.
pub const PD_BASE_ADDRESS: u64 = 0x72000;

/// Entries per table at every level.
pub const TABLE_ENTRIES: u64 = 512;

/// Bytes covered by one leaf entry.
pub const LARGE_PAGE_SIZE: u64 = 2 * 1024 * 1024;

/// Fewest pages ever mapped: a 128MiB minimum working set.
pub const MIN_MAPPED_PAGES: u64 = 64;

/// Most pages ever mapped: a 4GiB safety ceiling.
pub const MAX_MAPPED_PAGES: u64 = 2048;

/// Errors that can occur during paging operations.
#[derive(Debug, Clone, Copy, PartialEq, Eq, Structural)]
pub enum PagingError {
    OutOfMemory,
    InvalidAddress,
    Corruption,
    /// The mapping record is already initialized.
    AlreadyInitialized,
}

/// How many 2MiB pages to identity-map for a given amount of physical
/// memory: the memory rounded down to whole pages, floored at the minimum
/// working set and capped at the safety ceiling.
pub open spec fn pages_to_map(total_memory: u64) -> u64 {
    let p = total_memory / LARGE_PAGE_SIZE;
    if p < MIN_MAPPED_PAGES {
        MIN_MAPPED_PAGES
    } else if p > MAX_MAPPED_PAGES {
        MAX_MAPPED_PAGES
    } else {
        p
    }
}

/// Facts about how many leaf tables a page count needs: the last leaf table
/// starts below the page count, and the tables together cover it.
proof fn lemma_pd_count(pages: u64)
    requires
        1 <= pages <= MAX_MAPPED_PAGES,
    ensures
        ({
            let pd_count = (pages + TABLE_ENTRIES - 1) as int / (TABLE_ENTRIES as int);
            &&& 1 <= pd_count <= 4
            &&& (pd_count - 1) * TABLE_ENTRIES < pages
            &&& pages <= pd_count * TABLE_ENTRIES
        }),
{
    let pd_count = (pages + TABLE_ENTRIES - 1) as int / (TABLE_ENTRIES as int);
    assert(1 <= pd_count <= 4 && (pd_count - 1) * 512 < pages && pages <= pd_count * 512)
        by (nonlinear_arith)
        requires
            1 <= pages <= 2048,
            pd_count == (pages + 511) as int / 512,
            TABLE_ENTRIES == 512;
}

/// A built leaf entry is odd (present); an absent entry is zero, hence even.
proof fn lemma_entry_parity(x: int)
    requires
        0 <= x,
    ensures
        (x * LARGE_PAGE_SIZE + PAGE_PRESENT + PAGE_WRITABLE + PAGE_SIZE_BIT) % 2 == 1,
{
    assert((x * 2097152 + 131) % 2 == 1) by (nonlinear_arith)
        requires 0 <= x;
}

/// A built middle-level entry is odd (present).
proof fn lemma_pdpt_parity(i: int)
    requires
        0 <= i,
    ensures
        (PD_BASE_ADDRESS + i * 0x1000 + PAGE_PRESENT + PAGE_WRITABLE) % 2 == 1,
{
    assert((0x72000 + i * 0x1000 + 3) % 2 == 1) by (nonlinear_arith)
        requires 0 <= i;
}

/// Every leaf table but the last starts strictly below the page count.
proof fn lemma_pd_starts(pages: u64, d: int)
    requires
        1 <= pages <= MAX_MAPPED_PAGES,
        0 <= d,
        d < (pages + TABLE_ENTRIES - 1) as int / (TABLE_ENTRIES as int),
    ensures
        d * TABLE_ENTRIES < pages,
{
    let pd_count = (pages + TABLE_ENTRIES - 1) as int / (TABLE_ENTRIES as int);
    assert(d * 512 < pages) by (nonlinear_arith)
        requires
            1 <= pages <= 2048,
            0 <= d,
            d < pd_count,
            pd_count == (pages + 511) as int / 512,
            TABLE_ENTRIES == 512;
}

/// The complete contents of the three-level hierarchy, as owned tables. The
/// well-formedness predicate pins every entry, so a well-formed value is
/// exactly the mapping the boot phase writes.
pub struct PageTables {
    pml4: Vec<u64>,
    pdpt: Vec<u64>,
    pds: Vec<Vec<u64>>,
    mapped_pages: u64,
}

impl PageTables {
    /// The top-level table's entries, for writing at its fixed address.
    pub fn pml4_entries(&self) -> (r: &Vec<u64>)
        ensures
            r@ == self.pml4_spec(),
    {
        &self.pml4
    }

    /// The middle-level table's entries, for writing at its fixed address.
    pub fn pdpt_entries(&self) -> (r: &Vec<u64>)
        ensures
            r@ == self.pdpt_spec(),
    {
        &self.pdpt
    }

    /// The leaf tables' entries, for writing page by page after the first
    /// leaf table's fixed address.
    pub fn pd_tables(&self) -> (r: &Vec<Vec<u64>>)
        ensures
            r@.len() == self.pds_spec().len(),
            forall |i: int| 0 <= i < r@.len() ==> (#[trigger] r@[i])@ == self.pds_spec()[i],
    {
        &self.pds
    }

    /// How many 2MiB pages the tables map.
    pub closed spec fn mapped_pages_spec(self) -> u64 {
        self.mapped_pages
    }

    /// How many bytes the tables map.
    pub open spec fn mapped_bytes_spec(self) -> int {
        self.mapped_pages_spec() * LARGE_PAGE_SIZE
    }

    /// The top-level table.
    pub closed spec fn pml4_spec(self) -> Seq<u64> {
        self.pml4@
    }

    /// The middle-level table.
    pub closed spec fn pdpt_spec(self) -> Seq<u64> {
        self.pdpt@
    }

    /// The leaf tables.
    pub closed spec fn pds_spec(self) -> Seq<Seq<u64>> {
        Seq::new(self.pds@.len(), |i: int| self.pds@[i]@)
    }

    /// How many leaf tables the mapping needs.
    pub open spec fn pd_count_spec(self) -> int {
        (self.mapped_pages_spec() + TABLE_ENTRIES - 1) as int / (TABLE_ENTRIES as int)
    }

    /// Well-formedness: the exact contents of correctly built tables. The
    /// single active top-level entry points at the middle-level table; active
    /// middle-level entries point at consecutive leaf tables; the first
    /// `mapped_pages` leaf entries identity-map 2MiB pages (each present
    /// entry's physical target equals its virtual offset and is 2MiB-aligned,
    /// by construction `target == index * LARGE_PAGE_SIZE`); everything else
    /// is zero.
    pub open spec fn wf(self) -> bool {
        let pages = self.mapped_pages_spec() as int;
        let pd_count = self.pd_count_spec();
        &&& MIN_MAPPED_PAGES <= pages <= MAX_MAPPED_PAGES
        &&& self.pml4_spec().len() == TABLE_ENTRIES
        &&& self.pdpt_spec().len() == TABLE_ENTRIES
        &&& self.pds_spec().len() == pd_count
        &&& self.pml4_spec()[0] == PDPT_ADDRESS + PAGE_PRESENT + PAGE_WRITABLE
        &&& forall |i: int| 1 <= i < TABLE_ENTRIES ==> self.pml4_spec()[i] == 0
        &&& forall |i: int| 0 <= i < pd_count
                ==> self.pdpt_spec()[i] == PD_BASE_ADDRESS + i * 0x1000 + PAGE_PRESENT + PAGE_WRITABLE
        &&& forall |i: int| pd_count <= i < TABLE_ENTRIES ==> self.pdpt_spec()[i] == 0
        &&& forall |d: int| 0 <= d < pd_count ==> (#[trigger] self.pds_spec()[d]).len() == TABLE_ENTRIES
        &&& forall |d: int, e: int| 0 <= d < pd_count && 0 <= e < TABLE_ENTRIES
                ==> (#[trigger] self.pds_spec()[d][e]) == (
                    if d * TABLE_ENTRIES + e < pages {
                        (d * TABLE_ENTRIES + e) * LARGE_PAGE_SIZE
                            + PAGE_PRESENT + PAGE_WRITABLE + PAGE_SIZE_BIT
                    } else {
                        0
                    })
    }
}

/// Build the page tables for long mode: identity-map `pages_to_map(total_memory)`
/// large pages. Infallible given valid inputs; a pure construction step.
#[verifier::loop_isolation(false)]
pub fn setup_page_tables(total_memory: u64) -> (r: PageTables)
    ensures
        r.wf(),
        r.mapped_pages_spec() == pages_to_map(total_memory),
        r.mapped_bytes_spec() == pages_to_map(total_memory) * LARGE_PAGE_SIZE,
{
    let mut pages: u64 = total_memory / LARGE_PAGE_SIZE;
    if pages < MIN_MAPPED_PAGES {
        pages = MIN_MAPPED_PAGES;
    }
    if pages > MAX_MAPPED_PAGES {
        pages = MAX_MAPPED_PAGES;
    }
    let pd_count: u64 = (pages + TABLE_ENTRIES - 1) / TABLE_ENTRIES;

    let mut pml4: Vec<u64> = Vec::new();
    let mut i: u64 = 0;
    while i < TABLE_ENTRIES
        invariant
            i <= TABLE_ENTRIES,
            pml4@.len() == i,
            i > 0 ==> pml4@[0] == PDPT_ADDRESS + PAGE_PRESENT + PAGE_WRITABLE,
            forall |k: int| 1 <= k < i ==> pml4@[k] == 0,
        decreases TABLE_ENTRIES - i,
    {
        if i == 0 {
            pml4.push(PDPT_ADDRESS + PAGE_PRESENT + PAGE_WRITABLE);
        } else {
            pml4.push(0);
        }
        i += 1;
    }

    let mut pdpt: Vec<u64> = Vec::new();
    let mut i: u64 = 0;
    while i < TABLE_ENTRIES
        invariant
            i <= TABLE_ENTRIES,
            pd_count <= 4,
            pdpt@.len() == i,
            forall |k: int| 0 <= k < i && k < pd_count
                ==> pdpt@[k] == PD_BASE_ADDRESS + k * 0x1000 + PAGE_PRESENT + PAGE_WRITABLE,
            forall |k: int| pd_count <= k < i ==> pdpt@[k] == 0,
        decreases TABLE_ENTRIES - i,
    {
        if i < pd_count {
            pdpt.push(PD_BASE_ADDRESS + i * 0x1000 + PAGE_PRESENT + PAGE_WRITABLE);
        } else {
            pdpt.push(0);
        }
        i += 1;
    }

    proof {
        lemma_pd_count(pages);
    }
    let mut pds: Vec<Vec<u64>> = Vec::new();
    let mut d: u64 = 0;
    while d < pd_count
        invariant
            d <= pd_count,
            pd_count <= 4,
            pages <= MAX_MAPPED_PAGES,
            pds@.len() == d,
            forall |k: int| 0 <= k < d ==> (#[trigger] pds@[k])@.len() == TABLE_ENTRIES,
            forall |k: int, e: int| 0 <= k < d && 0 <= e < TABLE_ENTRIES
                ==> (#[trigger] pds@[k]@[e]) == (
                    if k * TABLE_ENTRIES + e < pages {
                        (k * TABLE_ENTRIES + e) * LARGE_PAGE_SIZE
                            + PAGE_PRESENT + PAGE_WRITABLE + PAGE_SIZE_BIT
                    } else {
                        (0 as int)
                    }),
        decreases pd_count - d,
    {
        let mut pd: Vec<u64> = Vec::new();
        let mut e: u64 = 0;
        while e < TABLE_ENTRIES
            invariant
                e <= TABLE_ENTRIES,
                d < pd_count,
                pd_count <= 4,
                pages <= MAX_MAPPED_PAGES,
                pd@.len() == e,
                forall |j: int| 0 <= j < e
                    ==> pd@[j] == (
                        if d * TABLE_ENTRIES + j < pages {
                            (d * TABLE_ENTRIES + j) * LARGE_PAGE_SIZE
                                + PAGE_PRESENT + PAGE_WRITABLE + PAGE_SIZE_BIT
                        } else {
                            (0 as int)
                        }),
            decreases TABLE_ENTRIES - e,
        {
            let index: u64 = d * TABLE_ENTRIES + e;
            if index < pages {
                proof {
                    assert(index * LARGE_PAGE_SIZE + PAGE_PRESENT + PAGE_WRITABLE + PAGE_SIZE_BIT
                        <= MAX_MAPPED_PAGES * LARGE_PAGE_SIZE)
                        by (nonlinear_arith)
                        requires
                            index < pages,
                            pages <= MAX_MAPPED_PAGES,
                            MAX_MAPPED_PAGES == 2048,
                            LARGE_PAGE_SIZE == 2097152,
                            PAGE_PRESENT + PAGE_WRITABLE + PAGE_SIZE_BIT == 131;
                }
                pd.push(index * LARGE_PAGE_SIZE + PAGE_PRESENT + PAGE_WRITABLE + PAGE_SIZE_BIT);
            } else {
                pd.push(0);
            }
            e += 1;
        }
        pds.push(pd);
        d += 1;
    }

    PageTables {
        pml4,
        pdpt,
        pds,
        mapped_pages: pages,
    }
}

/// Count of leading present entries of one table. An entry is present iff
/// its low bit is set, that is, iff it is odd.
pub open spec fn present_prefix(s: Seq<u64>) -> int
    decreases s.len(),
{
    if s.len() == 0 {
        0
    } else if s[0] % 2 == 0 {
        0
    } else {
        1 + present_prefix(s.drop_first())
    }
}

/// The present prefix is pinned by pointwise facts: every entry before it is
/// odd, and it ends at the first even entry or at the table's end.
proof fn lemma_present_prefix_char(s: Seq<u64>, p: int)
    requires
        0 <= p <= s.len(),
        forall |i: int| 0 <= i < p ==> (#[trigger] s[i]) % 2 == 1,
        p == s.len() || s[p] % 2 == 0,
    ensures
        present_prefix(s) == p,
    decreases s.len(),
{
    if s.len() > 0 && p > 0 {
        let t = s.drop_first();
        assert(forall |i: int| 0 <= i < t.len() ==> #[trigger] t[i] == s[i + 1]);
        lemma_present_prefix_char(t, p - 1);
    }
}

/// The views of a list of owned tables.
pub open spec fn table_views(pds: Seq<Vec<u64>>) -> Seq<Seq<u64>> {
    Seq::new(pds.len(), |i: int| pds[i]@)
}

/// Pages counted over the first `count` leaf tables: each contributes its
/// present prefix.
pub open spec fn walked_pd_pages(pds: Seq<Seq<u64>>, count: int) -> int
    decreases count,
{
    if count <= 0 {
        0
    } else {
        walked_pd_pages(pds, count - 1) + present_prefix(pds[count - 1])
    }
}

/// What a walk of raw table contents counts, in bytes: nothing without a
/// present top-level entry; otherwise every leaf table reached through the
/// present prefix of the middle level contributes its own present prefix of
/// 2MiB mappings.
pub open spec fn detect_spec(pml4: Seq<u64>, pdpt: Seq<u64>, pds: Seq<Seq<u64>>) -> int {
    if pml4.len() == 0 || pml4[0] % 2 == 0 {
        0
    } else {
        let reach = if present_prefix(pdpt) <= pds.len() {
            present_prefix(pdpt)
        } else {
            pds.len() as int
        };
        walked_pd_pages(pds, reach) * LARGE_PAGE_SIZE
    }
}

/// Re-derive how much memory stands mapped by walking table contents read
/// back from the fixed physical footprint: the top-level entry, then the
/// present prefix of the middle level, then the present prefix of each leaf
/// table within reach. Works on whatever contents are handed in; the walk
/// stops at the first absent entry of each table.
#[verifier::loop_isolation(false)]
pub fn detect_mapped_memory(pml4: &Vec<u64>, pdpt: &Vec<u64>, pds: &Vec<Vec<u64>>) -> (r: u64)
    requires
        pdpt@.len() <= TABLE_ENTRIES,
        pds@.len() <= TABLE_ENTRIES,
        forall |d: int| 0 <= d < pds@.len() ==> (#[trigger] pds@[d])@.len() <= TABLE_ENTRIES,
    ensures
        r == detect_spec(pml4@, pdpt@, table_views(pds@)),
{
    let ghost views = table_views(pds@);
    if pml4.len() == 0 || pml4[0] % 2 == 0 {
        return 0;
    }
    let mut prefix: usize = 0;
    let mut i: usize = 0;
    let mut stop = false;
    while i < pdpt.len() && !stop
        invariant
            i <= pdpt@.len(),
            prefix <= i,
            !stop ==> (prefix == i
                && forall |k: int| 0 <= k < i ==> (#[trigger] pdpt@[k]) % 2 == 1),
            stop ==> present_prefix(pdpt@) == prefix,
        decreases pdpt@.len() - i, (if stop { 0int } else { 1int }),
    {
        if pdpt[i] % 2 != 0 {
            prefix = i + 1;
        } else {
            stop = true;
            proof {
                lemma_present_prefix_char(pdpt@, i as int);
            }
        }
        i += 1;
    }
    proof {
        if !stop {
            lemma_present_prefix_char(pdpt@, pdpt@.len() as int);
        }
    }
    let reach: usize = if prefix <= pds.len() { prefix } else { pds.len() };
    let mut total_pages: u64 = 0;
    let mut d: usize = 0;
    while d < reach
        invariant
            d <= reach,
            reach <= pds@.len(),
            reach <= TABLE_ENTRIES,
            total_pages == walked_pd_pages(views, d as int),
            total_pages <= d * TABLE_ENTRIES,
        decreases reach - d,
    {
        let pd = &pds[d];
        let mut count: usize = 0;
        let mut e: usize = 0;
        let mut stop_pd = false;
        while e < pd.len() && !stop_pd
            invariant
                e <= pd@.len(),
                pd@ == views[d as int],
                d < reach,
                count <= e,
                !stop_pd ==> (count == e
                    && forall |k: int| 0 <= k < e ==> (#[trigger] pd@[k]) % 2 == 1),
                stop_pd ==> present_prefix(pd@) == count,
            decreases pd@.len() - e, (if stop_pd { 0int } else { 1int }),
        {
            if pd[e] % 2 != 0 {
                count = e + 1;
            } else {
                stop_pd = true;
                proof {
                    lemma_present_prefix_char(pd@, e as int);
                }
            }
            e += 1;
        }
        proof {
            if !stop_pd {
                lemma_present_prefix_char(pd@, pd@.len() as int);
            }
        }
        total_pages = total_pages + (count as u64);
        d += 1;
    }
    proof {
        assert(total_pages * LARGE_PAGE_SIZE <= TABLE_ENTRIES * TABLE_ENTRIES * LARGE_PAGE_SIZE)
            by (nonlinear_arith)
            requires
                total_pages <= TABLE_ENTRIES * TABLE_ENTRIES,
                TABLE_ENTRIES == 512,
                LARGE_PAGE_SIZE == 2097152;
    }
    total_pages * LARGE_PAGE_SIZE
}

/// Walking the first `c` leaf tables of a built hierarchy counts every page
/// they hold: all of them up to the page count.
proof fn lemma_walked_built(t: PageTables, c: int)
    requires
        t.wf(),
        0 <= c <= t.pd_count_spec(),
    ensures
        walked_pd_pages(t.pds_spec(), c) == if c * TABLE_ENTRIES < t.mapped_pages_spec() {
            c * (TABLE_ENTRIES as int)
        } else {
            t.mapped_pages_spec() as int
        },
    decreases c,
{
    let pages = t.mapped_pages_spec() as int;
    if c > 0 {
        lemma_walked_built(t, c - 1);
        lemma_pd_count(t.mapped_pages);
        lemma_pd_starts(t.mapped_pages, c - 1);
        let pd = t.pds_spec()[c - 1];
        let cnt: int = if pages - (c - 1) * TABLE_ENTRIES < TABLE_ENTRIES {
            pages - (c - 1) * TABLE_ENTRIES
        } else {
            TABLE_ENTRIES as int
        };
        assert forall |e: int| 0 <= e < cnt implies (#[trigger] pd[e]) % 2 == 1 by {
            lemma_entry_parity((c - 1) * TABLE_ENTRIES + e);
        }
        lemma_present_prefix_char(pd, cnt);
    }
}

/// Walking a built hierarchy re-derives exactly the mapped size the builder
/// chose.
pub proof fn lemma_detect_matches_built(t: PageTables)
    requires
        t.wf(),
    ensures
        detect_spec(t.pml4_spec(), t.pdpt_spec(), t.pds_spec()) == t.mapped_bytes_spec(),
{
    let pages = t.mapped_pages_spec() as int;
    let pd_count = t.pd_count_spec();
    lemma_pd_count(t.mapped_pages);
    assert forall |i: int| 0 <= i < pd_count implies (#[trigger] t.pdpt_spec()[i]) % 2 == 1 by {
        lemma_pdpt_parity(i);
    }
    lemma_present_prefix_char(t.pdpt_spec(), pd_count);
    lemma_walked_built(t, pd_count);
}

/// The process-wide record of how much memory stands mapped, recorded once
/// per boot phase.
pub struct PagingContext {
    mapped_memory: u64,
    initialized: bool,
}

impl PagingContext {
    /// The recorded mapped size, in bytes.
    pub closed spec fn mapped_spec(self) -> u64 {
        self.mapped_memory
    }

    /// Whether the mapped size has been recorded.
    pub closed spec fn initialized_spec(self) -> bool {
        self.initialized
    }

    /// A context with nothing recorded yet.
    pub fn new() -> (r: Self)
        ensures
            !r.initialized_spec(),
            r.mapped_spec() == 0,
    {
        PagingContext {
            mapped_memory: 0,
            initialized: false,
        }
    }
}

/// Walk the table contents read back from the fixed footprint and record how
/// much memory stands mapped. The record is a process-wide singleton made
/// once per boot phase: a second call fails loudly and leaves the record
/// untouched.
pub fn init_full_memory_mapping(
    ctx: &mut PagingContext,
    memory_map: &MemoryMap,
    pml4: &Vec<u64>,
    pdpt: &Vec<u64>,
    pds: &Vec<Vec<u64>>,
) -> (r: Result<u64, PagingError>)
    requires
        pdpt@.len() <= TABLE_ENTRIES,
        pds@.len() <= TABLE_ENTRIES,
        forall |d: int| 0 <= d < pds@.len() ==> (#[trigger] pds@[d])@.len() <= TABLE_ENTRIES,
    ensures
        old(ctx).initialized_spec() ==> (
            r == Err::<u64, PagingError>(PagingError::AlreadyInitialized)
            && *final(ctx) == *old(ctx)),
        !old(ctx).initialized_spec() ==> (
            r == Ok::<u64, PagingError>(detect_spec(pml4@, pdpt@, table_views(pds@)) as u64)
            && final(ctx).initialized_spec()
            && final(ctx).mapped_spec() == detect_spec(pml4@, pdpt@, table_views(pds@))),
{
    if ctx.initialized {
        return Err(PagingError::AlreadyInitialized);
    }
    let initial_mapped = detect_mapped_memory(pml4, pdpt, pds);
    // The usable total bounds what could ever be mapped; the boot phase's
    // tables already cover the working set, so nothing further is mapped.
    let _total_usable = memory_map.total_usable_memory();
    ctx.mapped_memory = initial_mapped;
    ctx.initialized = true;
    Ok(initial_mapped)
}

/// The amount of memory currently recorded as mapped.
pub fn get_mapped_memory(ctx: &PagingContext) -> (r: u64)
    ensures
        r == ctx.mapped_spec(),
{
    ctx.mapped_memory
}

} // verus!
