//! Firmware memory map normalization and the hand-off layout.
//!
//! The boot phase queries the firmware for a raw descriptor table, converts
//! each descriptor to a legacy-layout region record, merges adjacent records
//! of the same kind in one left-to-right pass, and stores the result at a
//! fixed physical location for the kernel: a 32-bit little-endian count
//! followed by packed 24-byte records. It also sizes total memory from the
//! descriptors and validates the kernel image before relocating it.

use vstd::prelude::*;
use crate::efi::{E820Entry, EFI_MEMORY_DESCRIPTOR};
use crate::efi::{
    EFI_ACPI_MEMORY_NVS, EFI_ACPI_RECLAIM_MEMORY, EFI_BOOT_SERVICES_CODE,
    EFI_BOOT_SERVICES_DATA, EFI_BUFFER_TOO_SMALL, EFI_CONVENTIONAL_MEMORY, EFI_LOADER_CODE,
    EFI_LOADER_DATA, EFI_SUCCESS,
};
use crate::efi::{E820_ACPI_NVS, E820_ACPI_RECLAIMABLE, E820_RESERVED, E820_USABLE};
use crate::memory_map::{le_u32_spec, le_u64_spec};

verus! {

/// Most region records the conversion pass ever produces.
pub const E820_BUFFER_CAPACITY: usize = 128;

/// Fixed physical address the stored memory map is written to.
pub const E820_STORE_ADDRESS: u64 = 0x9000;

/// Fixed physical address the kernel image is relocated to.
pub const KERNEL_LOAD_ADDRESS: u64 = 0x200000;

/// Largest kernel image the boot phase accepts.
pub const MAX_KERNEL_SIZE: u64 = 10 * 1024 * 1024;

/// Memory map information returned from the firmware query.
#[derive(Debug, Clone, Copy, PartialEq, Eq, Structural)]
pub struct MemoryMapInfo {
    pub map_key: usize,
    pub descriptor_size: usize,
    pub descriptor_count: usize,
}

/// Errors of the firmware memory map query.
#[derive(Debug, Clone, Copy, PartialEq, Eq, Structural)]
pub enum MapError {
    /// The firmware reports a larger map than the scratch buffer holds.
    BufferTooSmall,
    /// Any other non-success status, carried along.
    FirmwareError(usize),
    /// Zero descriptors result.
    EmptyMap,
}

/// Interpret the outcome of the firmware's memory map query: the status it
/// returned, the byte size it filled in, the descriptor stride, and the map
/// key. Success needs a success status and at least one whole descriptor.
pub fn interpret_map_query(
    status: usize,
    map_size: usize,
    descriptor_size: usize,
    map_key: usize,
) -> (r: Result<MemoryMapInfo, MapError>)
    ensures
        status == EFI_BUFFER_TOO_SMALL ==> r == Err::<MemoryMapInfo, MapError>(MapError::BufferTooSmall),
        status != EFI_SUCCESS && status != EFI_BUFFER_TOO_SMALL
            ==> r == Err::<MemoryMapInfo, MapError>(MapError::FirmwareError(status)),
        status == EFI_SUCCESS && descriptor_size == 0
            ==> r == Err::<MemoryMapInfo, MapError>(MapError::EmptyMap),
        status == EFI_SUCCESS && descriptor_size > 0 && map_size / descriptor_size == 0
            ==> r == Err::<MemoryMapInfo, MapError>(MapError::EmptyMap),
        status == EFI_SUCCESS && descriptor_size > 0 && map_size / descriptor_size > 0
            ==> r == Ok::<MemoryMapInfo, MapError>(MemoryMapInfo {
                map_key,
                descriptor_size,
                descriptor_count: map_size / descriptor_size,
            }),
{
    if status != EFI_SUCCESS {
        if status == EFI_BUFFER_TOO_SMALL {
            return Err(MapError::BufferTooSmall);
        }
        return Err(MapError::FirmwareError(status));
    }
    if descriptor_size == 0 {
        return Err(MapError::EmptyMap);
    }
    let descriptor_count = map_size / descriptor_size;
    if descriptor_count == 0 {
        return Err(MapError::EmptyMap);
    }
    Ok(MemoryMapInfo {
        map_key,
        descriptor_size,
        descriptor_count,
    })
}

/// The legacy region type for a firmware memory type: conventional, loader
/// and boot-services memory become usable; ACPI types keep their kind;
/// everything else is reserved.
pub open spec fn spec_uefi_type_to_e820(uefi_type: u32) -> u32 {
    if uefi_type == EFI_CONVENTIONAL_MEMORY || uefi_type == EFI_LOADER_CODE
        || uefi_type == EFI_LOADER_DATA || uefi_type == EFI_BOOT_SERVICES_CODE
        || uefi_type == EFI_BOOT_SERVICES_DATA {
        E820_USABLE
    } else if uefi_type == EFI_ACPI_RECLAIM_MEMORY {
        E820_ACPI_RECLAIMABLE
    } else if uefi_type == EFI_ACPI_MEMORY_NVS {
        E820_ACPI_NVS
    } else {
        E820_RESERVED
    }
}

/// Convert a firmware memory type to a legacy region type.
pub fn uefi_type_to_e820(uefi_type: u32) -> (r: u32)
    ensures
        r == spec_uefi_type_to_e820(uefi_type),
{
    if uefi_type == EFI_CONVENTIONAL_MEMORY || uefi_type == EFI_LOADER_CODE
        || uefi_type == EFI_LOADER_DATA || uefi_type == EFI_BOOT_SERVICES_CODE
        || uefi_type == EFI_BOOT_SERVICES_DATA {
        E820_USABLE
    } else if uefi_type == EFI_ACPI_RECLAIM_MEMORY {
        E820_ACPI_RECLAIMABLE
    } else if uefi_type == EFI_ACPI_MEMORY_NVS {
        E820_ACPI_NVS
    } else {
        E820_RESERVED
    }
}

/// A descriptor's extent fits in the address space: the conversions below
/// take only such descriptors.
pub open spec fn descriptor_fits(d: EFI_MEMORY_DESCRIPTOR) -> bool {
    d.physical_start + d.number_of_pages * 4096 <= u64::MAX
}

/// The region record a single descriptor becomes.
pub open spec fn e820_of_descriptor(d: EFI_MEMORY_DESCRIPTOR) -> E820Entry {
    E820Entry {
        base: d.physical_start,
        length: (d.number_of_pages * 4096) as u64,
        entry_type: spec_uefi_type_to_e820(d.memory_type),
        acpi: 0,
    }
}

/// The records of all descriptors, in order, before merging.
pub open spec fn converted(ds: Seq<EFI_MEMORY_DESCRIPTOR>) -> Seq<E820Entry> {
    ds.map_values(|d: EFI_MEMORY_DESCRIPTOR| e820_of_descriptor(d))
}

/// Two records merge when they have the same kind and the second starts
/// exactly where the first ends.
pub open spec fn e820_mergeable(prev: E820Entry, next: E820Entry) -> bool {
    prev.entry_type == next.entry_type && prev.base + prev.length == next.base
}

/// The single left-to-right merge pass over region records: zero-length
/// records are dropped, a record adjacent to the last kept record of the
/// same kind extends it, anything else is appended — until the capacity is
/// reached, after which the rest is ignored.
pub open spec fn merge_e820(es: Seq<E820Entry>) -> Seq<E820Entry>
    decreases es.len(),
{
    if es.len() == 0 {
        Seq::empty()
    } else {
        let prefix = merge_e820(es.drop_last());
        let e = es.last();
        if prefix.len() >= E820_BUFFER_CAPACITY {
            prefix
        } else if e.length == 0 {
            prefix
        } else if prefix.len() > 0 && e820_mergeable(prefix.last(), e) {
            prefix.update(
                prefix.len() - 1,
                E820Entry {
                    length: (prefix.last().length + e.length) as u64,
                    ..prefix.last()
                },
            )
        } else {
            prefix.push(e)
        }
    }
}

/// A merged list: within capacity, free of empty records, and free of
/// adjacent records that could still merge.
pub open spec fn normalized_e820(es: Seq<E820Entry>) -> bool {
    &&& es.len() <= E820_BUFFER_CAPACITY
    &&& forall |i: int| 0 <= i < es.len() ==> (#[trigger] es[i]).length > 0
    &&& forall |i: int| 0 <= i < es.len() - 1 ==> !e820_mergeable(#[trigger] es[i], es[i + 1])
}

/// Merging a list of records whose extents fit the address space yields a
/// normalized list whose records' extents still fit.
pub proof fn lemma_merge_normalized(es: Seq<E820Entry>)
    requires
        forall |i: int| 0 <= i < es.len()
            ==> (#[trigger] es[i]).base + es[i].length <= u64::MAX,
    ensures
        normalized_e820(merge_e820(es)),
        forall |i: int| 0 <= i < merge_e820(es).len()
            ==> (#[trigger] merge_e820(es)[i]).base + merge_e820(es)[i].length <= u64::MAX,
        merge_e820(es).len() <= es.len(),
    decreases es.len(),
{
    if es.len() > 0 {
        assert(forall |i: int| 0 <= i < es.drop_last().len()
            ==> (#[trigger] es.drop_last()[i]).base + es.drop_last()[i].length <= u64::MAX);
        lemma_merge_normalized(es.drop_last());
        let prefix = merge_e820(es.drop_last());
        let e = es.last();
        assert(e == es[es.len() - 1]);
        if prefix.len() >= E820_BUFFER_CAPACITY || e.length == 0 {
        } else if prefix.len() > 0 && e820_mergeable(prefix.last(), e) {
            let merged = E820Entry {
                length: (prefix.last().length + e.length) as u64,
                ..prefix.last()
            };
            let out = prefix.update(prefix.len() - 1, merged);
            assert(prefix.last().base + prefix.last().length == e.base);
            assert(e.base + e.length <= u64::MAX);
            assert(merged.base + merged.length == e.base + e.length);
            assert(forall |i: int| 0 <= i < out.len() - 1
                ==> !e820_mergeable(#[trigger] out[i], out[i + 1])) by {
                assert(forall |i: int| 0 <= i < out.len() - 1 ==> {
                    &&& (#[trigger] out[i]) == prefix[i]
                    &&& (out[i + 1] == if i + 1 == out.len() - 1 { merged } else { prefix[i + 1] })
                });
                assert(forall |i: int| 0 <= i < prefix.len() - 1
                    ==> !e820_mergeable(#[trigger] prefix[i], prefix[i + 1]));
                assert(out.len() >= 2 ==> {
                    let i = out.len() - 2;
                    !e820_mergeable(prefix[i], prefix[i + 1])
                        && merged.base == prefix[i + 1].base
                        && merged.entry_type == prefix[i + 1].entry_type
                });
            }
        } else {
            let out = prefix.push(e);
            assert(forall |i: int| 0 <= i < out.len() - 1
                ==> !e820_mergeable(#[trigger] out[i], out[i + 1])) by {
                assert(forall |i: int| 0 <= i < prefix.len() ==> out[i] == prefix[i]);
                assert(out[out.len() - 1] == e);
                if prefix.len() > 0 {
                    assert(!e820_mergeable(prefix[prefix.len() - 1], e));
                }
            }
        }
    }
}

/// Merging a normalized list changes nothing: there is nothing left to drop
/// or merge.
pub proof fn lemma_merge_of_normalized(es: Seq<E820Entry>)
    requires
        normalized_e820(es),
    ensures
        merge_e820(es) == es,
    decreases es.len(),
{
    if es.len() == 0 {
        assert(merge_e820(es) =~= es);
    } else {
        let head = es.drop_last();
        assert(forall |i: int| 0 <= i < head.len() ==> head[i] == es[i]);
        assert(normalized_e820(head));
        lemma_merge_of_normalized(head);
        let e = es.last();
        assert(e == es[es.len() - 1]);
        assert(e.length > 0);
        if head.len() > 0 {
            assert(!e820_mergeable(es[es.len() - 2], es[es.len() - 1]));
            assert(head.last() == es[es.len() - 2]);
        }
        assert(merge_e820(es) =~= es);
    }
}

/// Merging is idempotent: for records whose extents fit the address space —
/// in particular any non-overlapping ones — merging twice yields the very
/// list, and so the very count, that merging once yields.
pub proof fn lemma_merge_idempotent(es: Seq<E820Entry>)
    requires
        forall |i: int| 0 <= i < es.len()
            ==> (#[trigger] es[i]).base + es[i].length <= u64::MAX,
    ensures
        merge_e820(merge_e820(es)) == merge_e820(es),
{
    lemma_merge_normalized(es);
    lemma_merge_of_normalized(merge_e820(es));
}

/// Convert the firmware descriptors to merged legacy region records: the
/// dominant deduplication pass of the boot phase. The output never holds a
/// zero-length record and never holds more records than descriptors came in.
#[verifier::loop_isolation(false)]
pub fn convert_uefi_to_e820(descriptors: &Vec<EFI_MEMORY_DESCRIPTOR>) -> (r: Vec<E820Entry>)
    requires
        forall |i: int| 0 <= i < descriptors@.len()
            ==> descriptor_fits(#[trigger] descriptors@[i]),
    ensures
        r@ == merge_e820(converted(descriptors@)),
        r@.len() <= descriptors@.len(),
        r@.len() <= E820_BUFFER_CAPACITY,
        forall |i: int| 0 <= i < r@.len() ==> (#[trigger] r@[i]).length > 0,
{
    let ghost ds = descriptors@;
    let mut entries: Vec<E820Entry> = Vec::new();
    let mut i: usize = 0;
    while i < descriptors.len()
        invariant
            i <= ds.len(),
            entries@ == merge_e820(converted(ds.subrange(0, i as int))),
            entries@.len() <= i,
            entries@.len() <= E820_BUFFER_CAPACITY,
            forall |k: int| 0 <= k < entries@.len()
                ==> (#[trigger] entries@[k]).base + entries@[k].length <= u64::MAX,
            forall |k: int| 0 <= k < entries@.len() ==> (#[trigger] entries@[k]).length > 0,
        decreases ds.len() - i,
    {
        let d = descriptors[i];
        proof {
            assert(converted(ds.subrange(0, i + 1 as int)).drop_last()
                =~= converted(ds.subrange(0, i as int)));
            assert(converted(ds.subrange(0, i + 1 as int)).last() == e820_of_descriptor(d));
        }
        if entries.len() >= E820_BUFFER_CAPACITY {
            proof {
                assert(entries@ == merge_e820(converted(ds.subrange(0, i + 1 as int))));
            }
            i += 1;
            continue;
        }
        let e820_type = uefi_type_to_e820(d.memory_type);
        let base = d.physical_start;
        let length = d.number_of_pages * 4096;
        if length == 0 {
            i += 1;
            continue;
        }
        let mut merged = false;
        if entries.len() > 0 {
            let last_index = entries.len() - 1;
            let prev = entries[last_index];
            if prev.entry_type == e820_type && prev.base + prev.length == base {
                entries.set(last_index, E820Entry {
                    base: prev.base,
                    length: prev.length + length,
                    entry_type: prev.entry_type,
                    acpi: prev.acpi,
                });
                merged = true;
            }
        }
        if !merged {
            entries.push(E820Entry {
                base,
                length,
                entry_type: e820_type,
                acpi: 0,
            });
        }
        i += 1;
    }
    proof {
        assert(ds.subrange(0, ds.len() as int) =~= ds);
    }
    entries
}

/// The highest region end address below 4GiB among the descriptors; zero if
/// none ends there.
pub open spec fn highest_memory_below_4g(ds: Seq<EFI_MEMORY_DESCRIPTOR>) -> u64
    decreases ds.len(),
{
    if ds.len() == 0 {
        0
    } else {
        let prev = highest_memory_below_4g(ds.drop_last());
        let d = ds.last();
        let end = d.physical_start + d.number_of_pages * 4096;
        if end < 0x1_0000_0000 && end > prev {
            end as u64
        } else {
            prev
        }
    }
}

/// Size total physical memory from the firmware descriptors: the highest
/// region end below 4GiB, avoiding hardware-mapped regions above it.
#[verifier::loop_isolation(false)]
pub fn calculate_total_memory(descriptors: &Vec<EFI_MEMORY_DESCRIPTOR>) -> (r: u64)
    requires
        forall |i: int| 0 <= i < descriptors@.len()
            ==> descriptor_fits(#[trigger] descriptors@[i]),
    ensures
        r == highest_memory_below_4g(descriptors@),
{
    let ghost ds = descriptors@;
    let mut highest: u64 = 0;
    let mut i: usize = 0;
    while i < descriptors.len()
        invariant
            i <= ds.len(),
            highest == highest_memory_below_4g(ds.subrange(0, i as int)),
        decreases ds.len() - i,
    {
        let d = descriptors[i];
        proof {
            assert(ds.subrange(0, i + 1 as int).drop_last() =~= ds.subrange(0, i as int));
            assert(ds.subrange(0, i + 1 as int).last() == d);
        }
        let end = d.physical_start + d.number_of_pages * 4096;
        if end < 0x1_0000_0000 && end > highest {
            highest = end;
        }
        i += 1;
    }
    proof {
        assert(ds.subrange(0, ds.len() as int) =~= ds);
    }
    highest
}

/// Append a 32-bit value to a byte buffer, little-endian.
fn push_u32_le(out: &mut Vec<u8>, v: u32)
    ensures
        final(out)@.len() == old(out)@.len() + 4,
        final(out)@.subrange(0, old(out)@.len() as int) == old(out)@,
        le_u32_spec(final(out)@, old(out)@.len() as int) == v,
{
    let b0 = (v % 0x100) as u8;
    let r1 = v / 0x100;
    let b1 = (r1 % 0x100) as u8;
    let r2 = r1 / 0x100;
    let b2 = (r2 % 0x100) as u8;
    let b3 = (r2 / 0x100) as u8;
    out.push(b0);
    out.push(b1);
    out.push(b2);
    out.push(b3);
    proof {
        assert(final(out)@.subrange(0, old(out)@.len() as int) =~= old(out)@);
        assert(v == b0 + 0x100 * (b1 + 0x100 * (b2 + 0x100 * b3))) by (nonlinear_arith)
            requires
                b0 == v % 0x100,
                r1 == v / 0x100,
                b1 == r1 % 0x100,
                r2 == r1 / 0x100,
                b2 == r2 % 0x100,
                b3 == r2 / 0x100;
    }
}

/// Append a 64-bit value to a byte buffer, little-endian.
fn push_u64_le(out: &mut Vec<u8>, v: u64)
    ensures
        final(out)@.len() == old(out)@.len() + 8,
        final(out)@.subrange(0, old(out)@.len() as int) == old(out)@,
        le_u64_spec(final(out)@, old(out)@.len() as int) == v,
{
    let b0 = (v % 0x100) as u8;
    let r1 = v / 0x100;
    let b1 = (r1 % 0x100) as u8;
    let r2 = r1 / 0x100;
    let b2 = (r2 % 0x100) as u8;
    let r3 = r2 / 0x100;
    let b3 = (r3 % 0x100) as u8;
    let r4 = r3 / 0x100;
    let b4 = (r4 % 0x100) as u8;
    let r5 = r4 / 0x100;
    let b5 = (r5 % 0x100) as u8;
    let r6 = r5 / 0x100;
    let b6 = (r6 % 0x100) as u8;
    let b7 = (r6 / 0x100) as u8;
    out.push(b0);
    out.push(b1);
    out.push(b2);
    out.push(b3);
    out.push(b4);
    out.push(b5);
    out.push(b6);
    out.push(b7);
    proof {
        assert(final(out)@.subrange(0, old(out)@.len() as int) =~= old(out)@);
        assert(v == b0 + 0x100 * (b1 + 0x100 * (b2 + 0x100 * (b3 + 0x100 * (b4
            + 0x100 * (b5 + 0x100 * (b6 + 0x100 * b7))))))) by (nonlinear_arith)
            requires
                b0 == v % 0x100,
                r1 == v / 0x100,
                b1 == r1 % 0x100,
                r2 == r1 / 0x100,
                b2 == r2 % 0x100,
                r3 == r2 / 0x100,
                b3 == r3 % 0x100,
                r4 == r3 / 0x100,
                b4 == r4 % 0x100,
                r5 == r4 / 0x100,
                b5 == r5 % 0x100,
                r6 == r5 / 0x100,
                b6 == r6 % 0x100,
                b7 == r6 / 0x100;
    }
}

/// A 32-bit read is unaffected by bytes appended after it.
proof fn lemma_le_u32_frame(a: Seq<u8>, b: Seq<u8>, off: int)
    requires
        a == b.subrange(0, a.len() as int),
        a.len() <= b.len(),
        0 <= off,
        off + 4 <= a.len(),
    ensures
        le_u32_spec(b, off) == le_u32_spec(a, off),
{
    assert(forall |k: int| 0 <= k < a.len() ==> a[k] == b.subrange(0, a.len() as int)[k]);
}

/// A 64-bit read is unaffected by bytes appended after it.
proof fn lemma_le_u64_frame(a: Seq<u8>, b: Seq<u8>, off: int)
    requires
        a == b.subrange(0, a.len() as int),
        a.len() <= b.len(),
        0 <= off,
        off + 8 <= a.len(),
    ensures
        le_u64_spec(b, off) == le_u64_spec(a, off),
{
    assert(forall |k: int| 0 <= k < a.len() ==> a[k] == b.subrange(0, a.len() as int)[k]);
}

/// Record `k` of a stored map reads back as `e`: 8-byte base, 8-byte
/// length, 4-byte type and 4-byte attribute, little-endian, packed after
/// the 4-byte count.
pub open spec fn entry_encoded(bytes: Seq<u8>, k: int, e: E820Entry) -> bool {
    &&& le_u64_spec(bytes, 4 + 24 * k) == e.base
    &&& le_u64_spec(bytes, 4 + 24 * k + 8) == e.length
    &&& le_u32_spec(bytes, 4 + 24 * k + 16) == e.entry_type
    &&& le_u32_spec(bytes, 4 + 24 * k + 20) == e.acpi
}

/// Encode merged region records into the exact bytes stored at the hand-off
/// location: the 32-bit little-endian record count, then each record packed
/// into 24 bytes — 8-byte base, 8-byte length, 4-byte type, 4-byte
/// attribute.
#[verifier::loop_isolation(false)]
pub fn store_e820_map(entries: &Vec<E820Entry>) -> (r: Vec<u8>)
    requires
        entries@.len() <= E820_BUFFER_CAPACITY,
    ensures
        r@.len() == 4 + 24 * entries@.len(),
        le_u32_spec(r@, 0) == entries@.len(),
        forall |i: int| 0 <= i < entries@.len()
            ==> #[trigger] entry_encoded(r@, i, entries@[i]),
{
    let mut out: Vec<u8> = Vec::new();
    push_u32_le(&mut out, entries.len() as u32);
    let mut i: usize = 0;
    while i < entries.len()
        invariant
            i <= entries@.len(),
            out@.len() == 4 + 24 * i,
            le_u32_spec(out@, 0) == entries@.len(),
            forall |k: int| 0 <= k < i ==> #[trigger] entry_encoded(out@, k, entries@[k]),
        decreases entries@.len() - i,
    {
        let e = entries[i];
        let ghost before = out@;
        push_u64_le(&mut out, e.base);
        proof {
            lemma_le_u32_frame(before, out@, 0);
            frame_all_entries(before, out@, i as int, entries@);
        }
        let ghost after_base = out@;
        push_u64_le(&mut out, e.length);
        proof {
            lemma_le_u32_frame(after_base, out@, 0);
            frame_all_entries(after_base, out@, i as int, entries@);
            lemma_le_u64_frame(after_base, out@, 4 + 24 * i);
        }
        let ghost after_length = out@;
        push_u32_le(&mut out, e.entry_type);
        proof {
            lemma_le_u32_frame(after_length, out@, 0);
            frame_all_entries(after_length, out@, i as int, entries@);
            lemma_le_u64_frame(after_length, out@, 4 + 24 * i);
            lemma_le_u64_frame(after_length, out@, 4 + 24 * i + 8);
        }
        let ghost after_type = out@;
        push_u32_le(&mut out, e.acpi);
        proof {
            lemma_le_u32_frame(after_type, out@, 0);
            frame_all_entries(after_type, out@, i as int, entries@);
            lemma_le_u64_frame(after_type, out@, 4 + 24 * i);
            lemma_le_u64_frame(after_type, out@, 4 + 24 * i + 8);
            lemma_le_u32_frame(after_type, out@, 4 + 24 * i + 16);
        }
        i += 1;
    }
    out
}

/// The reads of all records already encoded are unaffected by appending.
proof fn frame_all_entries(a: Seq<u8>, b: Seq<u8>, upto: int, entries: Seq<E820Entry>)
    requires
        a == b.subrange(0, a.len() as int),
        a.len() <= b.len(),
        0 <= upto,
        a.len() >= 4 + 24 * upto,
        forall |k: int| 0 <= k < upto ==> #[trigger] entry_encoded(a, k, entries[k]),
    ensures
        forall |k: int| 0 <= k < upto ==> #[trigger] entry_encoded(b, k, entries[k]),
{
    assert forall |k: int| 0 <= k < upto implies #[trigger] entry_encoded(b, k, entries[k]) by {
        assert(entry_encoded(a, k, entries[k]));
        lemma_le_u64_frame(a, b, 4 + 24 * k);
        lemma_le_u64_frame(a, b, 4 + 24 * k + 8);
        lemma_le_u32_frame(a, b, 4 + 24 * k + 16);
        lemma_le_u32_frame(a, b, 4 + 24 * k + 20);
    }
}

/// The kernel image as handed over by the loader: where its bytes sit and
/// how many there are.
#[derive(Debug, Clone, Copy, PartialEq, Eq, Structural)]
pub struct KernelBuffer {
    /// Physical address of the loaded image bytes.
    pub data_addr: u64,
    /// Image size in bytes.
    pub size: u64,
}

/// Errors of the kernel image relocation.
#[derive(Debug, Clone, Copy, PartialEq, Eq, Structural)]
pub enum KernelImageError {
    /// The image buffer address is null.
    NullPointer,
    /// The image is empty.
    EmptyImage,
    /// The image exceeds the accepted maximum.
    TooLarge,
    /// The relocated bytes do not match the source.
    CopyMismatch,
}

/// Validate the kernel image before relocating it to its fixed load
/// address: the buffer must be non-null, non-empty and within the accepted
/// maximum size; anything else is treated as corruption.
pub fn validate_kernel_image(buffer: &KernelBuffer) -> (r: Result<(), KernelImageError>)
    ensures
        buffer.data_addr == 0 ==> r == Err::<(), KernelImageError>(KernelImageError::NullPointer),
        buffer.data_addr != 0 && buffer.size == 0
            ==> r == Err::<(), KernelImageError>(KernelImageError::EmptyImage),
        buffer.data_addr != 0 && buffer.size > MAX_KERNEL_SIZE
            ==> r == Err::<(), KernelImageError>(KernelImageError::TooLarge),
        r is Ok <==> (buffer.data_addr != 0 && 0 < buffer.size <= MAX_KERNEL_SIZE),
{
    if buffer.data_addr == 0 {
        return Err(KernelImageError::NullPointer);
    }
    if buffer.size == 0 {
        return Err(KernelImageError::EmptyImage);
    }
    if buffer.size > MAX_KERNEL_SIZE {
        return Err(KernelImageError::TooLarge);
    }
    Ok(())
}

/// Check a relocated image against its source, as the boot phase does after
/// the copy: the first sixteen bytes — or all of them, for a tiny image —
/// must match.
#[verifier::loop_isolation(false)]
pub fn verify_kernel_copy(source: &Vec<u8>, copied: &Vec<u8>) -> (r: bool)
    ensures
        ({
            let lo = if source@.len() < copied@.len() { source@.len() as int } else { copied@.len() as int };
            let n = if lo < 16 { lo } else { 16int };
            r == (forall |i: int| 0 <= i < n ==> source@[i] == copied@[i])
        }),
{
    let lo = if source.len() < copied.len() { source.len() } else { copied.len() };
    let n = if lo < 16 { lo } else { 16 };
    let mut i: usize = 0;
    while i < n
        invariant
            i <= n,
            n <= source@.len() && n <= copied@.len(),
            forall |k: int| 0 <= k < i ==> source@[k] == copied@[k],
        decreases n - i,
    {
        if source[i] != copied[i] {
            return false;
        }
        i += 1;
    }
    true
}

} // verus!
