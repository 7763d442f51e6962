use bootmem::memory_map::{MemoryMap, MemoryMapEntry, MemoryMapError, MemoryType};

/// Append a 64-bit little-endian value.
fn push_u64(bytes: &mut Vec<u8>, v: u64) {
    bytes.extend_from_slice(&v.to_le_bytes());
}

/// Append a 32-bit little-endian value.
fn push_u32(bytes: &mut Vec<u8>, v: u32) {
    bytes.extend_from_slice(&v.to_le_bytes());
}

/// A stored memory map: count, then 24-byte records, padded to the full
/// window the kernel reads.
fn stored_map(entries: &[(u64, u64, u32, u32)]) -> Vec<u8> {
    let mut bytes = Vec::new();
    push_u32(&mut bytes, entries.len() as u32);
    for &(base, length, entry_type, attributes) in entries {
        push_u64(&mut bytes, base);
        push_u64(&mut bytes, length);
        push_u32(&mut bytes, entry_type);
        push_u32(&mut bytes, attributes);
    }
    bytes.resize(4 + 24 * 64, 0);
    bytes
}

/// A stored map with a raw count and no records.
fn stored_map_with_count(count: u32) -> Vec<u8> {
    let mut bytes = Vec::new();
    push_u32(&mut bytes, count);
    bytes.resize(4 + 24 * 64, 0);
    bytes
}

#[test]
fn memory_type_from_u32() {
    assert_eq!(MemoryType::from_u32(1), Some(MemoryType::Usable));
    assert_eq!(MemoryType::from_u32(2), Some(MemoryType::Reserved));
    assert_eq!(MemoryType::from_u32(3), Some(MemoryType::AcpiReclaimable));
    assert_eq!(MemoryType::from_u32(4), Some(MemoryType::AcpiNvs));
    assert_eq!(MemoryType::from_u32(5), Some(MemoryType::BadMemory));
    assert_eq!(MemoryType::from_u32(0), None);
    assert_eq!(MemoryType::from_u32(77), None);
    assert!(MemoryType::Usable.is_usable());
    assert!(!MemoryType::Reserved.is_usable());
}

#[test]
fn entry_addresses_and_frames() {
    let entry = MemoryMapEntry {
        base_addr: 0x100000,
        length: 0x200000,
        entry_type: 1,
        attributes: 1,
    };
    assert_eq!(entry.start_address().as_u64(), 0x100000);
    assert_eq!(entry.end_address().as_u64(), 0x300000);
    let range = entry.frame_range();
    assert_eq!(range.start().number(), 0x100);
    assert_eq!(range.end().number(), 0x300);
    assert_eq!(range.len(), 0x200);
    assert!(!range.is_empty());
}

#[test]
fn entry_classification() {
    let usable = MemoryMapEntry {
        base_addr: 0x100000,
        length: 0x1000,
        entry_type: 1,
        attributes: 1,
    };
    assert!(usable.is_usable());
    assert!(!usable.is_system_reserved());
    assert!(!usable.is_reclaimable());
    assert_eq!(usable.description(), "Usable RAM");

    let wrong_attr = MemoryMapEntry { attributes: 0, ..usable };
    assert!(!wrong_attr.is_usable());

    let low = MemoryMapEntry { base_addr: 0x8000, ..usable };
    assert!(low.is_system_reserved());

    let reserved = MemoryMapEntry { entry_type: 2, ..usable };
    assert!(reserved.is_system_reserved());
    assert_eq!(reserved.description(), "Reserved");

    let acpi = MemoryMapEntry { entry_type: 3, ..usable };
    assert!(acpi.is_reclaimable());
    assert_eq!(acpi.description(), "ACPI Reclaimable");
    assert_eq!(MemoryMapEntry { entry_type: 4, ..usable }.description(), "ACPI NVS");
    assert_eq!(MemoryMapEntry { entry_type: 5, ..usable }.description(), "Bad Memory");
    assert_eq!(MemoryMapEntry { entry_type: 9, ..usable }.description(), "Unknown");
}

#[test]
fn fallback_map_shape() {
    let map = MemoryMap::create_fallback();
    let entries = map.entries();
    assert_eq!(entries.len(), 2);
    assert_eq!(entries[0].base_addr, 0);
    assert_eq!(entries[0].length, 0x9FC00);
    assert_eq!(entries[1].base_addr, 0x100000);
    assert_eq!(entries[1].length, 0x7F00000);
    assert_eq!(map.total_usable_memory(), 0x9FC00 + 0x7F00000);
    assert!(map.validate().is_ok());
}

#[test]
fn parser_rejects_uninitialized_counts() {
    let zero = stored_map_with_count(0);
    assert_eq!(
        MemoryMap::from_bootloader(&zero).err(),
        Some(MemoryMapError::NoMemoryMap)
    );
    let ones = stored_map_with_count(0xFFFF_FFFF);
    assert_eq!(
        MemoryMap::from_bootloader(&ones).err(),
        Some(MemoryMapError::NoMemoryMap)
    );
}

#[test]
fn parser_rejects_oversized_count() {
    let big = stored_map_with_count(100);
    assert_eq!(
        MemoryMap::from_bootloader(&big).err(),
        Some(MemoryMapError::InvalidMemoryMap)
    );
}

#[test]
fn parser_accepts_plausible_map() {
    // 32MiB of usable RAM at 1MiB: plausible, so the sum is kept as-is.
    let bytes = stored_map(&[(0x100000, 0x2000000, 1, 1)]);
    let map = MemoryMap::from_bootloader(&bytes).unwrap();
    assert_eq!(map.entries().len(), 1);
    assert_eq!(map.total_usable_memory(), 0x2000000);
}

#[test]
fn parser_reestimates_small_maps() {
    // 1MiB of usable RAM at 1MiB looks implausibly small: the total is
    // re-estimated from the highest RAM address and floored at 128MiB.
    let bytes = stored_map(&[(0x100000, 0x100000, 1, 1)]);
    let map = MemoryMap::from_bootloader(&bytes).unwrap();
    assert_eq!(map.total_usable_memory(), 128 * 1024 * 1024);
}

#[test]
fn parser_skips_invalid_entries() {
    let bytes = stored_map(&[
        (0x100000, 0, 1, 1),                  // zero length
        (0xFFFF_FFFF_FFFF_F000, 0x2000, 1, 1), // overflowing extent
        (0x500, 0x1000, 1, 1),                // suspicious low base
        (0x200000, 0x1000000, 1, 1),          // kept
    ]);
    let map = MemoryMap::from_bootloader(&bytes).unwrap();
    assert_eq!(map.entries().len(), 1);
    assert_eq!(map.entries()[0].base_addr, 0x200000);
}

#[test]
fn parser_rejects_map_with_no_valid_entries() {
    let bytes = stored_map(&[(0x100000, 0, 1, 1), (0x700, 0x1000, 1, 1)]);
    assert_eq!(
        MemoryMap::from_bootloader(&bytes).err(),
        Some(MemoryMapError::InvalidMemoryMap)
    );
}

#[test]
fn parser_keeps_unknown_types() {
    // Unknown region types are kept (not usable), and alone they still make
    // the map valid; the usable total falls back to the 128MiB floor.
    let bytes = stored_map(&[(0x100000, 0x1000000, 42, 1)]);
    let map = MemoryMap::from_bootloader(&bytes).unwrap();
    assert_eq!(map.entries().len(), 1);
    assert!(map.validate().is_err());
    assert_eq!(map.total_usable_memory(), 128 * 1024 * 1024);
}

#[test]
fn validate_flags_unknown_types() {
    let good = stored_map(&[(0x100000, 0x2000000, 1, 1), (0x4000000, 0x1000, 2, 0)]);
    let map = MemoryMap::from_bootloader(&good).unwrap();
    assert!(map.validate().is_ok());
}

#[test]
fn total_physical_memory_counts_below_4g() {
    let bytes = stored_map(&[
        (0x100000, 0x2000000, 1, 1),
        (0x1_0000_0000, 0x1000_0000, 2, 0), // based at 4GiB: not counted
    ]);
    let map = MemoryMap::from_bootloader(&bytes).unwrap();
    assert_eq!(map.total_physical_memory(), 0x2000000);
}

#[test]
fn usable_regions_and_largest() {
    let bytes = stored_map(&[
        (0x100000, 0x1000000, 1, 1),
        (0x2000000, 0x1000, 2, 1),
        (0x4000000, 0x2000000, 1, 1),
    ]);
    let map = MemoryMap::from_bootloader(&bytes).unwrap();
    let usable = map.usable_regions();
    assert_eq!(usable.len(), 2);
    assert_eq!(usable[0].base_addr, 0x100000);
    assert_eq!(usable[1].base_addr, 0x4000000);
    let largest = map.largest_usable_region().unwrap();
    assert_eq!(largest.base_addr, 0x4000000);
    let ranges = map.usable_frame_ranges();
    assert_eq!(ranges.len(), 2);
    assert_eq!(ranges[0].start().number(), 0x100);
    assert_eq!(ranges[1].end().number(), 0x6000);
}

#[test]
fn stats_count_each_type() {
    let bytes = stored_map(&[
        (0x100000, 0x1000, 1, 1),
        (0x200000, 0x2000, 1, 0),
        (0x300000, 0x3000, 2, 1),
        (0x400000, 0x4000, 3, 1),
        (0x500000, 0x5000, 4, 1),
        (0x600000, 0x6000, 5, 1),
        (0x700000, 0x7000, 33, 1),
    ]);
    let map = MemoryMap::from_bootloader(&bytes).unwrap();
    let stats = map.stats();
    assert_eq!(stats.usable_regions, 2);
    assert_eq!(stats.usable_memory, 0x3000);
    assert_eq!(stats.reserved_regions, 1);
    assert_eq!(stats.reserved_memory, 0x3000);
    assert_eq!(stats.acpi_regions, 2);
    assert_eq!(stats.acpi_memory, 0x9000);
    assert_eq!(stats.bad_regions, 1);
    assert_eq!(stats.bad_memory, 0x6000);
    assert_eq!(stats.unknown_regions, 1);
    assert_eq!(stats.unknown_memory, 0x7000);
}

#[test]
fn error_messages() {
    assert_eq!(MemoryMapError::NoMemoryMap.message(), "No memory map found");
    assert_eq!(MemoryMapError::InvalidMemoryMap.message(), "Invalid memory map data");
    assert_eq!(
        MemoryMapError::InsufficientMemory.message(),
        "Insufficient memory detected"
    );
}
