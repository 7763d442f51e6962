use bootmem::efi::{status_to_string, E820Entry, EFI_MEMORY_DESCRIPTOR};
use bootmem::fmt::{decimal_digits, hex_digits, utf8_to_utf16};
use bootmem::handoff::{
    calculate_total_memory, convert_uefi_to_e820, interpret_map_query, store_e820_map,
    uefi_type_to_e820, validate_kernel_image, verify_kernel_copy, KernelBuffer,
    KernelImageError, MapError, MAX_KERNEL_SIZE,
};
use bootmem::memory_map::MemoryMap;
use bootmem::paging::{
    detect_mapped_memory, get_mapped_memory, init_full_memory_mapping, setup_page_tables,
    PagingContext, PagingError,
};
use bootmem::teardown::{
    handoff_sequence, CpuSetupStep, TeardownAction, TeardownEvent, TeardownProtocol,
    TeardownState, KERNEL_ENTRY_ADDRESS, KERNEL_STACK_TOP,
};

/// A firmware descriptor of the given type covering `pages` pages at `start`.
fn descriptor(memory_type: u32, start: u64, pages: u64) -> EFI_MEMORY_DESCRIPTOR {
    EFI_MEMORY_DESCRIPTOR {
        memory_type,
        physical_start: start,
        virtual_start: 0,
        number_of_pages: pages,
        attribute: 0,
    }
}

#[test]
fn status_strings() {
    assert_eq!(status_to_string(0), "Success");
    assert_eq!(status_to_string(5), "Buffer Too Small");
    assert_eq!(status_to_string(9), "Out of Resources");
    assert_eq!(status_to_string(14), "Not Found");
    assert_eq!(status_to_string(1234), "Unknown Error");
}

#[test]
fn map_query_interpretation() {
    assert_eq!(
        interpret_map_query(5, 8192, 48, 7).err(),
        Some(MapError::BufferTooSmall)
    );
    assert_eq!(
        interpret_map_query(7, 8192, 48, 7).err(),
        Some(MapError::FirmwareError(7))
    );
    assert_eq!(interpret_map_query(0, 8192, 0, 7).err(), Some(MapError::EmptyMap));
    assert_eq!(interpret_map_query(0, 30, 48, 7).err(), Some(MapError::EmptyMap));
    let info = interpret_map_query(0, 8192, 48, 7).unwrap();
    assert_eq!(info.map_key, 7);
    assert_eq!(info.descriptor_size, 48);
    assert_eq!(info.descriptor_count, 8192 / 48);
}

#[test]
fn type_conversion_table() {
    assert_eq!(uefi_type_to_e820(7), 1); // conventional
    assert_eq!(uefi_type_to_e820(1), 1); // loader code
    assert_eq!(uefi_type_to_e820(2), 1); // loader data
    assert_eq!(uefi_type_to_e820(3), 1); // boot services code
    assert_eq!(uefi_type_to_e820(4), 1); // boot services data
    assert_eq!(uefi_type_to_e820(9), 3); // ACPI reclaimable
    assert_eq!(uefi_type_to_e820(10), 4); // ACPI NVS
    assert_eq!(uefi_type_to_e820(0), 2); // reserved
    assert_eq!(uefi_type_to_e820(11), 2); // MMIO
}

#[test]
fn conversion_merges_adjacent_same_kind() {
    // Conventional and loader memory both map to usable; back to back they
    // merge into one record.
    let descriptors = vec![
        descriptor(7, 0x100000, 16),
        descriptor(2, 0x110000, 16),
        descriptor(9, 0x120000, 4),
    ];
    let merged = convert_uefi_to_e820(&descriptors);
    assert_eq!(merged.len(), 2);
    assert_eq!(merged[0].base, 0x100000);
    assert_eq!(merged[0].length, 0x20000);
    assert_eq!(merged[0].entry_type, 1);
    assert_eq!(merged[1].base, 0x120000);
    assert_eq!(merged[1].entry_type, 3);
}

#[test]
fn conversion_keeps_gaps_and_kinds_apart() {
    let descriptors = vec![
        descriptor(7, 0x100000, 16),
        descriptor(7, 0x200000, 16), // gap: stays separate
        descriptor(0, 0x210000, 16), // reserved after usable: stays separate
    ];
    let merged = convert_uefi_to_e820(&descriptors);
    assert_eq!(merged.len(), 3);
}

#[test]
fn conversion_drops_empty_descriptors() {
    let descriptors = vec![
        descriptor(7, 0x100000, 16),
        descriptor(7, 0x110000, 0), // zero length: dropped
        descriptor(0, 0x300000, 1),
    ];
    let merged = convert_uefi_to_e820(&descriptors);
    assert_eq!(merged.len(), 2);
    assert!(merged.iter().all(|e| e.length > 0));
    assert!(merged.len() <= descriptors.len());
}

#[test]
fn merging_twice_changes_nothing() {
    // Feed the merged output back through the conversion (mapping each
    // record to a descriptor of the matching firmware type): the second
    // merge yields the same records, so the same count.
    let descriptors = vec![
        descriptor(7, 0x100000, 16),
        descriptor(1, 0x110000, 16),
        descriptor(0, 0x120000, 8),
        descriptor(9, 0x128000, 8),
        descriptor(9, 0x130000, 8),
    ];
    let merged = convert_uefi_to_e820(&descriptors);
    let back: Vec<EFI_MEMORY_DESCRIPTOR> = merged
        .iter()
        .map(|e| {
            let uefi_type = match e.entry_type {
                1 => 7,
                3 => 9,
                4 => 10,
                _ => 0,
            };
            descriptor(uefi_type, e.base, e.length / 4096)
        })
        .collect();
    let remerged = convert_uefi_to_e820(&back);
    assert_eq!(remerged.len(), merged.len());
    for (a, b) in merged.iter().zip(remerged.iter()) {
        assert_eq!(a.base, b.base);
        assert_eq!(a.length, b.length);
        assert_eq!(a.entry_type, b.entry_type);
    }
}

#[test]
fn stored_map_layout_is_bit_exact() {
    let entries = vec![
        E820Entry { base: 0x100000, length: 0x2000000, entry_type: 1, acpi: 1 },
        E820Entry { base: 0x4000000, length: 0x1000, entry_type: 2, acpi: 0 },
    ];
    let bytes = store_e820_map(&entries);
    assert_eq!(bytes.len(), 4 + 24 * 2);
    assert_eq!(&bytes[0..4], &2u32.to_le_bytes());
    assert_eq!(&bytes[4..12], &0x100000u64.to_le_bytes());
    assert_eq!(&bytes[12..20], &0x2000000u64.to_le_bytes());
    assert_eq!(&bytes[20..24], &1u32.to_le_bytes());
    assert_eq!(&bytes[24..28], &1u32.to_le_bytes());
    assert_eq!(&bytes[28..36], &0x4000000u64.to_le_bytes());
}

#[test]
fn stored_map_roundtrips_through_parser() {
    let entries = vec![
        E820Entry { base: 0x100000, length: 0x2000000, entry_type: 1, acpi: 1 },
    ];
    let mut bytes = store_e820_map(&entries);
    bytes.resize(4 + 24 * 64, 0);
    let map = MemoryMap::from_bootloader(&bytes).unwrap();
    assert_eq!(map.entries().len(), 1);
    let entry = map.entries()[0];
    assert_eq!(entry.base_addr, 0x100000);
    assert_eq!(entry.length, 0x2000000);
    assert_eq!(entry.entry_type, 1);
    assert_eq!(entry.attributes, 1);
    assert!(entry.is_usable());
    assert_eq!(map.total_usable_memory(), 0x2000000);
}

#[test]
fn total_memory_is_highest_end_below_4g() {
    let descriptors = vec![
        descriptor(7, 0x100000, 0x100),
        descriptor(0, 0xFFFF0000, 0x10),          // ends exactly at 4GiB: excluded
        descriptor(7, 0x40000000, 0x100),         // highest kept end
        descriptor(0, 0x1_0000_0000, 0x100),      // above 4GiB: excluded
    ];
    assert_eq!(calculate_total_memory(&descriptors), 0x40000000 + 0x100 * 4096);
}

/// The mapped size of built tables, re-derived by walking their contents.
fn walk_tables(tables: &bootmem::paging::PageTables) -> u64 {
    detect_mapped_memory(
        tables.pml4_entries(),
        tables.pdpt_entries(),
        tables.pd_tables(),
    )
}

#[test]
fn page_tables_floor_small_memory() {
    // 100MiB of memory still maps the 128MiB minimum working set.
    let tables = setup_page_tables(100 * 1024 * 1024);
    let mapped = walk_tables(&tables);
    assert!(mapped >= 128 * 1024 * 1024);
    assert_eq!(mapped, 128 * 1024 * 1024);
}

#[test]
fn page_tables_cap_large_memory() {
    // 5000MiB of memory is capped at the 4GiB safety ceiling.
    let tables = setup_page_tables(5000 * 1024 * 1024);
    assert_eq!(walk_tables(&tables), 4 * 1024 * 1024 * 1024);
}

#[test]
fn walk_counts_nothing_without_present_root() {
    // An empty or absent top-level entry maps nothing, whatever else the
    // tables hold.
    let absent = vec![0u64; 512];
    let pds = vec![vec![0x83u64; 512]];
    assert_eq!(detect_mapped_memory(&Vec::new(), &absent, &pds), 0);
    assert_eq!(detect_mapped_memory(&absent, &absent, &pds), 0);
}

#[test]
fn walk_stops_at_first_absent_entry() {
    // A hand-built hierarchy: present root, one present middle entry, and a
    // leaf table whose first three entries are present.
    let mut pml4 = vec![0u64; 512];
    pml4[0] = 0x71003;
    let mut pdpt = vec![0u64; 512];
    pdpt[0] = 0x72003;
    let mut pd = vec![0u64; 512];
    pd[0] = 0x83;
    pd[1] = 0x200083;
    pd[2] = 0x400083;
    pd[5] = 0xA00083; // unreachable past the gap at entry 3
    let pds = vec![pd];
    assert_eq!(detect_mapped_memory(&pml4, &pdpt, &pds), 3 * 2 * 1024 * 1024);
}

#[test]
fn page_tables_walk_matches_construction() {
    let tables = setup_page_tables(1024 * 1024 * 1024);
    let map = MemoryMap::create_fallback();
    let mut ctx = PagingContext::new();
    let mapped = init_full_memory_mapping(
        &mut ctx,
        &map,
        tables.pml4_entries(),
        tables.pdpt_entries(),
        tables.pd_tables(),
    )
    .unwrap();
    assert_eq!(mapped, 1024 * 1024 * 1024);
    assert_eq!(get_mapped_memory(&ctx), 1024 * 1024 * 1024);
}

#[test]
fn mapping_record_is_initialized_exactly_once() {
    // A second recording fails loudly and leaves the first untouched.
    let tables = setup_page_tables(1024 * 1024 * 1024);
    let map = MemoryMap::create_fallback();
    let mut ctx = PagingContext::new();
    init_full_memory_mapping(
        &mut ctx,
        &map,
        tables.pml4_entries(),
        tables.pdpt_entries(),
        tables.pd_tables(),
    )
    .unwrap();
    let other = setup_page_tables(256 * 1024 * 1024);
    let second = init_full_memory_mapping(
        &mut ctx,
        &map,
        other.pml4_entries(),
        other.pdpt_entries(),
        other.pd_tables(),
    );
    assert_eq!(second.err(), Some(PagingError::AlreadyInitialized));
    assert_eq!(get_mapped_memory(&ctx), 1024 * 1024 * 1024);
}

#[test]
fn teardown_succeeds_on_third_attempt() {
    // A firmware stub rejecting the first two attempts with a stale-key
    // error and accepting the third, each retry against a fresh key.
    let mut protocol = TeardownProtocol::new(100);
    assert_eq!(protocol.next_action(), TeardownAction::CallExitBootServices(100));
    protocol.step(TeardownEvent::ExitRejected(2));
    assert_eq!(protocol.next_action(), TeardownAction::QueryMemoryMap);
    protocol.step(TeardownEvent::MapQueried(101));
    assert_eq!(protocol.next_action(), TeardownAction::CallExitBootServices(101));
    protocol.step(TeardownEvent::ExitRejected(2));
    protocol.step(TeardownEvent::MapQueried(102));
    assert_eq!(protocol.next_action(), TeardownAction::CallExitBootServices(102));
    protocol.step(TeardownEvent::ExitAccepted);
    assert_eq!(protocol.state, TeardownState::Success);
    assert_eq!(protocol.attempts, 3);
    assert_eq!(protocol.next_action(), TeardownAction::EnterKernel);
}

#[test]
fn teardown_always_rejected_is_fatal_after_three() {
    let mut protocol = TeardownProtocol::new(100);
    protocol.step(TeardownEvent::ExitRejected(2));
    protocol.step(TeardownEvent::MapQueried(101));
    protocol.step(TeardownEvent::ExitRejected(2));
    protocol.step(TeardownEvent::MapQueried(102));
    protocol.step(TeardownEvent::ExitRejected(2));
    assert_eq!(protocol.state, TeardownState::Fatal);
    assert_eq!(protocol.attempts, 3);
    assert_eq!(protocol.next_action(), TeardownAction::Halt);
    // Exactly three attempts, not more: further events change nothing.
    protocol.step(TeardownEvent::MapQueried(103));
    assert_eq!(protocol.state, TeardownState::Fatal);
    assert_eq!(protocol.attempts, 3);
}

#[test]
fn teardown_query_failure_is_fatal() {
    let mut protocol = TeardownProtocol::new(100);
    protocol.step(TeardownEvent::ExitRejected(2));
    protocol.step(TeardownEvent::MapQueryFailed(7));
    assert_eq!(protocol.state, TeardownState::Fatal);
}

#[test]
fn handoff_sequence_is_strictly_ordered() {
    let steps = handoff_sequence(0x70000, KERNEL_STACK_TOP, KERNEL_ENTRY_ADDRESS);
    assert_eq!(
        steps,
        vec![
            CpuSetupStep::LoadPageTableRoot(0x70000),
            CpuSetupStep::DisableInterrupts,
            CpuSetupStep::SetStackPointer(0xA0000),
            CpuSetupStep::ClearDirectionFlag,
            CpuSetupStep::ClearGeneralRegisters,
            CpuSetupStep::JumpToKernel(0x200000),
        ]
    );
}

#[test]
fn kernel_image_validation() {
    let ok = KernelBuffer { data_addr: 0x500000, size: 0x100000 };
    assert!(validate_kernel_image(&ok).is_ok());
    let null = KernelBuffer { data_addr: 0, size: 0x1000 };
    assert_eq!(
        validate_kernel_image(&null).err(),
        Some(KernelImageError::NullPointer)
    );
    let empty = KernelBuffer { data_addr: 0x500000, size: 0 };
    assert_eq!(
        validate_kernel_image(&empty).err(),
        Some(KernelImageError::EmptyImage)
    );
    let huge = KernelBuffer { data_addr: 0x500000, size: MAX_KERNEL_SIZE + 1 };
    assert_eq!(
        validate_kernel_image(&huge).err(),
        Some(KernelImageError::TooLarge)
    );
}

#[test]
fn copy_verification_checks_leading_bytes() {
    let source = vec![1u8, 2, 3, 4, 5];
    let same = source.clone();
    assert!(verify_kernel_copy(&source, &same));
    let mut longer: Vec<u8> = (0u8..64).collect();
    let mut copy = longer.clone();
    assert!(verify_kernel_copy(&longer, &copy));
    copy[3] = 0xFF;
    assert!(!verify_kernel_copy(&longer, &copy));
    // A mismatch past the checked prefix goes unnoticed, as in the boot
    // phase's spot check.
    let mut copy2 = longer.clone();
    copy2[32] = 0xFF;
    assert!(verify_kernel_copy(&longer, &copy2));
    longer[2] = 9;
    let short = vec![longer[0], longer[1]];
    assert!(verify_kernel_copy(&short, &longer));
}

#[test]
fn decimal_rendering() {
    assert_eq!(decimal_digits(0), b"0");
    assert_eq!(decimal_digits(7), b"7");
    assert_eq!(decimal_digits(12345), b"12345");
    assert_eq!(decimal_digits(u64::MAX), b"18446744073709551615");
}

#[test]
fn hex_rendering() {
    assert_eq!(hex_digits(0xDE, 2), b"DE");
    assert_eq!(hex_digits(0x1234ABCD, 8), b"1234ABCD");
    assert_eq!(hex_digits(5, 4), b"0005");
    assert_eq!(hex_digits(0xFFFF_FFFF_FFFF_FFFF, 16), b"FFFFFFFFFFFFFFFF");
}

#[test]
fn utf16_conversion_null_terminates() {
    let mut buffer = vec![0xAAAAu16; 8];
    let count = utf8_to_utf16("Hi", &mut buffer);
    assert_eq!(count, 3);
    assert_eq!(&buffer[0..3], &[b'H' as u16, b'i' as u16, 0]);
    assert_eq!(buffer[3], 0xAAAA);
}

#[test]
fn utf16_conversion_respects_buffer_capacity() {
    let mut buffer = vec![0u16; 4];
    let count = utf8_to_utf16("abcdefgh", &mut buffer);
    assert_eq!(count, 4);
    assert_eq!(&buffer[..], &[b'a' as u16, b'b' as u16, b'c' as u16, 0]);
}
