//! Plain firmware interface data: status codes, record layouts, and memory
//! descriptor types.
//!
//! Only the data crosses into this crate; the calls through the firmware's
//! function tables stay outside it.

use vstd::prelude::*;

verus! {

/// Firmware status code: success.
pub const EFI_SUCCESS: usize = 0;

/// Firmware status code: image load error.
pub const EFI_LOAD_ERROR: usize = 1;

/// Firmware status code: invalid parameter.
pub const EFI_INVALID_PARAMETER: usize = 2;

/// Firmware status code: unsupported operation.
pub const EFI_UNSUPPORTED: usize = 3;

/// Firmware status code: bad buffer size.
pub const EFI_BAD_BUFFER_SIZE: usize = 4;

/// Firmware status code: buffer too small.
pub const EFI_BUFFER_TOO_SMALL: usize = 5;

/// Firmware status code: not ready.
pub const EFI_NOT_READY: usize = 6;

/// Firmware status code: device error.
pub const EFI_DEVICE_ERROR: usize = 7;

/// Firmware status code: write protected.
pub const EFI_WRITE_PROTECTED: usize = 8;

/// Firmware status code: out of resources.
pub const EFI_OUT_OF_RESOURCES: usize = 9;

/// Firmware status code: not found.
pub const EFI_NOT_FOUND: usize = 14;

/// Convert a firmware status code to a human-readable string.
pub fn status_to_string(status: usize) -> (r: &'static str)
    ensures
        status == EFI_SUCCESS ==> r@ == "Success"@,
        status == EFI_LOAD_ERROR ==> r@ == "Load Error"@,
        status == EFI_INVALID_PARAMETER ==> r@ == "Invalid Parameter"@,
        status == EFI_UNSUPPORTED ==> r@ == "Unsupported"@,
        status == EFI_BAD_BUFFER_SIZE ==> r@ == "Bad Buffer Size"@,
        status == EFI_BUFFER_TOO_SMALL ==> r@ == "Buffer Too Small"@,
        status == EFI_NOT_READY ==> r@ == "Not Ready"@,
        status == EFI_DEVICE_ERROR ==> r@ == "Device Error"@,
        status == EFI_WRITE_PROTECTED ==> r@ == "Write Protected"@,
        status == EFI_OUT_OF_RESOURCES ==> r@ == "Out of Resources"@,
        status == EFI_NOT_FOUND ==> r@ == "Not Found"@,
        (status != EFI_SUCCESS && status != EFI_LOAD_ERROR && status != EFI_INVALID_PARAMETER
            && status != EFI_UNSUPPORTED && status != EFI_BAD_BUFFER_SIZE
            && status != EFI_BUFFER_TOO_SMALL && status != EFI_NOT_READY
            && status != EFI_DEVICE_ERROR && status != EFI_WRITE_PROTECTED
            && status != EFI_OUT_OF_RESOURCES && status != EFI_NOT_FOUND)
            ==> r@ == "Unknown Error"@,
{
    match status {
        0 => "Success",
        1 => "Load Error",
        2 => "Invalid Parameter",
        3 => "Unsupported",
        4 => "Bad Buffer Size",
        5 => "Buffer Too Small",
        6 => "Not Ready",
        7 => "Device Error",
        8 => "Write Protected",
        9 => "Out of Resources",
        14 => "Not Found",
        _ => "Unknown Error",
    }
}

/// A firmware GUID.
#[allow(non_camel_case_types)]
#[derive(Debug, Clone, Copy, PartialEq, Eq)]
pub struct EFI_GUID {
    pub data1: u32,
    pub data2: u16,
    pub data3: u16,
    pub data4: [u8; 8],
}

/// The common header of every firmware table.
#[allow(non_camel_case_types)]
#[derive(Debug, Clone, Copy, PartialEq, Eq, Structural)]
pub struct EFI_TABLE_HEADER {
    pub signature: u64,
    pub revision: u32,
    pub header_size: u32,
    pub crc32: u32,
    pub reserved: u32,
}

/// The firmware's runtime services table; only its header matters here.
#[allow(non_camel_case_types)]
#[derive(Debug, Clone, Copy, PartialEq, Eq, Structural)]
pub struct EFI_RUNTIME_SERVICES {
    pub hdr: EFI_TABLE_HEADER,
}

/// A firmware timestamp.
#[allow(non_camel_case_types)]
#[derive(Debug, Clone, Copy, PartialEq, Eq, Structural)]
pub struct EFI_TIME {
    pub year: u16,
    pub month: u8,
    pub day: u8,
    pub hour: u8,
    pub minute: u8,
    pub second: u8,
    pub pad1: u8,
    pub nanosecond: u32,
    pub time_zone: i16,
    pub daylight: u8,
    pub pad2: u8,
}

/// Fixed-size head of the firmware's file information record; the variable
/// length file name follows it in memory and stays outside this crate.
#[allow(non_camel_case_types)]
#[derive(Debug, Clone, Copy, PartialEq, Eq, Structural)]
pub struct EFI_FILE_INFO {
    pub size: u64,
    pub file_size: u64,
    pub physical_size: u64,
    pub create_time: EFI_TIME,
    pub last_access_time: EFI_TIME,
    pub modification_time: EFI_TIME,
    pub attribute: u64,
}

/// Firmware memory type: reserved.
pub const EFI_RESERVED_MEMORY_TYPE: u32 = 0;

/// Firmware memory type: loader code.
pub const EFI_LOADER_CODE: u32 = 1;

/// Firmware memory type: loader data.
pub const EFI_LOADER_DATA: u32 = 2;

/// Firmware memory type: boot services code.
pub const EFI_BOOT_SERVICES_CODE: u32 = 3;

/// Firmware memory type: boot services data.
pub const EFI_BOOT_SERVICES_DATA: u32 = 4;

/// Firmware memory type: runtime services code.
pub const EFI_RUNTIME_SERVICES_CODE: u32 = 5;

/// Firmware memory type: runtime services data.
pub const EFI_RUNTIME_SERVICES_DATA: u32 = 6;

/// Firmware memory type: conventional memory.
pub const EFI_CONVENTIONAL_MEMORY: u32 = 7;

/// Firmware memory type: unusable memory.
pub const EFI_UNUSABLE_MEMORY: u32 = 8;

/// Firmware memory type: ACPI reclaimable memory.
pub const EFI_ACPI_RECLAIM_MEMORY: u32 = 9;

/// Firmware memory type: ACPI NVS memory.
pub const EFI_ACPI_MEMORY_NVS: u32 = 10;

/// Firmware memory type: memory-mapped I/O.
pub const EFI_MEMORY_MAPPED_IO: u32 = 11;

/// Firmware memory type: memory-mapped I/O port space.
pub const EFI_MEMORY_MAPPED_IO_PORT_SPACE: u32 = 12;

/// Firmware memory type: processor firmware code.
pub const EFI_PAL_CODE: u32 = 13;

/// Firmware memory type: persistent memory.
pub const EFI_PERSISTENT_MEMORY: u32 = 14;

/// One record of the firmware's memory map.
#[allow(non_camel_case_types)]
#[derive(Debug, Clone, Copy, PartialEq, Eq, Structural)]
pub struct EFI_MEMORY_DESCRIPTOR {
    pub memory_type: u32,
    pub physical_start: u64,
    pub virtual_start: u64,
    pub number_of_pages: u64,
    pub attribute: u64,
}

/// Legacy memory region type: usable RAM.
pub const E820_USABLE: u32 = 1;

/// Legacy memory region type: reserved.
pub const E820_RESERVED: u32 = 2;

/// Legacy memory region type: ACPI reclaimable.
pub const E820_ACPI_RECLAIMABLE: u32 = 3;

/// Legacy memory region type: ACPI NVS.
pub const E820_ACPI_NVS: u32 = 4;

/// Legacy memory region type: bad memory.
pub const E820_BAD_MEMORY: u32 = 5;

/// One legacy-layout memory region record, 24 bytes in its stored form.
#[allow(non_camel_case_types)]
#[derive(Debug, Clone, Copy, PartialEq, Eq, Structural)]
pub struct E820Entry {
    pub base: u64,
    pub length: u64,
    pub entry_type: u32,
    pub acpi: u32,
}

} // verus!
