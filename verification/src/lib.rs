//! Memory bootstrap chain of a minimal operating system: firmware memory map
//! acquisition and normalization, physical frame allocation, identity-mapped
//! page table construction, heap bootstrap, and the boot-services teardown
//! protocol.

pub mod efi;
pub mod fmt;
pub mod frame_allocator;
pub mod handoff;
pub mod heap;
pub mod memory_map;
pub mod paging;
pub mod phys;
pub mod teardown;
