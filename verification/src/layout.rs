//! The guest physical memory map.
//!
//! ```text
//!  1022GB +----------------------------+ DRAM_MEM_MAX_SIZE
//!         |             .              |
//!         +----------------------------+ actual end of RAM
//!         |                            |
//! 2MB+2GB +----------------------------+ kernel start
//!         |                            |
//!     2GB +----------------------------+ DRAM_MEM_START / FDT_START
//!         |                            |
//!     1GB +----------------------------+ MAPPED_IO_START
//!         |                            |
//!   128MB +----------------------------+ IMSIC_START
//!         |                            |
//!       0 +----------------------------+ APLIC_START
//! ```

use vstd::prelude::*;

verus! {

/// Start of RAM.
pub const DRAM_MEM_START: u64 = 0x8000_0000;

/// The maximum RAM size: 1022 GiB.
pub const DRAM_MEM_MAX_SIZE: u64 = 0x00FF_8000_0000;

/// Start of the memory reserved for the system at the bottom of RAM.
pub const SYSTEM_MEM_START: u64 = DRAM_MEM_START;

/// Size of the memory reserved for the system at the bottom of RAM.
pub const SYSTEM_MEM_SIZE: u64 = 0x20_0000;

/// Kernel command line maximum size.
pub const CMDLINE_MAX_SIZE: usize = 1024;

/// Where the device tree blob goes in a guest too small to hold a blob of the
/// maximum size below the end of its RAM.
pub const FDT_START: u64 = DRAM_MEM_START;

/// The largest device tree blob that is placed in guest memory.
pub const FDT_MAX_SIZE: u64 = 0x1_0000;

/// The highest interrupt line.
pub const IRQ_MAX: u32 = 1023;

/// First usable interrupt line.
pub const IRQ_BASE: u32 = 1;

/// Below this address resides the interrupt controller, above it the MMIO devices.
pub const MAPPED_IO_START: u64 = 0x4000_0000;

/// Start of the bank of per-hart interrupt receivers.
pub const IMSIC_START: u64 = 0x0800_0000;

/// Size of the register window of one per-hart interrupt receiver.
pub const IMSIC_SZ_PH: u64 = 0x1000;

/// Start of the register window of the platform interrupt arbiter.
pub const APLIC_START: u64 = 0x00;

/// Size of the register window of the platform interrupt arbiter.
pub const APLIC_SIZE: u64 = 0x4000;

/// The start of the memory area reserved for MMIO devices.
pub const MMIO_MEM_START: u64 = MAPPED_IO_START;

/// The size of the memory area reserved for MMIO devices.
pub const MMIO_MEM_SIZE: u64 = DRAM_MEM_START - MAPPED_IO_START;

} // verus!
