//! Guest memory geometry: where RAM lies, where the kernel is loaded and
//! where the device tree blob is placed.

use vstd::prelude::*;
use crate::layout::{
    DRAM_MEM_MAX_SIZE, DRAM_MEM_START, FDT_MAX_SIZE, FDT_START, SYSTEM_MEM_SIZE, SYSTEM_MEM_START,
};

verus! {

/// A guest physical address.
#[derive(Debug, Clone, Copy, PartialEq, Eq, Structural)]
pub struct GuestAddress(pub u64);

impl GuestAddress {
    /// The address as a number.
    pub fn raw_value(&self) -> (a: u64)
        ensures
            a == self.0,
    {
        self.0
    }
}

/// The RAM of a guest: one contiguous region `[start, start + size)` that
/// begins at the platform's start of RAM and is not larger than the platform
/// allows.
#[derive(Debug, Clone, Copy)]
pub struct GuestMemory {
    start: u64,
    size: u64,
}

/// Whether `[start, start + size)` is a region that a guest's RAM can be.
pub open spec fn valid_region(start: u64, size: int) -> bool {
    start == DRAM_MEM_START && 0 < size <= DRAM_MEM_MAX_SIZE
}

impl GuestMemory {
    /// Every guest memory is a region that a guest's RAM can be.
    #[verifier::type_invariant]
    spec fn inv(self) -> bool {
        valid_region(self.start, self.size as int)
    }

    /// First address of the region.
    pub closed spec fn spec_start(self) -> u64 {
        self.start
    }

    /// Number of bytes in the region.
    pub closed spec fn spec_size(self) -> u64 {
        self.size
    }

    /// Last address of the region.
    pub open spec fn spec_last_addr(self) -> int {
        self.spec_start() + self.spec_size() - 1
    }

    /// Whether the fields make up a region that a guest's RAM can be. It holds
    /// of every value that `from_regions` returned.
    pub open spec fn wf(self) -> bool {
        valid_region(self.spec_start(), self.spec_size() as int)
    }

    /// The guest memory made of `regions`, where they are one region that a
    /// guest's RAM can be.
    pub fn from_regions(regions: &Vec<(GuestAddress, usize)>) -> (r: Option<GuestMemory>)
        ensures
            r is Some <==> regions@.len() == 1 && valid_region(
                regions@[0].0.0,
                regions@[0].1 as int,
            ),
            r matches Some(m) ==> m.wf() && m.spec_start() == regions@[0].0.0 && m.spec_size()
                == regions@[0].1,
    {
        if regions.len() != 1 {
            return None;
        }
        let start: u64 = regions[0].0.0;
        let size: usize = regions[0].1;
        if start != DRAM_MEM_START || size == 0 || size as u64 > DRAM_MEM_MAX_SIZE {
            return None;
        }
        Some(GuestMemory { start, size: size as u64 })
    }

    /// First address of the region.
    pub fn start_addr(&self) -> (a: GuestAddress)
        ensures
            self.wf(),
            a.0 == self.spec_start(),
    {
        proof {
            use_type_invariant(self);
        }
        GuestAddress(self.start)
    }

    /// Number of bytes in the region.
    pub fn size(&self) -> (n: u64)
        ensures
            self.wf(),
            n == self.spec_size(),
    {
        proof {
            use_type_invariant(self);
        }
        self.size
    }

    /// Last address of the region.
    pub fn last_addr(&self) -> (a: GuestAddress)
        ensures
            self.wf(),
            a.0 == self.spec_last_addr(),
    {
        proof {
            use_type_invariant(self);
        }
        GuestAddress(self.start + (self.size - 1))
    }

    /// Whether `addr` lies in the region.
    pub fn address_in_range(&self, addr: GuestAddress) -> (b: bool)
        ensures
            self.wf(),
            b == (self.spec_start() <= addr.0 <= self.spec_last_addr()),
    {
        proof {
            use_type_invariant(self);
        }
        self.start <= addr.0 && addr.0 - self.start < self.size
    }
}

/// The size of the RAM region of a guest that asks for `size` bytes.
pub open spec fn spec_dram_size(size: usize) -> usize {
    if size <= DRAM_MEM_MAX_SIZE {
        size
    } else {
        DRAM_MEM_MAX_SIZE as usize
    }
}

/// Returns the valid memory regions of a guest that asks for `size` bytes of
/// RAM: one region at the start of RAM, of the size asked for but not larger
/// than the platform's maximum.
pub fn arch_memory_regions(size: usize) -> (regions: Vec<(GuestAddress, usize)>)
    ensures
        regions@.len() == 1,
        regions@[0].0 == GuestAddress(DRAM_MEM_START),
        regions@[0].1 == spec_dram_size(size),
        regions@[0].1 <= DRAM_MEM_MAX_SIZE,
        regions@[0].1 <= size,
{
    let dram_size: usize = if size as u64 <= DRAM_MEM_MAX_SIZE {
        size
    } else {
        DRAM_MEM_MAX_SIZE as usize
    };
    let mut regions: Vec<(GuestAddress, usize)> = Vec::new();
    regions.push((GuestAddress(DRAM_MEM_START), dram_size));
    regions
}

/// The address at which the kernel is loaded.
pub open spec fn spec_kernel_start() -> u64 {
    (SYSTEM_MEM_START + SYSTEM_MEM_SIZE) as u64
}

/// Returns the memory address where the kernel could be loaded.
pub fn get_kernel_start() -> (a: u64)
    ensures
        a == spec_kernel_start(),
        a == 0x8020_0000,
{
    SYSTEM_MEM_START + SYSTEM_MEM_SIZE
}

/// The address at which the device tree blob is placed in `mem`: as high as a
/// blob of the maximum size fits, or at the start of RAM where the region is
/// too small for one.
pub open spec fn spec_fdt_addr(mem: GuestMemory) -> u64 {
    if mem.spec_size() >= FDT_MAX_SIZE {
        (mem.spec_last_addr() - FDT_MAX_SIZE + 1) as u64
    } else {
        FDT_START
    }
}

/// Returns the address where the device tree blob is loaded.
pub fn get_fdt_addr(mem: &GuestMemory) -> (addr: u64)
    ensures
        addr == spec_fdt_addr(*mem),
        mem.spec_size() < FDT_MAX_SIZE ==> addr == DRAM_MEM_START,
        mem.spec_size() >= FDT_MAX_SIZE ==> addr == mem.spec_last_addr() - FDT_MAX_SIZE + 1,
        mem.spec_start() <= addr <= mem.spec_last_addr(),
{
    let last: u64 = mem.last_addr().raw_value();
    if let Some(addr) = last.checked_sub(FDT_MAX_SIZE - 1) {
        if mem.address_in_range(GuestAddress(addr)) {
            return addr;
        }
    }
    FDT_START
}

/// The placement address is a function of the region alone: the start of RAM
/// for a region smaller than the largest blob, else the last address that
/// leaves room for such a blob.
pub proof fn lemma_fdt_addr_fallback(mem: GuestMemory)
    requires
        mem.wf(),
    ensures
        mem.spec_size() < FDT_MAX_SIZE ==> spec_fdt_addr(mem) == DRAM_MEM_START,
        mem.spec_size() >= FDT_MAX_SIZE ==> spec_fdt_addr(mem) == mem.spec_last_addr()
            - FDT_MAX_SIZE + 1,
        mem.spec_start() <= spec_fdt_addr(mem) <= mem.spec_last_addr(),
        spec_fdt_addr(mem) + FDT_MAX_SIZE > mem.spec_last_addr(),
{
}

} // verus!
