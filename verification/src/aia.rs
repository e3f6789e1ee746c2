//! The interrupt-controller topology: a platform-level arbiter and, where the
//! host supports message-signaled delivery, one interrupt receiver per hart.
//!
//! The arbiter sits at the bottom of the address range below the MMIO
//! devices, the bank of receivers above it. The addresses do not depend on
//! whether the receivers exist.

use vstd::prelude::*;
use crate::host::HostError;
use crate::layout::{APLIC_SIZE, APLIC_START, IMSIC_START, IMSIC_SZ_PH};

verus! {

/// Errors of the interrupt controller.
#[derive(Debug, PartialEq, Eq)]
pub enum AiaError {
    /// The host refused to create the controller.
    CreateAIA(HostError),
    /// The host refused to get or set an attribute: its error, whether it was
    /// a set, and the attribute group.
    DeviceAttribute(HostError, bool, u32),
}

/// Saved state of the interrupt controller.
#[derive(Debug, Clone, Copy, PartialEq, Eq, Structural)]
pub struct AiaState;

impl Default for AiaState {
    fn default() -> (s: Self)
        ensures
            s == AiaState,
    {
        AiaState
    }
}

/// Text by which the device tree names the kind of the interrupt receivers.
pub const IMSIC_COMPATIBILITY: &'static str = "riscv,imsics";

/// Text by which the device tree names the kind of the arbiter.
pub const APLIC_COMPATIBILITY: &'static str = "riscv,aplic";

/// The interrupt controller of a guest, as the host created it.
#[derive(Debug, Clone, Copy, PartialEq, Eq, Structural)]
pub struct AIADevice {
    vcpu_count: u8,
    msi: bool,
}

/// The register window `[base, base + size)` as the four cells of a `reg`
/// property with two address cells and two size cells.
pub open spec fn window_cells(base: u64, size: u64) -> Seq<u32> {
    seq![(base >> 32) as u32, (base & 0xffff_ffff) as u32, (size >> 32) as u32, (size
        & 0xffff_ffff) as u32]
}

/// The four cells of the register window `[base, base + size)`.
pub fn window(base: u64, size: u64) -> (cells: [u32; 4])
    ensures
        cells@ == window_cells(base, size),
{
    let cells: [u32; 4] = [
        (base >> 32) as u32,
        (base & 0xffff_ffff) as u32,
        (size >> 32) as u32,
        (size & 0xffff_ffff) as u32,
    ];
    assert(cells@ =~= window_cells(base, size));
    cells
}

impl AIADevice {
    /// The topology of a controller that the host created for `vcpu_count`
    /// harts, with message-signaled delivery or without.
    pub fn new(vcpu_count: u8, msi: bool) -> (aia: Self)
        ensures
            aia.spec_vcpu_count() == vcpu_count,
            aia.spec_msi() == msi,
    {
        AIADevice { vcpu_count, msi }
    }

    /// The number of harts.
    pub closed spec fn spec_vcpu_count(self) -> u8 {
        self.vcpu_count
    }

    /// Whether the controller has message-signaled receivers.
    pub closed spec fn spec_msi(self) -> bool {
        self.msi
    }

    /// The register window of the arbiter.
    pub open spec fn spec_aplic_properties(self) -> Seq<u32> {
        window_cells(APLIC_START, APLIC_SIZE)
    }

    /// The register window of the bank of receivers: one window per hart,
    /// side by side.
    pub open spec fn spec_imsic_properties(self) -> Seq<u32> {
        window_cells(IMSIC_START, (IMSIC_SZ_PH * self.spec_vcpu_count()) as u64)
    }

    /// Returns whether the controller delivers message-signaled interrupts.
    pub fn msi_compatible(&self) -> (b: bool)
        ensures
            b == self.spec_msi(),
    {
        self.msi
    }

    /// Returns the number of harts that the controller serves.
    pub fn vcpu_count(&self) -> (n: u64)
        ensures
            n == self.spec_vcpu_count(),
    {
        self.vcpu_count as u64
    }

    /// Returns the text by which the device tree names the kind of the
    /// receivers.
    pub fn imsic_compatibility(&self) -> (s: &'static str)
        ensures
            s@ == IMSIC_COMPATIBILITY@,
    {
        IMSIC_COMPATIBILITY
    }

    /// Returns the text by which the device tree names the kind of the
    /// arbiter.
    pub fn aplic_compatibility(&self) -> (s: &'static str)
        ensures
            s@ == APLIC_COMPATIBILITY@,
    {
        APLIC_COMPATIBILITY
    }

    /// Returns the register window of the bank of receivers.
    pub fn imsic_properties(&self) -> (cells: [u32; 4])
        ensures
            cells@ == self.spec_imsic_properties(),
    {
        window(IMSIC_START, IMSIC_SZ_PH * (self.vcpu_count as u64))
    }

    /// Returns the register window of the arbiter.
    pub fn aplic_properties(&self) -> (cells: [u32; 4])
        ensures
            cells@ == self.spec_aplic_properties(),
    {
        window(APLIC_START, APLIC_SIZE)
    }
}

/// The arbiter and the bank of receivers lie side by side below the MMIO
/// devices, whatever the number of harts.
pub proof fn lemma_windows_disjoint(aia: AIADevice)
    ensures
        APLIC_START + APLIC_SIZE <= IMSIC_START,
        IMSIC_START + IMSIC_SZ_PH * aia.spec_vcpu_count() <= crate::layout::MAPPED_IO_START,
{
}

} // verus!
