//! The life of a virtual machine, as far as the architecture is concerned:
//! created, then given its interrupt controller once all vCPUs exist.

use vstd::prelude::*;
use crate::aia::{AIADevice, AiaError, AiaState};

verus! {

/// Errors of the architecture's part of a virtual machine.
#[derive(Debug, PartialEq, Eq)]
pub enum ArchVmError {
    /// Error creating the global interrupt controller.
    VmCreateAIA(AiaError),
    /// Failed to save the state of the interrupt controller.
    SaveAia(AiaError),
    /// Failed to restore the state of the interrupt controller.
    RestoreAia(AiaError),
}

/// The architecture's part of the state of a virtual machine.
#[derive(Debug, Clone, Copy, PartialEq, Eq, Structural)]
pub struct VmState {
    /// State of the interrupt controller.
    pub aia: AiaState,
}

impl Default for VmState {
    fn default() -> (s: Self)
        ensures
            s == (VmState { aia: AiaState }),
    {
        VmState { aia: AiaState }
    }
}

/// What the architecture knows of a virtual machine besides its handle on
/// the host: its interrupt controller, once it is created.
#[derive(Debug, Clone, Copy, PartialEq, Eq, Structural)]
pub struct ArchVm {
    irqchip_handle: Option<AIADevice>,
}

impl ArchVm {
    /// The interrupt controller, if it was created.
    pub closed spec fn spec_irqchip(self) -> Option<AIADevice> {
        self.irqchip_handle
    }

    /// A virtual machine that was just created: it has no interrupt
    /// controller yet.
    pub fn new() -> (vm: ArchVm)
        ensures
            vm.spec_irqchip() is None,
    {
        ArchVm { irqchip_handle: None }
    }

    /// Pre-vCPU creation setup: there is none.
    pub fn arch_pre_create_vcpus(&mut self, nr_vcpus: u8) -> (r: Result<(), ArchVmError>)
        ensures
            r is Ok,
            *final(self) == *old(self),
    {
        Ok(())
    }

    /// Post-vCPU creation setup: the interrupt controller, sized for the
    /// vCPUs. `created` is the host's answer to its creation: whether it
    /// delivers message-signaled interrupts, or why it was refused.
    pub fn arch_post_create_vcpus(&mut self, nr_vcpus: u8, created: Result<bool, AiaError>) -> (r:
        Result<(), ArchVmError>)
        ensures
            irqchip_outcome(*old(self), *final(self), r, nr_vcpus, created),
    {
        self.setup_irqchip(nr_vcpus, created)
    }

    /// Records the interrupt controller that the host created for
    /// `vcpu_count` vCPUs. Where the host refused, the virtual machine stays
    /// as it was.
    pub fn setup_irqchip(&mut self, vcpu_count: u8, created: Result<bool, AiaError>) -> (r: Result<
        (),
        ArchVmError,
    >)
        ensures
            irqchip_outcome(*old(self), *final(self), r, vcpu_count, created),
    {
        match created {
            Ok(msi) => {
                self.irqchip_handle = Some(AIADevice::new(vcpu_count, msi));
                Ok(())
            },
            Err(e) => Err(ArchVmError::VmCreateAIA(e)),
        }
    }

    /// Whether the interrupt controller was created.
    pub fn has_irqchip(&self) -> (b: bool)
        ensures
            b == self.spec_irqchip() is Some,
    {
        self.irqchip_handle.is_some()
    }

    /// Gets the interrupt controller of a virtual machine that has one.
    pub fn get_irqchip(&self) -> (aia: &AIADevice)
        requires
            self.spec_irqchip() is Some,
        ensures
            Some(*aia) == self.spec_irqchip(),
    {
        self.irqchip_handle.as_ref().unwrap()
    }
}

/// What setting up the interrupt controller leaves behind and returns.
pub open spec fn irqchip_outcome(
    before: ArchVm,
    after: ArchVm,
    r: Result<(), ArchVmError>,
    vcpu_count: u8,
    created: Result<bool, AiaError>,
) -> bool {
    match created {
        Ok(msi) => {
            &&& r is Ok
            &&& after.spec_irqchip() matches Some(aia)
            &&& aia.spec_vcpu_count() == vcpu_count
            &&& aia.spec_msi() == msi
        },
        Err(e) => r == Err::<(), ArchVmError>(ArchVmError::VmCreateAIA(e)) && after == before,
    }
}

} // verus!
