//! Configuring the system before the vCPUs start: the device tree blob and
//! where it goes.

use vstd::prelude::*;
use crate::aia::AIADevice;
use crate::device::Device;
use crate::fdt::{all_wired, create_fdt, fdt_outcome, FdtError};
use crate::layout::SYSTEM_MEM_SIZE;
use crate::memory::{get_fdt_addr, spec_fdt_addr, GuestAddress, GuestMemory};
use crate::regs::UserReg;
use crate::vcpu::{boot_reg_accesses, user_reg_id, RegAccess};

verus! {

/// Errors thrown while configuring the system.
#[derive(Debug, PartialEq, Eq)]
pub enum ConfigurationError {
    /// Failed to create the device tree blob.
    SetupFDT(FdtError),
    /// Failed to write to guest memory.
    MemoryError,
}

/// The frequency of the timer that the device tree announces.
pub const TIMER_FREQUENCY: u32 = 0x989680;

/// A blob and the guest address at which it is to be written.
#[derive(Debug, PartialEq, Eq)]
pub struct FdtPlacement {
    /// Where the blob goes.
    pub addr: GuestAddress,
    /// The blob.
    pub blob: Vec<u8>,
}

/// What configuring the system returns: the blob of the guest's tree with
/// the platform's timer frequency, and its place in guest memory; or the
/// error of making the blob.
pub open spec fn configure_outcome(
    r: Result<FdtPlacement, ConfigurationError>,
    mem: GuestMemory,
    cmdline: Seq<u8>,
    devs: Seq<Device>,
    aia: AIADevice,
    nr_ids: Option<u32>,
) -> bool {
    match r {
        Ok(p) => p.addr.0 == spec_fdt_addr(mem) && fdt_outcome(
            Ok(p.blob),
            mem,
            cmdline,
            TIMER_FREQUENCY,
            devs,
            aia,
            nr_ids,
        ),
        Err(ConfigurationError::SetupFDT(e)) => fdt_outcome(
            Err(e),
            mem,
            cmdline,
            TIMER_FREQUENCY,
            devs,
            aia,
            nr_ids,
        ),
        Err(ConfigurationError::MemoryError) => false,
    }
}

/// Configures the system: makes the device tree blob and says where in guest
/// memory it is to be written. To be called once per virtual machine, before
/// its vCPUs start.
///
/// * `guest_mem` - The memory to be used by the guest.
/// * `cmdline` - The kernel command line, without its closing NUL.
/// * `device_info` - The attached devices.
/// * `aia_device` - The interrupt controller.
/// * `nr_ids` - The number of interrupt identities that the controller
///   reported, if it was asked and answered.
pub fn configure_system(
    guest_mem: &GuestMemory,
    cmdline: Vec<u8>,
    device_info: &[Device],
    aia_device: &AIADevice,
    nr_ids: Option<u32>,
) -> (r: Result<FdtPlacement, ConfigurationError>)
    requires
        guest_mem.spec_size() > SYSTEM_MEM_SIZE,
        all_wired(device_info@),
    ensures
        configure_outcome(r, *guest_mem, cmdline@, device_info@, *aia_device, nr_ids),
{
    let fdt = match create_fdt(
        guest_mem,
        cmdline,
        TIMER_FREQUENCY,
        device_info,
        aia_device,
        nr_ids,
    ) {
        Ok(blob) => blob,
        Err(e) => { return Err(ConfigurationError::SetupFDT(e)); },
    };
    let fdt_address = GuestAddress(get_fdt_addr(guest_mem));
    Ok(FdtPlacement { addr: fdt_address, blob: fdt })
}

/// The result of configuring the system once the blob was handed to guest
/// memory: `written` says whether guest memory took it.
pub fn placement_result(written: bool) -> (r: Result<(), ConfigurationError>)
    ensures
        written ==> r is Ok,
        !written ==> r is Err && r->Err_0 is MemoryError,
{
    if written {
        Ok(())
    } else {
        Err(ConfigurationError::MemoryError)
    }
}

/// Each hart finds the blob: the address that a hart is given in `a1` for
/// booting in a guest's memory is the address at which configuring the
/// system places the blob in that memory.
pub proof fn lemma_hart_finds_blob(
    placement: FdtPlacement,
    mem: GuestMemory,
    cmdline: Seq<u8>,
    devs: Seq<Device>,
    aia: AIADevice,
    nr_ids: Option<u32>,
    cpu_id: u8,
    kernel_entry_addr: u64,
)
    requires
        configure_outcome(Ok(placement), mem, cmdline, devs, aia, nr_ids),
    ensures
        boot_reg_accesses(cpu_id, kernel_entry_addr, spec_fdt_addr(mem))[4] == (RegAccess::Write {
            id: user_reg_id(UserReg::A1),
            value: placement.addr.0,
        }),
{
}

} // verus!
