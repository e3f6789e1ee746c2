//! Setting up a vCPU for boot.
//!
//! The library says which registers are to be read and written, in which
//! order and with which values; the caller performs each access on the host
//! and stops at the first that fails.

use vstd::prelude::*;
use crate::host::HostError;
use crate::memory::{get_fdt_addr, spec_fdt_addr, GuestMemory};
use crate::regs::{
    core_reg_offset, lemma_reg_id_distinct, RegGroup, riscv64_reg_config_id, riscv64_reg_core_id, riscv64_reg_timer_id, spec_reg_id,
    ConfigField, Riscv64RegisterVec, TimerField, UserReg, KVM_REG_RISCV_CONFIG,
    KVM_REG_RISCV_CORE, KVM_REG_RISCV_TIMER,
};

verus! {

/// Errors thrown while setting registers.
#[derive(Debug, PartialEq, Eq)]
pub enum VcpuArchError {
    /// Failed to get the register of this identifier.
    GetOneReg(u64, HostError),
    /// Failed to set the register of this identifier.
    SetOneReg(u64, HostError),
    /// Failed to retrieve the list of registers.
    GetRegList(HostError),
    /// Failed to get the multiprocessor state.
    GetMp(HostError),
    /// Failed to set the multiprocessor state.
    SetMp(HostError),
}

/// Errors of creating and using a vCPU.
#[derive(Debug, PartialEq, Eq)]
pub enum KvmVcpuError {
    /// Error configuring the vCPU registers.
    ConfigureRegisters(VcpuArchError),
    /// Error creating the vCPU.
    CreateVcpu(HostError),
    /// Failed to dump the CPU configuration.
    DumpCpuConfig(VcpuArchError),
    /// Error getting the vCPU's preferred target.
    GetPreferredTarget(HostError),
    /// Error initializing the vCPU.
    Init(HostError),
    /// Error applying a template.
    ApplyCpuTemplate(VcpuArchError),
    /// Failed to restore the state of the vCPU.
    RestoreState(VcpuArchError),
    /// Failed to save the state of the vCPU.
    SaveState(VcpuArchError),
}

/// One access to a register of a vCPU.
#[derive(Debug, Clone, Copy, PartialEq, Eq, Structural)]
pub enum RegAccess {
    /// Read the register.
    Read { id: u64 },
    /// Write to the register the value that the last read of it returned.
    WriteBack { id: u64 },
    /// Write the value to the register, least significant byte first.
    Write { id: u64, value: u64 },
}

impl RegAccess {
    /// The identifier of the register that is accessed.
    pub open spec fn spec_id(self) -> u64 {
        match self {
            RegAccess::Read { id } => id,
            RegAccess::WriteBack { id } => id,
            RegAccess::Write { id, .. } => id,
        }
    }

    /// The identifier of the register that is accessed.
    pub fn id(&self) -> (id: u64)
        ensures
            id == self.spec_id(),
    {
        match self {
            RegAccess::Read { id } => *id,
            RegAccess::WriteBack { id } => *id,
            RegAccess::Write { id, .. } => *id,
        }
    }

    /// The error to return where the host refused this access with `err`.
    pub fn failed(&self, err: HostError) -> (e: VcpuArchError)
        ensures
            e == match *self {
                RegAccess::Read { id } => VcpuArchError::GetOneReg(id, err),
                RegAccess::WriteBack { id } => VcpuArchError::SetOneReg(id, err),
                RegAccess::Write { id, .. } => VcpuArchError::SetOneReg(id, err),
            },
    {
        match self {
            RegAccess::Read { id } => VcpuArchError::GetOneReg(*id, err),
            RegAccess::WriteBack { id } => VcpuArchError::SetOneReg(*id, err),
            RegAccess::Write { id, .. } => VcpuArchError::SetOneReg(*id, err),
        }
    }
}

/// Identifier of the register that describes the instruction set.
pub open spec fn isa_reg_id() -> u64 {
    spec_reg_id(KVM_REG_RISCV_CONFIG, 8 * ConfigField::Isa.spec_index())
}

/// Identifier of a general-purpose register.
pub open spec fn user_reg_id(reg: UserReg) -> u64 {
    spec_reg_id(KVM_REG_RISCV_CORE, 8 * reg.spec_index())
}

/// Identifier of the register that holds the frequency of the timer.
pub open spec fn timer_freq_reg_id() -> u64 {
    spec_reg_id(KVM_REG_RISCV_TIMER, 8 * TimerField::Frequency.spec_index())
}

/// The accesses that prepare hart `cpu_id` to enter the kernel at
/// `kernel_entry_addr`, with the device tree blob at `fdt_addr`.
///
/// The instruction-set register is read and written back unchanged: some
/// hosts honor it only then. Then the hart is told its number in `a0`, the
/// kernel's entry in `pc` and the address of the device tree blob in `a1`.
/// The timer's frequency is read last.
pub open spec fn boot_reg_accesses(cpu_id: u8, kernel_entry_addr: u64, fdt_addr: u64) -> Seq<
    RegAccess,
> {
    seq![
        RegAccess::Read { id: isa_reg_id() },
        RegAccess::WriteBack { id: isa_reg_id() },
        RegAccess::Write { id: user_reg_id(UserReg::A0), value: cpu_id as u64 },
        RegAccess::Write { id: user_reg_id(UserReg::Pc), value: kernel_entry_addr },
        RegAccess::Write { id: user_reg_id(UserReg::A1), value: fdt_addr },
        RegAccess::Read { id: timer_freq_reg_id() },
    ]
}

/// Returns the register accesses to make, in order, before hart `cpu_id`
/// boots a kernel at `kernel_entry_addr` in a guest with the memory
/// `guest_mem`. The hart is told the address at which the device tree blob is
/// placed in that memory.
pub fn setup_boot_regs(guest_mem: &GuestMemory, cpu_id: u8, kernel_entry_addr: u64) -> (accesses:
    Vec<RegAccess>)
    ensures
        accesses@ == boot_reg_accesses(cpu_id, kernel_entry_addr, spec_fdt_addr(*guest_mem)),
{
    let mut accesses: Vec<RegAccess> = Vec::new();
    let off_isa = ConfigField::Isa.offset();
    let id_isa = riscv64_reg_config_id(off_isa);

    accesses.push(RegAccess::Read { id: id_isa });
    accesses.push(RegAccess::WriteBack { id: id_isa });

    let off_a0 = core_reg_offset(UserReg::A0);
    let id_a0 = riscv64_reg_core_id(off_a0);
    accesses.push(RegAccess::Write { id: id_a0, value: cpu_id as u64 });

    let off_pc = core_reg_offset(UserReg::Pc);
    let id_pc = riscv64_reg_core_id(off_pc);
    accesses.push(RegAccess::Write { id: id_pc, value: kernel_entry_addr });

    let fdt_addr: u64 = get_fdt_addr(guest_mem);
    let off_a1 = core_reg_offset(UserReg::A1);
    let id_a1 = riscv64_reg_core_id(off_a1);
    accesses.push(RegAccess::Write { id: id_a1, value: fdt_addr });

    let timer_freq_off = TimerField::Frequency.offset();
    let timer_freq_id = riscv64_reg_timer_id(timer_freq_off);
    accesses.push(RegAccess::Read { id: timer_freq_id });

    assert(accesses@ =~= boot_reg_accesses(
        cpu_id,
        kernel_entry_addr,
        spec_fdt_addr(*guest_mem),
    ));
    accesses
}

/// What is known of a vCPU besides its handle on the host.
#[derive(Debug, Clone, Copy, PartialEq, Eq, Structural)]
pub struct KvmVcpu {
    /// Index of the vCPU.
    pub index: u8,
}

impl KvmVcpu {
    /// The vCPU of index `index`, from the host's answer to its creation.
    pub fn new(index: u8, created: Result<(), HostError>) -> (r: Result<
        Self,
        KvmVcpuError,
    >)
        ensures
            r == match created {
                Ok(_) => Ok::<Self, KvmVcpuError>(KvmVcpu { index }),
                Err(e) => Err::<Self, KvmVcpuError>(KvmVcpuError::CreateVcpu(e)),
            },
    {
        match created {
            Ok(_) => Ok(KvmVcpu { index }),
            Err(e) => Err(KvmVcpuError::CreateVcpu(e)),
        }
    }

    /// Returns the register accesses that configure the vCPU for booting a
    /// kernel at `kernel_entry_addr` in a guest with the memory `guest_mem`.
    pub fn configure(&self, guest_mem: &GuestMemory, kernel_entry_addr: u64) -> (accesses: Vec<
        RegAccess,
    >)
        ensures
            accesses@ == boot_reg_accesses(
                self.index,
                kernel_entry_addr,
                spec_fdt_addr(*guest_mem),
            ),
    {
        setup_boot_regs(guest_mem, self.index, kernel_entry_addr)
    }

    /// The error of `configure` where the host refused `access` with `err`.
    pub fn configure_failed(access: &RegAccess, err: HostError) -> (e: KvmVcpuError)
        ensures
            e == KvmVcpuError::ConfigureRegisters(
                match *access {
                    RegAccess::Read { id } => VcpuArchError::GetOneReg(id, err),
                    RegAccess::WriteBack { id } => VcpuArchError::SetOneReg(id, err),
                    RegAccess::Write { id, .. } => VcpuArchError::SetOneReg(id, err),
                },
            ),
    {
        KvmVcpuError::ConfigureRegisters(access.failed(err))
    }
}

/// What became of an exit from the guest.
#[derive(Debug, Clone, Copy, PartialEq, Eq, Structural)]
pub enum VcpuEmulation {
    /// The exit was handled; the vCPU runs on.
    Handled,
    /// The run was interrupted.
    Interrupted,
    /// The vCPU stopped.
    Stopped,
}

/// Errors of running a vCPU.
#[derive(Debug, PartialEq, Eq)]
pub enum VcpuError {
    /// The guest was left for a reason that nothing handles, described here.
    UnhandledKvmExit(String),
}

/// What a vCPU carries besides its registers.
#[derive(Debug, Clone, Copy, PartialEq, Eq, Structural)]
pub struct Peripherals {
    /// How many exits from the guest nothing handled.
    pub failures: u64,
}

impl Default for Peripherals {
    fn default() -> (p: Self)
        ensures
            p.failures == 0,
    {
        Peripherals { failures: 0 }
    }
}

impl Peripherals {
    /// Handles an exit from the guest that the common code did not handle,
    /// described by `exit`. The architecture handles none: the exit is
    /// counted and the vCPU fails for good.
    pub fn run_arch_emulation(&mut self, exit: String) -> (r: Result<VcpuEmulation, VcpuError>)
        ensures
            r == Err::<VcpuEmulation, VcpuError>(VcpuError::UnhandledKvmExit(exit)),
            final(self).failures == if old(self).failures < u64::MAX {
                (old(self).failures + 1) as u64
            } else {
                u64::MAX
            },
    {
        if self.failures < u64::MAX {
            self.failures = self.failures + 1;
        }
        Err(VcpuError::UnhandledKvmExit(exit))
    }
}

/// The state of a vCPU as it is saved.
#[derive(Debug, Clone)]
pub struct VcpuState {
    /// Whether the vCPU runs: the multiprocessing state of the host.
    pub mp_state: u32,
    /// The vCPU's registers.
    pub regs: Riscv64RegisterVec,
}

/// The accesses of a boot pass over six different registers or in different
/// ways: the registers written are `a0`, `pc` and `a1`, each once.
pub proof fn lemma_boot_regs_distinct(cpu_id: u8, kernel_entry_addr: u64)
    ensures
        user_reg_id(UserReg::A0) != user_reg_id(UserReg::Pc),
        user_reg_id(UserReg::A0) != user_reg_id(UserReg::A1),
        user_reg_id(UserReg::Pc) != user_reg_id(UserReg::A1),
        isa_reg_id() != user_reg_id(UserReg::A0),
        isa_reg_id() != user_reg_id(UserReg::Pc),
        isa_reg_id() != user_reg_id(UserReg::A1),
        timer_freq_reg_id() != isa_reg_id(),
        timer_freq_reg_id() != user_reg_id(UserReg::A0),
        timer_freq_reg_id() != user_reg_id(UserReg::Pc),
        timer_freq_reg_id() != user_reg_id(UserReg::A1),
{
    lemma_reg_id_distinct(RegGroup::Core, 80, RegGroup::Core, 0);
    lemma_reg_id_distinct(RegGroup::Core, 80, RegGroup::Core, 88);
    lemma_reg_id_distinct(RegGroup::Core, 0, RegGroup::Core, 88);
    lemma_reg_id_distinct(RegGroup::Config, 0, RegGroup::Core, 80);
    lemma_reg_id_distinct(RegGroup::Config, 0, RegGroup::Core, 0);
    lemma_reg_id_distinct(RegGroup::Config, 0, RegGroup::Core, 88);
    lemma_reg_id_distinct(RegGroup::Timer, 0, RegGroup::Config, 0);
    lemma_reg_id_distinct(RegGroup::Timer, 0, RegGroup::Core, 80);
    lemma_reg_id_distinct(RegGroup::Timer, 0, RegGroup::Core, 0);
    lemma_reg_id_distinct(RegGroup::Timer, 0, RegGroup::Core, 88);
}

} // verus!
