//! What is kept of the host's virtualization interface besides its handle.

use vstd::prelude::*;
use crate::cpu_config::KvmCapability;

verus! {

/// Setting up the host interface cannot fail on this architecture.
pub type KvmArchError = core::convert::Infallible;

/// Parameters of the host's virtualization interface.
#[derive(Debug)]
pub struct Kvm {
    /// Maximum number of memory slots allowed by the host.
    pub max_memslots: usize,
    /// Additional capabilities that were specified in a CPU template.
    pub kvm_cap_modifiers: Vec<KvmCapability>,
}

/// Event notification through file descriptors.
pub const KVM_CAP_IOEVENTFD: u32 = 36;

/// Guest memory provided by the user.
pub const KVM_CAP_USER_MEMORY: u32 = 3;

/// Creation of in-kernel devices.
pub const KVM_CAP_DEVICE_CTRL: u32 = 89;

/// Reading and writing the multiprocessing state.
pub const KVM_CAP_MP_STATE: u32 = 14;

/// Access to single registers.
pub const KVM_CAP_ONE_REG: u32 = 70;

impl Kvm {
    /// The capabilities that the host must have.
    pub fn default_capabilities() -> (caps: [u32; 5])
        ensures
            caps@ == seq![
                KVM_CAP_IOEVENTFD,
                KVM_CAP_USER_MEMORY,
                KVM_CAP_DEVICE_CTRL,
                KVM_CAP_MP_STATE,
                KVM_CAP_ONE_REG,
            ],
    {
        let caps: [u32; 5] = [
            KVM_CAP_IOEVENTFD,
            KVM_CAP_USER_MEMORY,
            KVM_CAP_DEVICE_CTRL,
            KVM_CAP_MP_STATE,
            KVM_CAP_ONE_REG,
        ];
        assert(caps@ =~= seq![
            KVM_CAP_IOEVENTFD,
            KVM_CAP_USER_MEMORY,
            KVM_CAP_DEVICE_CTRL,
            KVM_CAP_MP_STATE,
            KVM_CAP_ONE_REG,
        ]);
        caps
    }

    /// The parameters of a host with `max_memslots` memory slots. Capability
    /// modifiers of templates are not taken over.
    pub fn init_arch(max_memslots: usize, kvm_cap_modifiers: Vec<KvmCapability>) -> (r: Result<
        Self,
        KvmArchError,
    >)
        ensures
            r is Ok,
            r->Ok_0.max_memslots == max_memslots,
            r->Ok_0.kvm_cap_modifiers@.len() == 0,
    {
        let kvm_cap_modifiers: Vec<KvmCapability> = Vec::new();
        Ok(Kvm { max_memslots, kvm_cap_modifiers })
    }
}

} // verus!
