//! What the host's virtualization interface hands back when it refuses a
//! call.

use vstd::prelude::*;

verus! {

/// `kvm_ioctls::Error`, carried as it comes: nothing is said of what it
/// holds.
#[verifier::external_type_specification]
#[verifier::external_body]
pub struct ExHostError(kvm_ioctls::Error);

/// The error with which the host refused a call: the error number of the
/// system call.
pub type HostError = kvm_ioctls::Error;

} // verus!
