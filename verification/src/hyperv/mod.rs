//! Disposable Hyper-V virtual machines: plans, checks and decisions.

pub mod address_space;
pub mod admission;
pub mod backend;
pub mod base_image;
pub mod capability;
pub mod cleanup;
pub mod collection;
pub mod config;
pub mod data_disk;
pub mod disk;
pub mod exchange;
pub mod execution;
pub mod guest_files;
pub mod guest_protocol;
pub mod journal;
pub mod journal_files;
pub mod leases;
pub mod lifecycle;
pub mod network;
pub mod observation;
pub mod powershell;
pub mod protocol_files;
pub mod provisioning;
pub mod recovery;
pub mod reply;
pub mod rescue;
pub mod result_collector;
pub mod runtime;
pub mod scripts;
pub mod shell;
pub mod staging;
pub mod tree_walk;
pub mod vm;

use vstd::prelude::*;

use crate::hyperv::capability::NoInput;
use crate::hyperv::powershell::PowerShellInvocation;

verus! {

/// The invocation by which a host is asked whether it can safely manage disposable Hyper-V guests.
/// The answer is evidence for the selection of a backend; a failure to prepare a run stays a failure
/// of the selected backend.
pub fn detect_capability() -> (invocation: PowerShellInvocation<NoInput>)
    ensures
        invocation.operation@ == "detect Hyper-V capability"@,
        invocation.script@ == scripts::DETECT_CAPABILITY_SCRIPT@,
        invocation.admission_limits_are_default(),
{
    capability::detect()
}

} // verus!
