//! The provisioning of an admitted run: its disks, its machine and its network, each recorded in
//! the cleanup journal before it is used.

use vstd::prelude::*;
use vstd::string::*;

use crate::backend;
use crate::backend::{SandboxError, SandboxRequest, SandboxResult};
use crate::host_path::HostPath;
use crate::hyperv::admission;
use crate::hyperv::cleanup;
use crate::hyperv::config;
use crate::hyperv::config::HyperVConfig;
use crate::hyperv::data_disk;
use crate::hyperv::data_disk::{DataDiskMount, DataDiskState, RunDataDisk, RunDataDiskSpec};
use crate::hyperv::disk;
use crate::hyperv::disk::{DifferencingDiskSpec, VhdInfo};
use crate::hyperv::exchange;
use crate::hyperv::guest_protocol::GuestRunRequest;
use crate::hyperv::journal;
use crate::hyperv::journal::{CleanupJournal, CleanupPhase, JournalView};
use crate::hyperv::network;
use crate::hyperv::network::{
    GuestAddressLease, HyperVNetworkPlan, NetworkAttachment, NetworkOwnedResources,
};
use crate::hyperv::vm;
use crate::hyperv::vm::{DiskAttachment, DiskRole, VmHandle, VmSpec};
use crate::text;

verus! {

/// What a generation of the journal is written for.
#[derive(Clone, Copy, Debug, PartialEq, Eq, Structural)]
pub enum Generation {
    Initial,
    Lease,
    OsDisk,
    OsIdentifier,
    DataDiskPlanned,
    DataDiskMounted,
    DataDiskDetached,
    VmCreated,
    Network,
    Last,
}

/// What provisioning waits for.
#[derive(Clone, Copy, Debug, PartialEq, Eq, Structural)]
pub enum ProvisionStep {
    Start,
    /// Write the journal.
    Persist(Generation),
    /// Read the latest generation of the journal back.
    ReadBack,
    AllocateAddress,
    QueryFreeSpace,
    CreateOsDisk,
    CreateMountDirectory,
    CreateDataDisk,
    StagePackage,
    DismountDataDisk,
    CreateVm,
    AttachOsDisk,
    AttachDataDisk,
    PrepareAdapter,
    ConfigureNetwork,
    VerifyNetwork,
    Ready,
    Failed,
}

/// What the host answered.
#[derive(Debug)]
pub enum ProvisionEvent {
    Begin,
    /// To the writing or reading of the journal.
    Settled(SandboxResult<()>),
    Leased(SandboxResult<GuestAddressLease>),
    /// The free bytes of the volume, or the text of the error.
    FreeSpace(Result<u64, String>),
    OsDiskCreated(SandboxResult<VhdInfo>),
    /// To the creation of the mount directory, with the text of the error.
    DirectoryMade(Result<(), String>),
    DataDiskCreated(SandboxResult<DataDiskMount>),
    /// The digest of the staged request.
    Staged(SandboxResult<String>),
    /// Whether the dismount was confirmed.
    Dismounted(SandboxResult<bool>),
    VmMade(SandboxResult<VmHandle>),
    Attached(SandboxResult<DiskAttachment>),
    /// The firewall scope of the adapter.
    Scoped(SandboxResult<String>),
    Attested(SandboxResult<NetworkAttachment>),
}

/// How to take back the change that a generation of the journal is to record.
#[derive(Debug)]
pub enum Undo {
    Nothing,
    Network(Option<NetworkOwnedResources>),
    OsDisk(Option<HostPath>),
    OsIdentifier(Option<String>),
    DataDisk(Option<RunDataDisk>),
    DataDiskState(Option<String>, Option<String>, DataDiskState),
    Vm(Option<VmHandle>, CleanupPhase),
}

/// A run being provisioned.
#[derive(Debug)]
pub struct Provisioning {
    pub step: ProvisionStep,
    pub request: SandboxRequest,
    pub target_sha256: String,
    pub required_free_bytes: SandboxResult<u64>,
    pub os_spec: DifferencingDiskSpec,
    pub data_spec: RunDataDiskSpec,
    pub vm_spec: VmSpec,
    pub program_data: Option<HostPath>,
    pub plan: HyperVNetworkPlan,
    pub journal: CleanupJournal,
    pub undo: Undo,
    /// Whether the journal was read back, so that cleanup goes by it.
    pub followed: bool,
    /// What the journal is to record, until it does.
    pub planned_network: Option<NetworkOwnedResources>,
    pub planned_os_disk: Option<HostPath>,
    pub planned_data_disk: Option<RunDataDisk>,
    pub guest_request: Option<GuestRunRequest>,
    pub request_sha256: Option<String>,
    pub pre_verification: Option<NetworkAttachment>,
    pub failure: Option<SandboxError>,
}

// ---------------------------------------------------------------------------------------------
// The journal
// ---------------------------------------------------------------------------------------------

/// The journal with a change taken back.
pub open spec fn undone(journal: CleanupJournal, undo: Undo) -> CleanupJournal {
    match undo {
        Undo::Nothing => journal,
        Undo::Network(network) => CleanupJournal { network, ..journal },
        Undo::OsDisk(os_disk) => CleanupJournal { os_disk, ..journal },
        Undo::OsIdentifier(os_disk_identifier) => CleanupJournal { os_disk_identifier, ..journal },
        Undo::DataDisk(data_disk) => CleanupJournal { data_disk, ..journal },
        Undo::DataDiskState(disk_unique_id, vhd_identifier, state) => CleanupJournal {
            data_disk: match journal.data_disk {
                Some(data) => Some(RunDataDisk { disk_unique_id, vhd_identifier, state, ..data }),
                None => None,
            },
            ..journal
        },
        Undo::Vm(vm, phase) => CleanupJournal { vm, phase, ..journal },
    }
}

fn take_back(journal: &mut CleanupJournal, undo: Undo)
    ensures
        *final(journal) == undone(*old(journal), undo),
{
    match undo {
        Undo::Nothing => {},
        Undo::Network(network) => {
            journal.network = network;
        },
        Undo::OsDisk(os_disk) => {
            journal.os_disk = os_disk;
        },
        Undo::OsIdentifier(identifier) => {
            journal.os_disk_identifier = identifier;
        },
        Undo::DataDisk(data_disk) => {
            journal.data_disk = data_disk;
        },
        Undo::DataDiskState(disk_unique_id, vhd_identifier, state) => {
            match &mut journal.data_disk {
                Some(data) => {
                    data.disk_unique_id = disk_unique_id;
                    data.vhd_identifier = vhd_identifier;
                    data.state = state;
                },
                None => {},
            }
        },
        Undo::Vm(machine, phase) => {
            journal.vm = machine;
            journal.phase = phase;
        },
    }
}

pub open spec fn controlled(plan: &HyperVNetworkPlan) -> bool {
    plan is Controlled
}

/// How far a step lies in the order of provisioning.
pub open spec fn rank(step: ProvisionStep) -> int {
    match step {
        ProvisionStep::Start => 0,
        ProvisionStep::Persist(Generation::Initial) => 1,
        ProvisionStep::ReadBack => 2,
        ProvisionStep::AllocateAddress => 3,
        ProvisionStep::Persist(Generation::Lease) => 4,
        ProvisionStep::QueryFreeSpace => 5,
        ProvisionStep::Persist(Generation::OsDisk) => 6,
        ProvisionStep::CreateOsDisk => 7,
        ProvisionStep::Persist(Generation::OsIdentifier) => 8,
        ProvisionStep::CreateMountDirectory => 9,
        ProvisionStep::Persist(Generation::DataDiskPlanned) => 10,
        ProvisionStep::CreateDataDisk => 11,
        ProvisionStep::Persist(Generation::DataDiskMounted) => 12,
        ProvisionStep::StagePackage => 13,
        ProvisionStep::DismountDataDisk => 14,
        ProvisionStep::Persist(Generation::DataDiskDetached) => 15,
        ProvisionStep::CreateVm => 16,
        ProvisionStep::Persist(Generation::VmCreated) => 17,
        ProvisionStep::AttachOsDisk => 18,
        ProvisionStep::AttachDataDisk => 19,
        ProvisionStep::PrepareAdapter => 20,
        ProvisionStep::Persist(Generation::Network) => 21,
        ProvisionStep::ConfigureNetwork => 22,
        ProvisionStep::VerifyNetwork => 23,
        ProvisionStep::Persist(Generation::Last) => 24,
        ProvisionStep::Ready => 25,
        ProvisionStep::Failed => 26,
    }
}

impl Provisioning {
    /// The journal as it was last written, or as it was made where it never was.
    pub open spec fn written(self) -> CleanupJournal {
        if self.step is Persist {
            undone(
                CleanupJournal { sequence: (self.journal.sequence - 1) as u64, ..self.journal },
                self.undo,
            )
        } else {
            self.journal
        }
    }

    /// The network resources that the run adds to the host are recorded.
    pub open spec fn network_recorded(&self) -> bool {
        match self.plan {
            HyperVNetworkPlan::DenyAll => true,
            HyperVNetworkPlan::Controlled(plan) => match (self.journal.network, self.journal.vm) {
                (Some(resources), Some(machine)) => plan.owned_as(
                    &resources,
                    machine.id@,
                    self.journal.run_id@,
                ),
                _ => false,
            },
        }
    }

    /// What is recorded where a step has come.
    #[verifier::opaque]
    pub open spec fn recorded_in_order(&self) -> bool {
        let at = rank(self.step);
        &&& at <= 3 ==> self.planned_network is Some
        &&& at <= 5 ==> self.planned_os_disk is Some
        &&& at >= 6 ==> self.journal.os_disk is Some
        &&& at <= 9 ==> self.planned_data_disk is Some
        &&& at >= 10 ==> self.journal.data_disk is Some
        &&& at >= 17 ==> self.journal.vm is Some
        &&& at >= 21 ==> self.network_recorded()
        &&& at >= 5 ==> self.guest_request is Some
        &&& at >= 14 ==> self.request_sha256 is Some
        &&& at >= 24 ==> self.pre_verification is Some
        &&& self.followed == (at >= 3)
        &&& self.step is Persist ==> self.journal.sequence >= 1
        &&& self.step is Persist || self.undo is Nothing
    }

    pub open spec fn supported(&self) -> bool {
        match self.plan {
            HyperVNetworkPlan::DenyAll => true,
            HyperVNetworkPlan::Controlled(plan) => plan.supported(),
        }
    }

    pub open spec fn well_formed(&self) -> bool {
        &&& self.supported()
        &&& self.step != ProvisionStep::Failed ==> self.recorded_in_order()
        &&& self.step == ProvisionStep::Failed ==> self.failure is Some
    }

    pub open spec fn at(self, step: ProvisionStep) -> Provisioning {
        Provisioning { step, ..self }
    }

    /// With the change to the journal taken back.
    pub open spec fn restored(self) -> Provisioning {
        Provisioning {
            journal: undone(self.journal, self.undo),
            undo: Undo::Nothing,
            ..self
        }
    }

    /// With the last generation of the journal and the change that it was to record taken back.
    pub open spec fn unwritten(self) -> Provisioning {
        Provisioning { journal: self.written(), undo: Undo::Nothing, ..self }
    }
}

/// `after` is `before`, failed.
pub open spec fn stopped(before: Provisioning, after: Provisioning, fault: backend::Fault) -> bool {
    &&& after == (Provisioning {
        step: ProvisionStep::Failed,
        failure: after.failure,
        ..before
    })
    &&& after.failure matches Some(error) && error@ == fault
}

/// `after` is `before` about to write its journal, or failed without the change where the journal
/// cannot be written.
#[verifier::opaque]
pub open spec fn recording(before: Provisioning, after: Provisioning, generation: Generation) -> bool {
    match before.journal@.persist_fault(cleanup::held(&before.program_data)) {
        Some(fault) => stopped(before.restored(), after, fault),
        None => after == (Provisioning {
            journal: before.journal.bumped(),
            step: ProvisionStep::Persist(generation),
            ..before
        }),
    }
}

/// `after` is `before` with the guest's request built, or failed.
#[verifier::opaque]
pub open spec fn requesting(before: Provisioning, after: Provisioning) -> bool {
    match after.guest_request {
        Some(built) => {
            &&& exchange::drafted(
                &built,
                &before.request,
                &before.plan,
                before.journal.run_id@,
                Some(before.target_sha256),
            )
            &&& built.verdict() is Ok
            &&& match before.required_free_bytes {
                Ok(_) => after == (Provisioning {
                    guest_request: Some(built),
                    step: ProvisionStep::QueryFreeSpace,
                    ..before
                }),
                Err(error) => stopped(
                    Provisioning { guest_request: Some(built), ..before },
                    after,
                    error@,
                ),
            }
        },
        None => exists|draft: GuestRunRequest|
            {
                &&& #[trigger] exchange::drafted(
                    &draft,
                    &before.request,
                    &before.plan,
                    before.journal.run_id@,
                    Some(before.target_sha256),
                )
                &&& draft.verdict() matches Err(fault)
                &&& stopped(
                    Provisioning { guest_request: None, ..before },
                    after,
                    exchange::request_refusal(fault),
                )
            },
    }
}

/// What follows once a generation was written.
#[verifier::opaque]
pub open spec fn after_write(before: Provisioning, after: Provisioning, generation: Generation) -> bool {
    let settled = Provisioning { undo: Undo::Nothing, ..before };
    match generation {
        Generation::Initial => after == settled.at(ProvisionStep::ReadBack),
        Generation::Lease => requesting(settled, after),
        Generation::OsDisk => after == settled.at(ProvisionStep::CreateOsDisk),
        Generation::OsIdentifier => after == settled.at(ProvisionStep::CreateMountDirectory),
        Generation::DataDiskPlanned => after == settled.at(ProvisionStep::CreateDataDisk),
        Generation::DataDiskMounted => after == settled.at(ProvisionStep::StagePackage),
        Generation::DataDiskDetached => after == settled.at(ProvisionStep::CreateVm),
        Generation::VmCreated => after == settled.at(ProvisionStep::AttachOsDisk),
        Generation::Network => after == settled.at(ProvisionStep::ConfigureNetwork),
        Generation::Last => after == settled.at(ProvisionStep::Ready),
    }
}

/// What follows once the journal was read back: a guest address where the plan needs one.
#[verifier::opaque]
pub open spec fn after_read_back(before: Provisioning, after: Provisioning) -> bool {
    let followed = Provisioning { followed: true, ..before };
    match network::activation_verdict(&before.plan, before.journal.run_id@) {
        Err(error) => stopped(followed, after, error),
        Ok(true) => after == followed.at(ProvisionStep::AllocateAddress),
        Ok(false) => requesting(followed, after),
    }
}

/// What follows once a guest address was leased: the plan is activated and the lease recorded.
#[verifier::opaque]
pub open spec fn after_lease(
    before: Provisioning,
    after: Provisioning,
    leased: SandboxResult<GuestAddressLease>,
) -> bool {
    match network::activation_verdict(&before.plan, before.journal.run_id@) {
        Err(error) => stopped(before, after, error),
        Ok(false) => after == before,
        Ok(true) => match leased {
            Err(error) => stopped(before, after, error@),
            Ok(lease) => {
                &&& before.plan matches HyperVNetworkPlan::Controlled(planned)
                    && after.plan matches HyperVNetworkPlan::Controlled(active)
                    && active.activated(
                    &planned,
                    before.journal.run_id@,
                    &before.journal.run_root,
                    &lease,
                )
                &&& recording(
                    Provisioning {
                        plan: after.plan,
                        planned_network: None,
                        journal: CleanupJournal {
                            network: match before.planned_network {
                                Some(blank) => Some(
                                    NetworkOwnedResources { guest_lease: Some(lease), ..blank },
                                ),
                                None => None,
                            },
                            ..before.journal
                        },
                        undo: Undo::Network(before.journal.network),
                        ..before
                    },
                    after,
                    Generation::Lease,
                )
            },
        },
    }
}

#[verifier::opaque]
pub open spec fn after_free_space(
    before: Provisioning,
    after: Provisioning,
    available: Result<u64, String>,
) -> bool {
    match before.required_free_bytes {
        Err(error) => stopped(before, after, error@),
        Ok(required) => match config::free_space_verdict(&available, required) {
            Err(error) => stopped(before, after, error),
            Ok(_) => recording(
                Provisioning {
                    planned_os_disk: None,
                    journal: CleanupJournal { os_disk: before.planned_os_disk, ..before.journal },
                    undo: Undo::OsDisk(before.journal.os_disk),
                    ..before
                },
                after,
                Generation::OsDisk,
            ),
        },
    }
}

#[verifier::opaque]
pub open spec fn after_os_disk(
    before: Provisioning,
    after: Provisioning,
    created: SandboxResult<VhdInfo>,
) -> bool {
    match created {
        Err(error) => stopped(before, after, error@),
        Ok(info) => match disk::created_disk_verdict(&before.os_spec, &info) {
            Err(error) => stopped(before, after, error),
            Ok(_) => recording(
                Provisioning {
                    journal: CleanupJournal {
                        os_disk_identifier: info.disk_identifier,
                        ..before.journal
                    },
                    undo: Undo::OsIdentifier(before.journal.os_disk_identifier),
                    ..before
                },
                after,
                Generation::OsIdentifier,
            ),
        },
    }
}

#[verifier::opaque]
pub open spec fn after_directory(
    before: Provisioning,
    after: Provisioning,
    made: Result<(), String>,
) -> bool {
    match made {
        Err(source) => stopped(
            before,
            after,
            admission::prepare_fault_from("create data-disk mount directory"@, source@),
        ),
        Ok(_) => recording(
            Provisioning {
                planned_data_disk: None,
                journal: CleanupJournal { data_disk: before.planned_data_disk, ..before.journal },
                undo: Undo::DataDisk(before.journal.data_disk),
                ..before
            },
            after,
            Generation::DataDiskPlanned,
        ),
    }
}

/// With the record of the data disk changed in its identities and its state.
pub open spec fn with_data_disk(before: Provisioning, old: RunDataDisk, new: RunDataDisk) -> Provisioning {
    Provisioning {
        journal: CleanupJournal { data_disk: Some(new), ..before.journal },
        undo: Undo::DataDiskState(old.disk_unique_id, old.vhd_identifier, old.state),
        ..before
    }
}

#[verifier::opaque]
pub open spec fn after_data_disk(
    before: Provisioning,
    after: Provisioning,
    created: SandboxResult<DataDiskMount>,
) -> bool {
    match (created, before.journal.data_disk) {
        (Err(error), _) => stopped(before, after, error@),
        (Ok(_), None) => after == before,
        (Ok(mount), Some(planned)) => match data_disk::mount_verdict(
            &before.data_spec,
            &mount,
            planned.label@,
        ) {
            Err(error) => stopped(before, after, error),
            Ok(_) => recording(
                with_data_disk(before, planned, planned.mounted_with(mount)),
                after,
                Generation::DataDiskMounted,
            ),
        },
    }
}

#[verifier::opaque]
pub open spec fn after_dismount(
    before: Provisioning,
    after: Provisioning,
    dismounted: SandboxResult<bool>,
) -> bool {
    match (dismounted, before.journal.data_disk) {
        (Err(error), _) => stopped(before, after, error@),
        (Ok(_), None) => after == before,
        (Ok(false), Some(_)) => stopped(
            before,
            after,
            backend::fault(
                "hyperv_data_disk"@,
                "PowerShell did not confirm data-disk dismount"@,
            ),
        ),
        (Ok(true), Some(mounted)) => recording(
            with_data_disk(
                before,
                mounted,
                RunDataDisk { state: DataDiskState::Detached, ..mounted },
            ),
            after,
            Generation::DataDiskDetached,
        ),
    }
}

#[verifier::opaque]
pub open spec fn after_vm(
    before: Provisioning,
    after: Provisioning,
    created: SandboxResult<VmHandle>,
) -> bool {
    match created {
        Err(error) => stopped(before, after, error@),
        Ok(handle) => match before.vm_spec.creation_verdict(&handle) {
            Err(error) => stopped(before, after, error),
            Ok(_) => recording(
                Provisioning {
                    journal: CleanupJournal {
                        vm: Some(handle),
                        phase: CleanupPhase::VmCreated,
                        ..before.journal
                    },
                    undo: Undo::Vm(before.journal.vm, before.journal.phase),
                    ..before
                },
                after,
                Generation::VmCreated,
            ),
        },
    }
}

/// What follows once a disk was attached.
#[verifier::opaque]
pub open spec fn after_attachment(
    before: Provisioning,
    after: Provisioning,
    attached: SandboxResult<DiskAttachment>,
    path: &HostPath,
    role: DiskRole,
    next: ProvisionStep,
) -> bool {
    match attached {
        Err(error) => stopped(before, after, error@),
        Ok(attachment) => match vm::attachment_verdict(&attachment, path, role) {
            Err(error) => stopped(before, after, error),
            Ok(_) => after == before.at(next),
        },
    }
}

/// A controlled network has its adapter prepared first.
pub open spec fn network_step(plan: &HyperVNetworkPlan) -> ProvisionStep {
    if controlled(plan) {
        ProvisionStep::PrepareAdapter
    } else {
        ProvisionStep::ConfigureNetwork
    }
}

/// What follows once the firewall scope of the adapter is known: the resources of the run's network
/// are recorded.
#[verifier::opaque]
pub open spec fn after_scope(
    before: Provisioning,
    after: Provisioning,
    scoped: SandboxResult<String>,
) -> bool {
    match (scoped, before.plan, before.journal.vm) {
        (Err(error), _, _) => stopped(before, after, error@),
        (Ok(scope), HyperVNetworkPlan::Controlled(plan), Some(machine)) => match network::scope_verdict(
            &plan,
            scope@,
        ) {
            Err(error) => stopped(before, after, error),
            Ok(_) => {
                let scoped_plan = network::ControlledPlan { firewall_scope_id: Some(scope), ..plan };
                let next = Provisioning {
                    plan: HyperVNetworkPlan::Controlled(scoped_plan),
                    ..before
                };
                match scoped_plan.ownership_verdict(machine.id@, before.journal.run_id@) {
                    Err(error) => stopped(next, after, error),
                    Ok(_) => exists|resources: NetworkOwnedResources|
                        {
                            &&& #[trigger] scoped_plan.owned_as(
                                &resources,
                                machine.id@,
                                before.journal.run_id@,
                            )
                            &&& recording(
                                Provisioning {
                                    journal: CleanupJournal {
                                        network: Some(resources),
                                        ..before.journal
                                    },
                                    undo: Undo::Network(before.journal.network),
                                    ..next
                                },
                                after,
                                Generation::Network,
                            )
                        },
                }
            },
        },
        _ => after == before,
    }
}

/// What follows once the network was configured or verified as the plan says.
#[verifier::opaque]
pub open spec fn after_attestation(
    before: Provisioning,
    after: Provisioning,
    attested: SandboxResult<NetworkAttachment>,
) -> bool {
    match attested {
        Err(error) => stopped(before, after, error@),
        Ok(attachment) => match network::attachment_verdict(&before.plan, &attachment, false) {
            Err(error) => stopped(before, after, error),
            Ok(_) => if before.step == ProvisionStep::VerifyNetwork {
                recording(
                    Provisioning { pre_verification: Some(attachment), ..before },
                    after,
                    Generation::Last,
                )
            } else {
                after == before.at(ProvisionStep::VerifyNetwork)
            },
        },
    }
}

/// How an answer of the host carries provisioning on. An answer to another question changes
/// nothing.
pub open spec fn provisioned(before: Provisioning, event: ProvisionEvent, after: Provisioning) -> bool {
    match (before.step, event) {
        (ProvisionStep::Start, ProvisionEvent::Begin) => recording(
            before,
            after,
            Generation::Initial,
        ),
        (ProvisionStep::Persist(_), ProvisionEvent::Settled(Err(error))) => stopped(
            before.unwritten(),
            after,
            error@,
        ),
        (ProvisionStep::Persist(generation), ProvisionEvent::Settled(Ok(_))) => after_write(
            before,
            after,
            generation,
        ),
        (ProvisionStep::ReadBack, ProvisionEvent::Settled(Err(error))) => stopped(
            before,
            after,
            error@,
        ),
        (ProvisionStep::ReadBack, ProvisionEvent::Settled(Ok(_))) => after_read_back(before, after),
        (ProvisionStep::AllocateAddress, ProvisionEvent::Leased(leased)) => after_lease(
            before,
            after,
            leased,
        ),
        (ProvisionStep::QueryFreeSpace, ProvisionEvent::FreeSpace(available)) => after_free_space(
            before,
            after,
            available,
        ),
        (ProvisionStep::CreateOsDisk, ProvisionEvent::OsDiskCreated(created)) => after_os_disk(
            before,
            after,
            created,
        ),
        (ProvisionStep::CreateMountDirectory, ProvisionEvent::DirectoryMade(made)) => after_directory(
            before,
            after,
            made,
        ),
        (ProvisionStep::CreateDataDisk, ProvisionEvent::DataDiskCreated(created)) => after_data_disk(
            before,
            after,
            created,
        ),
        (ProvisionStep::StagePackage, ProvisionEvent::Staged(Err(error))) => stopped(
            before,
            after,
            error@,
        ),
        (ProvisionStep::StagePackage, ProvisionEvent::Staged(Ok(sha256))) => after == (Provisioning {
            request_sha256: Some(sha256),
            step: ProvisionStep::DismountDataDisk,
            ..before
        }),
        (ProvisionStep::DismountDataDisk, ProvisionEvent::Dismounted(dismounted)) => after_dismount(
            before,
            after,
            dismounted,
        ),
        (ProvisionStep::CreateVm, ProvisionEvent::VmMade(created)) => after_vm(
            before,
            after,
            created,
        ),
        (ProvisionStep::AttachOsDisk, ProvisionEvent::Attached(attached)) => after_attachment(
            before,
            after,
            attached,
            &before.os_spec.path,
            DiskRole::OperatingSystem,
            ProvisionStep::AttachDataDisk,
        ),
        (ProvisionStep::AttachDataDisk, ProvisionEvent::Attached(attached)) => after_attachment(
            before,
            after,
            attached,
            &before.data_spec.path,
            DiskRole::RunData,
            network_step(&before.plan),
        ),
        (ProvisionStep::PrepareAdapter, ProvisionEvent::Scoped(scoped)) => after_scope(
            before,
            after,
            scoped,
        ),
        (ProvisionStep::ConfigureNetwork, ProvisionEvent::Attested(attested)) => after_attestation(
            before,
            after,
            attested,
        ),
        (ProvisionStep::VerifyNetwork, ProvisionEvent::Attested(attested)) => after_attestation(
            before,
            after,
            attested,
        ),
        _ => after == before,
    }
}

// ---------------------------------------------------------------------------------------------
// The machine
// ---------------------------------------------------------------------------------------------

impl Provisioning {
    /// The provisioning of an admitted run, with nothing done yet. `plan` is the one that the run
    /// was admitted with, `base_image` the image below its system disk.
    pub fn new(
        config: &HyperVConfig,
        request: SandboxRequest,
        plan: HyperVNetworkPlan,
        run_id: String,
        target_sha256: String,
        base_image: HostPath,
        program_data: Option<HostPath>,
    ) -> (started: SandboxResult<Provisioning>)
        requires
            plan matches HyperVNetworkPlan::Controlled(inner) ==> inner.supported(),
        ensures
            match started {
                Err(error) => exists|run_root: HostPath|
                    {
                        &&& #[trigger] run_root.extends(&config.run_root, run_id@)
                        &&& journal::run_identity_verdict(run_id@, &run_root) == Err::<
                            (),
                            backend::Fault,
                        >(error@)
                    },
                Ok(made) => {
                    &&& made.well_formed()
                    &&& made.step == ProvisionStep::Start
                    &&& made.request == request
                    &&& made.plan == plan
                    &&& made.target_sha256 == target_sha256
                    &&& made.program_data == program_data
                    &&& backend::outcome(made.required_free_bytes) == config.free_bytes_value()
                    &&& made.starts_from(config, run_id@, base_image)
                },
            },
    {
        let run_root = config.run_root.join(run_id.as_str());
        let os_spec = DifferencingDiskSpec {
            run_root: run_root.duplicate(),
            path: run_root.join("os-diff.vhdx"),
            parent_path: base_image,
        };
        let data_spec = RunDataDiskSpec {
            run_id: run_id.clone(),
            run_root: run_root.duplicate(),
            path: run_root.join("run-data.vhdx"),
            mount_path: run_root.join("data-mount"),
            size_bytes: config.data_disk_bytes,
        };
        let vm_spec = VmSpec::new(
            run_id.clone(),
            run_root.duplicate(),
            config.processor_count,
            config.startup_memory_bytes,
        );
        let planned_os_disk = run_root.join("os-diff.vhdx");
        let journal = match CleanupJournal::new(run_id, run_root) {
            Err(error) => {
                return Err(error);
            },
            Ok(journal) => journal,
        };
        let planned_data_disk = match data_spec.planned() {
            Err(error) => {
                return Err(error);
            },
            Ok(planned) => planned,
        };
        let made = Provisioning {
            step: ProvisionStep::Start,
            request,
            target_sha256,
            required_free_bytes: config.required_free_bytes(),
            os_spec,
            data_spec,
            vm_spec,
            program_data,
            plan,
            journal,
            undo: Undo::Nothing,
            followed: false,
            planned_network: Some(NetworkOwnedResources::default()),
            planned_os_disk: Some(planned_os_disk),
            planned_data_disk: Some(planned_data_disk),
            guest_request: None,
            request_sha256: None,
            pre_verification: None,
            failure: None,
        };
        proof {
            reveal(Provisioning::recorded_in_order);
            reveal(recording);
            reveal(requesting);
        }
        Ok(made)
    }

    /// The journal is fresh, and everything that is planned lies in the directory of the run.
    pub open spec fn starts_from(
        &self,
        config: &HyperVConfig,
        run_id: Seq<char>,
        base_image: HostPath,
    ) -> bool {
        let root = self.journal.run_root;
        &&& root.extends(&config.run_root, run_id)
        &&& self.journal@ == (JournalView {
            schema_version: journal::CLEANUP_JOURNAL_SCHEMA_VERSION,
            sequence: 0,
            run_id,
            run_root: root,
            created_at_unix_ms: self.journal.created_at_unix_ms,
            phase: CleanupPhase::Preparing,
            vm: None,
            os_disk: None,
            os_disk_identifier: None,
            data_disk: None,
            owned_switch: None,
            network: None,
            warnings: Seq::empty(),
            leftover_resources: Seq::empty(),
        })
        &&& self.undo is Nothing
        &&& !self.followed
        &&& self.os_spec.path.extends(&root, "os-diff.vhdx"@)
        &&& self.os_spec.parent_path == base_image
        &&& self.os_spec.run_root.copies(&root)
        &&& self.data_spec.path.extends(&root, "run-data.vhdx"@)
        &&& self.data_spec.mount_path.extends(&root, "data-mount"@)
        &&& self.data_spec.run_root.copies(&root)
        &&& self.data_spec.run_id@ == run_id
        &&& self.data_spec.size_bytes == config.data_disk_bytes
        &&& self.vm_spec.run_id@ == run_id
        &&& self.vm_spec.name@ == vm::vm_name(run_id)
        &&& self.vm_spec.run_root.copies(&root)
        &&& self.vm_spec.configuration_path.extends(&root, "vm"@)
        &&& self.vm_spec.secure_boot_template@ == "MicrosoftWindows"@
        &&& self.vm_spec.processor_count == config.processor_count
        &&& self.vm_spec.startup_memory_bytes == config.startup_memory_bytes
        &&& self.planned_network matches Some(blank) && blank.is_empty()
        &&& self.planned_os_disk matches Some(path) && path.extends(&root, "os-diff.vhdx"@)
        &&& self.planned_data_disk matches Some(data) && self.data_spec.plans(&data)
        &&& self.guest_request is None
        &&& self.request_sha256 is None
        &&& self.pre_verification is None
        &&& self.failure is None
    }

    fn fail(&mut self, error: SandboxError)
        requires
            old(self).supported(),
        ensures
            stopped(*old(self), *final(self), error@),
            final(self).well_formed(),
    {
        self.step = ProvisionStep::Failed;
        self.failure = Some(error);
    }

    /// Goes on to write the journal.
    fn record(&mut self, generation: Generation)
        requires
            old(self).supported(),
        ensures
            recording(*old(self), *final(self), generation),
            final(self).supported(),
            final(self).step == ProvisionStep::Failed ==> final(self).failure is Some,
    {
        proof {
            reveal(recording);
        }
        let program_data = match &self.program_data {
            Some(path) => Some(path),
            None => None,
        };
        match self.journal.persist(program_data) {
            Ok(_) => {
                self.step = ProvisionStep::Persist(generation);
            },
            Err(error) => {
                self.restore();
                self.fail(error);
            },
        }
    }

    fn restore(&mut self)
        ensures
            *final(self) == old(self).restored(),
    {
        let mut undo = Undo::Nothing;
        std::mem::swap(&mut undo, &mut self.undo);
        take_back(&mut self.journal, undo);
    }
}

impl Provisioning {
    /// What the later steps count on is there.
    spec fn ready_for_request(&self) -> bool {
        &&& self.planned_os_disk is Some
        &&& self.planned_data_disk is Some
        &&& self.followed
        &&& self.undo is Nothing
    }

    /// Builds the request of the guest and asks for the free space.
    fn enter_request(&mut self)
        requires
            old(self).supported(),
            old(self).ready_for_request(),
        ensures
            requesting(*old(self), *final(self)),
            final(self).well_formed(),
    {
        proof {
            reveal(Provisioning::recorded_in_order);
            reveal(recording);
            reveal(requesting);
        }
        let built = exchange::build_guest_request(
            &self.request,
            &self.plan,
            self.journal.run_id.as_str(),
            Some(self.target_sha256.clone()),
        );
        match built {
            Err(error) => {
                self.guest_request = None;
                self.fail(error);
            },
            Ok(request) => {
                self.guest_request = Some(request);
                let refusal = match &self.required_free_bytes {
                    Ok(_) => None,
                    Err(error) => Some(error.duplicate()),
                };
                match refusal {
                    Some(error) => {
                        self.fail(error);
                    },
                    None => {
                        self.step = ProvisionStep::QueryFreeSpace;
                    },
                }
            },
        }
    }

    fn accept_write(&mut self, generation: Generation)
        requires
            old(self).well_formed(),
            old(self).step == ProvisionStep::Persist(generation),
        ensures
            after_write(*old(self), *final(self), generation),
            final(self).well_formed(),
    {
        proof {
            reveal(after_write);
            reveal(Provisioning::recorded_in_order);
            reveal(recording);
            reveal(requesting);
        }
        self.undo = Undo::Nothing;
        match generation {
            Generation::Initial => {
                self.step = ProvisionStep::ReadBack;
            },
            Generation::Lease => {
                self.enter_request();
            },
            Generation::OsDisk => {
                self.step = ProvisionStep::CreateOsDisk;
            },
            Generation::OsIdentifier => {
                self.step = ProvisionStep::CreateMountDirectory;
            },
            Generation::DataDiskPlanned => {
                self.step = ProvisionStep::CreateDataDisk;
            },
            Generation::DataDiskMounted => {
                self.step = ProvisionStep::StagePackage;
            },
            Generation::DataDiskDetached => {
                self.step = ProvisionStep::CreateVm;
            },
            Generation::VmCreated => {
                self.step = ProvisionStep::AttachOsDisk;
            },
            Generation::Network => {
                self.step = ProvisionStep::ConfigureNetwork;
            },
            Generation::Last => {
                self.step = ProvisionStep::Ready;
            },
        }
    }

    fn refuse_write(&mut self, error: SandboxError)
        requires
            old(self).well_formed(),
            old(self).step is Persist,
        ensures
            stopped(old(self).unwritten(), *final(self), error@),
            final(self).well_formed(),
    {
        proof {
            reveal(Provisioning::recorded_in_order);
            reveal(recording);
            reveal(requesting);
        }
        self.journal.sequence = self.journal.sequence - 1;
        self.restore();
        self.fail(error);
    }

    fn accept_read_back(&mut self)
        requires
            old(self).well_formed(),
            old(self).step == ProvisionStep::ReadBack,
        ensures
            after_read_back(*old(self), *final(self)),
            final(self).well_formed(),
    {
        proof {
            reveal(after_read_back);
            reveal(Provisioning::recorded_in_order);
            reveal(recording);
            reveal(requesting);
        }
        self.followed = true;
        match network::needs_guest_address(&self.plan, self.journal.run_id.as_str()) {
            Err(error) => {
                self.fail(error);
            },
            Ok(needed) => {
                if needed {
                    self.step = ProvisionStep::AllocateAddress;
                } else {
                    self.enter_request();
                }
            },
        }
    }

    fn accept_lease(&mut self, leased: SandboxResult<GuestAddressLease>)
        requires
            old(self).well_formed(),
            old(self).step == ProvisionStep::AllocateAddress,
        ensures
            after_lease(*old(self), *final(self), leased),
            final(self).well_formed(),
    {
        proof {
            reveal(after_lease);
            reveal(Provisioning::recorded_in_order);
            reveal(recording);
            reveal(requesting);
        }
        let activated = network::activate(
            &mut self.plan,
            self.journal.run_id.as_str(),
            &self.journal.run_root,
            leased,
        );
        match activated {
            Err(error) => {
                self.fail(error);
            },
            Ok(None) => {},
            Ok(Some(lease)) => {
                self.undo = Undo::Network(self.journal.network.take());
                self.journal.network = match self.planned_network.take() {
                    Some(mut blank) => {
                        blank.guest_lease = Some(lease);
                        Some(blank)
                    },
                    None => None,
                };
                self.record(Generation::Lease);
            },
        }
    }

    fn accept_free_space(&mut self, available: Result<u64, String>)
        requires
            old(self).well_formed(),
            old(self).step == ProvisionStep::QueryFreeSpace,
        ensures
            after_free_space(*old(self), *final(self), available),
            final(self).well_formed(),
    {
        proof {
            reveal(after_free_space);
            reveal(Provisioning::recorded_in_order);
            reveal(recording);
            reveal(requesting);
        }
        let verdict = match &self.required_free_bytes {
            Err(error) => Err(error.duplicate()),
            Ok(required) => config::require_host_free_space(&available, *required),
        };
        match verdict {
            Err(error) => {
                self.fail(error);
            },
            Ok(_) => {
                self.undo = Undo::OsDisk(self.journal.os_disk.take());
                self.journal.os_disk = self.planned_os_disk.take();
                self.record(Generation::OsDisk);
            },
        }
    }

    fn accept_os_disk(&mut self, created: SandboxResult<VhdInfo>)
        requires
            old(self).well_formed(),
            old(self).step == ProvisionStep::CreateOsDisk,
        ensures
            after_os_disk(*old(self), *final(self), created),
            final(self).well_formed(),
    {
        proof {
            reveal(after_os_disk);
            reveal(Provisioning::recorded_in_order);
            reveal(recording);
            reveal(requesting);
        }
        match created {
            Err(error) => {
                self.fail(error);
            },
            Ok(info) => match disk::accept_differencing_disk(&self.os_spec, info) {
                Err(error) => {
                    self.fail(error);
                },
                Ok(made) => {
                    self.undo = Undo::OsIdentifier(self.journal.os_disk_identifier.take());
                    self.journal.os_disk_identifier = made.disk_identifier;
                    self.record(Generation::OsIdentifier);
                },
            },
        }
    }

    fn accept_directory(&mut self, made: Result<(), String>)
        requires
            old(self).well_formed(),
            old(self).step == ProvisionStep::CreateMountDirectory,
        ensures
            after_directory(*old(self), *final(self), made),
            final(self).well_formed(),
    {
        proof {
            reveal(after_directory);
            reveal(Provisioning::recorded_in_order);
            reveal(recording);
            reveal(requesting);
        }
        match made {
            Err(source) => {
                self.fail(
                    SandboxError::with_source(
                        "hyperv_prepare",
                        "create data-disk mount directory",
                        source.as_str(),
                    ),
                );
            },
            Ok(_) => {
                self.undo = Undo::DataDisk(self.journal.data_disk.take());
                self.journal.data_disk = self.planned_data_disk.take();
                self.record(Generation::DataDiskPlanned);
            },
        }
    }

    fn accept_data_disk(&mut self, created: SandboxResult<DataDiskMount>)
        requires
            old(self).well_formed(),
            old(self).step == ProvisionStep::CreateDataDisk,
        ensures
            after_data_disk(*old(self), *final(self), created),
            final(self).well_formed(),
    {
        proof {
            reveal(after_data_disk);
            reveal(Provisioning::recorded_in_order);
            reveal(recording);
            reveal(requesting);
        }
        let mount = match created {
            Err(error) => {
                self.fail(error);
                return ;
            },
            Ok(mount) => mount,
        };
        let mut data = match self.journal.data_disk.take() {
            None => {
                return ;
            },
            Some(data) => data,
        };
        let undo = Undo::DataDiskState(
            text::clone_option(&data.disk_unique_id),
            text::clone_option(&data.vhd_identifier),
            data.state,
        );
        let verdict = data.accept_created(&self.data_spec, mount);
        self.journal.data_disk = Some(data);
        match verdict {
            Err(error) => {
                self.fail(error);
            },
            Ok(_) => {
                self.undo = undo;
                self.record(Generation::DataDiskMounted);
            },
        }
    }
}

impl Provisioning {
    fn accept_staged(&mut self, sha256: String)
        requires
            old(self).well_formed(),
            old(self).step == ProvisionStep::StagePackage,
        ensures
            *final(self) == (Provisioning {
                request_sha256: Some(sha256),
                step: ProvisionStep::DismountDataDisk,
                ..*old(self)
            }),
            final(self).well_formed(),
    {
        proof {
            reveal(Provisioning::recorded_in_order);
            reveal(recording);
            reveal(requesting);
        }
        self.request_sha256 = Some(sha256);
        self.step = ProvisionStep::DismountDataDisk;
    }

    fn accept_dismount(&mut self, dismounted: SandboxResult<bool>)
        requires
            old(self).well_formed(),
            old(self).step == ProvisionStep::DismountDataDisk,
        ensures
            after_dismount(*old(self), *final(self), dismounted),
            final(self).well_formed(),
    {
        proof {
            reveal(after_dismount);
            reveal(Provisioning::recorded_in_order);
            reveal(recording);
            reveal(requesting);
        }
        let confirmed = match dismounted {
            Err(error) => {
                self.fail(error);
                return ;
            },
            Ok(confirmed) => confirmed,
        };
        let mut data = match self.journal.data_disk.take() {
            None => {
                return ;
            },
            Some(data) => data,
        };
        let undo = Undo::DataDiskState(
            text::clone_option(&data.disk_unique_id),
            text::clone_option(&data.vhd_identifier),
            data.state,
        );
        let verdict = data.record_dismount(confirmed);
        self.journal.data_disk = Some(data);
        match verdict {
            Err(error) => {
                self.fail(error);
            },
            Ok(_) => {
                self.undo = undo;
                self.record(Generation::DataDiskDetached);
            },
        }
    }

    fn accept_vm(&mut self, created: SandboxResult<VmHandle>)
        requires
            old(self).well_formed(),
            old(self).step == ProvisionStep::CreateVm,
        ensures
            after_vm(*old(self), *final(self), created),
            final(self).well_formed(),
    {
        proof {
            reveal(after_vm);
            reveal(Provisioning::recorded_in_order);
            reveal(recording);
            reveal(requesting);
        }
        match created {
            Err(error) => {
                self.fail(error);
            },
            Ok(handle) => match vm::accept_created(&self.vm_spec, &handle) {
                Err(error) => {
                    self.fail(error);
                },
                Ok(_) => {
                    self.undo = Undo::Vm(self.journal.vm.take(), self.journal.phase);
                    self.journal.vm = Some(handle);
                    self.journal.phase = CleanupPhase::VmCreated;
                    self.record(Generation::VmCreated);
                },
            },
        }
    }

    fn accept_os_attachment(&mut self, attached: SandboxResult<DiskAttachment>)
        requires
            old(self).well_formed(),
            old(self).step == ProvisionStep::AttachOsDisk,
        ensures
            after_attachment(
                *old(self),
                *final(self),
                attached,
                &old(self).os_spec.path,
                DiskRole::OperatingSystem,
                ProvisionStep::AttachDataDisk,
            ),
            final(self).well_formed(),
    {
        proof {
            reveal(after_attachment);
            reveal(Provisioning::recorded_in_order);
            reveal(recording);
            reveal(requesting);
        }
        let verdict = match attached {
            Err(error) => Err(error),
            Ok(attachment) => vm::accept_attachment(
                &attachment,
                &self.os_spec.path,
                DiskRole::OperatingSystem,
            ),
        };
        match verdict {
            Err(error) => {
                self.fail(error);
            },
            Ok(_) => {
                self.step = ProvisionStep::AttachDataDisk;
            },
        }
    }

    fn accept_data_attachment(&mut self, attached: SandboxResult<DiskAttachment>)
        requires
            old(self).well_formed(),
            old(self).step == ProvisionStep::AttachDataDisk,
        ensures
            after_attachment(
                *old(self),
                *final(self),
                attached,
                &old(self).data_spec.path,
                DiskRole::RunData,
                network_step(&old(self).plan),
            ),
            final(self).well_formed(),
    {
        proof {
            reveal(after_attachment);
            reveal(Provisioning::recorded_in_order);
            reveal(recording);
            reveal(requesting);
        }
        let verdict = match attached {
            Err(error) => Err(error),
            Ok(attachment) => vm::accept_attachment(
                &attachment,
                &self.data_spec.path,
                DiskRole::RunData,
            ),
        };
        match verdict {
            Err(error) => {
                self.fail(error);
            },
            Ok(_) => match &self.plan {
                HyperVNetworkPlan::Controlled(_) => {
                    self.step = ProvisionStep::PrepareAdapter;
                },
                HyperVNetworkPlan::DenyAll => {
                    self.step = ProvisionStep::ConfigureNetwork;
                },
            },
        }
    }

    fn accept_scope(&mut self, scoped: SandboxResult<String>)
        requires
            old(self).well_formed(),
            old(self).step == ProvisionStep::PrepareAdapter,
        ensures
            after_scope(*old(self), *final(self), scoped),
            final(self).well_formed(),
    {
        proof {
            reveal(after_scope);
            reveal(Provisioning::recorded_in_order);
            reveal(recording);
            reveal(requesting);
        }
        let scope = match scoped {
            Err(error) => {
                self.fail(error);
                return ;
            },
            Ok(scope) => scope,
        };
        let owner = match (&self.plan, &self.journal.vm) {
            (HyperVNetworkPlan::Controlled(_), Some(machine)) => machine.id.clone(),
            _ => {
                return ;
            },
        };
        let mut attachment = NetworkAttachment::default();
        attachment.firewall_scope_id = Some(scope);
        match network::record_firewall_scope(&mut self.plan, &attachment) {
            Err(error) => {
                self.fail(error);
                return ;
            },
            Ok(_) => {},
        }
        match network::owned_resources(
            owner.as_str(),
            self.journal.run_id.as_str(),
            &self.plan,
        ) {
            Err(error) => {
                self.fail(error);
            },
            Ok(resources) => {
                self.undo = Undo::Network(self.journal.network.take());
                self.journal.network = Some(resources);
                self.record(Generation::Network);
            },
        }
    }

    fn accept_attestation(&mut self, attested: SandboxResult<NetworkAttachment>)
        requires
            old(self).well_formed(),
            old(self).step == ProvisionStep::ConfigureNetwork || old(self).step
                == ProvisionStep::VerifyNetwork,
        ensures
            after_attestation(*old(self), *final(self), attested),
            final(self).well_formed(),
    {
        proof {
            reveal(after_attestation);
            reveal(Provisioning::recorded_in_order);
            reveal(recording);
            reveal(requesting);
        }
        let attachment = match attested {
            Err(error) => {
                self.fail(error);
                return ;
            },
            Ok(attachment) => attachment,
        };
        match network::verify_attachment(&self.plan, &attachment, false) {
            Err(error) => {
                self.fail(error);
            },
            Ok(_) => {
                if self.step == ProvisionStep::VerifyNetwork {
                    self.pre_verification = Some(attachment);
                    self.record(Generation::Last);
                } else {
                    self.step = ProvisionStep::VerifyNetwork;
                }
            },
        }
    }

    /// Carries provisioning on with an answer of the host.
    pub fn advance(&mut self, event: ProvisionEvent)
        requires
            old(self).well_formed(),
        ensures
            provisioned(*old(self), event, *final(self)),
            final(self).well_formed(),
    {
        match (self.step, event) {
            (ProvisionStep::Start, ProvisionEvent::Begin) => {
                proof {
                    reveal(Provisioning::recorded_in_order);
                    reveal(recording);
                }
                self.record(Generation::Initial);
            },
            (ProvisionStep::Persist(_), ProvisionEvent::Settled(Err(error))) => {
                self.refuse_write(error);
            },
            (ProvisionStep::Persist(generation), ProvisionEvent::Settled(Ok(_))) => {
                self.accept_write(generation);
            },
            (ProvisionStep::ReadBack, ProvisionEvent::Settled(Err(error))) => {
                self.fail(error);
            },
            (ProvisionStep::ReadBack, ProvisionEvent::Settled(Ok(_))) => {
                self.accept_read_back();
            },
            (ProvisionStep::AllocateAddress, ProvisionEvent::Leased(leased)) => {
                self.accept_lease(leased);
            },
            (ProvisionStep::QueryFreeSpace, ProvisionEvent::FreeSpace(available)) => {
                self.accept_free_space(available);
            },
            (ProvisionStep::CreateOsDisk, ProvisionEvent::OsDiskCreated(created)) => {
                self.accept_os_disk(created);
            },
            (ProvisionStep::CreateMountDirectory, ProvisionEvent::DirectoryMade(made)) => {
                self.accept_directory(made);
            },
            (ProvisionStep::CreateDataDisk, ProvisionEvent::DataDiskCreated(created)) => {
                self.accept_data_disk(created);
            },
            (ProvisionStep::StagePackage, ProvisionEvent::Staged(Err(error))) => {
                self.fail(error);
            },
            (ProvisionStep::StagePackage, ProvisionEvent::Staged(Ok(sha256))) => {
                self.accept_staged(sha256);
            },
            (ProvisionStep::DismountDataDisk, ProvisionEvent::Dismounted(dismounted)) => {
                self.accept_dismount(dismounted);
            },
            (ProvisionStep::CreateVm, ProvisionEvent::VmMade(created)) => {
                self.accept_vm(created);
            },
            (ProvisionStep::AttachOsDisk, ProvisionEvent::Attached(attached)) => {
                self.accept_os_attachment(attached);
            },
            (ProvisionStep::AttachDataDisk, ProvisionEvent::Attached(attached)) => {
                self.accept_data_attachment(attached);
            },
            (ProvisionStep::PrepareAdapter, ProvisionEvent::Scoped(scoped)) => {
                self.accept_scope(scoped);
            },
            (ProvisionStep::ConfigureNetwork, ProvisionEvent::Attested(attested)) => {
                self.accept_attestation(attested);
            },
            (ProvisionStep::VerifyNetwork, ProvisionEvent::Attested(attested)) => {
                self.accept_attestation(attested);
            },
            _ => {},
        }
    }
}

// ---------------------------------------------------------------------------------------------
// Laws
// ---------------------------------------------------------------------------------------------

/// Whatever is about to be used is recorded in the journal that was last written: the system disk
/// and the data disk before they are created, the machine before disks are attached to it, and the
/// resources of a controlled network before they are set up.
pub proof fn resources_are_recorded_before_use(run: Provisioning)
    requires
        run.well_formed(),
    ensures
        run.step == ProvisionStep::CreateOsDisk ==> run.written().os_disk is Some,
        run.step == ProvisionStep::CreateDataDisk ==> run.written().data_disk is Some,
        run.step == ProvisionStep::AttachOsDisk ==> run.written().vm is Some,
        run.step == ProvisionStep::AttachDataDisk ==> run.written().vm is Some,
        run.step == ProvisionStep::ConfigureNetwork && controlled(&run.plan)
            ==> run.written().network is Some && run.network_recorded(),
{
    reveal(Provisioning::recorded_in_order);
}

/// `after` failed and has the given journal.
spec fn failed_with(after: Provisioning, journal: CleanupJournal) -> bool {
    &&& after.journal == journal
    &&& after.failure is Some
}

proof fn lemma_recording(before: Provisioning, after: Provisioning, generation: Generation)
    requires
        recording(before, after, generation),
        after.step == ProvisionStep::Failed,
    ensures
        failed_with(after, undone(before.journal, before.undo)),
{
    reveal(recording);
    let fault = before.journal@.persist_fault(cleanup::held(&before.program_data));
    assert(fault is Some);
}

proof fn lemma_requesting(before: Provisioning, after: Provisioning)
    requires
        requesting(before, after),
        after.step == ProvisionStep::Failed,
    ensures
        failed_with(after, before.journal),
{
    reveal(requesting);
}

proof fn lemma_failed_write(before: Provisioning, after: Provisioning, generation: Generation)
    requires
        before.step != ProvisionStep::Failed,
        after_write(before, after, generation),
        after.step == ProvisionStep::Failed,
    ensures
        failed_with(after, before.journal),
        generation == Generation::Lease,
{
    reveal(after_write);
    if generation == Generation::Lease {
        lemma_requesting(Provisioning { undo: Undo::Nothing, ..before }, after);
    }
}

proof fn lemma_failed_read_back(before: Provisioning, after: Provisioning)
    requires
        before.step != ProvisionStep::Failed,
        after_read_back(before, after),
        after.step == ProvisionStep::Failed,
    ensures
        failed_with(after, before.journal),
{
    reveal(after_read_back);
    match network::activation_verdict(&before.plan, before.journal.run_id@) {
        Ok(false) => {
            lemma_requesting(Provisioning { followed: true, ..before }, after);
        },
        _ => {},
    }
}

proof fn lemma_failed_lease(before: Provisioning, after: Provisioning, leased: SandboxResult<GuestAddressLease>)
    requires
        before.step != ProvisionStep::Failed,
        after_lease(before, after, leased),
        after.step == ProvisionStep::Failed,
    ensures
        failed_with(after, before.journal),
{
    reveal(after_lease);
    match (network::activation_verdict(&before.plan, before.journal.run_id@), leased) {
        (Ok(true), Ok(lease)) => {
            let journal = CleanupJournal {
                network: match before.planned_network {
                    Some(blank) => Some(NetworkOwnedResources { guest_lease: Some(lease), ..blank }),
                    None => None,
                },
                ..before.journal
            };
            let undo = Undo::Network(before.journal.network);
            assert(undone(journal, undo) == before.journal);
            lemma_recording(
                Provisioning { plan: after.plan, planned_network: None, journal, undo, ..before },
                after,
                Generation::Lease,
            );
        },
        _ => {},
    }
}

proof fn lemma_failed_free_space(before: Provisioning, after: Provisioning, available: Result<u64, String>)
    requires
        before.step != ProvisionStep::Failed,
        after_free_space(before, after, available),
        after.step == ProvisionStep::Failed,
    ensures
        failed_with(after, before.journal),
{
    reveal(after_free_space);
    match before.required_free_bytes {
        Ok(required) => if config::free_space_verdict(&available, required) is Ok {
            let journal = CleanupJournal { os_disk: before.planned_os_disk, ..before.journal };
            let undo = Undo::OsDisk(before.journal.os_disk);
            assert(undone(journal, undo) == before.journal);
            lemma_recording(
                Provisioning { planned_os_disk: None, journal, undo, ..before },
                after,
                Generation::OsDisk,
            );
        },
        Err(_) => {},
    }
}

proof fn lemma_failed_os_disk(before: Provisioning, after: Provisioning, created: SandboxResult<VhdInfo>)
    requires
        before.step != ProvisionStep::Failed,
        after_os_disk(before, after, created),
        after.step == ProvisionStep::Failed,
    ensures
        failed_with(after, before.journal),
{
    reveal(after_os_disk);
    match created {
        Ok(info) => if disk::created_disk_verdict(&before.os_spec, &info) is Ok {
            let journal = CleanupJournal {
                os_disk_identifier: info.disk_identifier,
                ..before.journal
            };
            let undo = Undo::OsIdentifier(before.journal.os_disk_identifier);
            assert(undone(journal, undo) == before.journal);
            lemma_recording(
                Provisioning { journal, undo, ..before },
                after,
                Generation::OsIdentifier,
            );
        },
        Err(_) => {},
    }
}

proof fn lemma_failed_directory(before: Provisioning, after: Provisioning, made: Result<(), String>)
    requires
        before.step != ProvisionStep::Failed,
        after_directory(before, after, made),
        after.step == ProvisionStep::Failed,
    ensures
        failed_with(after, before.journal),
{
    reveal(after_directory);
    if made is Ok {
        let journal = CleanupJournal { data_disk: before.planned_data_disk, ..before.journal };
        let undo = Undo::DataDisk(before.journal.data_disk);
        assert(undone(journal, undo) == before.journal);
        lemma_recording(
            Provisioning { planned_data_disk: None, journal, undo, ..before },
            after,
            Generation::DataDiskPlanned,
        );
    }
}

proof fn lemma_failed_data_disk(before: Provisioning, after: Provisioning, created: SandboxResult<DataDiskMount>)
    requires
        before.step != ProvisionStep::Failed,
        after_data_disk(before, after, created),
        after.step == ProvisionStep::Failed,
    ensures
        failed_with(after, before.journal),
{
    reveal(after_data_disk);
    match (created, before.journal.data_disk) {
        (Ok(mount), Some(planned)) => if data_disk::mount_verdict(
            &before.data_spec,
            &mount,
            planned.label@,
        ) is Ok {
            let next = with_data_disk(before, planned, planned.mounted_with(mount));
            assert(undone(next.journal, next.undo) == before.journal);
            lemma_recording(next, after, Generation::DataDiskMounted);
        },
        _ => {},
    }
}

proof fn lemma_failed_dismount(before: Provisioning, after: Provisioning, dismounted: SandboxResult<bool>)
    requires
        before.step != ProvisionStep::Failed,
        after_dismount(before, after, dismounted),
        after.step == ProvisionStep::Failed,
    ensures
        failed_with(after, before.journal),
{
    reveal(after_dismount);
    match (dismounted, before.journal.data_disk) {
        (Ok(true), Some(mounted)) => {
            let next = with_data_disk(
                before,
                mounted,
                RunDataDisk { state: DataDiskState::Detached, ..mounted },
            );
            assert(undone(next.journal, next.undo) == before.journal);
            lemma_recording(next, after, Generation::DataDiskDetached);
        },
        _ => {},
    }
}

proof fn lemma_failed_vm(before: Provisioning, after: Provisioning, created: SandboxResult<VmHandle>)
    requires
        before.step != ProvisionStep::Failed,
        after_vm(before, after, created),
        after.step == ProvisionStep::Failed,
    ensures
        failed_with(after, before.journal),
{
    reveal(after_vm);
    match created {
        Ok(handle) => if before.vm_spec.creation_verdict(&handle) is Ok {
            let journal = CleanupJournal {
                vm: Some(handle),
                phase: CleanupPhase::VmCreated,
                ..before.journal
            };
            let undo = Undo::Vm(before.journal.vm, before.journal.phase);
            assert(undone(journal, undo) == before.journal);
            lemma_recording(
                Provisioning { journal, undo, ..before },
                after,
                Generation::VmCreated,
            );
        },
        Err(_) => {},
    }
}

proof fn lemma_failed_attestation(before: Provisioning, after: Provisioning, attested: SandboxResult<NetworkAttachment>)
    requires
        before.step != ProvisionStep::Failed,
        before.undo is Nothing,
        after_attestation(before, after, attested),
        after.step == ProvisionStep::Failed,
    ensures
        failed_with(after, before.journal),
{
    reveal(after_attestation);
    match attested {
        Ok(attachment) => if network::attachment_verdict(&before.plan, &attachment, false) is Ok
            && before.step == ProvisionStep::VerifyNetwork {
            lemma_recording(
                Provisioning { pre_verification: Some(attachment), ..before },
                after,
                Generation::Last,
            );
        },
        Err(_) => {},
    }
}

proof fn lemma_failed_scope(before: Provisioning, after: Provisioning, scoped: SandboxResult<String>)
    requires
        before.step != ProvisionStep::Failed,
        after_scope(before, after, scoped),
        after.step == ProvisionStep::Failed,
    ensures
        failed_with(after, before.journal),
{
    reveal(after_scope);
    match (scoped, before.plan, before.journal.vm) {
        (Ok(scope), HyperVNetworkPlan::Controlled(plan), Some(machine)) => {
            let scoped_plan = network::ControlledPlan { firewall_scope_id: Some(scope), ..plan };
            if network::scope_verdict(&plan, scope@) is Ok && scoped_plan.ownership_verdict(
                machine.id@,
                before.journal.run_id@,
            ) is Ok {
                let next = |resources: NetworkOwnedResources|
                    Provisioning {
                        plan: HyperVNetworkPlan::Controlled(scoped_plan),
                        journal: CleanupJournal { network: Some(resources), ..before.journal },
                        undo: Undo::Network(before.journal.network),
                        ..before
                    };
                let resources = choose|resources: NetworkOwnedResources|
                    {
                        &&& #[trigger] scoped_plan.owned_as(
                            &resources,
                            machine.id@,
                            before.journal.run_id@,
                        )
                        &&& recording(next(resources), after, Generation::Network)
                    };
                assert(undone(next(resources).journal, next(resources).undo) == before.journal);
                lemma_recording(next(resources), after, Generation::Network);
            }
        },
        _ => {},
    }
}

/// The journal as it is on disk once the host gave an answer.
pub open spec fn journal_on_disk(before: Provisioning, event: ProvisionEvent) -> CleanupJournal {
    match event {
        ProvisionEvent::Settled(Ok(_)) => before.journal,
        _ => before.written(),
    }
}

/// A failure leaves the journal as it is on disk, so that cleanup goes by what was written.
pub proof fn failures_keep_the_written_journal(
    before: Provisioning,
    event: ProvisionEvent,
    after: Provisioning,
)
    requires
        before.well_formed(),
        before.step != ProvisionStep::Failed,
        provisioned(before, event, after),
        after.step == ProvisionStep::Failed,
    ensures
        after.journal == journal_on_disk(before, event),
        after.failure is Some,
{
    assert(before.step is Persist || before.undo is Nothing) by {
        reveal(Provisioning::recorded_in_order);
    }
    match (before.step, event) {
        (ProvisionStep::Start, ProvisionEvent::Begin) => {
            lemma_recording(before, after, Generation::Initial);
        },
        (ProvisionStep::Persist(generation), ProvisionEvent::Settled(Ok(_))) => {
            lemma_failed_write(before, after, generation);
        },
        (ProvisionStep::ReadBack, ProvisionEvent::Settled(Ok(_))) => {
            lemma_failed_read_back(before, after);
        },
        (ProvisionStep::AllocateAddress, ProvisionEvent::Leased(leased)) => {
            lemma_failed_lease(before, after, leased);
        },
        (ProvisionStep::QueryFreeSpace, ProvisionEvent::FreeSpace(available)) => {
            lemma_failed_free_space(before, after, available);
        },
        (ProvisionStep::CreateOsDisk, ProvisionEvent::OsDiskCreated(created)) => {
            lemma_failed_os_disk(before, after, created);
        },
        (ProvisionStep::CreateMountDirectory, ProvisionEvent::DirectoryMade(made)) => {
            lemma_failed_directory(before, after, made);
        },
        (ProvisionStep::CreateDataDisk, ProvisionEvent::DataDiskCreated(created)) => {
            lemma_failed_data_disk(before, after, created);
        },
        (ProvisionStep::DismountDataDisk, ProvisionEvent::Dismounted(dismounted)) => {
            lemma_failed_dismount(before, after, dismounted);
        },
        (ProvisionStep::CreateVm, ProvisionEvent::VmMade(created)) => {
            lemma_failed_vm(before, after, created);
        },
        (ProvisionStep::AttachOsDisk, ProvisionEvent::Attached(_)) => {
            reveal(after_attachment);
        },
        (ProvisionStep::AttachDataDisk, ProvisionEvent::Attached(_)) => {
            reveal(after_attachment);
        },
        (ProvisionStep::PrepareAdapter, ProvisionEvent::Scoped(scoped)) => {
            lemma_failed_scope(before, after, scoped);
        },
        (ProvisionStep::ConfigureNetwork, ProvisionEvent::Attested(attested)) => {
            lemma_failed_attestation(before, after, attested);
        },
        (ProvisionStep::VerifyNetwork, ProvisionEvent::Attested(attested)) => {
            lemma_failed_attestation(before, after, attested);
        },
        _ => {},
    }
}

/// A run that is ready has its request staged, its network verified before the start, and all that
/// it owns recorded.
pub proof fn ready_runs_are_recorded(run: Provisioning)
    requires
        run.well_formed(),
        run.step == ProvisionStep::Ready,
    ensures
        run.followed,
        run.journal.vm is Some,
        run.journal.os_disk is Some,
        run.journal.data_disk is Some,
        run.network_recorded(),
        run.request_sha256 is Some,
        run.pre_verification is Some,
{
    reveal(Provisioning::recorded_in_order);
}

/// What each written generation leads to.
#[verifier::rlimit(60)]
#[verifier::spinoff_prover]
pub proof fn written_generations_lead_on(before: Provisioning, event: ProvisionEvent, after: Provisioning)
    requires
        before.well_formed(),
        provisioned(before, event, after),
        before.step is Persist,
        event is Settled,
    ensures
        event->Settled_0 is Err ==> after.step is Failed && after.failure is Some
            && after.failure->0@ == event->Settled_0->Err_0@,
        event->Settled_0 is Ok ==> match before.step->Persist_0 {
            Generation::Initial => after.step is ReadBack,
            Generation::Lease => after.step is QueryFreeSpace || after.step is Failed,
            Generation::OsDisk => after.step is CreateOsDisk,
            Generation::OsIdentifier => after.step is CreateMountDirectory,
            Generation::DataDiskPlanned => after.step is CreateDataDisk,
            Generation::DataDiskMounted => after.step is StagePackage,
            Generation::DataDiskDetached => after.step is CreateVm,
            Generation::VmCreated => after.step is AttachOsDisk,
            Generation::Network => after.step is ConfigureNetwork,
            Generation::Last => after.step is Ready,
        },
        event->Settled_0 is Ok && !(before.step->Persist_0 is Lease) ==> after.journal
            == before.journal,
{
    reveal(after_write);
    reveal(requesting);
}

/// What is recorded of each resource that was made: it is the one that was made, found to be as it was
/// wanted, in a generation one higher; anything else ends the provisioning with an error.
#[verifier::rlimit(60)]
#[verifier::spinoff_prover]
pub proof fn made_resources_are_recorded(before: Provisioning, event: ProvisionEvent, after: Provisioning)
    requires
        before.well_formed(),
        provisioned(before, event, after),
    ensures
        before.step is Start && event is Begin ==> after.step == ProvisionStep::Persist(
            Generation::Initial,
        ) || after.step is Failed,
        before.step is QueryFreeSpace && event is FreeSpace ==> {
            &&& after.step is Persist ==> {
                &&& after.step->Persist_0 is OsDisk
                &&& event->FreeSpace_0 is Ok
                &&& event->FreeSpace_0->Ok_0 >= before.required_free_bytes->Ok_0
                &&& after.journal.os_disk == before.planned_os_disk
                &&& after.journal.sequence == before.journal.sequence + 1
            }
            &&& after.step is Persist || after.step is Failed
        },
        before.step is CreateOsDisk && event is OsDiskCreated ==> {
            &&& after.step is Persist ==> {
                &&& after.step->Persist_0 is OsIdentifier
                &&& event->OsDiskCreated_0 is Ok
                &&& disk::created_disk_verdict(&before.os_spec, &event->OsDiskCreated_0->Ok_0) is Ok
                &&& after.journal.os_disk_identifier == event->OsDiskCreated_0->Ok_0.disk_identifier
                &&& after.journal.os_disk == before.journal.os_disk
            }
            &&& after.step is Persist || after.step is Failed
        },
        before.step is CreateMountDirectory && event is DirectoryMade ==> {
            &&& after.step is Persist ==> {
                &&& after.step->Persist_0 is DataDiskPlanned
                &&& event->DirectoryMade_0 is Ok
                &&& after.journal.data_disk == before.planned_data_disk
            }
            &&& after.step is Persist || after.step is Failed
        },
        before.step is CreateDataDisk && event is DataDiskCreated ==> {
            &&& after.step is Persist ==> {
                &&& after.step->Persist_0 is DataDiskMounted
                &&& event->DataDiskCreated_0 is Ok
                &&& data_disk::mount_verdict(
                    &before.data_spec,
                    &event->DataDiskCreated_0->Ok_0,
                    before.journal.data_disk->0.label@,
                ) is Ok
                &&& after.journal.data_disk == Some(
                    before.journal.data_disk->0.mounted_with(event->DataDiskCreated_0->Ok_0),
                )
            }
            &&& after.step is Persist || after.step is Failed
        },
        before.step is StagePackage && event is Staged ==> {
            &&& after.step is DismountDataDisk <==> event->Staged_0 is Ok
            &&& after.step is DismountDataDisk ==> after.request_sha256 == Some(event->Staged_0->Ok_0)
            &&& event->Staged_0 is Err ==> after.failure is Some && after.failure->0@
                == event->Staged_0->Err_0@
        },
        before.step is DismountDataDisk && event is Dismounted ==> {
            &&& after.step is Persist ==> {
                &&& after.step->Persist_0 is DataDiskDetached
                &&& event->Dismounted_0 == Ok::<bool, SandboxError>(true)
                &&& after.journal.data_disk->0.state == DataDiskState::Detached
                &&& after.journal.data_disk->0.path == before.journal.data_disk->0.path
            }
            &&& after.step is Persist || after.step is Failed
        },
        before.step is CreateVm && event is VmMade ==> {
            &&& after.step is Persist ==> {
                &&& after.step->Persist_0 is VmCreated
                &&& event->VmMade_0 is Ok
                &&& before.vm_spec.creation_verdict(&event->VmMade_0->Ok_0) is Ok
                &&& after.journal.vm == Some(event->VmMade_0->Ok_0)
                &&& after.journal.phase == CleanupPhase::VmCreated
            }
            &&& after.step is Persist || after.step is Failed
        },
{
    reveal(recording);
    reveal(after_free_space);
    reveal(after_os_disk);
    reveal(after_directory);
    reveal(after_data_disk);
    reveal(after_dismount);
    reveal(after_vm);
    reveal(Provisioning::recorded_in_order);
}

/// How a machine is put together: the system disk and the data disk are attached, the adapter of a
/// controlled network is prepared, and the network is configured and verified before the last generation
/// is written.
#[verifier::rlimit(60)]
#[verifier::spinoff_prover]
pub proof fn machines_are_put_together_in_order(
    before: Provisioning,
    event: ProvisionEvent,
    after: Provisioning,
)
    requires
        before.well_formed(),
        provisioned(before, event, after),
    ensures
        before.step is AttachOsDisk && event is Attached ==> (after.step is AttachDataDisk <==> {
            &&& event->Attached_0 is Ok
            &&& vm::attachment_verdict(
                &event->Attached_0->Ok_0,
                &before.os_spec.path,
                DiskRole::OperatingSystem,
            ) is Ok
        }),
        before.step is AttachDataDisk && event is Attached ==> {
            let attached = event->Attached_0 is Ok && vm::attachment_verdict(
                &event->Attached_0->Ok_0,
                &before.data_spec.path,
                DiskRole::RunData,
            ) is Ok;
            &&& after.step is PrepareAdapter <==> attached && before.plan is Controlled
            &&& after.step is ConfigureNetwork <==> attached && before.plan is DenyAll
            &&& after.step is Failed <==> !attached
        },
        before.step is ConfigureNetwork && event is Attested ==> (after.step is VerifyNetwork <==> {
            &&& event->Attested_0 is Ok
            &&& network::attachment_verdict(&before.plan, &event->Attested_0->Ok_0, false) is Ok
        }),
        before.step is VerifyNetwork && event is Attested ==> {
            &&& after.step is Persist ==> {
                &&& after.step->Persist_0 is Last
                &&& event->Attested_0 is Ok
                &&& network::attachment_verdict(&before.plan, &event->Attested_0->Ok_0, false) is Ok
                &&& after.pre_verification == Some(event->Attested_0->Ok_0)
            }
            &&& after.step is Persist || after.step is Failed
        },
        before.step is ReadBack && event is Settled && event->Settled_0 is Ok && before.plan is DenyAll
            ==> after.step is QueryFreeSpace || after.step is Failed,
        before.step is AllocateAddress && event is Leased && event->Leased_0 is Err ==> after.step
            is Failed || after == before,
{
    reveal(recording);
    reveal(requesting);
    reveal(after_attachment);
    reveal(after_attestation);
    reveal(after_read_back);
    reveal(after_lease);
}

/// A run is laid out below its own directory: its disks, the directory that its data disk is mounted at,
/// and the files of its machine.
pub proof fn runs_are_laid_out_below_their_directory(
    start: Provisioning,
    config: &HyperVConfig,
    run_id: Seq<char>,
    base_image: HostPath,
)
    requires
        start.starts_from(config, run_id, base_image),
    ensures
        ({
            let root = start.journal.run_root.spec_parts();
            &&& root == config.run_root.spec_parts().push(crate::host_path::PartView::Normal(run_id))
            &&& start.os_spec.path.spec_parts() == root.push(
                crate::host_path::PartView::Normal("os-diff.vhdx"@),
            )
            &&& start.data_spec.path.spec_parts() == root.push(
                crate::host_path::PartView::Normal("run-data.vhdx"@),
            )
            &&& start.data_spec.mount_path.spec_parts() == root.push(
                crate::host_path::PartView::Normal("data-mount"@),
            )
            &&& start.vm_spec.configuration_path.spec_parts() == root.push(
                crate::host_path::PartView::Normal("vm"@),
            )
        }),
        start.os_spec.parent_path == base_image,
        start.data_spec.size_bytes == config.data_disk_bytes,
        start.vm_spec.processor_count == config.processor_count,
        start.vm_spec.startup_memory_bytes == config.startup_memory_bytes,
        start.vm_spec.name@ == "foxhole-"@ + run_id,
        start.journal.sequence == 0,
        start.journal.run_id@ == run_id,
        start.journal.phase == CleanupPhase::Preparing,
        start.journal.vm is None,
        start.journal.os_disk is None,
        start.journal.data_disk is None,
        start.journal.network is None,
{
    let journal = start.journal@;
    assert(journal.sequence == 0 && journal.phase == CleanupPhase::Preparing);
}

} // verus!
