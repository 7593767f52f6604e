//! The removal of what a run owns: first the virtual machine, then its containment, then its disks.

use vstd::prelude::*;
use vstd::string::*;

use crate::backend;
use crate::backend::{SandboxError, SandboxResult};
use crate::host_path;
use crate::host_path::HostPath;
use crate::hyperv::data_disk::{DataDiskState, RunDataDisk};
use crate::hyperv::disk;
use crate::hyperv::disk::{DeletionStep, DiskDeletion};
use crate::hyperv::journal;
use crate::hyperv::journal::{
    same_run_root, validate_run_identity, CleanupJournal, CleanupPhase, JournalView,
};
use crate::hyperv::vm;
use crate::hyperv::vm::VmStatus;
use crate::sorted;
use crate::text;

verus! {

/// The longest time that a recovered machine may be given to switch off.
pub const MAX_RECOVERY_GRACE_MS: u64 = 600_000;

#[derive(Clone, Debug, PartialEq, Eq)]
pub struct CleanupOutcome {
    pub attempted: bool,
    pub success: bool,
    pub warnings: Vec<String>,
    pub leftover_resources: Vec<String>,
    pub removed_resources: Vec<String>,
}

impl Default for CleanupOutcome {
    fn default() -> (outcome: CleanupOutcome)
        ensures
            !outcome.attempted,
            !outcome.success,
            outcome.warnings@.len() == 0,
            outcome.leftover_resources@.len() == 0,
            outcome.removed_resources@.len() == 0,
    {
        CleanupOutcome {
            attempted: false,
            success: false,
            warnings: Vec::new(),
            leftover_resources: Vec::new(),
            removed_resources: Vec::new(),
        }
    }
}

impl CleanupOutcome {
    /// The outcome where nothing was there to be cleaned up.
    pub fn nothing_to_clean() -> (outcome: CleanupOutcome)
        ensures
            outcome.attempted,
            outcome.success,
            outcome.warnings@.len() == 0,
            outcome.leftover_resources@.len() == 0,
            outcome.removed_resources@.len() == 0,
    {
        CleanupOutcome {
            attempted: true,
            success: true,
            warnings: Vec::new(),
            leftover_resources: Vec::new(),
            removed_resources: Vec::new(),
        }
    }
}

// ---------------------------------------------------------------------------------------------
// The machine
// ---------------------------------------------------------------------------------------------

/// What a cleanup waits for.
#[derive(Clone, Copy, Debug, PartialEq, Eq, Structural)]
pub enum CleanupStep {
    /// Hold the run directory and all above it, following no link.
    PinRunRoot,
    /// Write the journal's generation at the start.
    PersistStart,
    QueryVm,
    RequestStop,
    ForceStop,
    WaitForOff,
    ForceStopLate,
    DetachDataDisk,
    DetachOsDisk,
    RemoveVm,
    RemovePlannedVm,
    CleanNetwork,
    /// Write the journal's generation without the network.
    PersistNetwork,
    DismountDataDisk,
    DeleteDataDisk,
    DeleteOsDisk,
    /// Write the journal's last generation.
    PersistEnd,
    Done,
}

/// What the host answered.
#[derive(Debug)]
pub enum CleanupEvent {
    /// To the holding of the run directory, with the text of the error.
    Pinned(Result<(), String>),
    /// To a question for the state of the machine.
    Status(SandboxResult<VmStatus>),
    /// To a stop, or to the wait for one.
    Stopped(SandboxResult<bool>),
    /// To the removal of network resources, with their names.
    Removed(SandboxResult<Vec<String>>),
    /// To anything else.
    Settled(SandboxResult<()>),
}

/// A cleanup under way.
#[derive(Debug)]
pub struct CleanupRun {
    pub journal: CleanupJournal,
    pub outcome: CleanupOutcome,
    pub step: CleanupStep,
    pub vm_removed: bool,
    pub program_data: Option<HostPath>,
}

/// Where a cleanup stands.
pub struct CleanupView {
    pub journal: JournalView,
    pub warnings: Seq<Seq<char>>,
    pub leftovers: Seq<Seq<char>>,
    pub removed: Seq<Seq<char>>,
    pub attempted: bool,
    pub success: bool,
    pub step: CleanupStep,
    pub vm_removed: bool,
    pub program_data: Option<HostPath>,
}

impl View for CleanupRun {
    type V = CleanupView;

    open spec fn view(&self) -> CleanupView {
        CleanupView {
            journal: self.journal@,
            warnings: text::views(self.outcome.warnings@),
            leftovers: text::views(self.outcome.leftover_resources@),
            removed: text::views(self.outcome.removed_resources@),
            attempted: self.outcome.attempted,
            success: self.outcome.success,
            step: self.step,
            vm_removed: self.vm_removed,
            program_data: self.program_data,
        }
    }
}

/// A reference to what is there.
pub open spec fn held<'a>(root: &'a Option<HostPath>) -> Option<&'a HostPath> {
    match root {
        Some(path) => Some(path),
        None => None,
    }
}

pub open spec fn legacy_warning() -> Seq<char> {
    "schema-1 cleanup journal lacks authenticated VHD identities; VM reconciliation will proceed, but writable disks will be retained"@
}

pub open spec fn switch_warning() -> Seq<char> {
    "refusing to remove a journal-supplied virtual switch without independently authenticated ownership"@
}

/// Why disks and switches stay where they are.
#[derive(Clone, Copy, Debug, PartialEq, Eq, Structural)]
pub enum Retention {
    Legacy,
    VmRemains,
}

pub open spec fn disk_retention_text(retention: Retention) -> Seq<char> {
    match retention {
        Retention::Legacy => ":retained_legacy_unverified_identity"@,
        Retention::VmRemains => ":retained_because_vm_removal_failed"@,
    }
}

pub open spec fn switch_retention_text(retention: Retention) -> Seq<char> {
    match retention {
        Retention::Legacy => ":retained_legacy_unverified_ownership"@,
        Retention::VmRemains => ":retained_because_vm_removal_failed"@,
    }
}

impl CleanupView {
    pub open spec fn warn(self, warning: Seq<char>) -> CleanupView {
        CleanupView { warnings: self.warnings.push(warning), ..self }
    }

    /// A warning that a piece of work failed.
    pub open spec fn warn_of(self, work: Seq<char>, error: backend::Fault) -> CleanupView {
        self.warn(work + backend::fault_text(error))
    }

    pub open spec fn leave(self, leftover: Seq<char>) -> CleanupView {
        CleanupView { leftovers: self.leftovers.push(leftover), ..self }
    }

    pub open spec fn at(self, step: CleanupStep) -> CleanupView {
        CleanupView { step, ..self }
    }

    pub open spec fn legacy(self) -> bool {
        self.journal.schema_version == 1
    }

    /// Nothing was warned of or left so far.
    pub open spec fn clean(self) -> bool {
        self.warnings.len() == 0 && self.leftovers.len() == 0
    }

    // Persisting -----------------------------------------------------------------------------

    pub open spec fn persist_failed(self, error: backend::Fault) -> CleanupView {
        self.warn_of("persist cleanup journal: "@, error).leave(
            "cleanup_journal:"@ + self.journal.run_root.shown@,
        )
    }

    /// The cleanup once a generation was written, or could not be.
    #[verifier::opaque]
    pub open spec fn persisted(self, step: CleanupStep) -> CleanupView {
        match step {
            CleanupStep::PersistStart => self.enter_vm(),
            CleanupStep::PersistNetwork => self.enter_storage(),
            _ => self.conclude(),
        }
    }

    /// The cleanup that goes on to write a generation at `step`.
    #[verifier::opaque]
    pub open spec fn enter_persist(self, step: CleanupStep) -> CleanupView {
        match self.journal.persist_fault(held(&self.program_data)) {
            Some(error) => self.persist_failed(error).persisted(step),
            None => CleanupView { journal: self.journal.next_generation(), step, ..self },
        }
    }

    // The machine ----------------------------------------------------------------------------

    #[verifier::opaque]
    pub open spec fn enter_vm(self) -> CleanupView {
        if self.journal.vm is Some {
            self.at(CleanupStep::QueryVm)
        } else {
            self.at(CleanupStep::RemovePlannedVm)
        }
    }

    #[verifier::opaque]
    pub open spec fn enter_detach(self) -> CleanupView {
        if self.journal.data_disk is Some {
            self.at(CleanupStep::DetachDataDisk)
        } else {
            self.enter_detach_os()
        }
    }

    #[verifier::opaque]
    pub open spec fn enter_detach_os(self) -> CleanupView {
        if self.journal.os_disk is Some {
            self.at(CleanupStep::DetachOsDisk)
        } else {
            self.at(CleanupStep::RemoveVm)
        }
    }

    // What the machine used -------------------------------------------------------------------

    #[verifier::opaque]
    pub open spec fn enter_network(self) -> CleanupView {
        if self.journal.network is None {
            self.enter_storage()
        } else if self.vm_removed {
            self.at(CleanupStep::CleanNetwork)
        } else {
            self.leave(
                "network_resources:"@ + self.journal.run_id
                    + ":retained_because_vm_removal_failed"@,
            ).enter_storage()
        }
    }

    /// Leaves the disks and the switch where they are.
    #[verifier::opaque]
    pub open spec fn retain(self, retention: Retention) -> CleanupView {
        let data = match self.journal.data_disk {
            Some(data) => self.leave(
                "data_disk:"@ + data.path.shown@ + disk_retention_text(retention),
            ),
            None => self,
        };
        let os = match data.journal.os_disk {
            Some(path) => data.leave("os_disk:"@ + path.shown@ + disk_retention_text(retention)),
            None => data,
        };
        match os.journal.owned_switch {
            Some(switch) => os.leave(
                "switch:"@ + switch.id@ + ":"@ + switch.name@ + switch_retention_text(retention),
            ),
            None => os,
        }
    }

    #[verifier::opaque]
    pub open spec fn enter_storage(self) -> CleanupView {
        if !self.vm_removed {
            self.retain(Retention::VmRemains).finish()
        } else if self.legacy() {
            self.retain(Retention::Legacy).finish()
        } else if self.journal.data_disk is Some {
            self.at(CleanupStep::DismountDataDisk)
        } else {
            self.enter_os_disk()
        }
    }

    #[verifier::opaque]
    pub open spec fn enter_os_disk(self) -> CleanupView {
        if self.journal.os_disk is Some {
            self.at(CleanupStep::DeleteOsDisk)
        } else {
            self.enter_switch()
        }
    }

    #[verifier::opaque]
    pub open spec fn enter_switch(self) -> CleanupView {
        match self.journal.owned_switch {
            Some(switch) => self.warn(switch_warning()).leave(
                "switch:"@ + switch.id@ + ":"@ + switch.name@ + ":retained_unverified_ownership"@,
            ).finish(),
            None => self.finish(),
        }
    }

    // The end --------------------------------------------------------------------------------

    #[verifier::opaque]
    pub open spec fn finish(self) -> CleanupView {
        let leftovers = sorted::tidy(self.leftovers);
        let journal = JournalView {
            warnings: self.journal.warnings + self.warnings,
            leftover_resources: leftovers,
            phase: if leftovers.len() == 0 && self.warnings.len() == 0 {
                CleanupPhase::Finished
            } else {
                CleanupPhase::Failed
            },
            ..self.journal
        };
        let ready = CleanupView { leftovers, journal, ..self };
        // the last generation; no work follows it
        match journal.persist_fault(held(&self.program_data)) {
            Some(error) => ready.persist_failed(error).conclude(),
            None => CleanupView {
                journal: journal.next_generation(),
                step: CleanupStep::PersistEnd,
                ..ready
            },
        }
    }

    pub open spec fn conclude(self) -> CleanupView {
        CleanupView { success: self.clean(), step: CleanupStep::Done, ..self }
    }

    // Answers --------------------------------------------------------------------------------

    #[verifier::opaque]
    pub open spec fn pinned(self, result: Result<(), String>) -> CleanupView {
        match result {
            Ok(_) => CleanupView {
                journal: JournalView { phase: CleanupPhase::Cleaning, ..self.journal },
                ..self
            }.enter_persist(CleanupStep::PersistStart),
            Err(source) => self.warn(
                "refusing cleanup because the run directory could not be pinned without following links: "@
                    + source@,
            ).leave(
                "run_root:"@ + self.journal.run_root.shown@ + ":retained_unverified_path"@,
            ).at(CleanupStep::Done),
        }
    }

    #[verifier::opaque]
    pub open spec fn vm_queried(self, result: SandboxResult<VmStatus>) -> CleanupView {
        match result {
            Ok(status) => if status.exists && !vm::is_off(status.state@) {
                self.at(CleanupStep::RequestStop)
            } else {
                self.enter_detach()
            },
            Err(error) => self.warn_of("query VM before cleanup: "@, error@).enter_detach(),
        }
    }

    #[verifier::opaque]
    pub open spec fn stop_requested(self, result: SandboxResult<bool>) -> CleanupView {
        match result {
            Ok(true) => self.at(CleanupStep::WaitForOff),
            _ => self.at(CleanupStep::ForceStop),
        }
    }

    #[verifier::opaque]
    pub open spec fn stop_forced(self, result: SandboxResult<bool>) -> CleanupView {
        match result {
            Ok(_) => self.at(CleanupStep::WaitForOff),
            Err(error) => self.warn_of("force-stop disposable VM: "@, error@).at(
                CleanupStep::WaitForOff,
            ),
        }
    }

    #[verifier::opaque]
    pub open spec fn waited(self, result: SandboxResult<bool>) -> CleanupView {
        match result {
            Ok(true) => self.enter_detach(),
            Ok(false) => self.at(CleanupStep::ForceStopLate),
            Err(error) => self.warn_of("verify VM shutdown: "@, error@).enter_detach(),
        }
    }

    #[verifier::opaque]
    pub open spec fn stop_forced_late(self, result: SandboxResult<bool>) -> CleanupView {
        match result {
            Ok(_) => self.enter_detach(),
            Err(error) => self.warn_of(
                "force-stop VM after grace period: "@,
                error@,
            ).enter_detach(),
        }
    }

    #[verifier::opaque]
    pub open spec fn data_disk_detached(self, result: SandboxResult<()>) -> CleanupView {
        match result {
            Ok(_) => self.enter_detach_os(),
            Err(error) => self.warn_of("detach run-data disk: "@, error@).enter_detach_os(),
        }
    }

    #[verifier::opaque]
    pub open spec fn os_disk_detached(self, result: SandboxResult<()>) -> CleanupView {
        match result {
            Ok(_) => self.at(CleanupStep::RemoveVm),
            Err(error) => self.warn_of("detach differencing OS disk: "@, error@).at(
                CleanupStep::RemoveVm,
            ),
        }
    }

    #[verifier::opaque]
    pub open spec fn vm_settled(self, result: SandboxResult<()>) -> CleanupView {
        match result {
            Ok(_) => CleanupView {
                journal: JournalView { vm: None, ..self.journal },
                ..self
            }.enter_network(),
            Err(error) => {
                let warned = CleanupView { vm_removed: false, ..self }.warn_of(
                    "remove disposable VM: "@,
                    error@,
                );
                match self.journal.vm {
                    Some(machine) => warned.leave("vm:"@ + machine.id@ + ":"@ + machine.name@),
                    None => warned,
                }.enter_network()
            },
        }
    }

    #[verifier::opaque]
    pub open spec fn planned_vm_settled(self, result: SandboxResult<()>) -> CleanupView {
        match result {
            Ok(_) => self.enter_network(),
            Err(error) => CleanupView { vm_removed: false, ..self }.warn_of(
                "reconcile partially-created VM: "@,
                error@,
            ).leave("vm_name:foxhole-"@ + self.journal.run_id).enter_network(),
        }
    }

    #[verifier::opaque]
    pub open spec fn network_cleaned(self, result: SandboxResult<Vec<String>>) -> CleanupView {
        match result {
            Ok(names) => CleanupView {
                removed: self.removed + text::views(names@),
                journal: JournalView { network: None, ..self.journal },
                ..self
            }.enter_persist(CleanupStep::PersistNetwork),
            Err(error) => self.warn_of("remove run-owned network resources: "@, error@).leave(
                "network_resources:"@ + self.journal.run_id,
            ).enter_storage(),
        }
    }

    #[verifier::opaque]
    pub open spec fn data_disk_dismounted(self, result: SandboxResult<()>) -> CleanupView {
        match result {
            Ok(_) => CleanupView {
                journal: JournalView {
                    data_disk: match self.journal.data_disk {
                        Some(data) => Some(
                            RunDataDisk { state: DataDiskState::Detached, ..data },
                        ),
                        None => None,
                    },
                    ..self.journal
                },
                ..self
            }.at(CleanupStep::DeleteDataDisk),
            Err(error) => self.warn_of("dismount run-data disk: "@, error@).at(
                CleanupStep::DeleteDataDisk,
            ),
        }
    }

    #[verifier::opaque]
    pub open spec fn data_disk_deleted(self, result: SandboxResult<()>) -> CleanupView {
        match result {
            Ok(_) => CleanupView {
                journal: JournalView { data_disk: None, ..self.journal },
                ..self
            }.enter_os_disk(),
            Err(error) => {
                let warned = self.warn_of("delete run-data disk: "@, error@);
                match self.journal.data_disk {
                    Some(data) => warned.leave("data_disk:"@ + data.path.shown@),
                    None => warned,
                }.enter_os_disk()
            },
        }
    }

    #[verifier::opaque]
    pub open spec fn os_disk_deleted(self, result: SandboxResult<()>) -> CleanupView {
        match result {
            Ok(_) => CleanupView {
                journal: JournalView { os_disk: None, os_disk_identifier: None, ..self.journal },
                ..self
            }.enter_switch(),
            Err(error) => {
                let warned = self.warn_of("delete differencing disk: "@, error@);
                match self.journal.os_disk {
                    Some(path) => warned.leave("os_disk:"@ + path.shown@),
                    None => warned,
                }.enter_switch()
            },
        }
    }

    /// The cleanup after the outcome of writing a generation.
    #[verifier::opaque]
    pub open spec fn written(self, result: SandboxResult<()>) -> CleanupView {
        match result {
            Ok(_) => self.persisted(self.step),
            Err(error) => self.persist_failed(error@).persisted(self.step),
        }
    }

    /// The cleanup after the answer to what it waits for. Any other answer changes nothing.
    pub open spec fn after(self, event: &CleanupEvent) -> CleanupView {
        match (self.step, event) {
            (CleanupStep::PinRunRoot, CleanupEvent::Pinned(result)) => self.pinned(*result),
            (CleanupStep::PersistStart, CleanupEvent::Settled(result)) => self.written(*result),
            (CleanupStep::PersistNetwork, CleanupEvent::Settled(result)) => self.written(*result),
            (CleanupStep::PersistEnd, CleanupEvent::Settled(result)) => self.written(*result),
            (CleanupStep::QueryVm, CleanupEvent::Status(result)) => self.vm_queried(*result),
            (CleanupStep::RequestStop, CleanupEvent::Stopped(result)) => self.stop_requested(*result),
            (CleanupStep::ForceStop, CleanupEvent::Stopped(result)) => self.stop_forced(*result),
            (CleanupStep::WaitForOff, CleanupEvent::Stopped(result)) => self.waited(*result),
            (CleanupStep::ForceStopLate, CleanupEvent::Stopped(result)) => self.stop_forced_late(
                *result,
            ),
            (CleanupStep::DetachDataDisk, CleanupEvent::Settled(result)) => {
                self.data_disk_detached(*result)
            },
            (CleanupStep::DetachOsDisk, CleanupEvent::Settled(result)) => self.os_disk_detached(
                *result,
            ),
            (CleanupStep::RemoveVm, CleanupEvent::Settled(result)) => self.vm_settled(*result),
            (CleanupStep::RemovePlannedVm, CleanupEvent::Settled(result)) => self.planned_vm_settled(
                *result,
            ),
            (CleanupStep::CleanNetwork, CleanupEvent::Removed(result)) => self.network_cleaned(
                *result,
            ),
            (CleanupStep::DismountDataDisk, CleanupEvent::Settled(result)) => {
                self.data_disk_dismounted(*result)
            },
            (CleanupStep::DeleteDataDisk, CleanupEvent::Settled(result)) => {
                self.data_disk_deleted(*result)
            },
            (CleanupStep::DeleteOsDisk, CleanupEvent::Settled(result)) => self.os_disk_deleted(
                *result,
            ),
            _ => self,
        }
    }
}

/// The cleanup of what `journal` names, before anything was done.
pub open spec fn cleanup_start(journal: JournalView, program_data: Option<HostPath>) -> CleanupView {
    CleanupView {
        journal,
        warnings: if journal.schema_version == 1 {
            seq![legacy_warning()]
        } else {
            Seq::empty()
        },
        leftovers: Seq::empty(),
        removed: Seq::empty(),
        attempted: true,
        success: false,
        step: CleanupStep::PinRunRoot,
        vm_removed: true,
        program_data,
    }
}

/// Starts the cleanup of what `journal` names. The host does what each step waits for and hands the
/// answer back, until the cleanup is done.
pub fn cleanup_resources(journal: CleanupJournal, program_data: Option<HostPath>) -> (run: CleanupRun)
    ensures
        run@ == cleanup_start(journal@, program_data),
        run.journal == journal,
{
    let mut warnings: Vec<String> = Vec::new();
    if journal.schema_version == 1 {
        warnings.push(
            "schema-1 cleanup journal lacks authenticated VHD identities; VM reconciliation will proceed, but writable disks will be retained".to_owned(),
        );
    }
    let leftover_resources: Vec<String> = Vec::new();
    let removed_resources: Vec<String> = Vec::new();
    proof {
        assert(text::views(leftover_resources@) =~= Seq::<Seq<char>>::empty());
        if journal.schema_version == 1 {
            assert(text::views(warnings@) =~= seq![legacy_warning()]);
        } else {
            assert(text::views(warnings@) =~= Seq::<Seq<char>>::empty());
        }
    }
    CleanupRun {
        journal,
        outcome: CleanupOutcome {
            attempted: true,
            success: false,
            warnings,
            leftover_resources,
            removed_resources,
        },
        step: CleanupStep::PinRunRoot,
        vm_removed: true,
        program_data,
    }
}

fn push(list: &mut Vec<String>, item: String)
    ensures
        text::views(final(list)@) == text::views(old(list)@).push(item@),
{
    let ghost before = list@;
    list.push(item);
    proof {
        assert(text::views(list@) =~= text::views(before).push(item@));
    }
}

fn push_all(list: &mut Vec<String>, items: &Vec<String>)
    ensures
        text::views(final(list)@) == text::views(old(list)@) + text::views(items@),
{
    let ghost before = text::views(list@);
    let mut i: usize = 0;
    proof {
        assert(before + text::views(items@).take(0) =~= before);
    }
    while i < items.len()
        invariant
            i <= items@.len(),
            text::views(list@) == before + text::views(items@).take(i as int),
        decreases items@.len() - i,
    {
        push(list, items[i].clone());
        proof {
            let all = text::views(items@);
            assert(all.take(i + 1) =~= all.take(i as int).push(all[i as int]));
            assert(text::views(list@) =~= before + all.take(i + 1));
        }
        i = i + 1;
    }
    proof {
        assert(text::views(items@).take(i as int) =~= text::views(items@));
    }
}

impl CleanupRun {
    fn warn(&mut self, warning: String)
        ensures
            final(self)@ == old(self)@.warn(warning@),
    {
        push(&mut self.outcome.warnings, warning);
    }

    fn warn_of(&mut self, work: &str, error: &SandboxError)
        ensures
            final(self)@ == old(self)@.warn_of(work@, error@),
    {
        let shown = error.to_string();
        self.warn(text::cat2(work, shown.as_str()));
    }

    fn leave(&mut self, leftover: String)
        ensures
            final(self)@ == old(self)@.leave(leftover@),
    {
        push(&mut self.outcome.leftover_resources, leftover);
    }

    /// Records that a generation could not be written.
    fn record_persist_error(&mut self, error: &SandboxError)
        ensures
            final(self)@ == old(self)@.persist_failed(error@),
    {
        self.warn_of("persist cleanup journal: ", error);
        let line = text::cat2("cleanup_journal:", self.journal.run_root.shown.as_str());
        self.leave(line);
    }

    /// Makes the journal its next generation, or says why not.
    fn plan_generation(&mut self) -> (planned: SandboxResult<()>)
        ensures
            match planned {
                Ok(_) => {
                    &&& old(self)@.journal.persist_fault(held(&old(self).program_data)) is None
                    &&& final(self)@ == (CleanupView {
                        journal: old(self)@.journal.next_generation(),
                        ..old(self)@
                    })
                },
                Err(error) => {
                    &&& old(self)@.journal.persist_fault(held(&old(self).program_data)) == Some(
                        error@,
                    )
                    &&& final(self)@ == old(self)@
                },
            },
    {
        let program_data = match &self.program_data {
            Some(root) => Some(root),
            None => None,
        };
        match self.journal.persist(program_data) {
            Ok(_) => Ok(()),
            Err(error) => Err(error),
        }
    }

    fn enter_persist(&mut self, step: CleanupStep)
        requires
            step == CleanupStep::PersistStart || step == CleanupStep::PersistNetwork,
        ensures
            final(self)@ == old(self)@.enter_persist(step),
    {
        proof {
            reveal(CleanupView::enter_persist);
        }
        match self.plan_generation() {
            Ok(_) => {
                self.step = step;
            },
            Err(error) => {
                self.record_persist_error(&error);
                self.persisted(step);
            },
        }
    }

    fn persisted(&mut self, step: CleanupStep)
        ensures
            final(self)@ == old(self)@.persisted(step),
    {
        proof {
            reveal(CleanupView::persisted);
        }
        match step {
            CleanupStep::PersistStart => self.enter_vm(),
            CleanupStep::PersistNetwork => self.enter_storage(),
            _ => self.conclude(),
        }
    }

    fn written(&mut self, result: SandboxResult<()>)
        ensures
            final(self)@ == old(self)@.written(result),
    {
        proof {
            reveal(CleanupView::written);
        }
        match result {
            Ok(_) => {},
            Err(error) => self.record_persist_error(&error),
        }
        let step = self.step;
        self.persisted(step);
    }

    fn enter_vm(&mut self)
        ensures
            final(self)@ == old(self)@.enter_vm(),
    {
        proof {
            reveal(CleanupView::enter_vm);
        }
        self.step = if self.journal.vm.is_some() {
            CleanupStep::QueryVm
        } else {
            CleanupStep::RemovePlannedVm
        };
    }

    fn enter_detach(&mut self)
        ensures
            final(self)@ == old(self)@.enter_detach(),
    {
        proof {
            reveal(CleanupView::enter_detach);
        }
        if self.journal.data_disk.is_some() {
            self.step = CleanupStep::DetachDataDisk;
        } else {
            self.enter_detach_os();
        }
    }

    fn enter_detach_os(&mut self)
        ensures
            final(self)@ == old(self)@.enter_detach_os(),
    {
        proof {
            reveal(CleanupView::enter_detach_os);
        }
        self.step = if self.journal.os_disk.is_some() {
            CleanupStep::DetachOsDisk
        } else {
            CleanupStep::RemoveVm
        };
    }

    fn enter_network(&mut self)
        ensures
            final(self)@ == old(self)@.enter_network(),
    {
        proof {
            reveal(CleanupView::enter_network);
        }
        if self.journal.network.is_none() {
            self.enter_storage();
        } else if self.vm_removed {
            self.step = CleanupStep::CleanNetwork;
        } else {
            let line = text::cat3(
                "network_resources:",
                self.journal.run_id.as_str(),
                ":retained_because_vm_removal_failed",
            );
            self.leave(line);
            self.enter_storage();
        }
    }

    fn retain(&mut self, retention: Retention)
        ensures
            final(self)@ == old(self)@.retain(retention),
    {
        proof {
            reveal(CleanupView::retain);
        }
        let disk_reason = match retention {
            Retention::Legacy => ":retained_legacy_unverified_identity",
            Retention::VmRemains => ":retained_because_vm_removal_failed",
        };
        let switch_reason = match retention {
            Retention::Legacy => ":retained_legacy_unverified_ownership",
            Retention::VmRemains => ":retained_because_vm_removal_failed",
        };
        let data_line = match &self.journal.data_disk {
            Some(data) => Some(text::cat3("data_disk:", data.path.shown.as_str(), disk_reason)),
            None => None,
        };
        match data_line {
            Some(line) => self.leave(line),
            None => {},
        }
        let os_line = match &self.journal.os_disk {
            Some(path) => Some(text::cat3("os_disk:", path.shown.as_str(), disk_reason)),
            None => None,
        };
        match os_line {
            Some(line) => self.leave(line),
            None => {},
        }
        let switch_line = match &self.journal.owned_switch {
            Some(switch) => Some(
                text::cat5(
                    "switch:",
                    switch.id.as_str(),
                    ":",
                    switch.name.as_str(),
                    switch_reason,
                ),
            ),
            None => None,
        };
        match switch_line {
            Some(line) => self.leave(line),
            None => {},
        }
    }

    fn enter_storage(&mut self)
        ensures
            final(self)@ == old(self)@.enter_storage(),
    {
        proof {
            reveal(CleanupView::enter_storage);
        }
        if !self.vm_removed {
            self.retain(Retention::VmRemains);
            self.finish();
        } else if self.journal.schema_version == 1 {
            self.retain(Retention::Legacy);
            self.finish();
        } else if self.journal.data_disk.is_some() {
            self.step = CleanupStep::DismountDataDisk;
        } else {
            self.enter_os_disk();
        }
    }

    fn enter_os_disk(&mut self)
        ensures
            final(self)@ == old(self)@.enter_os_disk(),
    {
        proof {
            reveal(CleanupView::enter_os_disk);
        }
        if self.journal.os_disk.is_some() {
            self.step = CleanupStep::DeleteOsDisk;
        } else {
            self.enter_switch();
        }
    }

    fn enter_switch(&mut self)
        ensures
            final(self)@ == old(self)@.enter_switch(),
    {
        proof {
            reveal(CleanupView::enter_switch);
        }
        let line = match &self.journal.owned_switch {
            Some(switch) => Some(
                text::cat5(
                    "switch:",
                    switch.id.as_str(),
                    ":",
                    switch.name.as_str(),
                    ":retained_unverified_ownership",
                ),
            ),
            None => None,
        };
        match line {
            Some(leftover) => {
                self.warn(
                    "refusing to remove a journal-supplied virtual switch without independently authenticated ownership".to_owned(),
                );
                self.leave(leftover);
            },
            None => {},
        }
        self.finish();
    }

    fn finish(&mut self)
        ensures
            final(self)@ == old(self)@.finish(),
    {
        proof {
            reveal(CleanupView::finish);
        }
        self.outcome.leftover_resources = sorted::tidied(&self.outcome.leftover_resources);
        push_all(&mut self.journal.warnings, &self.outcome.warnings);
        self.journal.leftover_resources = text::clone_list(&self.outcome.leftover_resources);
        self.journal.phase = if self.outcome.leftover_resources.len() == 0
            && self.outcome.warnings.len() == 0 {
            CleanupPhase::Finished
        } else {
            CleanupPhase::Failed
        };
        match self.plan_generation() {
            Ok(_) => {
                self.step = CleanupStep::PersistEnd;
            },
            Err(error) => {
                self.record_persist_error(&error);
                self.conclude();
            },
        }
    }

    fn conclude(&mut self)
        ensures
            final(self)@ == old(self)@.conclude(),
    {
        self.outcome.success = self.outcome.leftover_resources.len() == 0
            && self.outcome.warnings.len() == 0;
        self.step = CleanupStep::Done;
    }

    /// Takes the host's answer to the step that the cleanup waits for.
    pub fn advance(&mut self, event: CleanupEvent)
        ensures
            final(self)@ == old(self)@.after(&event),
    {
        match (self.step, event) {
            (CleanupStep::PinRunRoot, CleanupEvent::Pinned(result)) => self.pinned(result),
            (CleanupStep::PersistStart, CleanupEvent::Settled(result)) => self.written(result),
            (CleanupStep::PersistNetwork, CleanupEvent::Settled(result)) => self.written(result),
            (CleanupStep::PersistEnd, CleanupEvent::Settled(result)) => self.written(result),
            (CleanupStep::QueryVm, CleanupEvent::Status(result)) => self.vm_queried(result),
            (CleanupStep::RequestStop, CleanupEvent::Stopped(result)) => self.stop_requested(result),
            (CleanupStep::ForceStop, CleanupEvent::Stopped(result)) => self.stop_forced(result),
            (CleanupStep::WaitForOff, CleanupEvent::Stopped(result)) => self.waited(result),
            (CleanupStep::ForceStopLate, CleanupEvent::Stopped(result)) => self.stop_forced_late(
                result,
            ),
            (CleanupStep::DetachDataDisk, CleanupEvent::Settled(result)) => {
                self.data_disk_detached(result)
            },
            (CleanupStep::DetachOsDisk, CleanupEvent::Settled(result)) => self.os_disk_detached(
                result,
            ),
            (CleanupStep::RemoveVm, CleanupEvent::Settled(result)) => self.vm_settled(result),
            (CleanupStep::RemovePlannedVm, CleanupEvent::Settled(result)) => self.planned_vm_settled(
                result,
            ),
            (CleanupStep::CleanNetwork, CleanupEvent::Removed(result)) => self.network_cleaned(
                result,
            ),
            (CleanupStep::DismountDataDisk, CleanupEvent::Settled(result)) => {
                self.data_disk_dismounted(result)
            },
            (CleanupStep::DeleteDataDisk, CleanupEvent::Settled(result)) => {
                self.data_disk_deleted(result)
            },
            (CleanupStep::DeleteOsDisk, CleanupEvent::Settled(result)) => self.os_disk_deleted(
                result,
            ),
            _ => {},
        }
    }

    fn pinned(&mut self, result: Result<(), String>)
        ensures
            final(self)@ == old(self)@.pinned(result),
    {
        proof {
            reveal(CleanupView::pinned);
        }
        match result {
            Ok(_) => {
                self.journal.phase = CleanupPhase::Cleaning;
                self.enter_persist(CleanupStep::PersistStart);
            },
            Err(source) => {
                self.warn(
                    text::cat2(
                        "refusing cleanup because the run directory could not be pinned without following links: ",
                        source.as_str(),
                    ),
                );
                let line = text::cat3(
                    "run_root:",
                    self.journal.run_root.shown.as_str(),
                    ":retained_unverified_path",
                );
                self.leave(line);
                self.step = CleanupStep::Done;
            },
        }
    }

    fn vm_queried(&mut self, result: SandboxResult<VmStatus>)
        ensures
            final(self)@ == old(self)@.vm_queried(result),
    {
        proof {
            reveal(CleanupView::vm_queried);
        }
        match result {
            Ok(status) => {
                if status.exists && !text::eq_ignoring_case(status.state.as_str(), "off") {
                    self.step = CleanupStep::RequestStop;
                } else {
                    self.enter_detach();
                }
            },
            Err(error) => {
                self.warn_of("query VM before cleanup: ", &error);
                self.enter_detach();
            },
        }
    }

    fn stop_requested(&mut self, result: SandboxResult<bool>)
        ensures
            final(self)@ == old(self)@.stop_requested(result),
    {
        proof {
            reveal(CleanupView::stop_requested);
        }
        self.step = match result {
            Ok(true) => CleanupStep::WaitForOff,
            _ => CleanupStep::ForceStop,
        };
    }

    fn stop_forced(&mut self, result: SandboxResult<bool>)
        ensures
            final(self)@ == old(self)@.stop_forced(result),
    {
        proof {
            reveal(CleanupView::stop_forced);
        }
        match result {
            Ok(_) => {},
            Err(error) => self.warn_of("force-stop disposable VM: ", &error),
        }
        self.step = CleanupStep::WaitForOff;
    }

    fn waited(&mut self, result: SandboxResult<bool>)
        ensures
            final(self)@ == old(self)@.waited(result),
    {
        proof {
            reveal(CleanupView::waited);
        }
        match result {
            Ok(true) => self.enter_detach(),
            Ok(false) => {
                self.step = CleanupStep::ForceStopLate;
            },
            Err(error) => {
                self.warn_of("verify VM shutdown: ", &error);
                self.enter_detach();
            },
        }
    }

    fn stop_forced_late(&mut self, result: SandboxResult<bool>)
        ensures
            final(self)@ == old(self)@.stop_forced_late(result),
    {
        proof {
            reveal(CleanupView::stop_forced_late);
        }
        match result {
            Ok(_) => {},
            Err(error) => self.warn_of("force-stop VM after grace period: ", &error),
        }
        self.enter_detach();
    }

    fn data_disk_detached(&mut self, result: SandboxResult<()>)
        ensures
            final(self)@ == old(self)@.data_disk_detached(result),
    {
        proof {
            reveal(CleanupView::data_disk_detached);
        }
        match result {
            Ok(_) => {},
            Err(error) => self.warn_of("detach run-data disk: ", &error),
        }
        self.enter_detach_os();
    }

    fn os_disk_detached(&mut self, result: SandboxResult<()>)
        ensures
            final(self)@ == old(self)@.os_disk_detached(result),
    {
        proof {
            reveal(CleanupView::os_disk_detached);
        }
        match result {
            Ok(_) => {},
            Err(error) => self.warn_of("detach differencing OS disk: ", &error),
        }
        self.step = CleanupStep::RemoveVm;
    }

    fn vm_settled(&mut self, result: SandboxResult<()>)
        ensures
            final(self)@ == old(self)@.vm_settled(result),
    {
        proof {
            reveal(CleanupView::vm_settled);
        }
        match result {
            Ok(_) => {
                self.journal.vm = None;
            },
            Err(error) => {
                self.vm_removed = false;
                self.warn_of("remove disposable VM: ", &error);
                let line = match &self.journal.vm {
                    Some(machine) => Some(
                        text::cat4("vm:", machine.id.as_str(), ":", machine.name.as_str()),
                    ),
                    None => None,
                };
                match line {
                    Some(leftover) => self.leave(leftover),
                    None => {},
                }
            },
        }
        self.enter_network();
    }

    fn planned_vm_settled(&mut self, result: SandboxResult<()>)
        ensures
            final(self)@ == old(self)@.planned_vm_settled(result),
    {
        proof {
            reveal(CleanupView::planned_vm_settled);
        }
        match result {
            Ok(_) => {},
            Err(error) => {
                self.vm_removed = false;
                self.warn_of("reconcile partially-created VM: ", &error);
                let line = text::cat2("vm_name:foxhole-", self.journal.run_id.as_str());
                self.leave(line);
            },
        }
        self.enter_network();
    }

    fn network_cleaned(&mut self, result: SandboxResult<Vec<String>>)
        ensures
            final(self)@ == old(self)@.network_cleaned(result),
    {
        proof {
            reveal(CleanupView::network_cleaned);
        }
        match result {
            Ok(names) => {
                push_all(&mut self.outcome.removed_resources, &names);
                self.journal.network = None;
                self.enter_persist(CleanupStep::PersistNetwork);
            },
            Err(error) => {
                self.warn_of("remove run-owned network resources: ", &error);
                let line = text::cat2("network_resources:", self.journal.run_id.as_str());
                self.leave(line);
                self.enter_storage();
            },
        }
    }

    fn data_disk_dismounted(&mut self, result: SandboxResult<()>)
        ensures
            final(self)@ == old(self)@.data_disk_dismounted(result),
    {
        proof {
            reveal(CleanupView::data_disk_dismounted);
        }
        match result {
            Ok(_) => {
                match self.journal.data_disk.take() {
                    Some(mut data) => {
                        data.state = DataDiskState::Detached;
                        self.journal.data_disk = Some(data);
                    },
                    None => {},
                }
            },
            Err(error) => self.warn_of("dismount run-data disk: ", &error),
        }
        self.step = CleanupStep::DeleteDataDisk;
    }

    fn data_disk_deleted(&mut self, result: SandboxResult<()>)
        ensures
            final(self)@ == old(self)@.data_disk_deleted(result),
    {
        proof {
            reveal(CleanupView::data_disk_deleted);
        }
        match result {
            Ok(_) => {
                self.journal.data_disk = None;
            },
            Err(error) => {
                self.warn_of("delete run-data disk: ", &error);
                let line = match &self.journal.data_disk {
                    Some(data) => Some(text::cat2("data_disk:", data.path.shown.as_str())),
                    None => None,
                };
                match line {
                    Some(leftover) => self.leave(leftover),
                    None => {},
                }
            },
        }
        self.enter_os_disk();
    }

    fn os_disk_deleted(&mut self, result: SandboxResult<()>)
        ensures
            final(self)@ == old(self)@.os_disk_deleted(result),
    {
        proof {
            reveal(CleanupView::os_disk_deleted);
        }
        match result {
            Ok(_) => {
                self.journal.os_disk = None;
                self.journal.os_disk_identifier = None;
            },
            Err(error) => {
                self.warn_of("delete differencing disk: ", &error);
                let line = match &self.journal.os_disk {
                    Some(path) => Some(text::cat2("os_disk:", path.shown.as_str())),
                    None => None,
                };
                match line {
                    Some(leftover) => self.leave(leftover),
                    None => {},
                }
            },
        }
        self.enter_switch();
    }
}

// ---------------------------------------------------------------------------------------------
// Deletion of recorded disks
// ---------------------------------------------------------------------------------------------

/// What lies at the path of a recorded disk.
#[derive(Clone, Debug, PartialEq, Eq)]
pub enum DiskPresence {
    Missing,
    Present,
    /// It could not be found out, with the text of the error.
    Unreadable(String),
}

/// Begins the deletion of a recorded disk; there is none where nothing lies there.
pub fn delete_verified_disk(
    presence: &DiskPresence,
    path: &HostPath,
    run_root: &HostPath,
    expected_identifier: &Option<String>,
) -> (started: SandboxResult<Option<DiskDeletion>>)
    ensures
        match (presence, started) {
            (DiskPresence::Missing, Ok(run)) => run is None,
            (DiskPresence::Missing, Err(_)) => false,
            (DiskPresence::Unreadable(source), Err(error)) => error@ == backend::fault_from(
                "hyperv_cleanup"@,
                "inspect a recorded VHDX before deletion"@,
                source@,
            ),
            (DiskPresence::Unreadable(_), Ok(_)) => false,
            (DiskPresence::Present, found) => match expected_identifier {
                None => found matches Err(error) && error@ == backend::fault(
                    "hyperv_cleanup"@,
                    "refusing destructive recovery without a recorded VHD identity"@,
                ),
                Some(expected) => match (
                    disk::deletion_request_verdict(path, run_root, expected@),
                    found,
                ) {
                    (Ok(_), Ok(Some(run))) => {
                        &&& run.consistent()
                        &&& run.step == DeletionStep::OpenForInspection
                        &&& run.path.copies(path)
                        &&& run.expected_identifier@ == expected@
                        &&& run.info is None
                        &&& run.outcome is None
                    },
                    (Err(fault), Err(error)) => error@ == fault,
                    _ => false,
                },
            },
        },
{
    match presence {
        DiskPresence::Missing => {
            return Ok(None);
        },
        DiskPresence::Unreadable(source) => {
            return Err(
                SandboxError::with_source(
                    "hyperv_cleanup",
                    "inspect a recorded VHDX before deletion",
                    source.as_str(),
                ),
            );
        },
        DiskPresence::Present => {},
    }
    match expected_identifier {
        None => Err(
            SandboxError::new(
                "hyperv_cleanup",
                "refusing destructive recovery without a recorded VHD identity",
            ),
        ),
        Some(expected) => match DiskDeletion::delete_owned_disk(
            path,
            run_root,
            expected.as_str(),
        ) {
            Err(error) => Err(error),
            Ok(run) => Ok(Some(run)),
        },
    }
}

// ---------------------------------------------------------------------------------------------
// Recovery of stale runs
// ---------------------------------------------------------------------------------------------

pub open spec fn grace_verdict(shutdown_grace_ms: u64) -> Result<(), backend::Fault> {
    if 0 < shutdown_grace_ms <= MAX_RECOVERY_GRACE_MS {
        Ok(())
    } else {
        Err(
            backend::fault(
                "hyperv_cleanup_recovery"@,
                "cleanup recovery grace period must be between one second and ten minutes"@,
            ),
        )
    }
}

/// Whether a recovery may give a machine this time to switch off.
pub fn check_recovery_grace(shutdown_grace_ms: u64) -> (verdict: SandboxResult<()>)
    ensures
        backend::outcome(verdict) == grace_verdict(shutdown_grace_ms),
{
    if shutdown_grace_ms == 0 || shutdown_grace_ms > MAX_RECOVERY_GRACE_MS {
        return Err(
            SandboxError::new(
                "hyperv_cleanup_recovery",
                "cleanup recovery grace period must be between one second and ten minutes",
            ),
        );
    }
    Ok(())
}

/// The parts of the directory of a run below the artifact root.
pub open spec fn protected_parts(artifact_root: &HostPath, run_id: Seq<char>) -> Seq<
    host_path::PartView,
> {
    artifact_root.spec_parts().push(host_path::PartView::Normal("hyperv"@)).push(
        host_path::PartView::Normal("runs"@),
    ).push(host_path::PartView::Normal(run_id))
}

/// The text of the directory that holds the runs.
pub open spec fn protected_runs_text(artifact_root: &HostPath) -> Seq<char> {
    host_path::joined_text(
        artifact_root.style,
        host_path::joined_text(artifact_root.style, artifact_root.shown@, "hyperv"@),
        "runs"@,
    )
}

/// The path is the directory of a run below a local artifact root.
pub open spec fn is_protected_run(
    bound: &HostPath,
    artifact_root: &HostPath,
    run_id: Seq<char>,
) -> bool {
    &&& bound.spec_parts() == protected_parts(artifact_root, run_id)
    &&& bound.shown@ == host_path::joined_text(
        artifact_root.style,
        protected_runs_text(artifact_root),
        run_id,
    )
    &&& bound.style == artifact_root.style
    &&& bound.absolute == artifact_root.absolute
    &&& bound.unicode == artifact_root.unicode
    &&& bound.local_fault is None
}

pub open spec fn recovery_root_verdict(artifact_root: &HostPath, requested: &HostPath) -> Result<
    (),
    backend::Fault,
> {
    match artifact_root.local_fault {
        Some(source) => Err(
            backend::fault_from(
                "hyperv_cleanup_recovery"@,
                "Foxhole's artifact root must be an absolute local path"@,
                source@,
            ),
        ),
        None => match host_path::name_of(requested.spec_parts()) {
            None => Err(
                backend::fault(
                    "hyperv_cleanup_recovery"@,
                    "cleanup recovery path must end in a hexadecimal run identifier"@,
                ),
            ),
            Some(run_id) => match journal::run_identity_verdict(run_id, requested) {
                Err(fault) => Err(
                    backend::fault_from(
                        "hyperv_cleanup_recovery"@,
                        "cleanup recovery path has an invalid run identity"@,
                        backend::fault_text(fault),
                    ),
                ),
                Ok(_) => if !host_path::same_parts(
                    requested.style,
                    requested.spec_parts(),
                    protected_parts(artifact_root, run_id),
                ) {
                    Err(
                        backend::fault(
                            "hyperv_cleanup_recovery"@,
                            "cleanup recovery is restricted to protected Foxhole runs below "@
                                + protected_runs_text(artifact_root),
                        ),
                    )
                } else {
                    Ok(())
                },
            },
        },
    }
}

/// The protected directory that a requested run directory must be.
pub fn bind_recovery_run_root(artifact_root: &HostPath, requested_run_root: &HostPath) -> (run_root:
    SandboxResult<HostPath>)
    ensures
        match run_root {
            Ok(bound) => {
                &&& recovery_root_verdict(artifact_root, requested_run_root) is Ok
                &&& host_path::name_of(requested_run_root.spec_parts()) matches Some(run_id)
                    && is_protected_run(&bound, artifact_root, run_id)
            },
            Err(error) => recovery_root_verdict(artifact_root, requested_run_root) == Err::<
                (),
                backend::Fault,
            >(error@),
        },
{
    match &artifact_root.local_fault {
        Some(source) => {
            return Err(
                SandboxError::with_source(
                    "hyperv_cleanup_recovery",
                    "Foxhole's artifact root must be an absolute local path",
                    source.as_str(),
                ),
            );
        },
        None => {},
    }
    let run_id = match requested_run_root.file_name() {
        Some(name) => name,
        None => {
            return Err(
                SandboxError::new(
                    "hyperv_cleanup_recovery",
                    "cleanup recovery path must end in a hexadecimal run identifier",
                ),
            );
        },
    };
    match validate_run_identity(run_id.as_str(), requested_run_root) {
        Err(error) => {
            let shown = error.to_string();
            return Err(
                SandboxError::with_source(
                    "hyperv_cleanup_recovery",
                    "cleanup recovery path has an invalid run identity",
                    shown.as_str(),
                ),
            );
        },
        Ok(_) => {},
    }
    let protected_runs_root = artifact_root.join("hyperv").join("runs");
    let expected_run_root = protected_runs_root.join(run_id.as_str());
    if !same_run_root(requested_run_root, &expected_run_root) {
        let message = text::cat2(
            "cleanup recovery is restricted to protected Foxhole runs below ",
            protected_runs_root.shown.as_str(),
        );
        return Err(SandboxError::new("hyperv_cleanup_recovery", message.as_str()));
    }
    Ok(expected_run_root)
}

/// A journal whose run left nothing behind.
pub open spec fn is_settled(journal: JournalView) -> bool {
    journal.phase == CleanupPhase::Finished && journal.names_nothing()
}

/// What is recovered of a stale run: nothing where its latest journal is settled, else the cleanup
/// of what the journal names.
#[derive(Debug)]
pub enum Recovery {
    Settled(CleanupOutcome),
    Cleanup(CleanupRun),
}

pub fn recover_stale_run(latest: Option<CleanupJournal>, program_data: Option<HostPath>) -> (recovery:
    SandboxResult<Recovery>)
    ensures
        match (latest, recovery) {
            (None, Err(error)) => error@ == backend::fault(
                "hyperv_cleanup_recovery"@,
                "no valid cleanup journal exists for the requested run directory"@,
            ),
            (Some(found), Ok(Recovery::Settled(outcome))) => {
                &&& is_settled(found@)
                &&& !outcome.attempted
                &&& outcome.success
                &&& outcome.warnings@.len() == 0
                &&& outcome.leftover_resources@.len() == 0
                &&& outcome.removed_resources@.len() == 0
            },
            (Some(found), Ok(Recovery::Cleanup(run))) => {
                &&& !is_settled(found@)
                &&& run.journal == found
                &&& run@ == cleanup_start(found@, program_data)
            },
            _ => false,
        },
{
    let found = match latest {
        Some(found) => found,
        None => {
            return Err(
                SandboxError::new(
                    "hyperv_cleanup_recovery",
                    "no valid cleanup journal exists for the requested run directory",
                ),
            );
        },
    };
    if found.phase == CleanupPhase::Finished && found.vm.is_none() && found.os_disk.is_none()
        && found.data_disk.is_none() && found.owned_switch.is_none() && found.network.is_none() {
        let mut outcome = CleanupOutcome::default();
        outcome.success = true;
        return Ok(Recovery::Settled(outcome));
    }
    Ok(Recovery::Cleanup(cleanup_resources(found, program_data)))
}

// ---------------------------------------------------------------------------------------------
// Laws
// ---------------------------------------------------------------------------------------------

/// How many steps a cleanup can still take.
pub open spec fn rank(step: CleanupStep) -> nat {
    match step {
        CleanupStep::PinRunRoot => 16,
        CleanupStep::PersistStart => 15,
        CleanupStep::QueryVm => 14,
        CleanupStep::RequestStop => 13,
        CleanupStep::ForceStop => 12,
        CleanupStep::WaitForOff => 11,
        CleanupStep::ForceStopLate => 10,
        CleanupStep::DetachDataDisk => 9,
        CleanupStep::DetachOsDisk => 8,
        CleanupStep::RemoveVm => 7,
        CleanupStep::RemovePlannedVm => 7,
        CleanupStep::CleanNetwork => 6,
        CleanupStep::PersistNetwork => 5,
        CleanupStep::DismountDataDisk => 4,
        CleanupStep::DeleteDataDisk => 3,
        CleanupStep::DeleteOsDisk => 2,
        CleanupStep::PersistEnd => 1,
        CleanupStep::Done => 0,
    }
}

/// The event is an answer to the step.
pub open spec fn answers(step: CleanupStep, event: &CleanupEvent) -> bool {
    match step {
        CleanupStep::PinRunRoot => event is Pinned,
        CleanupStep::QueryVm => event is Status,
        CleanupStep::RequestStop => event is Stopped,
        CleanupStep::ForceStop => event is Stopped,
        CleanupStep::WaitForOff => event is Stopped,
        CleanupStep::ForceStopLate => event is Stopped,
        CleanupStep::CleanNetwork => event is Removed,
        CleanupStep::Done => false,
        _ => event is Settled,
    }
}

impl CleanupView {
    /// What every cleanup keeps to, whatever the host answered so far.
    pub open spec fn lawful(self) -> bool {
        let named = self.journal;
        &&& self.legacy() ==> self.warnings.len() > 0
        &&& !self.vm_removed ==> !self.clean()
        &&& match self.step {
            CleanupStep::PinRunRoot => self.vm_removed && !self.success,
            CleanupStep::PersistStart => self.vm_removed,
            CleanupStep::RemovePlannedVm => self.vm_removed && named.vm is None,
            CleanupStep::CleanNetwork => {
                &&& self.vm_removed
                &&& named.vm is None
                &&& named.network is Some
            },
            CleanupStep::PersistNetwork => {
                &&& self.vm_removed
                &&& named.vm is None
                &&& named.network is None
            },
            CleanupStep::DismountDataDisk => self.storage_phase() && named.data_disk is Some,
            CleanupStep::DeleteDataDisk => self.storage_phase() && named.data_disk is Some,
            CleanupStep::DeleteOsDisk => {
                &&& self.storage_phase()
                &&& named.os_disk is Some
                &&& self.clean() ==> named.data_disk is None
            },
            CleanupStep::PersistEnd => self.clean() ==> named.names_nothing() && named.phase
                == CleanupPhase::Finished,
            CleanupStep::Done => {
                &&& self.success == self.clean()
                &&& self.success ==> named.names_nothing() && named.phase == CleanupPhase::Finished
            },
            _ => self.vm_removed && named.vm is Some,
        }
    }

    /// Disks may be deleted: the machine is gone and the journal authenticates them.
    pub open spec fn storage_phase(self) -> bool {
        &&& self.vm_removed
        &&& !self.legacy()
        &&& self.journal.vm is None
        &&& self.clean() ==> self.journal.network is None
    }

    /// `later` names the same resources, and was warned of no less.
    pub open spec fn keeps(self, later: CleanupView) -> bool {
        &&& later.journal.schema_version == self.journal.schema_version
        &&& later.journal.vm == self.journal.vm
        &&& later.journal.os_disk == self.journal.os_disk
        &&& later.journal.os_disk_identifier == self.journal.os_disk_identifier
        &&& later.journal.data_disk == self.journal.data_disk
        &&& later.journal.owned_switch == self.journal.owned_switch
        &&& later.journal.network == self.journal.network
        &&& later.vm_removed == self.vm_removed
        &&& later.clean() ==> self.clean()
        &&& self.legacy() && self.warnings.len() > 0 ==> later.warnings.len() > 0
    }
}

proof fn lemma_finish(state: CleanupView)
    requires
        state.legacy() ==> state.warnings.len() > 0,
        !state.vm_removed ==> !state.clean(),
        state.clean() ==> state.journal.names_nothing(),
    ensures
        state.keeps(state.finish()),
        state.finish().lawful(),
        rank(state.finish().step) <= 1,
{
    reveal(CleanupView::finish);
    sorted::tidied_lists(state.leftovers);
}

proof fn lemma_retain(state: CleanupView, retention: Retention)
    ensures
        state.keeps(state.retain(retention)),
        state.retain(retention).warnings == state.warnings,
{
    reveal(CleanupView::retain);
}

proof fn lemma_enter_switch(state: CleanupView)
    requires
        state.storage_phase(),
        state.clean() ==> state.journal.data_disk is None && state.journal.os_disk is None,
    ensures
        state.keeps(state.enter_switch()),
        state.enter_switch().lawful(),
        rank(state.enter_switch().step) <= 1,
{
    reveal(CleanupView::enter_switch);
    match state.journal.owned_switch {
        Some(switch) => {
            lemma_finish(
                state.warn(switch_warning()).leave(
                    "switch:"@ + switch.id@ + ":"@ + switch.name@
                        + ":retained_unverified_ownership"@,
                ),
            );
        },
        None => {
            lemma_finish(state);
        },
    }
}

proof fn lemma_enter_os_disk(state: CleanupView)
    requires
        state.storage_phase(),
        state.clean() ==> state.journal.data_disk is None,
    ensures
        state.keeps(state.enter_os_disk()),
        state.enter_os_disk().lawful(),
        rank(state.enter_os_disk().step) <= 2,
{
    reveal(CleanupView::enter_os_disk);
    if state.journal.os_disk is None {
        lemma_enter_switch(state);
    }
}

proof fn lemma_enter_storage(state: CleanupView)
    requires
        state.legacy() ==> state.warnings.len() > 0,
        !state.vm_removed ==> !state.clean(),
        state.vm_removed ==> state.journal.vm is None,
        state.clean() ==> state.journal.network is None,
    ensures
        state.keeps(state.enter_storage()),
        state.enter_storage().lawful(),
        rank(state.enter_storage().step) <= 4,
{
    reveal(CleanupView::enter_storage);
    if !state.vm_removed {
        lemma_retain(state, Retention::VmRemains);
        lemma_finish(state.retain(Retention::VmRemains));
    } else if state.legacy() {
        lemma_retain(state, Retention::Legacy);
        lemma_finish(state.retain(Retention::Legacy));
    } else if state.journal.data_disk is None {
        lemma_enter_os_disk(state);
    }
}

proof fn lemma_enter_network(state: CleanupView)
    requires
        state.legacy() ==> state.warnings.len() > 0,
        !state.vm_removed ==> !state.clean(),
        state.vm_removed ==> state.journal.vm is None,
    ensures
        state.keeps(state.enter_network()),
        state.enter_network().lawful(),
        rank(state.enter_network().step) <= 6,
{
    reveal(CleanupView::enter_network);
    if state.journal.network is None {
        lemma_enter_storage(state);
    } else if !state.vm_removed {
        lemma_enter_storage(
            state.leave(
                "network_resources:"@ + state.journal.run_id
                    + ":retained_because_vm_removal_failed"@,
            ),
        );
    }
}

proof fn lemma_persisted(state: CleanupView, step: CleanupStep)
    requires
        state.at(step).lawful(),
        step == CleanupStep::PersistStart || step == CleanupStep::PersistNetwork || step
            == CleanupStep::PersistEnd,
    ensures
        state.keeps(state.persisted(step)),
        state.persisted(step).lawful(),
        rank(state.persisted(step).step) < rank(step),
{
    reveal(CleanupView::persisted);
    match step {
        CleanupStep::PersistStart => {
            reveal(CleanupView::enter_vm);
        },
        CleanupStep::PersistNetwork => {
            lemma_enter_storage(state);
        },
        _ => {},
    }
}

proof fn lemma_enter_persist(state: CleanupView, step: CleanupStep)
    requires
        state.at(step).lawful(),
        step == CleanupStep::PersistStart || step == CleanupStep::PersistNetwork,
    ensures
        state.keeps(state.enter_persist(step)),
        state.enter_persist(step).lawful(),
        rank(state.enter_persist(step).step) <= rank(step),
{
    reveal(CleanupView::enter_persist);
    match state.journal.persist_fault(held(&state.program_data)) {
        Some(error) => {
            lemma_persisted(state.persist_failed(error), step);
        },
        None => {},
    }
}

proof fn lemma_enter_detach(state: CleanupView)
    requires
        state.legacy() ==> state.warnings.len() > 0,
        state.vm_removed,
        state.journal.vm is Some,
    ensures
        state.keeps(state.enter_detach()),
        state.enter_detach().lawful(),
        rank(state.enter_detach().step) <= 9,
        state.keeps(state.enter_detach_os()),
        state.enter_detach_os().lawful(),
        rank(state.enter_detach_os().step) <= 8,
{
    reveal(CleanupView::enter_detach);
    reveal(CleanupView::enter_detach_os);
}

/// The work that was waited for was done.
pub open spec fn settled_well(event: &CleanupEvent) -> bool {
    match event {
        CleanupEvent::Settled(result) => result is Ok,
        _ => false,
    }
}

/// The network resources were removed.
pub open spec fn removed_well(event: &CleanupEvent) -> bool {
    match event {
        CleanupEvent::Removed(result) => result is Ok,
        _ => false,
    }
}

/// What one answer may change: the machine is forgotten only once it was removed, the network only
/// once it was cleaned up after that, a disk only once it was deleted after that; a switch never,
/// and the disks of a legacy journal never.
pub open spec fn removes_in_order(before: CleanupView, event: &CleanupEvent, after: CleanupView) -> bool {
    let old_names = before.journal;
    let new_names = after.journal;
    &&& new_names.vm != old_names.vm ==> before.step == CleanupStep::RemoveVm && settled_well(event)
    &&& new_names.network != old_names.network ==> before.step == CleanupStep::CleanNetwork
        && before.vm_removed && old_names.vm is None && removed_well(event)
    &&& new_names.data_disk is None && old_names.data_disk is Some ==> before.step
        == CleanupStep::DeleteDataDisk && before.vm_removed && old_names.vm is None
        && before.journal.schema_version != 1 && settled_well(event)
    &&& new_names.os_disk != old_names.os_disk ==> before.step == CleanupStep::DeleteOsDisk
        && before.vm_removed && old_names.vm is None && before.journal.schema_version != 1 && settled_well(event)
    &&& new_names.owned_switch == old_names.owned_switch
    &&& before.journal.schema_version == 1 ==> new_names.data_disk == old_names.data_disk
        && new_names.os_disk == old_names.os_disk
    &&& new_names.schema_version == old_names.schema_version
}

/// The start of a cleanup is lawful.
pub proof fn cleanups_start_lawful(journal: JournalView, program_data: Option<HostPath>)
    ensures
        cleanup_start(journal, program_data).lawful(),
{
}

/// Every answer leads from a lawful cleanup to a lawful cleanup, closer to the end, and removes in
/// order: containment outlasts the machine, and disks outlast both. A switch is never removed.
pub proof fn cleanups_remove_in_order(state: CleanupView, event: &CleanupEvent)
    requires
        state.lawful(),
    ensures
        state.after(event).lawful(),
        removes_in_order(state, event, state.after(event)),
        answers(state.step, event) ==> rank(state.after(event).step) < rank(state.step),
        !answers(state.step, event) ==> state.after(event) == state,
{
    match (state.step, event) {
        (CleanupStep::PinRunRoot, CleanupEvent::Pinned(result)) => {
            reveal(CleanupView::pinned);
            lemma_enter_persist(
                CleanupView {
                    journal: JournalView { phase: CleanupPhase::Cleaning, ..state.journal },
                    ..state
                },
                CleanupStep::PersistStart,
            );
        },
        (CleanupStep::PersistStart, CleanupEvent::Settled(result)) => {
            lemma_written(state, *result);
        },
        (CleanupStep::PersistNetwork, CleanupEvent::Settled(result)) => {
            lemma_written(state, *result);
        },
        (CleanupStep::PersistEnd, CleanupEvent::Settled(result)) => {
            lemma_written(state, *result);
        },
        (CleanupStep::QueryVm, CleanupEvent::Status(result)) => {
            reveal(CleanupView::vm_queried);
            match result {
                Ok(_) => lemma_enter_detach(state),
                Err(error) => lemma_enter_detach(
                    state.warn_of("query VM before cleanup: "@, error@),
                ),
            }
        },
        (CleanupStep::RequestStop, CleanupEvent::Stopped(result)) => {
            reveal(CleanupView::stop_requested);
        },
        (CleanupStep::ForceStop, CleanupEvent::Stopped(result)) => {
            reveal(CleanupView::stop_forced);
        },
        (CleanupStep::WaitForOff, CleanupEvent::Stopped(result)) => {
            reveal(CleanupView::waited);
            match result {
                Ok(_) => lemma_enter_detach(state),
                Err(error) => lemma_enter_detach(state.warn_of("verify VM shutdown: "@, error@)),
            }
        },
        (CleanupStep::ForceStopLate, CleanupEvent::Stopped(result)) => {
            reveal(CleanupView::stop_forced_late);
            match result {
                Ok(_) => lemma_enter_detach(state),
                Err(error) => lemma_enter_detach(
                    state.warn_of("force-stop VM after grace period: "@, error@),
                ),
            }
        },
        (CleanupStep::DetachDataDisk, CleanupEvent::Settled(result)) => {
            reveal(CleanupView::data_disk_detached);
            match result {
                Ok(_) => lemma_enter_detach(state),
                Err(error) => lemma_enter_detach(
                    state.warn_of("detach run-data disk: "@, error@),
                ),
            }
        },
        (CleanupStep::DetachOsDisk, CleanupEvent::Settled(result)) => {
            reveal(CleanupView::os_disk_detached);
        },
        (CleanupStep::RemoveVm, CleanupEvent::Settled(result)) => {
            lemma_vm_settled(state, *result);
        },
        (CleanupStep::RemovePlannedVm, CleanupEvent::Settled(result)) => {
            reveal(CleanupView::planned_vm_settled);
            match result {
                Ok(_) => lemma_enter_network(state),
                Err(error) => lemma_enter_network(
                    CleanupView { vm_removed: false, ..state }.warn_of(
                        "reconcile partially-created VM: "@,
                        error@,
                    ).leave("vm_name:foxhole-"@ + state.journal.run_id),
                ),
            }
        },
        (CleanupStep::CleanNetwork, CleanupEvent::Removed(result)) => {
            lemma_network_cleaned(state, *result);
        },
        (CleanupStep::DismountDataDisk, CleanupEvent::Settled(result)) => {
            reveal(CleanupView::data_disk_dismounted);
        },
        (CleanupStep::DeleteDataDisk, CleanupEvent::Settled(result)) => {
            lemma_data_disk_deleted(state, *result);
        },
        (CleanupStep::DeleteOsDisk, CleanupEvent::Settled(result)) => {
            lemma_os_disk_deleted(state, *result);
        },
        _ => {},
    }
}

proof fn lemma_written(state: CleanupView, result: SandboxResult<()>)
    requires
        state.lawful(),
        state.step == CleanupStep::PersistStart || state.step == CleanupStep::PersistNetwork
            || state.step == CleanupStep::PersistEnd,
    ensures
        state.keeps(state.written(result)),
        state.written(result).lawful(),
        rank(state.written(result).step) < rank(state.step),
{
    reveal(CleanupView::written);
    match result {
        Ok(_) => {
            assert(state.at(state.step) == state);
            lemma_persisted(state, state.step);
        },
        Err(error) => {
            lemma_persisted(state.persist_failed(error@), state.step);
        },
    }
}

proof fn lemma_vm_settled(state: CleanupView, result: SandboxResult<()>)
    requires
        state.lawful(),
        state.step == CleanupStep::RemoveVm,
    ensures
        state.vm_settled(result).lawful(),
        removes_in_order(state, &CleanupEvent::Settled(result), state.vm_settled(result)),
        rank(state.vm_settled(result).step) < rank(state.step),
{
    reveal(CleanupView::vm_settled);
    match result {
        Ok(_) => {
            lemma_enter_network(
                CleanupView { journal: JournalView { vm: None, ..state.journal }, ..state },
            );
        },
        Err(error) => {
            let warned = CleanupView { vm_removed: false, ..state }.warn_of(
                "remove disposable VM: "@,
                error@,
            );
            let machine = state.journal.vm->0;
            lemma_enter_network(warned.leave("vm:"@ + machine.id@ + ":"@ + machine.name@));
        },
    }
}

proof fn lemma_network_cleaned(state: CleanupView, result: SandboxResult<Vec<String>>)
    requires
        state.lawful(),
        state.step == CleanupStep::CleanNetwork,
    ensures
        state.network_cleaned(result).lawful(),
        removes_in_order(state, &CleanupEvent::Removed(result), state.network_cleaned(result)),
        rank(state.network_cleaned(result).step) < rank(state.step),
{
    reveal(CleanupView::network_cleaned);
    match result {
        Ok(names) => {
            lemma_enter_persist(
                CleanupView {
                    removed: state.removed + text::views(names@),
                    journal: JournalView { network: None, ..state.journal },
                    ..state
                },
                CleanupStep::PersistNetwork,
            );
        },
        Err(error) => {
            lemma_enter_storage(
                state.warn_of("remove run-owned network resources: "@, error@).leave(
                    "network_resources:"@ + state.journal.run_id,
                ),
            );
        },
    }
}

proof fn lemma_data_disk_deleted(state: CleanupView, result: SandboxResult<()>)
    requires
        state.lawful(),
        state.step == CleanupStep::DeleteDataDisk,
    ensures
        state.data_disk_deleted(result).lawful(),
        removes_in_order(state, &CleanupEvent::Settled(result), state.data_disk_deleted(result)),
        rank(state.data_disk_deleted(result).step) < rank(state.step),
{
    reveal(CleanupView::data_disk_deleted);
    match result {
        Ok(_) => {
            lemma_enter_os_disk(
                CleanupView { journal: JournalView { data_disk: None, ..state.journal }, ..state },
            );
        },
        Err(error) => {
            let data = state.journal.data_disk->0;
            lemma_enter_os_disk(
                state.warn_of("delete run-data disk: "@, error@).leave(
                    "data_disk:"@ + data.path.shown@,
                ),
            );
        },
    }
}

proof fn lemma_os_disk_deleted(state: CleanupView, result: SandboxResult<()>)
    requires
        state.lawful(),
        state.step == CleanupStep::DeleteOsDisk,
    ensures
        state.os_disk_deleted(result).lawful(),
        removes_in_order(state, &CleanupEvent::Settled(result), state.os_disk_deleted(result)),
        rank(state.os_disk_deleted(result).step) < rank(state.step),
{
    reveal(CleanupView::os_disk_deleted);
    match result {
        Ok(_) => {
            lemma_enter_switch(
                CleanupView {
                    journal: JournalView {
                        os_disk: None,
                        os_disk_identifier: None,
                        ..state.journal
                    },
                    ..state
                },
            );
        },
        Err(error) => {
            let path = state.journal.os_disk->0;
            lemma_enter_switch(
                state.warn_of("delete differencing disk: "@, error@).leave(
                    "os_disk:"@ + path.shown@,
                ),
            );
        },
    }
}

/// A cleanup that is done succeeded exactly where it warned of nothing and left nothing, and then
/// its journal is finished and names no resource.
pub proof fn successful_cleanups_leave_nothing(state: CleanupView)
    requires
        state.lawful(),
        state.step == CleanupStep::Done,
    ensures
        state.success <==> state.warnings.len() == 0 && state.leftovers.len() == 0,
        state.success ==> is_settled(state.journal),
{
}

/// Where everything a cleanup does succeeds, it goes its whole way: the directory is pinned and the
/// start recorded, the machine is looked at, stopped where it is not off, freed of its disks and
/// removed, then the network, then the disks, and at last the end is recorded.
pub proof fn cleanups_go_their_whole_way(state: CleanupView, event: &CleanupEvent)
    ensures
        state.step == CleanupStep::QueryVm && event is Status && event->Status_0 is Ok ==> {
            let status = event->Status_0->Ok_0;
            let running = status.exists && !text::same_ignoring_case(status.state@, "off"@);
            &&& running <==> state.after(event).step == CleanupStep::RequestStop
            &&& state.after(event).warnings == state.warnings
        },
        state.step == CleanupStep::RequestStop && event is Stopped ==> state.after(event).step == if
            event->Stopped_0 == Ok::<bool, SandboxError>(true) {
            CleanupStep::WaitForOff
        } else {
            CleanupStep::ForceStop
        },
        state.step == CleanupStep::ForceStop && event is Stopped ==> state.after(event).step
            == CleanupStep::WaitForOff,
        state.step == CleanupStep::WaitForOff && event is Stopped && event->Stopped_0 == Ok::<
            bool,
            SandboxError,
        >(false) ==> state.after(event).step == CleanupStep::ForceStopLate,
        (state.step == CleanupStep::ForceStopLate || state.step == CleanupStep::WaitForOff) && event
            is Stopped && event->Stopped_0 == Ok::<bool, SandboxError>(true) ==> state.after(
            event,
        ).step == if state.journal.data_disk is Some {
            CleanupStep::DetachDataDisk
        } else if state.journal.os_disk is Some {
            CleanupStep::DetachOsDisk
        } else {
            CleanupStep::RemoveVm
        },
        state.step == CleanupStep::DetachDataDisk && event is Settled ==> state.after(event).step == if
            state.journal.os_disk is Some {
            CleanupStep::DetachOsDisk
        } else {
            CleanupStep::RemoveVm
        },
        state.step == CleanupStep::DetachOsDisk && event is Settled ==> state.after(event).step
            == CleanupStep::RemoveVm,
        state.step == CleanupStep::DismountDataDisk && event is Settled ==> state.after(event).step
            == CleanupStep::DeleteDataDisk,
        state.step == CleanupStep::DeleteDataDisk && event is Settled && state.journal.os_disk is Some
            ==> state.after(event).step == CleanupStep::DeleteOsDisk,
        state.step == CleanupStep::RemoveVm && event is Settled && event->Settled_0 is Ok
            && state.vm_removed && state.journal.network is Some ==> state.after(event).step
            == CleanupStep::CleanNetwork && state.after(event).journal.vm is None,
{
    reveal(CleanupView::enter_vm);
    reveal(CleanupView::enter_detach);
    reveal(CleanupView::enter_detach_os);
    reveal(CleanupView::enter_network);
    reveal(CleanupView::enter_storage);
    reveal(CleanupView::enter_os_disk);
    reveal(CleanupView::enter_switch);
    reveal(CleanupView::enter_persist);
    reveal(CleanupView::retain);
    reveal(CleanupView::vm_queried);
    reveal(CleanupView::stop_requested);
    reveal(CleanupView::stop_forced);
    reveal(CleanupView::waited);
    reveal(CleanupView::stop_forced_late);
    reveal(CleanupView::data_disk_detached);
    reveal(CleanupView::os_disk_detached);
    reveal(CleanupView::vm_settled);
    reveal(CleanupView::data_disk_dismounted);
    reveal(CleanupView::data_disk_deleted);
}

/// Every failure of a cleanup is told: the warnings gain a line that ends with the error.
pub proof fn failed_removals_are_told(state: CleanupView, work: Seq<char>, error: backend::Fault)
    ensures
        state.warn_of(work, error).warnings.len() == state.warnings.len() + 1,
        text::ends(state.warn_of(work, error).warnings.last(), backend::fault_text(error)),
        state.warn_of(work, error).leftovers == state.leftovers,
{
    let told = backend::fault_text(error);
    assert((work + told).skip(work.len() as int) =~= told);
}

/// What is recovered is a run of sixteen to sixty-four hexadecimal digits in the protected directory
/// of the artifact root, and nothing else.
pub proof fn only_protected_runs_are_recovered(artifact_root: &HostPath, requested: &HostPath)
    ensures
        recovery_root_verdict(artifact_root, requested) is Ok <==> {
            let name = host_path::name_of(requested.spec_parts());
            &&& artifact_root.local_fault is None
            &&& name is Some
            &&& journal::run_identity_verdict(name->0, requested) is Ok
            &&& host_path::same_parts(
                requested.style,
                requested.spec_parts(),
                artifact_root.spec_parts() + seq![
                    host_path::PartView::Normal("hyperv"@),
                    host_path::PartView::Normal("runs"@),
                    host_path::PartView::Normal(name->0),
                ],
            )
        },
        recovery_root_verdict(artifact_root, requested) matches Err(fault) ==> fault.stage
            == "hyperv_cleanup_recovery"@,
{
    match host_path::name_of(requested.spec_parts()) {
        Some(run_id) => {
            assert(protected_parts(artifact_root, run_id) =~= artifact_root.spec_parts() + seq![
                host_path::PartView::Normal("hyperv"@),
                host_path::PartView::Normal("runs"@),
                host_path::PartView::Normal(run_id),
            ]);
        },
        None => {},
    }
}

/// A recovery waits up to ten minutes for a machine, and needs nothing where the journal says that
/// nothing is left.
pub proof fn recoveries_wait_up_to_ten_minutes(shutdown_grace_ms: u64, journal: JournalView)
    ensures
        grace_verdict(shutdown_grace_ms) is Ok <==> 1 <= shutdown_grace_ms <= 600_000,
        is_settled(journal) <==> {
            &&& journal.phase == CleanupPhase::Finished
            &&& journal.vm is None
            &&& journal.os_disk is None
            &&& journal.data_disk is None
            &&& journal.owned_switch is None
            &&& journal.network is None
        },
{
}

/// A data disk that could not be deleted is left over by its path; one that was deleted is no part of the
/// journal any more. What could not be detached or dismounted is warned of.
pub proof fn data_disks_are_removed_or_left_over(state: CleanupView, event: &CleanupEvent)
    requires
        event is Settled,
    ensures
        state.step == CleanupStep::DeleteDataDisk && event->Settled_0 is Ok && state.journal.os_disk
            is Some ==> state.after(event).journal.data_disk is None && state.after(event).leftovers
            == state.leftovers && state.after(event).warnings == state.warnings,
        state.step == CleanupStep::DeleteDataDisk && event->Settled_0 is Err && state.journal.os_disk
            is Some && state.journal.data_disk is Some ==> {
            let after = state.after(event);
            &&& after.journal.data_disk == state.journal.data_disk
            &&& after.leftovers == state.leftovers.push(
                "data_disk:"@ + state.journal.data_disk->0.path.shown@,
            )
            &&& after.warnings.len() == state.warnings.len() + 1
        },
        state.step == CleanupStep::DismountDataDisk && event->Settled_0 is Ok && state.journal.data_disk
            is Some ==> state.after(event).journal.data_disk->0.state == DataDiskState::Detached
            && state.after(event).warnings == state.warnings,
        (state.step == CleanupStep::DetachDataDisk || state.step == CleanupStep::DetachOsDisk
            || state.step == CleanupStep::DismountDataDisk) ==> state.after(event).warnings.len()
            == state.warnings.len() + if event->Settled_0 is Ok {
            0nat
        } else {
            1nat
        },
{
    reveal(CleanupView::data_disk_detached);
    reveal(CleanupView::os_disk_detached);
    reveal(CleanupView::data_disk_dismounted);
    reveal(CleanupView::data_disk_deleted);
    reveal(CleanupView::enter_detach_os);
    reveal(CleanupView::enter_os_disk);
}

/// A machine that could not be removed counts as remaining, and is left over by its id and name, or by
/// the name that it would have had.
pub proof fn machines_are_removed_or_left_over(state: CleanupView, result: SandboxResult<()>)
    ensures
        result is Err && state.journal.vm is Some ==> state.vm_settled(result) == (CleanupView {
            vm_removed: false,
            warnings: state.warnings.push(
                "remove disposable VM: "@ + backend::fault_text(result->Err_0@),
            ),
            leftovers: state.leftovers.push(
                "vm:"@ + state.journal.vm->0.id@ + ":"@ + state.journal.vm->0.name@,
            ),
            ..state
        }).enter_network(),
        result is Err ==> state.planned_vm_settled(result) == (CleanupView {
            vm_removed: false,
            warnings: state.warnings.push(
                "reconcile partially-created VM: "@ + backend::fault_text(result->Err_0@),
            ),
            leftovers: state.leftovers.push("vm_name:foxhole-"@ + state.journal.run_id),
            ..state
        }).enter_network(),
        result is Ok ==> state.planned_vm_settled(result) == state.enter_network(),
{
    reveal(CleanupView::vm_settled);
    reveal(CleanupView::planned_vm_settled);
}

/// Where the machine remains, nothing that it may use is removed: the network, the disks and the switch
/// are left over as retained.
pub proof fn remaining_machines_keep_their_resources(state: CleanupView)
    requires
        !state.vm_removed,
    ensures
        ({
            let after = state.retain(Retention::VmRemains);
            &&& after.journal == state.journal
            &&& after.warnings == state.warnings
            &&& state.journal.data_disk is Some ==> after.leftovers.contains(
                "data_disk:"@ + state.journal.data_disk->0.path.shown@
                    + ":retained_because_vm_removal_failed"@,
            )
            &&& state.journal.os_disk is Some ==> after.leftovers.contains(
                "os_disk:"@ + state.journal.os_disk->0.shown@ + ":retained_because_vm_removal_failed"@,
            )
            &&& state.journal.owned_switch is Some ==> after.leftovers.contains(
                "switch:"@ + state.journal.owned_switch->0.id@ + ":"@ + state.journal.owned_switch->0.name@
                    + ":retained_because_vm_removal_failed"@,
            )
            &&& after.leftovers.len() == state.leftovers.len() + if state.journal.data_disk is Some {
                1nat
            } else {
                0nat
            } + if state.journal.os_disk is Some {
                1nat
            } else {
                0nat
            } + if state.journal.owned_switch is Some {
                1nat
            } else {
                0nat
            }
        }),
        state.enter_storage() == state.retain(Retention::VmRemains).finish(),
        state.journal.network is Some ==> state.enter_network() == state.leave(
            "network_resources:"@ + state.journal.run_id + ":retained_because_vm_removal_failed"@,
        ).enter_storage(),
{
    reveal(CleanupView::retain);
    reveal(CleanupView::enter_storage);
    reveal(CleanupView::enter_network);
    let data = match state.journal.data_disk {
        Some(data) => state.leave(
            "data_disk:"@ + data.path.shown@ + ":retained_because_vm_removal_failed"@,
        ),
        None => state,
    };
    let os = match data.journal.os_disk {
        Some(path) => data.leave(
            "os_disk:"@ + path.shown@ + ":retained_because_vm_removal_failed"@,
        ),
        None => data,
    };
    let after = state.retain(Retention::VmRemains);
    if state.journal.data_disk is Some {
        assert(after.leftovers[state.leftovers.len() as int] == data.leftovers.last());
    }
    if state.journal.os_disk is Some {
        assert(after.leftovers[data.leftovers.len() as int] == os.leftovers.last());
    }
    if state.journal.owned_switch is Some {
        assert(after.leftovers.last() == "switch:"@ + state.journal.owned_switch->0.id@ + ":"@
            + state.journal.owned_switch->0.name@ + ":retained_because_vm_removal_failed"@);
    }
}

/// A cleanup ends as finished exactly where it has neither a warning nor anything left over, and is
/// successful exactly then.
pub proof fn cleanups_end_as_they_went(state: CleanupView, result: SandboxResult<()>)
    ensures
        state.finish().step == CleanupStep::PersistEnd ==> {
            &&& state.finish().journal.phase == CleanupPhase::Finished <==> state.leftovers.len() == 0
                && state.warnings.len() == 0
            &&& state.finish().journal.phase == CleanupPhase::Finished || state.finish().journal.phase
                == CleanupPhase::Failed
        },
        state.step == CleanupStep::PersistEnd ==> {
            let after = state.after(&CleanupEvent::Settled(result));
            &&& after.step == CleanupStep::Done
            &&& after.success <==> result is Ok && state.warnings.len() == 0 && state.leftovers.len() == 0
        },
{
    reveal(CleanupView::finish);
    reveal(CleanupView::written);
    reveal(CleanupView::persisted);
    sorted::tidied_lists(state.leftovers);
    if state.leftovers.len() > 0 {
        assert(state.leftovers.contains(state.leftovers[0]));
    }
}

/// A cleanup begins by holding the directory of the run; where it cannot, nothing else is done.
pub proof fn cleanups_begin_by_holding_the_directory(
    journal: JournalView,
    program_data: Option<HostPath>,
    source: String,
)
    ensures
        ({
            let start = cleanup_start(journal, program_data);
            let refused = start.after(&CleanupEvent::Pinned(Err(source)));
            &&& start.step == CleanupStep::PinRunRoot
            &&& start.attempted && !start.success && start.vm_removed
            &&& start.warnings.len() == if journal.schema_version == 1 {
                1nat
            } else {
                0nat
            }
            &&& refused.step == CleanupStep::Done
            &&& !refused.success
            &&& refused.journal == journal
            &&& refused.leftovers == seq![
                "run_root:"@ + journal.run_root.shown@ + ":retained_unverified_path"@,
            ]
            &&& refused.warnings.len() == start.warnings.len() + 1
        }),
{
    reveal(CleanupView::pinned);
}

} // verus!
