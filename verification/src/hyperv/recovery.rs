//! Recovery of a run that did not end by itself: only a protected run directory is looked into, it
//! is held and protected first, and only a journal that can be recovered is acted upon.

use vstd::prelude::*;

use crate::backend;
use crate::backend::{SandboxError, SandboxResult};
use crate::host_path;
use crate::host_path::HostPath;
use crate::hyperv::cleanup;
use crate::hyperv::cleanup::{
    bind_recovery_run_root, check_recovery_grace, recover_stale_run, Recovery,
};
use crate::hyperv::journal::CleanupJournal;

verus! {

/// What is to be done next.
#[derive(Clone, Copy, Debug, PartialEq, Eq, Structural)]
pub enum RecoveryStep {
    /// Check that the run directory lies on a fixed local volume.
    VerifyVolume,
    /// Hold the run directory and all above it, following no link.
    Pin,
    /// Restore owner-only access from the artifact root down to the run directory.
    Harden,
    /// Find the latest journal that can be recovered.
    FindJournal,
    Done,
}

/// What came of a step.
#[derive(Debug)]
pub enum RecoveryEvent {
    Settled(Result<(), String>),
    Found(SandboxResult<Option<CleanupJournal>>),
}

/// The recovery of one run directory.
#[derive(Debug)]
pub struct RecoveryRun {
    pub step: RecoveryStep,
    pub run_root: HostPath,
    pub program_data: Option<HostPath>,
    /// The directories are held.
    pub pinned: bool,
    /// The directories are protected.
    pub hardened: bool,
    pub outcome: Option<SandboxResult<Recovery>>,
}

pub open spec fn recovery_fault(message: Seq<char>, source: Seq<char>) -> backend::Fault {
    backend::fault_from("hyperv_cleanup_recovery"@, message, source)
}

fn recovery_error(message: &str, source: &str) -> (error: SandboxError)
    ensures
        error@ == recovery_fault(message@, source@),
{
    SandboxError::with_source("hyperv_cleanup_recovery", message, source)
}

impl RecoveryRun {
    pub open spec fn consistent(&self) -> bool {
        match self.step {
            RecoveryStep::Done => self.outcome matches Some(outcome) && (outcome is Ok
                ==> self.pinned && self.hardened),
            RecoveryStep::VerifyVolume | RecoveryStep::Pin => self.outcome is None,
            RecoveryStep::Harden => self.outcome is None && self.pinned,
            RecoveryStep::FindJournal => self.outcome is None && self.pinned && self.hardened,
        }
    }
}

/// The recovery ended with an error.
pub open spec fn unrecovered(fault: backend::Fault, after: RecoveryRun) -> bool {
    &&& after.step == RecoveryStep::Done
    &&& after.outcome matches Some(Err(error)) && error@ == fault
}

/// What the latest journal leads to.
pub open spec fn recovery_of(
    found: SandboxResult<Option<CleanupJournal>>,
    program_data: Option<HostPath>,
    recovery: SandboxResult<Recovery>,
) -> bool {
    match (found, recovery) {
        (Err(fault), Err(error)) => error == fault,
        (Ok(None), Err(error)) => error@ == backend::fault(
            "hyperv_cleanup_recovery"@,
            "no valid cleanup journal exists for the requested run directory"@,
        ),
        (Ok(Some(journal)), Ok(Recovery::Settled(outcome))) => {
            &&& cleanup::is_settled(journal@)
            &&& !outcome.attempted
            &&& outcome.success
            &&& outcome.warnings@.len() == 0
            &&& outcome.leftover_resources@.len() == 0
            &&& outcome.removed_resources@.len() == 0
        },
        (Ok(Some(journal)), Ok(Recovery::Cleanup(run))) => {
            &&& !cleanup::is_settled(journal@)
            &&& run.journal == journal
            &&& run@ == cleanup::cleanup_start(journal@, program_data)
        },
        _ => false,
    }
}

/// What one event makes of the recovery. An event that is no answer to the step changes nothing.
pub open spec fn recovered(before: RecoveryRun, event: RecoveryEvent, after: RecoveryRun) -> bool {
    match (before.step, event) {
        (RecoveryStep::VerifyVolume, RecoveryEvent::Settled(settled)) => match settled {
            Err(source) => unrecovered(
                recovery_fault(
                    "cleanup recovery root must remain on Foxhole's fixed local artifact volume"@,
                    source@,
                ),
                after,
            ),
            Ok(_) => after == (RecoveryRun { step: RecoveryStep::Pin, ..before }),
        },
        (RecoveryStep::Pin, RecoveryEvent::Settled(settled)) => match settled {
            Err(source) => unrecovered(
                recovery_fault(
                    "pin the protected Hyper-V run ancestry without following links or reparse points"@,
                    source@,
                ),
                after,
            ),
            Ok(_) => after == (RecoveryRun { step: RecoveryStep::Harden, pinned: true, ..before }),
        },
        (RecoveryStep::Harden, RecoveryEvent::Settled(settled)) => match settled {
            Err(source) => unrecovered(
                recovery_fault(
                    "restore owner-only protection on the pinned Hyper-V run ancestry"@,
                    source@,
                ),
                after,
            ),
            Ok(_) => after == (RecoveryRun {
                step: RecoveryStep::FindJournal,
                hardened: true,
                ..before
            }),
        },
        (RecoveryStep::FindJournal, RecoveryEvent::Found(found)) => {
            &&& after.step == RecoveryStep::Done
            &&& after.run_root == before.run_root
            &&& after.pinned == before.pinned
            &&& after.hardened == before.hardened
            &&& after.outcome matches Some(recovery) && recovery_of(
                found,
                before.program_data,
                recovery,
            )
        },
        _ => after == before,
    }
}

impl RecoveryRun {
    /// Begins the recovery of a run directory below the artifact root, where machines have time to
    /// switch off.
    pub fn recover_stale_run_from_root(
        artifact_root: &HostPath,
        requested_run_root: &HostPath,
        shutdown_grace_ms: u64,
        program_data: Option<HostPath>,
    ) -> (started: SandboxResult<RecoveryRun>)
        ensures
            match (
                backend::both(
                    cleanup::grace_verdict(shutdown_grace_ms),
                    cleanup::recovery_root_verdict(artifact_root, requested_run_root),
                ),
                started,
            ) {
                (Err(fault), Err(error)) => error@ == fault,
                (Ok(_), Ok(run)) => {
                    &&& run.consistent()
                    &&& run.step == RecoveryStep::VerifyVolume
                    &&& run.program_data == program_data
                    &&& host_path::name_of(requested_run_root.spec_parts()) matches Some(run_id)
                        && cleanup::is_protected_run(&run.run_root, artifact_root, run_id)
                    &&& !run.pinned
                    &&& !run.hardened
                    &&& run.outcome is None
                },
                _ => false,
            },
    {
        match check_recovery_grace(shutdown_grace_ms) {
            Err(error) => {
                return Err(error);
            },
            Ok(_) => {},
        }
        match bind_recovery_run_root(artifact_root, requested_run_root) {
            Err(error) => Err(error),
            Ok(run_root) => Ok(
                RecoveryRun {
                    step: RecoveryStep::VerifyVolume,
                    run_root,
                    program_data,
                    pinned: false,
                    hardened: false,
                    outcome: None,
                },
            ),
        }
    }

    fn end(&mut self, error: SandboxError)
        ensures
            unrecovered(error@, *final(self)),
            final(self).consistent(),
    {
        self.step = RecoveryStep::Done;
        self.outcome = Some(Err(error));
    }

    fn conclude(&mut self, found: SandboxResult<Option<CleanupJournal>>)
        requires
            old(self).consistent(),
            old(self).step == RecoveryStep::FindJournal,
        ensures
            recovered(*old(self), RecoveryEvent::Found(found), *final(self)),
            final(self).consistent(),
    {
        let mut program_data: Option<HostPath> = None;
        std::mem::swap(&mut program_data, &mut self.program_data);
        let recovery = match found {
            Err(error) => Err(error),
            Ok(latest) => recover_stale_run(latest, program_data),
        };
        self.outcome = Some(recovery);
        self.step = RecoveryStep::Done;
    }

    /// Takes what came of the step.
    pub fn advance(&mut self, event: RecoveryEvent)
        requires
            old(self).consistent(),
        ensures
            recovered(*old(self), event, *final(self)),
            final(self).consistent(),
    {
        match (self.step, event) {
            (RecoveryStep::VerifyVolume, RecoveryEvent::Settled(settled)) => match settled {
                Err(source) => {
                    let error = recovery_error(
                        "cleanup recovery root must remain on Foxhole's fixed local artifact volume",
                        source.as_str(),
                    );
                    self.end(error);
                },
                Ok(_) => {
                    self.step = RecoveryStep::Pin;
                },
            },
            (RecoveryStep::Pin, RecoveryEvent::Settled(settled)) => match settled {
                Err(source) => {
                    let error = recovery_error(
                        "pin the protected Hyper-V run ancestry without following links or reparse points",
                        source.as_str(),
                    );
                    self.end(error);
                },
                Ok(_) => {
                    self.pinned = true;
                    self.step = RecoveryStep::Harden;
                },
            },
            (RecoveryStep::Harden, RecoveryEvent::Settled(settled)) => match settled {
                Err(source) => {
                    let error = recovery_error(
                        "restore owner-only protection on the pinned Hyper-V run ancestry",
                        source.as_str(),
                    );
                    self.end(error);
                },
                Ok(_) => {
                    self.hardened = true;
                    self.step = RecoveryStep::FindJournal;
                },
            },
            (RecoveryStep::FindJournal, RecoveryEvent::Found(found)) => self.conclude(found),
            _ => {},
        }
    }
}

// ---------------------------------------------------------------------------------------------
// Laws
// ---------------------------------------------------------------------------------------------

/// Nothing is recovered before the directories of the run are held and protected.
pub proof fn recoveries_act_on_held_directories(run: RecoveryRun, recovery: Recovery)
    requires
        run.consistent(),
        run.outcome == Some(Ok::<Recovery, SandboxError>(recovery)),
    ensures
        run.pinned,
        run.hardened,
{
}

/// How a recovery comes to its journal: the volume is verified, the directory is held and protected
/// again, and then the journal is looked for. A journal that says that nothing is left needs no
/// cleanup; any other one is cleaned up; and without one the recovery fails.
pub proof fn recoveries_go_in_order(before: RecoveryRun, event: RecoveryEvent, after: RecoveryRun)
    requires
        before.consistent(),
        recovered(before, event, after),
    ensures
        before.step == RecoveryStep::VerifyVolume && event is Settled ==> (after.step
            == RecoveryStep::Pin <==> event->Settled_0 is Ok),
        before.step == RecoveryStep::Pin && event is Settled ==> {
            &&& after.step == RecoveryStep::Harden <==> event->Settled_0 is Ok
            &&& after.step == RecoveryStep::Harden ==> after.pinned
        },
        before.step == RecoveryStep::Harden && event is Settled ==> {
            &&& after.step == RecoveryStep::FindJournal <==> event->Settled_0 is Ok
            &&& after.step == RecoveryStep::FindJournal ==> after.hardened
        },
        before.step != RecoveryStep::Done && event is Settled && event->Settled_0 is Err && after.step
            == RecoveryStep::Done ==> after.outcome is Some && after.outcome->0 is Err,
        before.step == RecoveryStep::FindJournal && event is Found ==> {
            let found = event->Found_0;
            &&& after.outcome is Some
            &&& after.outcome->0 is Ok <==> found is Ok && found->Ok_0 is Some
            &&& found is Err ==> after.outcome->0->Err_0 == found->Err_0
            &&& after.outcome->0 is Ok ==> {
                let journal = found->Ok_0->0;
                let settled = journal@.phase == crate::hyperv::journal::CleanupPhase::Finished
                    && journal@.vm is None && journal@.os_disk is None && journal@.data_disk is None
                    && journal@.owned_switch is None && journal@.network is None;
                &&& after.outcome->0->Ok_0 is Settled <==> settled
                &&& after.outcome->0->Ok_0 is Cleanup <==> !settled
                &&& after.outcome->0->Ok_0 is Cleanup ==> after.outcome->0->Ok_0->Cleanup_0.journal
                    == journal
                &&& after.outcome->0->Ok_0 is Settled
                    ==> after.outcome->0->Ok_0->Settled_0.success
                    && !after.outcome->0->Ok_0->Settled_0.attempted
            }
        },
{
}

} // verus!
