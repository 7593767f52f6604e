//! The lifecycle of the Hyper-V backend: a run is prepared, executed and cleaned up, in this order,
//! and its report put together at the end.

use vstd::prelude::*;
use vstd::string::*;

use crate::backend;
use crate::backend::{
    BackendMetadata, BackendState, ReportStage, SandboxError, SandboxRequest, SandboxResult,
    StageTimer,
};
use crate::clock;
use crate::host_path;
use crate::host_path::HostPath;
use crate::hyperv::admission::AdmissionObservations;
use crate::hyperv::base_image::ValidatedBaseImage;
use crate::hyperv::capability;
use crate::hyperv::capability::NoInput;
use crate::hyperv::cleanup;
use crate::hyperv::cleanup::{CleanupOutcome, CleanupRun, CleanupStep};
use crate::hyperv::config::HyperVConfig;
use crate::hyperv::exchange;
use crate::hyperv::exchange::SyntheticOutcome;
use crate::hyperv::execution;
use crate::hyperv::execution::{Execution, ExecutionStep, RunSetting};
use crate::hyperv::guest_protocol::PROTOCOL_VERSION;
use crate::hyperv::journal;
use crate::hyperv::journal::CleanupJournal;
use crate::hyperv::network;
use crate::hyperv::network::{HyperVNetworkPlan, NetworkAttachment};
use crate::hyperv::powershell::PowerShellInvocation;
use crate::hyperv::provisioning::{ProvisionStep, Provisioning};
use crate::hyperv::scripts;
use crate::structs::SandboxRunResult;
use crate::text;

verus! {

/// A run that is ready to be executed.
#[derive(Debug)]
pub struct LivePrepared {
    pub setting: RunSetting,
    pub journal: CleanupJournal,
}

/// What was prepared so far.
#[derive(Debug)]
pub enum PreparedRun {
    DryRun(SandboxRequest),
    /// The preparation failed; the journal names what it left.
    Preparing(CleanupJournal),
    Live(LivePrepared),
}

pub struct HyperVBackend {
    pub state: BackendState,
    pub config: HyperVConfig,
    pub program_data: Option<HostPath>,
    pub prepared: Option<PreparedRun>,
    pub started_at: Option<std::time::Instant>,
    pub target_path: Option<HostPath>,
    pub target_size_bytes: u64,
    pub target_sha256: Option<String>,
    pub run_id: Option<String>,
    pub guest_image_version: Option<String>,
    pub cleanup_outcome: CleanupOutcome,
    pub execution_stages: Vec<ReportStage>,
    pub network_plan: Option<HyperVNetworkPlan>,
    pub network_pre_verification: Option<NetworkAttachment>,
    pub network_post_verification: Option<NetworkAttachment>,
}

/// The report of a run.
#[derive(Debug)]
pub struct HyperVSandboxRun {
    pub result: SandboxRunResult,
    pub target_path: HostPath,
    pub target_size_bytes: u64,
    pub target_sha256: String,
    pub run_id: String,
    pub guest_image_version: String,
    pub cleanup: CleanupOutcome,
    pub metadata: BackendMetadata,
    pub stages: Vec<ReportStage>,
}

pub open spec fn state_text(state: BackendState) -> Seq<char> {
    match state {
        BackendState::Created => "Created"@,
        BackendState::Preparing => "Preparing"@,
        BackendState::Ready => "Ready"@,
        BackendState::Running => "Running"@,
        BackendState::Completed => "Completed"@,
        BackendState::Failed => "Failed"@,
        BackendState::Cleaning => "Cleaning"@,
        BackendState::Finished => "Finished"@,
    }
}

fn state_name(state: BackendState) -> (name: &'static str)
    ensures
        name@ == state_text(state),
{
    match state {
        BackendState::Created => "Created",
        BackendState::Preparing => "Preparing",
        BackendState::Ready => "Ready",
        BackendState::Running => "Running",
        BackendState::Completed => "Completed",
        BackendState::Failed => "Failed",
        BackendState::Cleaning => "Cleaning",
        BackendState::Finished => "Finished",
    }
}

/// What was found, where it was.
pub open spec fn found<T, E>(seen: Option<Result<T, E>>) -> Option<T> {
    match seen {
        Some(Ok(value)) => Some(value),
        _ => None,
    }
}

pub open spec fn image_version_of(image: Option<SandboxResult<ValidatedBaseImage>>) -> Option<String> {
    match image {
        Some(Ok(valid)) => Some(valid.manifest.image_version),
        _ => None,
    }
}

/// Why a run cannot be executed as prepared.
pub open spec fn execution_fault(message: Seq<char>) -> backend::Fault {
    backend::fault("hyperv_execute"@, message)
}

/// How an execution begins.
pub enum ExecutionStart {
    Refused(SandboxError),
    /// A dry run is done at once.
    Finished(SandboxRunResult),
    Run(Execution),
}

/// How a cleanup begins.
#[derive(Debug)]
pub enum CleanupStart {
    AlreadyFinished,
    Nothing,
    Run(CleanupRun),
}

impl HyperVBackend {
    pub fn new(config: HyperVConfig, program_data: Option<HostPath>) -> (made: HyperVBackend)
        ensures
            made.well_formed(),
            made.state == BackendState::Created,
            made.config == config,
            made.program_data == program_data,
            made.prepared is None,
            made.started_at is None,
            made.target_path is None,
            made.target_size_bytes == 0,
            made.target_sha256 is None,
            made.run_id is None,
            made.guest_image_version is None,
            !made.cleanup_outcome.attempted,
            !made.cleanup_outcome.success,
            made.cleanup_outcome.warnings@.len() == 0,
            made.cleanup_outcome.leftover_resources@.len() == 0,
            made.cleanup_outcome.removed_resources@.len() == 0,
            made.execution_stages@.len() == 0,
            made.network_plan is None,
            made.network_pre_verification is None,
            made.network_post_verification is None,
    {
        HyperVBackend {
            state: BackendState::Created,
            config,
            program_data,
            prepared: None,
            started_at: None,
            target_path: None,
            target_size_bytes: 0,
            target_sha256: None,
            run_id: None,
            guest_image_version: None,
            cleanup_outcome: CleanupOutcome::default(),
            execution_stages: Vec::new(),
            network_plan: None,
            network_pre_verification: None,
            network_post_verification: None,
        }
    }

    /// A run that is ready has its machine and its data disk recorded, and no stage of an execution
    /// ends before it starts.
    pub open spec fn well_formed(&self) -> bool {
        &&& backend::all_well_timed(self.execution_stages@)
        &&& match self.prepared {
            Some(PreparedRun::Live(live)) => live.journal.vm is Some && live.journal.data_disk
                is Some,
            _ => true,
        }
    }

    pub fn state(&self) -> (state: BackendState)
        ensures
            state == self.state,
    {
        self.state
    }

    /// The invocation that asks the host for its capability.
    pub fn capability(&self) -> (invocation: PowerShellInvocation<NoInput>)
        ensures
            invocation.operation@ == "detect Hyper-V capability"@,
            invocation.script@ == scripts::DETECT_CAPABILITY_SCRIPT@,
            invocation.admission_limits_are_default(),
    {
        capability::detect()
    }

    pub fn cleanup_outcome(&self) -> (outcome: &CleanupOutcome)
        ensures
            *outcome == self.cleanup_outcome,
    {
        &self.cleanup_outcome
    }

    // Preparation ----------------------------------------------------------------------------

    /// Begins the preparation. A backend prepares once.
    pub fn begin_preparation(&mut self) -> (verdict: SandboxResult<()>)
        requires
            old(self).well_formed(),
        ensures
            final(self).well_formed(),
            if old(self).state == BackendState::Created {
                &&& verdict is Ok
                &&& *final(self) == (HyperVBackend {
                    state: BackendState::Preparing,
                    started_at: final(self).started_at,
                    ..*old(self)
                })
                &&& final(self).started_at is Some
            } else {
                &&& *final(self) == *old(self)
                &&& backend::outcome(verdict) == Err::<(), backend::Fault>(
                    backend::fault(
                        "hyperv_prepare"@,
                        "Hyper-V backend cannot prepare from "@ + state_text(old(self).state),
                    ),
                )
            },
    {
        if self.state != BackendState::Created {
            let message = text::cat2(
                "Hyper-V backend cannot prepare from ",
                state_name(self.state),
            );
            return Err(SandboxError::new("hyperv_prepare", message.as_str()));
        }
        self.state = BackendState::Preparing;
        self.started_at = Some(clock::instant_now());
        Ok(())
    }

    /// Ends a preparation that failed before the run owned anything.
    pub fn refuse_preparation(&mut self)
        requires
            old(self).well_formed(),
        ensures
            final(self).well_formed(),
            *final(self) == (HyperVBackend { state: BackendState::Failed, ..*old(self) }),
    {
        self.state = BackendState::Failed;
    }

    /// The facts that the report needs are kept.
    pub open spec fn retains(&self, seen: AdmissionObservations) -> bool {
        &&& self.target_path == found(seen.target_path)
        &&& self.target_size_bytes == match found(seen.target_len) {
            Some(len) => len,
            None => 0,
        }
        &&& self.target_sha256 == found(seen.target_sha256)
        &&& self.run_id == found(seen.run_id)
        &&& self.guest_image_version == image_version_of(seen.base_image)
    }

    fn retain(&mut self, seen: AdmissionObservations) -> (image: Option<HostPath>)
        ensures
            final(self).retains(seen),
            *final(self) == (HyperVBackend {
                target_path: final(self).target_path,
                target_size_bytes: final(self).target_size_bytes,
                target_sha256: final(self).target_sha256,
                run_id: final(self).run_id,
                guest_image_version: final(self).guest_image_version,
                ..*old(self)
            }),
            image == match seen.base_image {
                Some(Ok(valid)) => Some(valid.path),
                _ => None,
            },
    {
        self.target_path = match seen.target_path {
            Some(Ok(path)) => Some(path),
            _ => None,
        };
        self.target_size_bytes = match seen.target_len {
            Some(Ok(len)) => len,
            _ => 0,
        };
        self.target_sha256 = match seen.target_sha256 {
            Some(Ok(sha256)) => Some(sha256),
            _ => None,
        };
        self.run_id = match seen.run_id {
            Some(Ok(run_id)) => Some(run_id),
            _ => None,
        };
        match seen.base_image {
            Some(Ok(valid)) => {
                self.guest_image_version = Some(valid.manifest.image_version);
                Some(valid.path)
            },
            _ => {
                self.guest_image_version = None;
                None
            },
        }
    }

    /// Ends the preparation of an admitted dry run.
    pub fn accept_dry_run(
        &mut self,
        request: SandboxRequest,
        plan: HyperVNetworkPlan,
        seen: AdmissionObservations,
    )
        requires
            old(self).well_formed(),
        ensures
            final(self).well_formed(),
            final(self).retains(seen),
            *final(self) == (HyperVBackend {
                state: BackendState::Ready,
                prepared: Some(PreparedRun::DryRun(request)),
                network_plan: Some(plan),
                target_path: final(self).target_path,
                target_size_bytes: final(self).target_size_bytes,
                target_sha256: final(self).target_sha256,
                run_id: final(self).run_id,
                guest_image_version: final(self).guest_image_version,
                ..*old(self)
            }),
    {
        let _ = self.retain(seen);
        self.network_plan = Some(plan);
        self.prepared = Some(PreparedRun::DryRun(request));
        self.state = BackendState::Ready;
    }

    /// Begins the provisioning of an admitted live run. `None` stands for observations that admit
    /// no run.
    pub fn accept_live_run(
        &mut self,
        request: SandboxRequest,
        plan: HyperVNetworkPlan,
        seen: AdmissionObservations,
    ) -> (provisioning: Option<SandboxResult<Provisioning>>)
        requires
            old(self).well_formed(),
            plan matches HyperVNetworkPlan::Controlled(inner) ==> inner.supported(),
        ensures
            final(self).well_formed(),
            final(self).retains(seen),
            *final(self) == (HyperVBackend {
                target_path: final(self).target_path,
                target_size_bytes: final(self).target_size_bytes,
                target_sha256: final(self).target_sha256,
                run_id: final(self).run_id,
                guest_image_version: final(self).guest_image_version,
                ..*old(self)
            }),
            match (found(seen.run_id), found(seen.target_sha256), found(seen.base_image)) {
                (Some(run_id), Some(sha256), Some(image)) => match provisioning {
                    Some(Ok(made)) => {
                        &&& made.well_formed()
                        &&& made.step == ProvisionStep::Start
                        &&& made.request == request
                        &&& made.plan == plan
                        &&& made.target_sha256 == sha256
                        &&& made.starts_from(&old(self).config, run_id@, image.path)
                        &&& host_path::copies_option(made.program_data, old(self).program_data)
                        &&& backend::outcome(made.required_free_bytes) == old(
                            self,
                        ).config.free_bytes_value()
                    },
                    Some(Err(error)) => exists|run_root: HostPath|
                        {
                            &&& #[trigger] run_root.extends(&old(self).config.run_root, run_id@)
                            &&& journal::run_identity_verdict(run_id@, &run_root) == Err::<
                                (),
                                backend::Fault,
                            >(error@)
                        },
                    None => false,
                },
                _ => provisioning is None,
            },
    {
        let image = self.retain(seen);
        match (&self.run_id, &self.target_sha256, image) {
            (Some(run_id), Some(sha256), Some(path)) => {
                let program_data = host_path::duplicate_option(&self.program_data);
                Some(
                    Provisioning::new(
                        &self.config,
                        request,
                        plan,
                        run_id.clone(),
                        sha256.clone(),
                        path,
                        program_data,
                    ),
                )
            },
            _ => None,
        }
    }

    /// Ends the preparation of a live run, with what provisioning came to.
    pub fn finish_preparation(&mut self, run: Provisioning) -> (verdict: SandboxResult<()>)
        requires
            old(self).well_formed(),
            run.well_formed(),
            run.step == ProvisionStep::Ready || run.step == ProvisionStep::Failed,
        ensures
            final(self).well_formed(),
            final(self).prepared_from(*old(self), run),
            if run.step == ProvisionStep::Ready {
                verdict is Ok
            } else {
                run.failure matches Some(error) && backend::outcome(verdict) == Err::<
                    (),
                    backend::Fault,
                >(error@)
            },
    {
        proof {
            if run.step == ProvisionStep::Ready {
                crate::hyperv::provisioning::ready_runs_are_recorded(run);
            }
        }
        if run.step == ProvisionStep::Ready {
            let image_version = match &self.guest_image_version {
                Some(version) => version.clone(),
                None => String::new(),
            };
            let request_sha256 = match run.request_sha256 {
                Some(sha256) => sha256,
                None => String::new(),
            };
            self.network_pre_verification = run.pre_verification;
            self.prepared = Some(
                PreparedRun::Live(
                    LivePrepared {
                        setting: RunSetting {
                            request: run.request,
                            image_version,
                            request_sha256,
                            plan: run.plan,
                            program_data: run.program_data,
                        },
                        journal: run.journal,
                    },
                ),
            );
            self.state = BackendState::Ready;
            return Ok(());
        }
        self.prepared = if run.followed {
            Some(PreparedRun::Preparing(run.journal))
        } else {
            None
        };
        self.state = BackendState::Failed;
        match run.failure {
            Some(error) => Err(error),
            None => Ok(()),
        }
    }

    /// The run is ready, or failed with the journal that cleanup goes by.
    pub open spec fn prepared_from(&self, before: HyperVBackend, run: Provisioning) -> bool {
        if run.step == ProvisionStep::Ready {
            &&& *self == (HyperVBackend {
                state: BackendState::Ready,
                prepared: self.prepared,
                network_pre_verification: run.pre_verification,
                ..before
            })
            &&& self.prepared matches Some(PreparedRun::Live(live)) && live.journal == run.journal
                && live.setting.request == run.request && live.setting.plan == run.plan
                && Some(live.setting.request_sha256) == run.request_sha256
                && live.setting.program_data == run.program_data && match before.guest_image_version {
                Some(version) => live.setting.image_version == version,
                None => live.setting.image_version@.len() == 0,
            }
        } else {
            *self == (HyperVBackend {
                state: BackendState::Failed,
                prepared: if run.followed {
                    Some(PreparedRun::Preparing(run.journal))
                } else {
                    None
                },
                ..before
            })
        }
    }

    // Execution ------------------------------------------------------------------------------

    /// Why the prepared run cannot be executed for a request.
    pub open spec fn execution_refusal(&self, request: &SandboxRequest) -> Option<backend::Fault> {
        if self.state != BackendState::Ready {
            Some(
                execution_fault(
                    "Hyper-V backend cannot execute from "@ + state_text(self.state),
                ),
            )
        } else {
            match self.prepared {
                None => Some(execution_fault("Hyper-V backend has no prepared run"@)),
                Some(PreparedRun::Preparing(_)) => Some(
                    execution_fault("Hyper-V preparation did not reach a ready state"@),
                ),
                Some(PreparedRun::DryRun(prepared)) => if prepared.same(request) {
                    None
                } else {
                    Some(execution_fault("execute request differs from prepared request"@))
                },
                Some(PreparedRun::Live(live)) => if live.setting.request.same(request) {
                    None
                } else {
                    Some(execution_fault("execute request differs from prepared request"@))
                },
            }
        }
    }

    /// Begins the execution of what was prepared, for the request that it was prepared for.
    pub fn begin_execution(&mut self, request: &SandboxRequest) -> (start: ExecutionStart)
        requires
            old(self).well_formed(),
        ensures
            final(self).well_formed(),
            match (old(self).execution_refusal(request), start) {
                (Some(fault), ExecutionStart::Refused(error)) => error@ == fault && *final(self)
                    == if old(self).state == BackendState::Ready {
                    HyperVBackend {
                        state: BackendState::Failed,
                        execution_stages: final(self).execution_stages,
                        ..*old(self)
                    }
                } else {
                    *old(self)
                },
                (None, ExecutionStart::Finished(result)) => {
                    &&& old(self).prepared matches Some(PreparedRun::DryRun(_))
                    &&& exists|elapsed: nat|
                        exchange::is_synthetic(&result, request, SyntheticOutcome::DryRun, elapsed)
                    &&& *final(self) == (HyperVBackend {
                        state: BackendState::Completed,
                        execution_stages: final(self).execution_stages,
                        ..*old(self)
                    })
                },
                (None, ExecutionStart::Run(run)) => {
                    &&& old(self).prepared matches Some(PreparedRun::Live(live)) && run.setting
                        == live.setting && run.journal == live.journal && run@ == execution::execution_start(
                        live.journal@,
                    )
                    &&& run@.consistent()
                    &&& run.well_clocked()
                    &&& run.untimed()
                    &&& old(self).started_at matches Some(started) ==> run.started == started
                    &&& *final(self) == (HyperVBackend {
                        state: BackendState::Running,
                        prepared: None,
                        execution_stages: final(self).execution_stages,
                        ..*old(self)
                    })
                },
                _ => false,
            },
            old(self).state == BackendState::Ready ==> final(self).execution_stages@.len() == 0,
    {
        if self.state != BackendState::Ready {
            let message = text::cat2(
                "Hyper-V backend cannot execute from ",
                state_name(self.state),
            );
            return ExecutionStart::Refused(SandboxError::new("hyperv_execute", message.as_str()));
        }
        self.execution_stages = Vec::new();
        let started = match self.started_at {
            Some(started) => started,
            None => clock::instant_now(),
        };
        match self.prepared.take() {
            None => {
                self.state = BackendState::Failed;
                ExecutionStart::Refused(
                    SandboxError::new("hyperv_execute", "Hyper-V backend has no prepared run"),
                )
            },
            Some(PreparedRun::Preparing(journal)) => {
                self.prepared = Some(PreparedRun::Preparing(journal));
                self.state = BackendState::Failed;
                ExecutionStart::Refused(
                    SandboxError::new(
                        "hyperv_execute",
                        "Hyper-V preparation did not reach a ready state",
                    ),
                )
            },
            Some(PreparedRun::DryRun(prepared)) => {
                let matching = prepared.is_same(request);
                self.prepared = Some(PreparedRun::DryRun(prepared));
                if !matching {
                    self.state = BackendState::Failed;
                    return ExecutionStart::Refused(
                        SandboxError::new(
                            "hyperv_execute",
                            "execute request differs from prepared request",
                        ),
                    );
                }
                self.state = BackendState::Completed;
                let elapsed: u128 = clock::elapsed_millis(&started);
                let result = exchange::synthetic_result(request, SyntheticOutcome::DryRun, elapsed);
                proof {
                    assert(exchange::is_synthetic(
                        &result,
                        request,
                        SyntheticOutcome::DryRun,
                        elapsed as nat,
                    ));
                }
                ExecutionStart::Finished(result)
            },
            Some(PreparedRun::Live(live)) => {
                if !live.setting.request.is_same(request) {
                    self.prepared = Some(PreparedRun::Live(live));
                    self.state = BackendState::Failed;
                    return ExecutionStart::Refused(
                        SandboxError::new(
                            "hyperv_execute",
                            "execute request differs from prepared request",
                        ),
                    );
                }
                self.state = BackendState::Running;
                ExecutionStart::Run(Execution::new(live.setting, live.journal, started))
            },
        }
    }

    /// Ends an execution: its journal goes back, so that cleanup goes by it.
    pub fn finish_execution(&mut self, run: Execution) -> (result: SandboxResult<SandboxRunResult>)
        requires
            old(self).well_formed(),
            run@.consistent(),
            run.well_clocked(),
            run.step == ExecutionStep::Done,
        ensures
            final(self).well_formed(),
            run.result == Some(result),
            *final(self) == (HyperVBackend {
                state: if result is Ok {
                    BackendState::Completed
                } else {
                    BackendState::Failed
                },
                prepared: Some(
                    PreparedRun::Live(
                        LivePrepared { setting: run.setting, journal: run.journal },
                    ),
                ),
                execution_stages: run.stages,
                network_post_verification: run.post_verification,
                ..*old(self)
            }),
    {
        self.prepared = Some(
            PreparedRun::Live(LivePrepared { setting: run.setting, journal: run.journal }),
        );
        self.execution_stages = run.stages;
        self.network_post_verification = run.post_verification;
        let result = match run.result {
            Some(result) => result,
            None => Err(SandboxError::new("hyperv_execute", "execution is not done")),
        };
        self.state = if result.is_ok() {
            BackendState::Completed
        } else {
            BackendState::Failed
        };
        result
    }

    // Cleanup --------------------------------------------------------------------------------

    /// Begins the cleanup. A finished backend has nothing left to clean up.
    pub fn begin_cleanup(&mut self) -> (start: CleanupStart)
        requires
            old(self).well_formed(),
        ensures
            final(self).well_formed(),
            cleanup_begun(*old(self), start, *final(self)),
    {
        if self.state == BackendState::Finished {
            return CleanupStart::AlreadyFinished;
        }
        self.state = BackendState::Cleaning;
        match self.prepared.take() {
            None => CleanupStart::Nothing,
            Some(PreparedRun::DryRun(_)) => CleanupStart::Nothing,
            Some(PreparedRun::Preparing(journal)) => CleanupStart::Run(
                cleanup::cleanup_resources(
                    journal,
                    host_path::duplicate_option(&self.program_data),
                ),
            ),
            Some(PreparedRun::Live(live)) => {
                self.network_plan = Some(live.setting.plan);
                CleanupStart::Run(
                    cleanup::cleanup_resources(live.journal, live.setting.program_data),
                )
            },
        }
    }

    /// The journal that names what a run owns.
    pub open spec fn journal_of(&self) -> Option<CleanupJournal> {
        match self.prepared {
            Some(PreparedRun::Live(live)) => Some(live.journal),
            Some(PreparedRun::Preparing(journal)) => Some(journal),
            _ => None,
        }
    }

    /// Ends the cleanup with its outcome.
    pub fn finish_cleanup(&mut self, outcome: CleanupOutcome) -> (verdict: SandboxResult<()>)
        ensures
            cleanup_finished(*old(self), outcome, verdict, *final(self)),
    {
        self.prepared = None;
        self.state = BackendState::Finished;
        let verdict = if outcome.success {
            Ok(())
        } else if outcome.warnings.len() == 0 {
            Err(SandboxError::new("hyperv_cleanup", "Hyper-V cleanup left resources behind"))
        } else {
            let joined = text::join_with(&outcome.warnings, "; ");
            Err(SandboxError::new("hyperv_cleanup", joined.as_str()))
        };
        self.cleanup_outcome = outcome;
        verdict
    }

    /// The answer to a cleanup that began with `work`, once the run in it was carried out. Cleaning
    /// up a finished backend succeeds at once and changes nothing.
    pub fn cleanup(&mut self, work: CleanupStart) -> (verdict: SandboxResult<()>)
        requires
            work matches CleanupStart::Run(run) ==> run.step == CleanupStep::Done,
        ensures
            cleanup_ended(*old(self), work, verdict, *final(self)),
    {
        match work {
            CleanupStart::AlreadyFinished => Ok(()),
            CleanupStart::Nothing => self.finish_cleanup(CleanupOutcome::nothing_to_clean()),
            CleanupStart::Run(run) => self.finish_cleanup(run.outcome),
        }
    }
}

/// How a cleanup begins: with nothing where the backend is finished or owns nothing, otherwise by
/// the journal of the run and with the paths that the run was prepared with.
pub open spec fn cleanup_begun(
    before: HyperVBackend,
    start: CleanupStart,
    after: HyperVBackend,
) -> bool {
    match start {
        CleanupStart::AlreadyFinished => before.state == BackendState::Finished && after == before,
        CleanupStart::Nothing => {
            &&& before.state != BackendState::Finished
            &&& before.journal_of() is None
            &&& after == (HyperVBackend {
                state: BackendState::Cleaning,
                prepared: None,
                ..before
            })
        },
        CleanupStart::Run(run) => {
            &&& before.state != BackendState::Finished
            &&& before.journal_of() == Some(run.journal)
            &&& match before.prepared {
                Some(PreparedRun::Live(live)) => run.program_data == live.setting.program_data,
                _ => host_path::copies_option(run.program_data, before.program_data),
            }
            &&& run@ == cleanup::cleanup_start(run.journal@, run.program_data)
            &&& after == (HyperVBackend {
                state: BackendState::Cleaning,
                prepared: None,
                network_plan: match before.prepared {
                    Some(PreparedRun::Live(live)) => Some(live.setting.plan),
                    _ => before.network_plan,
                },
                ..before
            })
        },
    }
}

/// How a cleanup ends: the backend is finished and keeps the outcome, whatever it was.
pub open spec fn cleanup_finished(
    before: HyperVBackend,
    outcome: CleanupOutcome,
    verdict: SandboxResult<()>,
    after: HyperVBackend,
) -> bool {
    &&& after == (HyperVBackend {
        state: BackendState::Finished,
        prepared: None,
        cleanup_outcome: outcome,
        ..before
    })
    &&& backend::outcome(verdict) == cleanup_verdict(outcome)
}

/// What the cleanup that began with `work` comes to.
pub open spec fn cleanup_ended(
    before: HyperVBackend,
    work: CleanupStart,
    verdict: SandboxResult<()>,
    after: HyperVBackend,
) -> bool {
    match work {
        CleanupStart::AlreadyFinished => verdict is Ok && after == before,
        CleanupStart::Nothing => {
            let outcome = after.cleanup_outcome;
            &&& outcome.attempted
            &&& outcome.success
            &&& outcome.warnings@.len() == 0
            &&& outcome.leftover_resources@.len() == 0
            &&& outcome.removed_resources@.len() == 0
            &&& cleanup_finished(before, outcome, verdict, after)
        },
        CleanupStart::Run(run) => cleanup_finished(before, run.outcome, verdict, after),
    }
}

/// A cleanup that did not succeed is an error with its warnings.
pub open spec fn cleanup_verdict(outcome: CleanupOutcome) -> Result<(), backend::Fault> {
    if outcome.success {
        Ok(())
    } else if outcome.warnings@.len() == 0 {
        Err(backend::fault("hyperv_cleanup"@, "Hyper-V cleanup left resources behind"@))
    } else {
        Err(
            backend::fault(
                "hyperv_cleanup"@,
                text::join(text::views(outcome.warnings@), "; "@),
            ),
        )
    }
}

// ---------------------------------------------------------------------------------------------
// The report
// ---------------------------------------------------------------------------------------------

/// The text of an error, where there is one.
pub open spec fn error_lines(error: Option<&SandboxError>) -> Seq<Seq<char>> {
    match error {
        Some(inner) => seq![backend::fault_text(inner@)],
        None => Seq::empty(),
    }
}

/// The report of a stage that succeeded unless there is an error.
pub fn report_outcome(timer: StageTimer, warnings: Vec<String>, error: Option<&SandboxError>) -> (report:
    ReportStage)
    ensures
        report.stage == timer.stage,
        report.timed_from(timer.start_time_unix_ms),
        report.start_time_unix_ms == timer.start_time_unix_ms,
        report.well_timed(),
        report.success == (error is None),
        report.warnings == warnings,
        text::views(report.errors@) == error_lines(error),
{
    let mut errors: Vec<String> = Vec::new();
    match error {
        Some(inner) => {
            errors.push(inner.to_string());
        },
        None => {},
    }
    proof {
        assert(text::views(errors@) =~= error_lines(error));
    }
    timer.finish(error.is_none(), warnings, errors)
}

/// The error of a preparation that failed, with that of the cleanup after it.
pub open spec fn preparation_fault(
    preparation: backend::Fault,
    cleanup: Option<backend::Fault>,
) -> backend::Fault {
    match cleanup {
        None => preparation,
        Some(second) => backend::fault(
            "hyperv_preparation_and_cleanup"@,
            backend::fault_text(preparation) + "; cleanup also failed: "@ + backend::fault_text(
                second,
            ),
        ),
    }
}

pub fn preparation_failure(preparation: SandboxError, cleanup: Option<SandboxError>) -> (error:
    SandboxError)
    ensures
        error@ == preparation_fault(
            preparation@,
            match cleanup {
                Some(second) => Some(second@),
                None => None,
            },
        ),
{
    match cleanup {
        None => preparation,
        Some(second) => {
            let first = preparation.to_string();
            let later = second.to_string();
            let message = text::cat3(first.as_str(), "; cleanup also failed: ", later.as_str());
            SandboxError::new("hyperv_preparation_and_cleanup", message.as_str())
        },
    }
}

/// The result with what the cleanup came to.
pub open spec fn cleaned_result(
    before: SandboxRunResult,
    after: SandboxRunResult,
    cleanup: Result<(), backend::Fault>,
    outcome: CleanupOutcome,
) -> bool {
    &&& after == (SandboxRunResult { cleanup: after.cleanup, ..before })
    &&& text::views(after.cleanup.leftover_resources@) == text::views(outcome.leftover_resources@)
    &&& match cleanup {
        Ok(_) => {
            &&& after.cleanup.attempted == outcome.attempted
            &&& after.cleanup.success == outcome.success
            &&& text::views(after.cleanup.warnings@) == text::views(outcome.warnings@)
        },
        Err(fault) => {
            &&& after.cleanup.attempted
            &&& !after.cleanup.success
            &&& text::views(after.cleanup.warnings@) == text::views(before.cleanup.warnings@).push(
                backend::fault_text(fault),
            )
        },
    }
}

fn clean_result(
    result: &mut SandboxRunResult,
    cleanup: &SandboxResult<()>,
    outcome: &CleanupOutcome,
)
    ensures
        cleaned_result(*old(result), *final(result), backend::outcome(*cleanup), *outcome),
{
    result.cleanup.leftover_resources = text::clone_list(&outcome.leftover_resources);
    match cleanup {
        Ok(_) => {
            result.cleanup.attempted = outcome.attempted;
            result.cleanup.success = outcome.success;
            result.cleanup.warnings = text::clone_list(&outcome.warnings);
        },
        Err(error) => {
            let ghost before = result.cleanup.warnings@;
            result.cleanup.attempted = true;
            result.cleanup.success = false;
            let line = error.to_string();
            result.cleanup.warnings.push(line);
            proof {
                assert(text::views(result.cleanup.warnings@) =~= text::views(before).push(line@));
            }
        },
    }
}

pub open spec fn lost(message: Seq<char>) -> Result<(), backend::Fault> {
    Err(backend::fault("hyperv_result"@, message))
}

impl HyperVBackend {
    /// Whether a run has a report, or why not.
    pub open spec fn conclusion_verdict(
        &self,
        execution: SandboxResult<SandboxRunResult>,
        cleanup: SandboxResult<()>,
    ) -> Result<(), backend::Fault> {
        match (execution, cleanup) {
            (Err(first), Err(second)) => Err(
                backend::fault(
                    "hyperv_execution_and_cleanup"@,
                    backend::fault_text(first@) + "; cleanup also failed: "@ + backend::fault_text(
                        second@,
                    ),
                ),
            ),
            (Err(first), Ok(_)) => Err(first@),
            (Ok(_), _) => if self.run_id is None {
                lost("run identifier was not retained"@)
            } else if self.guest_image_version is None {
                lost("guest image version was not retained"@)
            } else if self.network_plan is None {
                lost("network plan was not retained"@)
            } else if self.target_path is None {
                lost("target metadata was not retained"@)
            } else if self.target_sha256 is None {
                lost("target integrity hash was not retained"@)
            } else {
                Ok(())
            },
        }
    }

    /// The metadata tells how the run was set up.
    pub open spec fn described_in(&self, metadata: BackendMetadata, request: &SandboxRequest) -> bool {
        match metadata {
            BackendMetadata::HyperV {
                run_id,
                guest_image_version,
                protocol_version,
                vm_generation,
                secure_boot,
                cpu_count,
                startup_memory_bytes,
                data_disk_bytes,
                maximum_os_disk_growth_bytes,
                network_mode,
                network: report,
            } => {
                &&& Some(run_id) == self.run_id
                &&& Some(guest_image_version) == self.guest_image_version
                &&& protocol_version == PROTOCOL_VERSION
                &&& vm_generation == 2
                &&& secure_boot
                &&& cpu_count == self.config.processor_count
                &&& startup_memory_bytes == self.config.startup_memory_bytes
                &&& data_disk_bytes == self.config.data_disk_bytes
                &&& maximum_os_disk_growth_bytes == self.config.maximum_os_disk_growth_bytes
                &&& network_mode@ == request.network_policy.spec_name()
                &&& report.pre_run_verification == network::recorded_option(
                    self.network_pre_verification,
                )
                &&& report.post_run_verification == network::recorded_option(
                    self.network_post_verification,
                )
                &&& report.cleanup_results@ == self.cleanup_outcome.removed_resources@
                &&& report.warnings@ == self.cleanup_outcome.warnings@
                &&& self.network_plan matches Some(plan) && network::plan_reported(&plan, &report)
            },
            _ => false,
        }
    }

    /// What a run comes to, once it was cleaned up. Its stages are the reports of its validation,
    /// preparation and execution, those of the steps of the execution and that of the cleanup.
    pub open spec fn concluded(
        &self,
        request: &SandboxRequest,
        execution: SandboxResult<SandboxRunResult>,
        cleanup: SandboxResult<()>,
        stages: Seq<ReportStage>,
        run: SandboxResult<HyperVSandboxRun>,
    ) -> bool {
        match (self.conclusion_verdict(execution, cleanup), run) {
            (Err(fault), Err(error)) => error@ == fault,
            (Ok(_), Ok(made)) => {
                &&& execution matches Ok(result) && cleaned_result(
                    result,
                    made.result,
                    backend::outcome(cleanup),
                    self.cleanup_outcome,
                )
                &&& Some(made.target_path) == self.target_path
                &&& made.target_size_bytes == self.target_size_bytes
                &&& Some(made.target_sha256) == self.target_sha256
                &&& Some(made.run_id) == self.run_id
                &&& Some(made.guest_image_version) == self.guest_image_version
                &&& made.cleanup == self.cleanup_outcome
                &&& self.described_in(made.metadata, request)
                &&& made.stages@ == stages.drop_last() + self.execution_stages@.push(stages.last())
            },
            _ => false,
        }
    }

    /// The report of a run, once it was cleaned up.
    pub fn conclude(
        self,
        request: &SandboxRequest,
        execution: SandboxResult<SandboxRunResult>,
        cleanup: SandboxResult<()>,
        stages: Vec<ReportStage>,
    ) -> (run: SandboxResult<HyperVSandboxRun>)
        requires
            stages@.len() > 0,
        ensures
            self.concluded(request, execution, cleanup, stages@, run),
    {
        let mut result = match execution {
            Err(first) => {
                return match cleanup {
                    Ok(_) => Err(first),
                    Err(second) => {
                        let one = first.to_string();
                        let two = second.to_string();
                        let message = text::cat3(
                            one.as_str(),
                            "; cleanup also failed: ",
                            two.as_str(),
                        );
                        Err(SandboxError::new("hyperv_execution_and_cleanup", message.as_str()))
                    },
                };
            },
            Ok(result) => result,
        };
        clean_result(&mut result, &cleanup, &self.cleanup_outcome);
        let run_id = match self.run_id {
            Some(run_id) => run_id,
            None => {
                return Err(SandboxError::new("hyperv_result", "run identifier was not retained"));
            },
        };
        let guest_image_version = match self.guest_image_version {
            Some(version) => version,
            None => {
                return Err(
                    SandboxError::new("hyperv_result", "guest image version was not retained"),
                );
            },
        };
        let plan = match self.network_plan {
            Some(plan) => plan,
            None => {
                return Err(SandboxError::new("hyperv_result", "network plan was not retained"));
            },
        };
        let network_report = network::metadata(
            &plan,
            self.network_pre_verification,
            self.network_post_verification,
            text::clone_list(&self.cleanup_outcome.removed_resources),
            text::clone_list(&self.cleanup_outcome.warnings),
        );
        let metadata = BackendMetadata::HyperV {
            run_id: run_id.clone(),
            guest_image_version: guest_image_version.clone(),
            protocol_version: PROTOCOL_VERSION,
            vm_generation: 2,
            secure_boot: true,
            cpu_count: self.config.processor_count,
            startup_memory_bytes: self.config.startup_memory_bytes,
            data_disk_bytes: self.config.data_disk_bytes,
            maximum_os_disk_growth_bytes: self.config.maximum_os_disk_growth_bytes,
            network_mode: request.network_policy.name().to_owned(),
            network: network_report,
        };
        let target_path = match self.target_path {
            Some(path) => path,
            None => {
                return Err(SandboxError::new("hyperv_result", "target metadata was not retained"));
            },
        };
        let target_sha256 = match self.target_sha256 {
            Some(sha256) => sha256,
            None => {
                return Err(
                    SandboxError::new("hyperv_result", "target integrity hash was not retained"),
                );
            },
        };
        let ghost outer = stages@;
        let mut stages = stages;
        let mut own = self.execution_stages;
        match stages.pop() {
            Some(cleanup_stage) => {
                stages.append(&mut own);
                stages.push(cleanup_stage);
            },
            None => {},
        }
        proof {
            assert(stages@ =~= outer.drop_last() + self.execution_stages@.push(outer.last()));
        }
        Ok(
            HyperVSandboxRun {
                result,
                target_path,
                target_size_bytes: self.target_size_bytes,
                target_sha256,
                run_id,
                guest_image_version,
                cleanup: self.cleanup_outcome,
                metadata,
                stages,
            },
        )
    }
}

// ---------------------------------------------------------------------------------------------
// Laws
// ---------------------------------------------------------------------------------------------

/// A cleanup finishes the backend, whatever state it started from, and succeeds exactly where its
/// outcome says so. A second cleanup succeeds even after a failed one, asks nothing of the host and
/// changes nothing. `started` and `worked` are the work of the first cleanup before and after the
/// host carried it out.
pub proof fn second_cleanups_do_nothing(
    first: HyperVBackend,
    started: CleanupStart,
    cleaning: HyperVBackend,
    worked: CleanupStart,
    answer: SandboxResult<()>,
    second: HyperVBackend,
    again: CleanupStart,
    still: HyperVBackend,
    next_answer: SandboxResult<()>,
    third: HyperVBackend,
)
    requires
        first.state != BackendState::Finished,
        cleanup_begun(first, started, cleaning),
        started is Run <==> worked is Run,
        started is Nothing <==> worked is Nothing,
        cleanup_ended(cleaning, worked, answer, second),
        cleanup_begun(second, again, still),
        cleanup_ended(still, again, next_answer, third),
    ensures
        second.state == BackendState::Finished,
        answer is Ok <==> second.cleanup_outcome.success,
        again is AlreadyFinished,
        next_answer is Ok,
        still == second,
        third == second,
{
}

/// Only a backend that is ready, for the very request that it was prepared for, executes anything.
pub proof fn only_prepared_requests_are_executed(machine: HyperVBackend, request: &SandboxRequest)
    requires
        machine.execution_refusal(request) is None,
    ensures
        machine.state == BackendState::Ready,
        match machine.prepared {
            Some(PreparedRun::DryRun(prepared)) => prepared.same(request),
            Some(PreparedRun::Live(live)) => live.setting.request.same(request),
            _ => false,
        },
{
}

/// No stage in the report of a run ends before it starts.
pub proof fn reported_stages_never_end_before_they_start(
    machine: HyperVBackend,
    request: &SandboxRequest,
    execution: SandboxResult<SandboxRunResult>,
    cleanup: SandboxResult<()>,
    stages: Seq<ReportStage>,
    made: HyperVSandboxRun,
)
    requires
        machine.well_formed(),
        stages.len() > 0,
        backend::all_well_timed(stages),
        machine.concluded(request, execution, cleanup, stages, Ok(made)),
    ensures
        backend::all_well_timed(made.stages@),
{
    let count = (stages.len() - 1) as int;
    let kept = machine.execution_stages@;
    assert forall|i: int| 0 <= i < made.stages@.len() implies (
    #[trigger] made.stages@[i]).well_timed() by {
        if i < count {
            assert(made.stages@[i] == stages[i]);
        } else if i < count + kept.len() {
            assert(made.stages@[i] == kept[i - count]);
        } else {
            assert(made.stages@[i] == stages[count]);
        }
    }
}

/// A report has a failed cleanup in it, never a silent one: its result says that the cleanup did not
/// succeed and why.
pub proof fn failed_cleanups_show_in_the_result(
    before: SandboxRunResult,
    after: SandboxRunResult,
    outcome: CleanupOutcome,
)
    requires
        cleanup_verdict(outcome) is Err,
        cleaned_result(before, after, cleanup_verdict(outcome), outcome),
    ensures
        after.cleanup.attempted,
        !after.cleanup.success,
        after.cleanup.warnings@.len() > 0,
        text::views(after.cleanup.leftover_resources@) == text::views(
            outcome.leftover_resources@,
        ),
{
    let fault = cleanup_verdict(outcome)->Err_0;
    assert(text::views(after.cleanup.warnings@).len() == after.cleanup.warnings@.len());
    assert(text::views(before.cleanup.warnings@).push(backend::fault_text(fault)).len() > 0);
}

/// A cleanup is judged by its success alone, and a failed one tells its warnings.
pub proof fn cleanups_are_judged_by_their_success(outcome: CleanupOutcome)
    ensures
        cleanup_verdict(outcome) is Ok <==> outcome.success,
        cleanup_verdict(outcome) matches Err(fault) ==> fault.stage == "hyperv_cleanup"@,
        !outcome.success && outcome.warnings@.len() == 1 ==> cleanup_verdict(outcome)->Err_0.message
            == outcome.warnings@[0]@,
{
    if outcome.warnings@.len() == 1 {
        assert(text::views(outcome.warnings@)[0] == outcome.warnings@[0]@);
        assert(text::views(outcome.warnings@).len() == 1);
    }
}

/// A run is reported exactly where it was executed and its particulars were kept; an execution that
/// failed is an error whatever the cleanup gave, and one that names both where the cleanup failed too.
pub proof fn executed_runs_are_reported(
    machine: HyperVBackend,
    execution: SandboxResult<SandboxRunResult>,
    cleanup: SandboxResult<()>,
)
    ensures
        machine.conclusion_verdict(execution, cleanup) is Ok <==> {
            &&& execution is Ok
            &&& machine.run_id is Some
            &&& machine.guest_image_version is Some
            &&& machine.network_plan is Some
            &&& machine.target_path is Some
            &&& machine.target_sha256 is Some
        },
        execution is Err && cleanup is Ok ==> machine.conclusion_verdict(execution, cleanup) == Err::<
            (),
            backend::Fault,
        >(execution->Err_0@),
        execution is Err && cleanup is Err ==> (machine.conclusion_verdict(
            execution,
            cleanup,
        ) matches Err(fault) && fault.stage == "hyperv_execution_and_cleanup"@ && text::begins(
            fault.message,
            backend::fault_text(execution->Err_0@),
        ) && text::ends(fault.message, backend::fault_text(cleanup->Err_0@))),
{
    if execution is Err && cleanup is Err {
        let first = backend::fault_text(execution->Err_0@);
        let second = backend::fault_text(cleanup->Err_0@);
        let whole = first + "; cleanup also failed: "@ + second;
        assert(whole.take(first.len() as int) =~= first);
        assert(whole.skip(whole.len() - second.len()) =~= second);
    }
}

/// A preparation that failed is told as it is; where the cleanup after it failed too, both are told.
pub proof fn failed_preparations_are_told(preparation: backend::Fault, cleanup: Option<backend::Fault>)
    ensures
        cleanup is None ==> preparation_fault(preparation, cleanup) == preparation,
        cleanup is Some ==> {
            let told = preparation_fault(preparation, cleanup);
            &&& told.stage == "hyperv_preparation_and_cleanup"@
            &&& text::begins(told.message, backend::fault_text(preparation))
            &&& text::ends(told.message, backend::fault_text(cleanup->0))
        },
{
    if cleanup is Some {
        let first = backend::fault_text(preparation);
        let second = backend::fault_text(cleanup->0);
        let whole = first + "; cleanup also failed: "@ + second;
        assert(whole.take(first.len() as int) =~= first);
        assert(whole.skip(whole.len() - second.len()) =~= second);
    }
}

/// The report of a run describes the machine as it was configured, the network as it was requested and
/// the run as it was made.
pub proof fn reports_describe_their_run(
    machine: HyperVBackend,
    request: &SandboxRequest,
    execution: SandboxResult<SandboxRunResult>,
    cleanup: SandboxResult<()>,
    stages: Seq<ReportStage>,
    made: HyperVSandboxRun,
)
    requires
        machine.concluded(request, execution, cleanup, stages, Ok(made)),
    ensures
        execution is Ok,
        made.result.stdout == execution->Ok_0.stdout,
        made.result.stderr == execution->Ok_0.stderr,
        made.result.exit_code == execution->Ok_0.exit_code,
        made.result.timed_out == execution->Ok_0.timed_out,
        made.result.monitor_warnings == execution->Ok_0.monitor_warnings,
        machine.target_path == Some(made.target_path),
        machine.target_sha256 == Some(made.target_sha256),
        machine.run_id == Some(made.run_id),
        made.target_size_bytes == machine.target_size_bytes,
        made.metadata is HyperV,
        made.metadata->vm_generation == 2,
        made.metadata->secure_boot,
        made.metadata->cpu_count == machine.config.processor_count,
        made.metadata->startup_memory_bytes == machine.config.startup_memory_bytes,
        made.metadata->data_disk_bytes == machine.config.data_disk_bytes,
        made.metadata->network_mode@ == match request.network_policy {
            backend::NetworkPolicy::DenyAll => "deny_all"@,
            backend::NetworkPolicy::HostServer => "host_server"@,
            backend::NetworkPolicy::AllowList(_) => "allow_list"@,
            backend::NetworkPolicy::AllowInternet => "allow_internet"@,
            backend::NetworkPolicy::CaptureOnly => "capture_only"@,
        },
{
}

/// A run is executed exactly where the backend is ready, a run was prepared, and it is asked for again
/// with the same request.
pub proof fn prepared_requests_are_executed(machine: HyperVBackend, request: &SandboxRequest)
    ensures
        machine.execution_refusal(request) is None <==> {
            &&& machine.state == BackendState::Ready
            &&& machine.prepared is Some
            &&& !(machine.prepared->0 is Preparing)
            &&& machine.prepared->0 is DryRun ==> machine.prepared->0->DryRun_0.same(request)
            &&& machine.prepared->0 is Live ==> machine.prepared->0->Live_0.setting.request.same(request)
        },
        machine.execution_refusal(request) matches Some(fault) ==> fault.stage == "hyperv_execute"@,
{
}

/// What is kept of a preparation is what was seen: the target, its digest and size, the run and the
/// version of the image.
pub proof fn preparations_are_kept_as_seen(machine: HyperVBackend, seen: AdmissionObservations)
    requires
        machine.retains(seen),
    ensures
        machine.target_path == found(seen.target_path),
        machine.target_sha256 == found(seen.target_sha256),
        machine.run_id == found(seen.run_id),
        found(seen.target_len) is Some ==> machine.target_size_bytes == found(seen.target_len)->0,
        seen.base_image is Some && seen.base_image->0 is Ok ==> machine.guest_image_version == Some(
            seen.base_image->0->Ok_0.manifest.image_version,
        ),
{
}

/// A backend is told by the name of its state.
pub proof fn states_are_told_by_name(state: BackendState)
    ensures
        state_text(state) == match state {
            BackendState::Created => "Created"@,
            BackendState::Preparing => "Preparing"@,
            BackendState::Ready => "Ready"@,
            BackendState::Running => "Running"@,
            BackendState::Completed => "Completed"@,
            BackendState::Failed => "Failed"@,
            BackendState::Cleaning => "Cleaning"@,
            BackendState::Finished => "Finished"@,
        },
{
}

} // verus!
