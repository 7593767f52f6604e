//! The life of one request: it is validated, prepared, executed and, once its preparation was
//! tried, cleaned up after, whatever came of it.

use vstd::prelude::*;

use crate::backend;
use crate::backend::{
    BackendKind, ReportStage, SandboxError, SandboxRequest, SandboxResult, StageTimer,
};
use crate::hyperv::backend::{
    preparation_failure, report_outcome, HyperVBackend, HyperVSandboxRun,
};
use crate::structs::SandboxRunResult;
use crate::text;

verus! {

/// What is to be done next.
#[derive(Clone, Copy, Debug, PartialEq, Eq, Structural)]
pub enum LifeStep {
    Prepare,
    /// Clean up after a preparation that failed.
    CleanUnprepared,
    Execute,
    /// Clean up after the execution.
    Clean,
    Conclude,
}

/// What came of a step. A cleanup comes with the warnings of its outcome.
#[derive(Debug)]
pub enum LifeEvent {
    Prepared(SandboxResult<()>),
    Executed(SandboxResult<SandboxRunResult>),
    Cleaned(SandboxResult<()>, Vec<String>),
}

pub struct Lifecycle {
    pub step: LifeStep,
    /// The clock of the step.
    pub timer: StageTimer,
    /// The reports of the stages that are over.
    pub stages: Vec<ReportStage>,
    pub preparation_error: Option<SandboxError>,
    pub execution: Option<SandboxResult<SandboxRunResult>>,
    pub cleanup: Option<SandboxResult<()>>,
}

pub open spec fn stage_name(index: int) -> Seq<char> {
    if index == 0 {
        "request_validation"@
    } else if index == 1 {
        "preparation"@
    } else if index == 2 {
        "execution"@
    } else {
        "cleanup"@
    }
}

impl Lifecycle {
    /// The reports are those of the first stages of a life, in their order.
    pub open spec fn staged(&self, count: nat) -> bool {
        &&& self.stages@.len() == count
        &&& forall|i: int|
            0 <= i < count ==> (#[trigger] self.stages@[i]).stage@ == stage_name(i)
        &&& backend::all_well_timed(self.stages@)
    }

    pub open spec fn consistent(&self) -> bool {
        match self.step {
            LifeStep::Prepare => {
                &&& self.staged(1)
                &&& self.timer.stage@ == "preparation"@
                &&& self.preparation_error is None
                &&& self.execution is None
                &&& self.cleanup is None
            },
            LifeStep::CleanUnprepared => {
                &&& self.preparation_error is Some
                &&& self.execution is None
                &&& self.cleanup is None
            },
            LifeStep::Execute => {
                &&& self.staged(2)
                &&& self.timer.stage@ == "execution"@
                &&& self.preparation_error is None
                &&& self.execution is None
                &&& self.cleanup is None
            },
            LifeStep::Clean => {
                &&& self.staged(3)
                &&& self.timer.stage@ == "cleanup"@
                &&& self.preparation_error is None
                &&& self.execution is Some
                &&& self.cleanup is None
            },
            LifeStep::Conclude => {
                &&& self.cleanup is Some
                &&& self.preparation_error is None ==> self.execution is Some && self.staged(4)
                &&& self.preparation_error is Some ==> self.execution is None
            },
        }
    }
}

/// The error of a result, as a stage reports it.
pub open spec fn error_texts<T>(result: SandboxResult<T>) -> Seq<Seq<char>> {
    match result {
        Ok(_) => Seq::empty(),
        Err(error) => seq![backend::fault_text(error@)],
    }
}

/// A stage was reported and the clock of the next one runs.
pub open spec fn stage_reported<T>(
    before: Lifecycle,
    result: SandboxResult<T>,
    warnings: Seq<String>,
    after: Lifecycle,
) -> bool {
    &&& after.stages@.len() > 0
    &&& after.stages@ == before.stages@.push(after.stages@.last())
    &&& after.stages@.last().stage == before.timer.stage
    &&& after.stages@.last().timed_from(before.timer.start_time_unix_ms)
    &&& after.stages@.last().start_time_unix_ms == before.timer.start_time_unix_ms
    &&& after.stages@.last().well_timed()
    &&& after.stages@.last().success == (result is Ok)
    &&& after.stages@.last().warnings@ == warnings
    &&& text::views(after.stages@.last().errors@) == error_texts(result)
}

/// What one event makes of the life. An event that is no answer to the step changes nothing.
pub open spec fn lived(before: Lifecycle, event: LifeEvent, after: Lifecycle) -> bool {
    match (before.step, event) {
        (LifeStep::Prepare, LifeEvent::Prepared(prepared)) => match prepared {
            Err(error) => after == (Lifecycle {
                step: LifeStep::CleanUnprepared,
                preparation_error: Some(error),
                ..before
            }),
            Ok(_) => {
                &&& stage_reported(before, prepared, Seq::empty(), after)
                &&& after == (Lifecycle {
                    step: LifeStep::Execute,
                    timer: after.timer,
                    stages: after.stages,
                    ..before
                })
            },
        },
        (LifeStep::CleanUnprepared, LifeEvent::Cleaned(cleaned, _)) => after == (Lifecycle {
            step: LifeStep::Conclude,
            cleanup: Some(cleaned),
            ..before
        }),
        (LifeStep::Execute, LifeEvent::Executed(executed)) => {
            &&& stage_reported(before, executed, Seq::empty(), after)
            &&& after == (Lifecycle {
                step: LifeStep::Clean,
                timer: after.timer,
                stages: after.stages,
                execution: Some(executed),
                ..before
            })
        },
        (LifeStep::Clean, LifeEvent::Cleaned(cleaned, warnings)) => {
            &&& stage_reported(before, cleaned, warnings@, after)
            &&& after == (Lifecycle {
                step: LifeStep::Conclude,
                timer: after.timer,
                stages: after.stages,
                cleanup: Some(cleaned),
                ..before
            })
        },
        _ => after == before,
    }
}

fn error_of<T>(result: &SandboxResult<T>) -> (error: Option<&SandboxError>)
    ensures
        match (*result, error) {
            (Ok(_), None) => true,
            (Err(left), Some(right)) => left == *right,
            _ => false,
        },
{
    match result {
        Ok(_) => None,
        Err(error) => Some(error),
    }
}

impl Lifecycle {
    /// Begins the life of a request that Hyper-V can take.
    pub fn start_with_request(request: &SandboxRequest) -> (started: SandboxResult<Lifecycle>)
        ensures
            match (request.backend_verdict(BackendKind::HyperV), started) {
                (Err(fault), Err(error)) => error@ == fault,
                (Ok(_), Ok(life)) => {
                    &&& life.consistent()
                    &&& life.step == LifeStep::Prepare
                    &&& life.timer.stage@ == "preparation"@
                    &&& life.preparation_error is None
                    &&& life.execution is None
                    &&& life.cleanup is None
                    &&& life.stages@.len() == 1
                    &&& life.stages@[0].stage@ == "request_validation"@
                    &&& life.stages@[0].well_timed()
                    &&& life.stages@[0].success
                    &&& life.stages@[0].warnings@.len() == 0
                    &&& life.stages@[0].errors@.len() == 0
                },
                _ => false,
            },
    {
        let timer = StageTimer::start("request_validation");
        match request.validate_for_backend(BackendKind::HyperV) {
            Err(error) => {
                return Err(error);
            },
            Ok(_) => {},
        }
        let validated = report_outcome(timer, Vec::new(), None);
        proof {
            assert(text::views(validated.errors@).len() == validated.errors@.len());
        }
        let mut stages: Vec<ReportStage> = Vec::new();
        stages.push(validated);
        Ok(
            Lifecycle {
                step: LifeStep::Prepare,
                timer: StageTimer::start("preparation"),
                stages,
                preparation_error: None,
                execution: None,
                cleanup: None,
            },
        )
    }

    fn report<T>(&mut self, result: &SandboxResult<T>, warnings: Vec<String>, next: &str)
        ensures
            stage_reported(*old(self), *result, warnings@, *final(self)),
            final(self).timer.stage@ == next@,
            *final(self) == (Lifecycle {
                timer: final(self).timer,
                stages: final(self).stages,
                ..*old(self)
            }),
    {
        let ghost before = self.stages@;
        let mut timer = StageTimer::start(next);
        std::mem::swap(&mut timer, &mut self.timer);
        let stage = report_outcome(timer, warnings, error_of(result));
        self.stages.push(stage);
        self.timer = StageTimer::start(next);
        proof {
            assert(self.stages@ =~= before.push(stage));
            assert(text::views(stage.errors@) =~= error_texts(*result));
        }
    }

    /// Takes what came of the step.
    pub fn advance(&mut self, event: LifeEvent)
        requires
            old(self).consistent(),
        ensures
            lived(*old(self), event, *final(self)),
            final(self).consistent(),
    {
        match (self.step, event) {
            (LifeStep::Prepare, LifeEvent::Prepared(prepared)) => {
                if prepared.is_ok() {
                    self.report(&prepared, Vec::new(), "execution");
                    self.step = LifeStep::Execute;
                } else {
                    match prepared {
                        Err(error) => {
                            self.preparation_error = Some(error);
                            self.step = LifeStep::CleanUnprepared;
                        },
                        Ok(_) => {},
                    }
                }
            },
            (LifeStep::CleanUnprepared, LifeEvent::Cleaned(cleaned, _)) => {
                self.cleanup = Some(cleaned);
                self.step = LifeStep::Conclude;
            },
            (LifeStep::Execute, LifeEvent::Executed(executed)) => {
                self.report(&executed, Vec::new(), "cleanup");
                self.execution = Some(executed);
                self.step = LifeStep::Clean;
            },
            (LifeStep::Clean, LifeEvent::Cleaned(cleaned, warnings)) => {
                self.report(&cleaned, warnings, "conclusion");
                self.cleanup = Some(cleaned);
                self.step = LifeStep::Conclude;
            },
            _ => {},
        }
    }

    /// The report of a life that is over, or the errors that came up in it.
    pub fn conclude(self, machine: HyperVBackend, request: &SandboxRequest) -> (run: SandboxResult<
        HyperVSandboxRun,
    >)
        requires
            self.consistent(),
            self.step == LifeStep::Conclude,
        ensures
            match (self.preparation_error, self.execution, self.cleanup) {
                (Some(first), _, Some(cleanup)) => run matches Err(error) && error@
                    == crate::hyperv::backend::preparation_fault(
                    first@,
                    match cleanup {
                        Err(second) => Some(second@),
                        Ok(_) => None,
                    },
                ),
                (None, Some(execution), Some(cleanup)) => machine.concluded(
                    request,
                    execution,
                    cleanup,
                    self.stages@,
                    run,
                ),
                _ => false,
            },
    {
        match (self.preparation_error, self.execution, self.cleanup) {
            (Some(first), _, Some(cleanup)) => {
                let second = match cleanup {
                    Err(error) => Some(error),
                    Ok(_) => None,
                };
                Err(preparation_failure(first, second))
            },
            (None, Some(execution), Some(cleanup)) => machine.conclude(
                request,
                execution,
                cleanup,
                self.stages,
            ),
            _ => Err(SandboxError::new("hyperv_result", "the run is not over")),
        }
    }
}

// ---------------------------------------------------------------------------------------------
// Laws
// ---------------------------------------------------------------------------------------------

/// No life is over before what its preparation and execution left was cleaned up, be it that they
/// failed.
pub proof fn every_run_is_cleaned_up(life: Lifecycle)
    requires
        life.consistent(),
        life.step == LifeStep::Conclude,
    ensures
        life.cleanup is Some,
{
}

/// Nothing is executed whose preparation failed, and an execution is always cleaned up after before
/// the life is over.
pub proof fn executions_come_between_preparation_and_cleanup(
    before: Lifecycle,
    event: LifeEvent,
    after: Lifecycle,
)
    requires
        before.consistent(),
        lived(before, event, after),
    ensures
        after.step == LifeStep::Execute && before.step != LifeStep::Execute ==> (event matches
            LifeEvent::Prepared(prepared) && prepared is Ok),
        before.step == LifeStep::Execute ==> after.step == LifeStep::Execute || after.step
            == LifeStep::Clean,
        before.step == LifeStep::Clean ==> after.step == LifeStep::Clean || (after.step
            == LifeStep::Conclude && after.cleanup is Some),
{
}

/// A life goes on to execution only from a preparation that succeeded, to cleanup from every other one
/// and from every execution, and to its conclusion from cleanup alone; what each of them gave is kept
/// for the conclusion, and each stage is reported under its own name.
pub proof fn lives_go_in_order(before: Lifecycle, event: LifeEvent, after: Lifecycle)
    requires
        before.consistent(),
        lived(before, event, after),
    ensures
        before.step == LifeStep::Prepare && event is Prepared ==> {
            &&& event->Prepared_0 is Ok ==> after.step == LifeStep::Execute && after.stages@.len() == 2
                && after.stages@[1].stage@ == "preparation"@ && after.stages@[1].success
            &&& event->Prepared_0 is Err ==> after.step == LifeStep::CleanUnprepared
                && after.preparation_error == Some(event->Prepared_0->Err_0)
        },
        before.step == LifeStep::Execute && event is Executed ==> {
            &&& after.step == LifeStep::Clean
            &&& after.execution == Some(event->Executed_0)
            &&& after.stages@.len() == 3 && after.stages@[2].stage@ == "execution"@
            &&& after.stages@[2].success <==> event->Executed_0 is Ok
        },
        (before.step == LifeStep::Clean || before.step == LifeStep::CleanUnprepared) && event
            is Cleaned ==> after.step == LifeStep::Conclude && after.cleanup == Some(
            event->Cleaned_0,
        ) && after.execution == before.execution,
        before.step == LifeStep::Clean && event is Cleaned ==> {
            &&& after.stages@.len() == 4 && after.stages@[3].stage@ == "cleanup"@
            &&& after.stages@[3].success <==> event->Cleaned_0 is Ok
            &&& after.stages@[3].warnings@ == event->Cleaned_1@
        },
{
    match event {
        LifeEvent::Prepared(prepared) => {
            if before.step == LifeStep::Prepare && prepared is Ok {
                assert(after.stages@.last() == after.stages@[1]);
            }
        },
        LifeEvent::Executed(_) => {
            if before.step == LifeStep::Execute {
                assert(after.stages@.last() == after.stages@[2]);
            }
        },
        LifeEvent::Cleaned(_, _) => {
            if before.step == LifeStep::Clean {
                assert(after.stages@.last() == after.stages@[3]);
            }
        },
    }
}

} // verus!
