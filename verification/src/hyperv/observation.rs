//! Watching a machine until it switches itself off, breaks a rule or runs out of time.

use vstd::prelude::*;

use crate::backend;
use crate::backend::{SandboxError, SandboxResult};
use crate::hyperv::runtime;
use crate::hyperv::runtime::{
    interrupted_run, observe_status, DiskQuotaBreach, HostVmObservations, ObservationsView,
    VmCompletion,
};
use crate::hyperv::vm;
use crate::hyperv::vm::{VmHandle, VmStatus};
use crate::text;

verus! {

/// What is to be done next.
#[derive(Clone, Copy, Debug, PartialEq, Eq, Structural)]
pub enum ObservationStep {
    /// Look whether the user asked for the run to end.
    LookForInterrupt,
    /// Query the state of the machine.
    QueryVm,
    /// Hold the lengths of both disks against their quota.
    MeasureDisks,
    /// Look whether the time of the machine is over.
    ReadClock,
    Done,
}

/// What came of a step.
#[derive(Debug)]
pub enum ObservationEvent {
    Interrupted(bool),
    Status(SandboxResult<VmStatus>),
    Measured(SandboxResult<Option<DiskQuotaBreach>>),
    Clock(bool),
}

/// The watch over a machine.
pub struct VmObservation {
    pub step: ObservationStep,
    pub machine: VmHandle,
    pub maximum_memory_bytes: u64,
    pub observations: HostVmObservations,
    /// The states that were reported and kept to the policy.
    pub seen: Ghost<Seq<VmStatus>>,
    pub outcome: Option<SandboxResult<VmCompletion>>,
}

/// What is observed by a sequence of reported states.
pub open spec fn observed_by(seen: Seq<VmStatus>) -> ObservationsView
    decreases seen.len(),
{
    if seen.len() == 0 {
        runtime::no_observations()
    } else {
        observed_by(seen.drop_last()).with(&seen.last())
    }
}

impl VmObservation {
    /// The state is one of the watched machine that keeps to the policy.
    pub open spec fn admits(&self, status: VmStatus) -> bool {
        runtime::keeps_policy(&self.machine, &status, self.maximum_memory_bytes)
    }

    /// Every state that was reported kept to the policy, and the last one was of this kind.
    pub open spec fn last_seen(&self, off: bool) -> bool {
        &&& self.seen@.len() > 0
        &&& vm::is_off(self.seen@.last().state@) == off
    }

    pub open spec fn lawful(&self) -> bool {
        forall|i: int| 0 <= i < self.seen@.len() ==> self.admits(#[trigger] self.seen@[i])
    }

    pub open spec fn consistent(&self) -> bool {
        &&& self.lawful()
        &&& match self.step {
            ObservationStep::Done => match self.outcome {
                None => false,
                Some(Err(_)) => true,
                Some(Ok(completion)) => {
                    &&& runtime::observations_of(completion)@ == observed_by(self.seen@)
                    &&& self.last_seen(completion is PoweredOff)
                },
            },
            ObservationStep::LookForInterrupt | ObservationStep::QueryVm => {
                &&& self.outcome is None
                &&& self.observations@ == observed_by(self.seen@)
            },
            ObservationStep::MeasureDisks | ObservationStep::ReadClock => {
                &&& self.outcome is None
                &&& self.observations@ == observed_by(self.seen@)
                &&& self.last_seen(false)
            },
        }
    }
}

/// The watch ended with an error.
pub open spec fn broken_off(fault: backend::Fault, after: VmObservation) -> bool {
    &&& after.step == ObservationStep::Done
    &&& after.outcome matches Some(Err(error)) && error@ == fault
}

/// The watch ended, with all that was observed.
pub open spec fn ended_with(
    seen: Seq<VmStatus>,
    completion: VmCompletion,
    after: VmObservation,
) -> bool {
    &&& after.step == ObservationStep::Done
    &&& after.seen@ == seen
    &&& runtime::observations_of(completion)@ == observed_by(seen)
    &&& after.outcome == Some(Ok::<VmCompletion, SandboxError>(completion))
}

pub open spec fn status_reported(
    before: VmObservation,
    reported: SandboxResult<VmStatus>,
    after: VmObservation,
) -> bool {
    match reported {
        Err(error) => broken_off(error@, after),
        Ok(status) => match runtime::status_value(
            &before.machine,
            &status,
            before.maximum_memory_bytes,
        ) {
            Err(fault) => broken_off(fault, after),
            Ok(true) => after.outcome matches Some(Ok(completion)) && completion is PoweredOff
                && ended_with(before.seen@.push(status), completion, after),
            Ok(false) => {
                &&& after.seen@ == before.seen@.push(status)
                &&& after.observations@ == before.observations@.with(&status)
                &&& after == (VmObservation {
                    step: ObservationStep::MeasureDisks,
                    observations: after.observations,
                    seen: after.seen,
                    ..before
                })
            },
        },
    }
}

/// What one event makes of the watch. An event that is no answer to the step changes nothing.
pub open spec fn observed(
    before: VmObservation,
    event: ObservationEvent,
    after: VmObservation,
) -> bool {
    match (before.step, event) {
        (ObservationStep::LookForInterrupt, ObservationEvent::Interrupted(interrupted)) => {
            if interrupted {
                broken_off(
                    runtime::runtime_fault("sandbox run interrupted; cleanup will now run"@),
                    after,
                )
            } else {
                after == (VmObservation { step: ObservationStep::QueryVm, ..before })
            }
        },
        (ObservationStep::QueryVm, ObservationEvent::Status(reported)) => status_reported(
            before,
            reported,
            after,
        ),
        (ObservationStep::MeasureDisks, ObservationEvent::Measured(measured)) => match measured {
            Err(error) => broken_off(error@, after),
            Ok(Some(breach)) => ended_with(
                before.seen@,
                VmCompletion::DiskQuotaExceeded {
                    observed_bytes: breach.observed_bytes,
                    maximum_bytes: breach.maximum_bytes,
                    observations: before.observations,
                },
                after,
            ),
            Ok(None) => after == (VmObservation { step: ObservationStep::ReadClock, ..before }),
        },
        (ObservationStep::ReadClock, ObservationEvent::Clock(over)) => if over {
            ended_with(
                before.seen@,
                VmCompletion::TimedOut(before.observations),
                after,
            )
        } else {
            after == (VmObservation { step: ObservationStep::LookForInterrupt, ..before })
        },
        _ => after == before,
    }
}

impl VmObservation {
    /// Begins the watch over a machine that may be assigned so much memory.
    pub fn observe_vm_completion(machine: &VmHandle, maximum_memory_bytes: u64) -> (watch:
        VmObservation)
        ensures
            watch.consistent(),
            watch.step == ObservationStep::LookForInterrupt,
            watch.machine.copies(machine),
            watch.maximum_memory_bytes == maximum_memory_bytes,
            watch.observations@ == runtime::no_observations(),
            watch.seen@.len() == 0,
            watch.outcome is None,
    {
        VmObservation {
            step: ObservationStep::LookForInterrupt,
            machine: machine.duplicate(),
            maximum_memory_bytes,
            observations: HostVmObservations::default(),
            seen: Ghost(Seq::empty()),
            outcome: None,
        }
    }

    fn end(&mut self, error: SandboxError)
        requires
            old(self).lawful(),
        ensures
            broken_off(error@, *final(self)),
            final(self).consistent(),
    {
        self.step = ObservationStep::Done;
        self.outcome = Some(Err(error));
    }

    /// Takes out what was observed.
    fn take_observations(&mut self) -> (observations: HostVmObservations)
        ensures
            observations == old(self).observations,
            *final(self) == (VmObservation {
                observations: final(self).observations,
                ..*old(self)
            }),
    {
        let mut observations = HostVmObservations::default();
        std::mem::swap(&mut observations, &mut self.observations);
        observations
    }

    fn take_status(&mut self, reported: SandboxResult<VmStatus>)
        requires
            old(self).consistent(),
            old(self).step == ObservationStep::QueryVm,
        ensures
            status_reported(*old(self), reported, *final(self)),
            final(self).consistent(),
    {
        let status = match reported {
            Err(error) => {
                self.end(error);
                return;
            },
            Ok(status) => status,
        };
        let ghost before = *self;
        let off = observe_status(
            &self.machine,
            &status,
            self.maximum_memory_bytes,
            &mut self.observations,
        );
        match off {
            Err(error) => self.end(error),
            Ok(off) => {
                let ghost seen = before.seen@.push(status);
                self.seen = Ghost(seen);
                proof {
                    assert(seen.drop_last() =~= before.seen@);
                    assert(observed_by(seen) == observed_by(before.seen@).with(&status));
                    assert forall|i: int| 0 <= i < seen.len() implies self.admits(
                        #[trigger] seen[i],
                    ) by {
                        if i < before.seen@.len() {
                            assert(seen[i] == before.seen@[i]);
                            assert(before.admits(before.seen@[i]));
                        }
                    }
                }
                if off {
                    let observations = self.take_observations();
                    self.step = ObservationStep::Done;
                    self.outcome = Some(Ok(VmCompletion::PoweredOff(observations)));
                } else {
                    self.step = ObservationStep::MeasureDisks;
                }
            },
        }
    }

    /// Takes what came of the step.
    pub fn advance(&mut self, event: ObservationEvent)
        requires
            old(self).consistent(),
        ensures
            observed(*old(self), event, *final(self)),
            final(self).consistent(),
    {
        match (self.step, event) {
            (ObservationStep::LookForInterrupt, ObservationEvent::Interrupted(interrupted)) => {
                if interrupted {
                    self.end(interrupted_run());
                } else {
                    self.step = ObservationStep::QueryVm;
                }
            },
            (ObservationStep::QueryVm, ObservationEvent::Status(reported)) => {
                self.take_status(reported);
            },
            (ObservationStep::MeasureDisks, ObservationEvent::Measured(measured)) => match measured {
                Err(error) => self.end(error),
                Ok(Some(breach)) => {
                    let observations = self.take_observations();
                    self.step = ObservationStep::Done;
                    self.outcome = Some(
                        Ok(
                            VmCompletion::DiskQuotaExceeded {
                                observed_bytes: breach.observed_bytes,
                                maximum_bytes: breach.maximum_bytes,
                                observations,
                            },
                        ),
                    );
                },
                Ok(None) => {
                    self.step = ObservationStep::ReadClock;
                },
            },
            (ObservationStep::ReadClock, ObservationEvent::Clock(over)) => {
                if over {
                    let observations = self.take_observations();
                    self.step = ObservationStep::Done;
                    self.outcome = Some(Ok(VmCompletion::TimedOut(observations)));
                } else {
                    self.step = ObservationStep::LookForInterrupt;
                }
            },
            _ => {},
        }
    }
}

// ---------------------------------------------------------------------------------------------
// Laws
// ---------------------------------------------------------------------------------------------

/// A run counts as ended by its machine only where the host reported that very machine as switched
/// off, and every state that was reported before kept to the policy of the run.
pub proof fn only_machines_that_are_off_completed(
    watch: VmObservation,
    observations: HostVmObservations,
)
    requires
        watch.consistent(),
        watch.outcome == Some(
            Ok::<VmCompletion, SandboxError>(VmCompletion::PoweredOff(observations)),
        ),
    ensures
        watch.seen@.len() > 0,
        vm::is_off(watch.seen@.last().state@),
        forall|i: int|
            0 <= i < watch.seen@.len() ==> runtime::keeps_policy(
                &watch.machine,
                &#[trigger] watch.seen@[i],
                watch.maximum_memory_bytes,
            ),
        observations@ == observed_by(watch.seen@),
{
    assert forall|i: int| 0 <= i < watch.seen@.len() implies runtime::keeps_policy(
        &watch.machine,
        &#[trigger] watch.seen@[i],
        watch.maximum_memory_bytes,
    ) by {
        assert(watch.admits(watch.seen@[i]));
    }
}

/// How a watch goes on: it ends with an error where the user interrupts it, where the host cannot
/// tell the state or the lengths of the disks; with a breach where one was measured; by timeout
/// where the clock says so; otherwise the next look is taken, with nothing forgotten.
pub proof fn watches_end_for_their_own_reasons(
    before: VmObservation,
    event: ObservationEvent,
    after: VmObservation,
)
    requires
        before.consistent(),
        observed(before, event, after),
    ensures
        before.step == ObservationStep::LookForInterrupt ==> {
            &&& event == ObservationEvent::Interrupted(true) ==> (after.outcome matches Some(
                Err(error),
            ) && error@.stage == "hyperv_runtime"@)
            &&& event == ObservationEvent::Interrupted(false) ==> after.step
                == ObservationStep::QueryVm
        },
        before.step == ObservationStep::QueryVm ==> {
            &&& event matches ObservationEvent::Status(Err(error)) ==> (after.outcome matches Some(
                Err(given),
            ) && given@ == error@)
            &&& event matches ObservationEvent::Status(Ok(status)) ==> {
                let sound = runtime::keeps_policy(
                    &before.machine,
                    &status,
                    before.maximum_memory_bytes,
                );
                let off = text::spells(status.state@, "off"@);
                let live = text::spells(status.state@, "running"@) || text::spells(
                    status.state@,
                    "starting"@,
                ) || text::spells(status.state@, "stopping"@) || text::spells(
                    status.state@,
                    "forceshutdown"@,
                );
                &&& after.step == ObservationStep::MeasureDisks <==> sound && live
                &&& (after.outcome matches Some(Ok(VmCompletion::PoweredOff(_)))) <==> sound && off
                &&& sound && (off || live) ==> after.seen@ == before.seen@.push(status)
            }
        },
        before.step == ObservationStep::MeasureDisks ==> {
            &&& event matches ObservationEvent::Measured(Err(error)) ==> (after.outcome matches Some(
                Err(given),
            ) && given@ == error@)
            &&& event matches ObservationEvent::Measured(Ok(Some(breach))) ==> (
            after.outcome matches Some(
                Ok(VmCompletion::DiskQuotaExceeded { observed_bytes, maximum_bytes, .. }),
            ) && observed_bytes == breach.observed_bytes && maximum_bytes == breach.maximum_bytes)
            &&& event == ObservationEvent::Measured(Ok(None)) ==> after.step
                == ObservationStep::ReadClock && after.outcome is None
        },
        before.step == ObservationStep::ReadClock ==> {
            &&& event == ObservationEvent::Clock(true) ==> (after.outcome matches Some(
                Ok(VmCompletion::TimedOut(_)),
            ))
            &&& event == ObservationEvent::Clock(false) ==> after.step
                == ObservationStep::LookForInterrupt && after.outcome is None
        },
        after.step != ObservationStep::Done ==> after.machine == before.machine
            && after.maximum_memory_bytes == before.maximum_memory_bytes,
        before.step == ObservationStep::Done ==> after == before,
{
    match event {
        ObservationEvent::Status(Ok(status)) => {
            runtime::sound_machines_are_watched_until_they_are_off(
                &before.machine,
                &status,
                before.maximum_memory_bytes,
            );
            lemma_off_is_not_live(status.state@);
        },
        _ => {},
    }
}

proof fn lemma_off_is_not_live(state: Seq<char>)
    ensures
        text::spells(state, "off"@) ==> !text::spells(state, "running"@) && !text::spells(
            state,
            "starting"@,
        ) && !text::spells(state, "stopping"@) && !text::spells(state, "forceshutdown"@),
{
    reveal_strlit("off");
    reveal_strlit("running");
    reveal_strlit("starting");
    reveal_strlit("stopping");
    reveal_strlit("forceshutdown");
    assert("off"@.len() == 3);
}

} // verus!
