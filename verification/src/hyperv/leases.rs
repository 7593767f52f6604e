//! Leases of guest addresses: one file for each, made for the first address of the pool that is
//! free, and removed only while it still names its run.

use vstd::prelude::*;

use crate::backend;
use crate::backend::{SandboxError, SandboxResult};
use crate::host_path::HostPath;
use crate::hyperv::guest_protocol::FileFacts;
use crate::hyperv::network;
use crate::hyperv::network::{
    check_allocation_directory, check_lease_file, check_lease_owner, lease_for, pool_exhausted,
    AddressSearch, GuestAddressLease, LeaseAttempt,
};
use crate::net::Ipv4Addr;

verus! {

// ---------------------------------------------------------------------------------------------
// Allocation
// ---------------------------------------------------------------------------------------------

/// What is to be done next.
#[derive(Clone, Copy, Debug, PartialEq, Eq, Structural)]
pub enum AllocationStep {
    /// Restore owner-only access to the directory.
    Protect,
    /// Hold the directory, so that it cannot be replaced.
    Pin,
    /// Look at the directory without following a link.
    Inspect,
    /// Create the file of the lease, which must not exist.
    Reserve,
    /// Write the lease as JSON text.
    Serialize,
    /// Write the text to the file and wait until it is on the disk.
    Store,
    Done,
}

/// What the file system says of the directory of the leases.
#[derive(Clone, Copy, Debug, PartialEq, Eq, Structural)]
pub struct DirectoryFacts {
    pub directory: bool,
    pub link: bool,
}

/// What became of the attempt to create the file of a lease.
#[derive(Clone, Debug, PartialEq, Eq)]
pub enum Reservation {
    Created,
    Taken,
    Failed(String),
}

/// What came of a step.
#[derive(Debug)]
pub enum AllocationEvent {
    Settled(Result<(), String>),
    Inspected(Result<DirectoryFacts, String>),
    Reserved(Reservation),
}

/// The allocation of an address of a pool.
pub struct LeaseAllocation {
    pub step: AllocationStep,
    pub directory: HostPath,
    pub run_id: String,
    pub start: Ipv4Addr,
    pub search: AddressSearch,
    /// The lease that is being made.
    pub lease: Option<GuestAddressLease>,
    /// The addresses that other runs were found to have.
    pub taken: Ghost<Set<u32>>,
    /// The file of the lease is to be removed.
    pub discard: bool,
    pub outcome: Option<SandboxResult<GuestAddressLease>>,
}

pub open spec fn allocation_fault(message: Seq<char>, source: Seq<char>) -> backend::Fault {
    backend::fault_from("hyperv_network_allocation"@, message, source)
}

pub open spec fn exhausted_fault() -> backend::Fault {
    backend::fault(
        "hyperv_network_allocation"@,
        "no unallocated guest IPv4 address remains in the configured pool"@,
    )
}

fn allocation_error(message: &str, source: &str) -> (error: SandboxError)
    ensures
        error@ == allocation_fault(message@, source@),
{
    SandboxError::with_source("hyperv_network_allocation", message, source)
}

impl LeaseAllocation {
    /// The lease is that of the run for an address of the pool, and every lower address of the pool
    /// was found to be another run's.
    pub open spec fn first_free(&self, lease: GuestAddressLease) -> bool {
        &&& self.start.bits <= lease.address.bits <= self.search.end
        &&& lease.run_id@ == self.run_id@
        &&& lease.path.extends(&self.directory, network::lease_name(lease.address.bits))
        &&& forall|lower: u32|
            self.start.bits <= lower < lease.address.bits ==> #[trigger] self.taken@.contains(lower)
    }

    pub open spec fn searching(&self) -> bool {
        &&& self.start.bits <= self.search.next
        &&& forall|lower: u32|
            self.start.bits <= lower < self.search.next ==> #[trigger] self.taken@.contains(lower)
    }

    pub open spec fn consistent(&self) -> bool {
        match self.step {
            AllocationStep::Done => self.outcome matches Some(outcome) && (outcome matches Ok(lease)
                ==> self.first_free(lease) && !self.discard),
            AllocationStep::Reserve | AllocationStep::Serialize | AllocationStep::Store => {
                &&& self.outcome is None
                &&& !self.discard
                &&& self.searching()
                &&& self.lease matches Some(lease) && self.first_free(lease) && lease.address.bits
                    == self.search.next
            },
            _ => {
                &&& self.outcome is None
                &&& !self.discard
                &&& self.searching()
            },
        }
    }
}

/// The allocation ended with an error.
pub open spec fn unallocated(fault: backend::Fault, discard: bool, after: LeaseAllocation) -> bool {
    &&& after.step == AllocationStep::Done
    &&& after.discard == discard
    &&& after.outcome matches Some(Err(error)) && error@ == fault
}

pub open spec fn allocation_settled(
    before: LeaseAllocation,
    outcome: Result<(), String>,
    message: Seq<char>,
    step: AllocationStep,
    after: LeaseAllocation,
) -> bool {
    match outcome {
        Err(source) => unallocated(allocation_fault(message, source@), false, after),
        Ok(_) => after == (LeaseAllocation { step, ..before }),
    }
}

/// The next address is tried, or none is left.
pub open spec fn offered(
    before: LeaseAllocation,
    next: int,
    taken: Set<u32>,
    after: LeaseAllocation,
) -> bool {
    if next > before.search.end {
        unallocated(exhausted_fault(), false, after)
    } else {
        &&& after.lease matches Some(lease) && lease.address.bits == next
        &&& after.search.next == next
        &&& after.search.end == before.search.end
        &&& after.taken@ == taken
        &&& after == (LeaseAllocation {
            step: AllocationStep::Reserve,
            search: after.search,
            lease: after.lease,
            taken: after.taken,
            ..before
        })
    }
}

/// What one event makes of the allocation. An event that is no answer to the step changes nothing.
pub open spec fn allocated(
    before: LeaseAllocation,
    event: AllocationEvent,
    after: LeaseAllocation,
) -> bool {
    match (before.step, event) {
        (AllocationStep::Protect, AllocationEvent::Settled(settled)) => allocation_settled(
            before,
            settled,
            "protect the guest allocation directory ACL"@,
            AllocationStep::Pin,
            after,
        ),
        (AllocationStep::Pin, AllocationEvent::Settled(settled)) => allocation_settled(
            before,
            settled,
            "pin the guest allocation directory against replacement"@,
            AllocationStep::Inspect,
            after,
        ),
        (AllocationStep::Inspect, AllocationEvent::Inspected(inspected)) => match inspected {
            Err(source) => unallocated(
                allocation_fault("inspect the pre-created guest allocation directory"@, source@),
                false,
                after,
            ),
            Ok(facts) => match network::allocation_directory_verdict(
                before.directory,
                facts.directory,
                facts.link,
            ) {
                Err(fault) => unallocated(fault, false, after),
                Ok(_) => offered(before, before.search.next as int, before.taken@, after),
            },
        },
        (AllocationStep::Reserve, AllocationEvent::Reserved(reservation)) => match reservation {
            Reservation::Created => after == (LeaseAllocation {
                step: AllocationStep::Serialize,
                ..before
            }),
            Reservation::Taken => offered(
                before,
                before.search.next + 1,
                before.taken@.insert(before.search.next as u32),
                after,
            ),
            Reservation::Failed(source) => unallocated(
                allocation_fault("reserve a unique guest address"@, source@),
                false,
                after,
            ),
        },
        (AllocationStep::Serialize, AllocationEvent::Settled(settled)) => allocation_settled(
            before,
            settled,
            "serialize guest lease"@,
            AllocationStep::Store,
            after,
        ),
        (AllocationStep::Store, AllocationEvent::Settled(settled)) => match settled {
            Err(source) => unallocated(
                allocation_fault("durably reserve guest address"@, source@),
                true,
                after,
            ),
            Ok(_) => before.lease matches Some(lease) && after == (LeaseAllocation {
                step: AllocationStep::Done,
                lease: None,
                outcome: Some(Ok(lease)),
                ..before
            }),
        },
        _ => after == before,
    }
}

impl LeaseAllocation {
    /// Begins the allocation of an address from `start` to `end` for a run.
    pub fn allocate_guest_address(
        directory: &HostPath,
        start: Ipv4Addr,
        end: Ipv4Addr,
        run_id: &str,
    ) -> (run: LeaseAllocation)
        ensures
            run.consistent(),
            run.step == AllocationStep::Protect,
            run.directory.copies(directory),
            run.run_id@ == run_id@,
            run.start == start,
            run.search.next == start.bits,
            run.search.end == end.bits,
            run.taken@ == Set::<u32>::empty(),
            run.lease is None,
            !run.discard,
            run.outcome is None,
    {
        LeaseAllocation {
            step: AllocationStep::Protect,
            directory: directory.duplicate(),
            run_id: run_id.to_owned(),
            start,
            search: AddressSearch::new(start, end),
            lease: None,
            taken: Ghost(Set::empty()),
            discard: false,
            outcome: None,
        }
    }

    fn end(&mut self, error: SandboxError, discard: bool)
        ensures
            unallocated(error@, discard, *final(self)),
            final(self).consistent(),
    {
        self.step = AllocationStep::Done;
        self.discard = discard;
        self.outcome = Some(Err(error));
    }

    fn settle(&mut self, outcome: Result<(), String>, message: &str, step: AllocationStep)
        requires
            outcome is Ok ==> (LeaseAllocation { step, ..*old(self) }).consistent(),
        ensures
            allocation_settled(*old(self), outcome, message@, step, *final(self)),
            final(self).consistent(),
    {
        match outcome {
            Err(source) => self.end(allocation_error(message, source.as_str()), false),
            Ok(_) => {
                self.step = step;
            },
        }
    }

    fn offer(&mut self)
        requires
            old(self).searching(),
            old(self).outcome is None,
            !old(self).discard,
        ensures
            offered(*old(self), old(self).search.next as int, old(self).taken@, *final(self)),
            final(self).consistent(),
    {
        match self.search.candidate() {
            None => {
                proof {
                    if self.search.next <= self.search.end {
                        assert(self.search.pending().contains(self.search.next as int));
                    }
                }
                self.end(pool_exhausted(), false);
            },
            Some(address) => {
                self.lease = Some(lease_for(&self.directory, address, self.run_id.as_str()));
                self.step = AllocationStep::Reserve;
            },
        }
    }

    /// Passes over the address that is being tried.
    fn pass_over(&mut self)
        requires
            old(self).consistent(),
            old(self).step == AllocationStep::Reserve,
        ensures
            offered(
                *old(self),
                old(self).search.next + 1,
                old(self).taken@.insert(old(self).search.next as u32),
                *final(self),
            ),
            final(self).consistent(),
    {
        match self.search.candidate() {
            None => {
                proof {
                    assert(self.search.pending().contains(self.search.next as int));
                }
            },
            Some(address) => {
                let ghost before = self.taken@;
                let ghost tried = self.search.next as u32;
                let _ = self.search.advance(address, LeaseAttempt::Taken);
                self.taken = Ghost(before.insert(tried));
                self.offer();
            },
        }
    }

    /// Takes what came of the step.
    pub fn advance(&mut self, event: AllocationEvent)
        requires
            old(self).consistent(),
        ensures
            allocated(*old(self), event, *final(self)),
            final(self).consistent(),
    {
        match (self.step, event) {
            (AllocationStep::Protect, AllocationEvent::Settled(settled)) => {
                self.settle(
                    settled,
                    "protect the guest allocation directory ACL",
                    AllocationStep::Pin,
                );
            },
            (AllocationStep::Pin, AllocationEvent::Settled(settled)) => {
                self.settle(
                    settled,
                    "pin the guest allocation directory against replacement",
                    AllocationStep::Inspect,
                );
            },
            (AllocationStep::Inspect, AllocationEvent::Inspected(inspected)) => match inspected {
                Err(source) => {
                    let error = allocation_error(
                        "inspect the pre-created guest allocation directory",
                        source.as_str(),
                    );
                    self.end(error, false);
                },
                Ok(facts) => match check_allocation_directory(
                    &self.directory,
                    facts.directory,
                    facts.link,
                ) {
                    Err(error) => self.end(error, false),
                    Ok(_) => self.offer(),
                },
            },
            (AllocationStep::Reserve, AllocationEvent::Reserved(reservation)) => match reservation {
                Reservation::Created => {
                    self.step = AllocationStep::Serialize;
                },
                Reservation::Taken => self.pass_over(),
                Reservation::Failed(source) => {
                    let error = allocation_error(
                        "reserve a unique guest address",
                        source.as_str(),
                    );
                    self.end(error, false);
                },
            },
            (AllocationStep::Serialize, AllocationEvent::Settled(settled)) => {
                self.settle(settled, "serialize guest lease", AllocationStep::Store);
            },
            (AllocationStep::Store, AllocationEvent::Settled(settled)) => match settled {
                Err(source) => {
                    let error = allocation_error("durably reserve guest address", source.as_str());
                    self.end(error, true);
                },
                Ok(_) => {
                    let mut made: Option<GuestAddressLease> = None;
                    std::mem::swap(&mut made, &mut self.lease);
                    match made {
                        Some(lease) => {
                            self.step = AllocationStep::Done;
                            self.outcome = Some(Ok(lease));
                        },
                        None => {},
                    }
                },
            },
            _ => {},
        }
    }
}

// ---------------------------------------------------------------------------------------------
// Release
// ---------------------------------------------------------------------------------------------

/// What is to be done next.
#[derive(Clone, Copy, Debug, PartialEq, Eq, Structural)]
pub enum ReleaseStep {
    /// Look at the file of the lease without following a link.
    Inspect,
    /// Open the file and read it.
    Read,
    /// Read the text as a lease.
    Decode,
    /// Remove the file.
    Remove,
    Done,
}

/// What came of a step.
#[derive(Debug)]
pub enum ReleaseEvent {
    Inspected(Result<FileFacts, String>),
    Settled(Result<(), String>),
    Decoded(Result<GuestAddressLease, String>),
}

/// The release of a lease.
pub struct LeaseRelease {
    pub step: ReleaseStep,
    pub lease: GuestAddressLease,
    /// What was found in the file.
    pub recorded: Ghost<Option<GuestAddressLease>>,
    pub outcome: Option<SandboxResult<()>>,
}

pub open spec fn release_fault(message: Seq<char>, source: Seq<char>) -> backend::Fault {
    backend::fault_from("hyperv_network_cleanup"@, message, source)
}

fn release_error(message: &str, source: &str) -> (error: SandboxError)
    ensures
        error@ == release_fault(message@, source@),
{
    SandboxError::with_source("hyperv_network_cleanup", message, source)
}

impl LeaseRelease {
    /// The file was found to hold the very lease.
    pub open spec fn owned(&self) -> bool {
        self.recorded@ matches Some(recorded) && recorded.same(&self.lease)
    }

    pub open spec fn consistent(&self) -> bool {
        if self.step == ReleaseStep::Done {
            self.outcome matches Some(outcome) && (outcome is Ok ==> self.owned())
        } else {
            &&& self.outcome is None
            &&& self.step == ReleaseStep::Remove ==> self.owned()
        }
    }
}

/// The release ended with an error.
pub open spec fn unreleased(fault: backend::Fault, after: LeaseRelease) -> bool {
    &&& after.step == ReleaseStep::Done
    &&& after.outcome matches Some(Err(error)) && error@ == fault
}

/// What one event makes of the release. An event that is no answer to the step changes nothing.
pub open spec fn released(before: LeaseRelease, event: ReleaseEvent, after: LeaseRelease) -> bool {
    match (before.step, event) {
        (ReleaseStep::Inspect, ReleaseEvent::Inspected(inspected)) => match inspected {
            Err(source) => unreleased(
                release_fault("inspect guest address lease"@, source@),
                after,
            ),
            Ok(facts) => match network::lease_file_verdict(facts) {
                Err(fault) => unreleased(fault, after),
                Ok(_) => after == (LeaseRelease { step: ReleaseStep::Read, ..before }),
            },
        },
        (ReleaseStep::Read, ReleaseEvent::Settled(read)) => match read {
            Err(source) => unreleased(release_fault("read guest address lease"@, source@), after),
            Ok(_) => after == (LeaseRelease { step: ReleaseStep::Decode, ..before }),
        },
        (ReleaseStep::Decode, ReleaseEvent::Decoded(decoded)) => match decoded {
            Err(source) => unreleased(release_fault("decode guest address lease"@, source@), after),
            Ok(recorded) => if recorded.same(&before.lease) {
                &&& after.recorded@ == Some(recorded)
                &&& after == (LeaseRelease {
                    step: ReleaseStep::Remove,
                    recorded: after.recorded,
                    ..before
                })
            } else {
                unreleased(
                    backend::fault(
                        "hyperv_network_cleanup"@,
                        "refusing to remove a guest lease whose ownership record changed"@,
                    ),
                    after,
                )
            },
        },
        (ReleaseStep::Remove, ReleaseEvent::Settled(removed)) => match removed {
            Err(source) => unreleased(release_fault("release guest address lease"@, source@), after),
            Ok(_) => after == (LeaseRelease {
                step: ReleaseStep::Done,
                outcome: Some(Ok(())),
                ..before
            }),
        },
        _ => after == before,
    }
}

impl LeaseRelease {
    /// Begins the release of a lease.
    pub fn release_guest_address(lease: GuestAddressLease) -> (run: LeaseRelease)
        ensures
            run.consistent(),
            run.step == ReleaseStep::Inspect,
            run.lease == lease,
    {
        LeaseRelease { step: ReleaseStep::Inspect, lease, recorded: Ghost(None), outcome: None }
    }

    fn end(&mut self, error: SandboxError)
        ensures
            unreleased(error@, *final(self)),
            final(self).consistent(),
    {
        self.step = ReleaseStep::Done;
        self.outcome = Some(Err(error));
    }

    /// Takes what came of the step.
    pub fn advance(&mut self, event: ReleaseEvent)
        requires
            old(self).consistent(),
        ensures
            released(*old(self), event, *final(self)),
            final(self).consistent(),
    {
        match (self.step, event) {
            (ReleaseStep::Inspect, ReleaseEvent::Inspected(inspected)) => match inspected {
                Err(source) => {
                    self.end(release_error("inspect guest address lease", source.as_str()));
                },
                Ok(facts) => match check_lease_file(&facts) {
                    Err(error) => self.end(error),
                    Ok(_) => {
                        self.step = ReleaseStep::Read;
                    },
                },
            },
            (ReleaseStep::Read, ReleaseEvent::Settled(read)) => match read {
                Err(source) => {
                    self.end(release_error("read guest address lease", source.as_str()));
                },
                Ok(_) => {
                    self.step = ReleaseStep::Decode;
                },
            },
            (ReleaseStep::Decode, ReleaseEvent::Decoded(decoded)) => match decoded {
                Err(source) => {
                    self.end(release_error("decode guest address lease", source.as_str()));
                },
                Ok(recorded) => match check_lease_owner(&recorded, &self.lease) {
                    Err(error) => self.end(error),
                    Ok(_) => {
                        self.recorded = Ghost(Some(recorded));
                        self.step = ReleaseStep::Remove;
                    },
                },
            },
            (ReleaseStep::Remove, ReleaseEvent::Settled(removed)) => match removed {
                Err(source) => {
                    self.end(release_error("release guest address lease", source.as_str()));
                },
                Ok(_) => {
                    self.step = ReleaseStep::Done;
                    self.outcome = Some(Ok(()));
                },
            },
            _ => {},
        }
    }
}

// ---------------------------------------------------------------------------------------------
// Laws
// ---------------------------------------------------------------------------------------------

/// An allocation gives the first address of the pool that no other run has, in the file that is
/// named after it.
pub proof fn allocations_give_the_first_free_address(
    run: LeaseAllocation,
    lease: GuestAddressLease,
)
    requires
        run.consistent(),
        run.outcome == Some(Ok::<GuestAddressLease, SandboxError>(lease)),
    ensures
        run.start.bits <= lease.address.bits <= run.search.end,
        forall|lower: u32|
            run.start.bits <= lower < lease.address.bits ==> #[trigger] run.taken@.contains(lower),
        lease.run_id@ == run.run_id@,
        lease.path.extends(&run.directory, network::lease_name(lease.address.bits)),
{
}

/// The file of a lease is removed only where it was found to hold that very lease.
pub proof fn only_own_leases_are_removed(run: LeaseRelease)
    requires
        run.consistent(),
        run.step == ReleaseStep::Remove,
    ensures
        run.recorded@ matches Some(recorded) && recorded.same(&run.lease),
{
}

/// How an address is allocated: the directory is protected, held and looked at, addresses are offered
/// one after the other until one is not taken, and its lease is written; the file of a lease that could
/// not be written is removed.
pub proof fn addresses_are_offered_in_turn(
    before: LeaseAllocation,
    event: AllocationEvent,
    after: LeaseAllocation,
)
    requires
        before.consistent(),
        allocated(before, event, after),
    ensures
        before.step == AllocationStep::Protect && event is Settled && event->Settled_0 is Ok ==> after.step
            == AllocationStep::Pin,
        before.step == AllocationStep::Pin && event is Settled && event->Settled_0 is Ok ==> after.step
            == AllocationStep::Inspect,
        before.step == AllocationStep::Inspect && event is Inspected ==> {
            let usable = before.directory.absolute && event->Inspected_0 is Ok
                && event->Inspected_0->Ok_0.directory
                && !event->Inspected_0->Ok_0.link;
            &&& after.step == AllocationStep::Reserve <==> usable && before.search.next
                <= before.search.end
            &&& after.step == AllocationStep::Reserve ==> after.lease is Some
                && after.lease->0.address.bits == before.search.next
            &&& after.step != AllocationStep::Reserve ==> after.outcome is Some && after.outcome->0
                is Err
        },
        before.step == AllocationStep::Reserve && event is Reserved ==> match event->Reserved_0 {
            Reservation::Created => after.step == AllocationStep::Serialize && after.lease
                == before.lease,
            Reservation::Taken => {
                &&& after.step == AllocationStep::Reserve <==> before.search.next + 1
                    <= before.search.end
                &&& after.step == AllocationStep::Reserve ==> after.lease is Some
                    && after.lease->0.address.bits == before.lease->0.address.bits + 1
                &&& after.step != AllocationStep::Reserve ==> after.outcome is Some
                    && after.outcome->0 is Err && after.outcome->0->Err_0@.message
                    == "no unallocated guest IPv4 address remains in the configured pool"@
            },
            Reservation::Failed(_) => after.outcome is Some && after.outcome->0 is Err
                && !after.discard,
        },
        before.step == AllocationStep::Serialize && event is Settled ==> {
            &&& event->Settled_0 is Ok ==> after.step == AllocationStep::Store
            &&& event->Settled_0 is Err ==> after.outcome is Some && after.outcome->0 is Err
                && !after.discard
        },
        before.step == AllocationStep::Store && event is Settled ==> {
            &&& event->Settled_0 is Ok ==> after.outcome == Some(
                Ok::<GuestAddressLease, SandboxError>(before.lease->0),
            ) && !after.discard
            &&& event->Settled_0 is Err ==> after.outcome is Some && after.outcome->0 is Err
                && after.discard
        },
{
}

/// How a lease is released: its file is looked at, read, decoded and removed, and the removal is what
/// releases it; a record of anything else than the lease itself is left where it is.
pub proof fn leases_are_released_in_order(before: LeaseRelease, event: ReleaseEvent, after: LeaseRelease)
    requires
        before.consistent(),
        released(before, event, after),
    ensures
        before.step == ReleaseStep::Inspect && event is Inspected ==> (after.step == ReleaseStep::Read
            <==> event->Inspected_0 is Ok && network::lease_file_verdict(event->Inspected_0->Ok_0) is Ok),
        before.step == ReleaseStep::Read && event is Settled ==> (after.step == ReleaseStep::Decode
            <==> event->Settled_0 is Ok),
        before.step == ReleaseStep::Decode && event is Decoded ==> (after.step == ReleaseStep::Remove
            <==> event->Decoded_0 is Ok && event->Decoded_0->Ok_0.same(&before.lease)),
        before.step == ReleaseStep::Remove && event is Settled ==> after.outcome is Some && (
        after.outcome->0 is Ok <==> event->Settled_0 is Ok),
        before.step != ReleaseStep::Done && after.step == ReleaseStep::Done && before.step
            != ReleaseStep::Remove ==> after.outcome is Some && after.outcome->0 is Err,
        after.step != ReleaseStep::Done ==> after.lease == before.lease,
{
}

} // verus!
