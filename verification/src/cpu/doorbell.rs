//! Requests for a CPU's scheduler and the doorbell that announces them.
use vstd::prelude::*;

verus! {

/// Request generations live in the upper 56 bits of the request word.
pub const REQUEST_GENERATION_MAX: u64 = 0x00ff_ffff_ffff_ffff;

/// Why the scheduler of a CPU is asked to run.
#[derive(Clone, Copy, Debug, PartialEq, Eq, Structural)]
pub enum SchedulerRequestReason {
    Preempt,
    OwnerWork,
    SoftTimer,
}

/// Whether the owner sees a request by itself.
#[derive(Clone, Copy, Debug, PartialEq, Eq, Structural)]
pub enum SchedulerRequestDelivery {
    PollingOwner,
    DoorbellRequired,
}

#[derive(Clone, Copy, Debug, PartialEq, Eq, Structural)]
pub struct SchedulerRequestPublication {
    pub generation: u64,
    pub delivery: SchedulerRequestDelivery,
}

/// Requests that a scheduler entry has taken over.
#[derive(Clone, Copy, Debug, PartialEq, Eq, Structural)]
pub struct SchedulerRequestClaim {
    pub generation: u64,
    pub preempt: bool,
}

impl SchedulerRequestClaim {
    pub fn preempt_requested(&self) -> (preempt: bool)
        ensures
            preempt == self.preempt,
    {
        self.preempt
    }

    /// The claim that covers both.
    pub fn merge(self, other: Self) -> (merged: Self)
        ensures
            merged.preempt == (self.preempt || other.preempt),
            merged.generation == if self.generation > other.generation {
                self.generation
            } else {
                other.generation
            },
    {
        SchedulerRequestClaim {
            generation: if self.generation > other.generation {
                self.generation
            } else {
                other.generation
            },
            preempt: self.preempt || other.preempt,
        }
    }
}

/// The generation after the last one repeats the last.
pub open spec fn next_generation(generation: u64) -> u64 {
    if generation < REQUEST_GENERATION_MAX {
        (generation + 1) as u64
    } else {
        REQUEST_GENERATION_MAX
    }
}

/// Pending requests of one CPU. `ring` is the generation that an inter-processor
/// interrupt has yet to announce.
#[derive(Clone, Copy, Debug, PartialEq, Eq, Structural)]
pub struct SchedulerDoorbell {
    pub ready: bool,
    pub generation: u64,
    pub preempt: bool,
    pub owner_work: bool,
    pub soft_timer: bool,
    pub idle_polling: bool,
    pub acknowledged_generation: u64,
    pub park_preempt_deferred: bool,
    pub services_local_work: bool,
    pub ring: Option<u64>,
}

impl SchedulerDoorbell {
    pub open spec fn wf(self) -> bool {
        self.generation <= REQUEST_GENERATION_MAX
    }

    pub open spec fn any_reason(self) -> bool {
        self.preempt || self.owner_work || self.soft_timer
    }

    /// The doorbell with one more request.
    #[verifier::opaque]
    pub open spec fn requested(self, reason: SchedulerRequestReason) -> Self {
        SchedulerDoorbell {
            generation: next_generation(self.generation),
            preempt: self.preempt || reason == SchedulerRequestReason::Preempt,
            owner_work: self.owner_work || reason == SchedulerRequestReason::OwnerWork,
            soft_timer: self.soft_timer || reason == SchedulerRequestReason::SoftTimer,
            ..self
        }
    }

    /// The doorbell with one more request, announced unless the owner polls or
    /// is the requester and looks by itself.
    #[verifier::opaque]
    pub open spec fn delivered(self, reason: SchedulerRequestReason, by_owner: bool) -> Self {
        SchedulerDoorbell {
            ring: if self.idle_polling || (by_owner && self.services_local_work) {
                self.ring
            } else {
                Some(next_generation(self.generation))
            },
            ..self.requested(reason)
        }
    }

    pub open spec fn pending(self) -> bool {
        self.any_reason() || self.generation != self.acknowledged_generation
    }

    /// A doorbell that nobody has rung.
    pub open spec fn initial() -> Self {
        SchedulerDoorbell {
            ready: false,
            generation: 0,
            preempt: false,
            owner_work: false,
            soft_timer: false,
            idle_polling: false,
            acknowledged_generation: 0,
            park_preempt_deferred: false,
            services_local_work: false,
            ring: None,
        }
    }

    pub fn new() -> (doorbell: Self)
        ensures
            doorbell == Self::initial(),
            doorbell.wf(),
    {
        SchedulerDoorbell {
            ready: false,
            generation: 0,
            preempt: false,
            owner_work: false,
            soft_timer: false,
            idle_polling: false,
            acknowledged_generation: 0,
            park_preempt_deferred: false,
            services_local_work: false,
            ring: None,
        }
    }

    /// Records a request.
    pub fn publish(&mut self, reason: SchedulerRequestReason) -> (publication: SchedulerRequestPublication)
        ensures
            *final(self) == old(self).requested(reason),
            publication.generation == final(self).generation,
            publication.delivery == if old(self).idle_polling {
                SchedulerRequestDelivery::PollingOwner
            } else {
                SchedulerRequestDelivery::DoorbellRequired
            },
            final(self).wf(),
    {
        proof {
            reveal(SchedulerDoorbell::requested);
        }
        self.generation = if self.generation < REQUEST_GENERATION_MAX {
            self.generation + 1
        } else {
            REQUEST_GENERATION_MAX
        };
        match reason {
            SchedulerRequestReason::Preempt => {
                self.preempt = true;
            },
            SchedulerRequestReason::OwnerWork => {
                self.owner_work = true;
            },
            SchedulerRequestReason::SoftTimer => {
                self.soft_timer = true;
            },
        }
        let delivery = if self.idle_polling {
            SchedulerRequestDelivery::PollingOwner
        } else {
            SchedulerRequestDelivery::DoorbellRequired
        };
        SchedulerRequestPublication { generation: self.generation, delivery }
    }

    /// Announces a request unless the owner will see it anyway.
    pub fn deliver(&mut self, publication: SchedulerRequestPublication, by_owner: bool)
        ensures
            *final(self) == (SchedulerDoorbell {
                ring: if publication.delivery == SchedulerRequestDelivery::PollingOwner || (by_owner
                    && old(self).services_local_work) {
                    old(self).ring
                } else {
                    Some(publication.generation)
                },
                ..*old(self)
            }),
    {
        let served = match publication.delivery {
            SchedulerRequestDelivery::PollingOwner => true,
            SchedulerRequestDelivery::DoorbellRequired => by_owner && self.services_local_work,
        };
        if !served {
            self.ring = Some(publication.generation);
        }
    }

    /// Records and announces a request.
    pub fn request(&mut self, reason: SchedulerRequestReason, by_owner: bool)
        ensures
            *final(self) == old(self).delivered(reason, by_owner),
            final(self).wf(),
    {
        proof {
            reveal(SchedulerDoorbell::requested);
            reveal(SchedulerDoorbell::delivered);
        }
        let publication = self.publish(reason);
        self.deliver(publication, by_owner);
    }

    /// Records a request and rings in any case.
    pub fn request_and_ring(&mut self, reason: SchedulerRequestReason)
        ensures
            *final(self) == (SchedulerDoorbell {
                ring: Some(next_generation(old(self).generation)),
                ..old(self).requested(reason)
            }),
            final(self).wf(),
    {
        proof {
            reveal(SchedulerDoorbell::requested);
        }
        let publication = self.publish(reason);
        self.ring = Some(publication.generation);
    }

    /// Hands the announcement that is due to the platform.
    pub fn take_ring(&mut self) -> (ring: Option<u64>)
        ensures
            ring == old(self).ring,
            *final(self) == (SchedulerDoorbell { ring: None, ..*old(self) }),
    {
        let ring = self.ring;
        self.ring = None;
        ring
    }

    pub fn mark_ready(&mut self)
        ensures
            *final(self) == (SchedulerDoorbell { ready: true, ..*old(self) }),
    {
        self.ready = true;
    }

    pub fn is_ready(&self) -> (ready: bool)
        ensures
            ready == self.ready,
    {
        self.ready
    }

    pub fn soft_timer_work_pending(&self) -> (pending: bool)
        ensures
            pending == self.soft_timer,
    {
        self.soft_timer
    }

    /// Takes the soft timer request.
    pub fn begin_soft_timer_work(&mut self) -> (pending: bool)
        ensures
            pending == old(self).soft_timer,
            *final(self) == (SchedulerDoorbell { soft_timer: false, ..*old(self) }),
    {
        let pending = self.soft_timer;
        self.soft_timer = false;
        pending
    }

    /// Requests another round where one round has left work.
    pub fn finish_soft_timer_work(&mut self, pending: bool)
        ensures
            *final(self) == if pending {
                old(self).requested(SchedulerRequestReason::SoftTimer)
            } else {
                *old(self)
            },
            old(self).wf() ==> final(self).wf(),
    {
        if pending {
            let _ = self.publish(SchedulerRequestReason::SoftTimer);
        }
    }

    pub fn needs_reschedule(&self) -> (needed: bool)
        ensures
            needed == self.pending(),
    {
        self.preempt || self.owner_work || self.soft_timer || self.generation
            != self.acknowledged_generation
    }

    /// Takes the requests that a scheduler entry serves.
    pub fn claim(&mut self) -> (claim: SchedulerRequestClaim)
        ensures
            claim == (SchedulerRequestClaim {
                generation: old(self).generation,
                preempt: old(self).preempt,
            }),
            *final(self) == (SchedulerDoorbell { preempt: false, owner_work: false, ..*old(self) }),
    {
        let claim = SchedulerRequestClaim { generation: self.generation, preempt: self.preempt };
        self.preempt = false;
        self.owner_work = false;
        claim
    }

    pub fn defer_park_preemption(&mut self, requested: bool)
        ensures
            *final(self) == (SchedulerDoorbell {
                park_preempt_deferred: old(self).park_preempt_deferred || requested,
                ..*old(self)
            }),
    {
        if requested {
            self.park_preempt_deferred = true;
        }
    }

    /// The doorbell after a park that ran on or blocked.
    pub open spec fn park_finished(self, resume_running: bool) -> Self {
        let cleared = SchedulerDoorbell { park_preempt_deferred: false, ..self };
        if resume_running && self.park_preempt_deferred {
            cleared.requested(SchedulerRequestReason::Preempt)
        } else {
            cleared
        }
    }

    /// Settles a preemption that a park has put off: a thread that runs on owes
    /// it, one that blocks does not.
    pub fn finish_park_preemption(&mut self, resume_running: bool)
        ensures
            *final(self) == old(self).park_finished(resume_running),
            old(self).wf() ==> final(self).wf(),
    {
        let deferred = self.park_preempt_deferred;
        self.park_preempt_deferred = false;
        if resume_running && deferred {
            let _ = self.publish(SchedulerRequestReason::Preempt);
        }
    }

    /// Declares that the owner polls.
    pub fn begin_polling(&mut self)
        ensures
            *final(self) == (SchedulerDoorbell { idle_polling: true, ..*old(self) }),
    {
        self.idle_polling = true;
    }

    pub fn end_polling(&mut self)
        ensures
            *final(self) == (SchedulerDoorbell { idle_polling: false, ..*old(self) }),
    {
        self.idle_polling = false;
    }

    /// Forgets every request of a CPU that has gone offline.
    pub fn reset_for_offline(&mut self)
        ensures
            *final(self) == (SchedulerDoorbell {
                generation: 0,
                preempt: false,
                owner_work: false,
                soft_timer: false,
                idle_polling: false,
                acknowledged_generation: 0,
                park_preempt_deferred: false,
                ..*old(self)
            }),
            final(self).wf(),
    {
        self.generation = 0;
        self.preempt = false;
        self.owner_work = false;
        self.soft_timer = false;
        self.idle_polling = false;
        self.acknowledged_generation = 0;
        self.park_preempt_deferred = false;
    }
}

/// A request is never lost: after it, the scheduler is wanted, and after a
/// claim that is older than a later request, it is wanted again.
pub proof fn requests_are_not_lost(doorbell: SchedulerDoorbell, reason: SchedulerRequestReason)
    ensures
        doorbell.requested(reason).pending(),
        ({
            let claimed = SchedulerDoorbell { preempt: false, owner_work: false, ..doorbell };
            let acknowledged = SchedulerDoorbell {
                acknowledged_generation: doorbell.generation,
                ..claimed.requested(reason)
            };
            acknowledged.pending()
        }),
{
    reveal(SchedulerDoorbell::requested);
}

} // verus!
