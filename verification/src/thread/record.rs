//! Everything that the scheduler keeps of one thread.
use vstd::prelude::*;
use crate::error::{TaskError, ThreadState};
use crate::ids::{CpuId, CpuSet, ThreadId};
use crate::scheduler::entity::{SchedulingEntity, SchedulingUrgency};
use crate::scheduler::policy::SchedulePolicy;
use crate::scheduler::task::{ActiveSchedulingState, QueuedThread, RqTaskMetadata};
use crate::thread::pi::{PiWaitRegistration, PiWaitState, PiWaitTree};
use crate::thread::placement::{TaskOnRunQueue, ThreadPlacementState};

verus! {

/// A change of policy that the owner CPU has yet to apply.
#[derive(Clone, Copy, Debug, PartialEq, Eq, Structural)]
pub struct PendingPolicyUpdate {
    pub policy: SchedulePolicy,
    pub reservation_scaled: u64,
    pub generation: u64,
}

/// Policy of a thread. `active` is here while no run queue holds it.
#[derive(Clone, Copy, Debug, PartialEq, Eq, Structural)]
pub struct ThreadPolicyState {
    pub base: SchedulePolicy,
    pub active: Option<ActiveSchedulingState>,
    pub effective: SchedulePolicy,
    pub urgency: SchedulingUrgency,
    pub dispatch_generation: u64,
    pub update_generation: u64,
    pub pending: Option<PendingPolicyUpdate>,
}

/// Claim of a Deadline reservation on its run queue's bandwidth.
#[derive(Clone, Copy, Debug, PartialEq, Eq, Structural)]
pub enum DeadlineActivity {
    Inactive,
    NonContending { zero_lag_ns: u64 },
    Contending,
}

/// The Deadline reservation of a thread. `timers_stale` says that the timers of
/// the reservation have to be armed anew.
#[derive(Clone, Copy, Debug, PartialEq, Eq, Structural)]
pub struct DeadlineReservation {
    pub owner: Option<CpuId>,
    pub reservation_scaled: u64,
    pub activity: DeadlineActivity,
    pub overrun_events: u64,
    pub cleanup_pending: bool,
    pub timers_stale: bool,
}

/// Priority inheritance of a thread: from whom it inherits, for what it waits,
/// and who waits for it.
#[derive(Debug)]
pub struct ThreadPiState {
    pub donor: Option<ThreadId>,
    pub deadline_donor: Option<ThreadId>,
    pub deadline_cbs_generation: u64,
    pub deadline_cbs_borrower: Option<ThreadId>,
    pub blocked_on: Option<PiWaitRegistration>,
    pub donors: PiWaitTree,
    pub wait: PiWaitState,
}

#[derive(Debug)]
pub struct ThreadRecord {
    pub id: ThreadId,
    pub lifecycle: ThreadState,
    pub policy: ThreadPolicyState,
    pub deadline: DeadlineReservation,
    pub pi: ThreadPiState,
    pub placement: ThreadPlacementState,
    pub park_generation: u64,
    pub wake_pending: bool,
    pub wake_cpu_hint: Option<CpuId>,
    pub affinity_pending: bool,
    pub exiting: bool,
    pub has_context: bool,
}

/// Which lifecycle steps a thread can take.
pub open spec fn may_become(from: ThreadState, to: ThreadState) -> bool {
    match from {
        ThreadState::New => to == ThreadState::Ready,
        ThreadState::Ready => to == ThreadState::Running,
        ThreadState::Running => to == ThreadState::Ready || to == ThreadState::Parking || to
            == ThreadState::Exited || to == ThreadState::Blocked,
        ThreadState::Parking => to == ThreadState::Running || to == ThreadState::Blocked,
        ThreadState::Blocked => to == ThreadState::Waking,
        ThreadState::Waking => to == ThreadState::Ready,
        ThreadState::Exited => false,
    }
}

impl ThreadRecord {
    pub open spec fn wf(&self) -> bool {
        &&& self.policy.base.valid()
        &&& self.policy.active matches Some(active) ==> active.wf()
        &&& self.policy.pending matches Some(pending) ==> pending.policy.valid()
        &&& self.placement.wf()
        &&& self.pi.donors.wf()
    }

    /// The record with which a thread starts.
    pub fn new(
        id: ThreadId,
        policy: SchedulePolicy,
        entity: SchedulingEntity,
        affinity: CpuSet,
        reservation_scaled: u64,
        has_context: bool,
    ) -> (record: Self)
        requires
            policy.valid(),
            entity.wf(),
            entity.serves(policy),
        ensures
            record.fresh(id, policy, entity, reservation_scaled, has_context),
            record.placement.affinity == affinity,
            record.wf(),
    {
        ThreadRecord {
            id,
            lifecycle: ThreadState::New,
            policy: ThreadPolicyState {
                base: policy,
                active: Some(ActiveSchedulingState::new(policy, entity)),
                effective: policy,
                urgency: entity.scheduling_urgency(policy),
                dispatch_generation: 0,
                update_generation: 0,
                pending: None,
            },
            deadline: DeadlineReservation {
                owner: None,
                reservation_scaled,
                activity: DeadlineActivity::Inactive,
                overrun_events: 0,
                cleanup_pending: false,
                timers_stale: false,
            },
            pi: ThreadPiState {
                donor: None,
                deadline_donor: None,
                deadline_cbs_generation: 0,
                deadline_cbs_borrower: None,
                blocked_on: None,
                donors: PiWaitTree::new(),
                wait: PiWaitState::new(),
            },
            placement: ThreadPlacementState::new(affinity),
            park_generation: 0,
            wake_pending: false,
            wake_cpu_hint: None,
            affinity_pending: false,
            exiting: false,
            has_context,
        }
    }

    /// Whether the record is as a thread starts with it.
    pub open spec fn fresh(
        &self,
        id: ThreadId,
        policy: SchedulePolicy,
        entity: SchedulingEntity,
        reservation_scaled: u64,
        has_context: bool,
    ) -> bool {
        &&& self.id == id
        &&& self.lifecycle == ThreadState::New
        &&& self.policy == (ThreadPolicyState {
            base: policy,
            active: Some(
                ActiveSchedulingState { policy, base_entity: entity, inherited: None },
            ),
            effective: policy,
            urgency: entity.urgency(policy),
            dispatch_generation: 0,
            update_generation: 0,
            pending: None,
        })
        &&& self.deadline == (DeadlineReservation {
            owner: None,
            reservation_scaled,
            activity: DeadlineActivity::Inactive,
            overrun_events: 0,
            cleanup_pending: false,
            timers_stale: false,
        })
        &&& self.pi.donor is None
        &&& self.pi.deadline_donor is None
        &&& self.pi.deadline_cbs_generation == 0
        &&& self.pi.deadline_cbs_borrower is None
        &&& self.pi.blocked_on is None
        &&& self.pi.donors.entries@.len() == 0
        &&& self.pi.wait == (PiWaitState {
            generation: 0,
            top_generation: 0,
            selected_generation: 0,
            granted_generation: 0,
        })
        &&& self.placement.task_cpu is None
        &&& self.placement.on_rq == TaskOnRunQueue::Off
        &&& self.placement.on_cpu is None
        &&& self.placement.migration_request is None
        &&& self.park_generation == 0
        &&& !self.wake_pending
        &&& self.wake_cpu_hint is None
        &&& !self.affinity_pending
        &&& !self.exiting
        &&& self.has_context == has_context
    }

    /// Takes a lifecycle step.
    pub fn transition(&mut self, to: ThreadState) -> (result: Result<(), TaskError>)
        ensures
            result == if may_become(old(self).lifecycle, to) {
                Ok::<(), TaskError>(())
            } else {
                Err(TaskError::InvalidTransition { from: old(self).lifecycle, to })
            },
            *final(self) == if result is Ok {
                ThreadRecord { lifecycle: to, ..*old(self) }
            } else {
                *old(self)
            },
            old(self).wf() ==> final(self).wf(),
    {
        let from = self.lifecycle;
        let allowed = match from {
            ThreadState::New => to == ThreadState::Ready,
            ThreadState::Ready => to == ThreadState::Running,
            ThreadState::Running => to == ThreadState::Ready || to == ThreadState::Parking || to
                == ThreadState::Exited || to == ThreadState::Blocked,
            ThreadState::Parking => to == ThreadState::Running || to == ThreadState::Blocked,
            ThreadState::Blocked => to == ThreadState::Waking,
            ThreadState::Waking => to == ThreadState::Ready,
            ThreadState::Exited => false,
        };
        if !allowed {
            return Err(TaskError::InvalidTransition { from, to });
        }
        self.lifecycle = to;
        Ok(())
    }

    pub open spec fn boosted(&self) -> bool {
        self.pi.donor is Some
    }

    pub fn is_pi_boosted(&self) -> (boosted: bool)
        ensures
            boosted == self.boosted(),
    {
        self.pi.donor.is_some()
    }

    /// What a run queue reads of the thread without its lock.
    pub open spec fn metadata(&self) -> RqTaskMetadata {
        RqTaskMetadata {
            deadline_donor: self.pi.deadline_donor,
            deadline_bandwidth_scaled: self.deadline.reservation_scaled,
            policy_generation: self.policy.dispatch_generation,
        }
    }

    /// Whether a boosted thread is exempt from the real-time quota.
    pub open spec fn exempt(&self, policy: SchedulePolicy) -> bool {
        self.boosted() && policy.rt() is Some
    }

    /// The record under which the thread enters a run queue.
    pub open spec fn entry(&self, active: ActiveSchedulingState) -> QueuedThread {
        QueuedThread {
            id: self.id,
            active,
            rt_quota_exempt: self.exempt(active.policy),
            migration_capable: self.placement.affinity.size() > 1,
            metadata: self.metadata(),
            sequence: 0,
            balance_scan_epoch: 0,
            pushable: false,
        }
    }

    pub fn rq_task_metadata(&self) -> (metadata: RqTaskMetadata)
        ensures
            metadata == self.metadata(),
    {
        RqTaskMetadata {
            deadline_donor: self.pi.deadline_donor,
            deadline_bandwidth_scaled: self.deadline.reservation_scaled,
            policy_generation: self.policy.dispatch_generation,
        }
    }

    pub fn is_pi_boosted_rt_owner_for(&self, policy: SchedulePolicy) -> (exempt: bool)
        ensures
            exempt == self.exempt(policy),
    {
        self.is_pi_boosted() && policy.rt_priority().is_some()
    }

    pub fn queued_thread(&self, active: ActiveSchedulingState) -> (thread: QueuedThread)
        ensures
            thread == self.entry(active),
    {
        QueuedThread::new(
            self.id,
            active,
            self.is_pi_boosted_rt_owner_for(active.policy),
            self.placement.affinity.is_migration_capable(),
            self.rq_task_metadata(),
        )
    }

    /// Makes the schedule in effect visible to other CPUs.
    pub fn publish_effective_schedule(&mut self, policy: SchedulePolicy, entity: SchedulingEntity)
        ensures
            *final(self) == old(self).published(policy, entity),
            old(self).wf() ==> final(self).wf(),
    {
        self.policy.effective = policy;
        self.policy.urgency = entity.scheduling_urgency(policy);
    }

    pub open spec fn published(self, policy: SchedulePolicy, entity: SchedulingEntity) -> ThreadRecord {
        ThreadRecord {
            policy: ThreadPolicyState {
                effective: policy,
                urgency: entity.urgency(policy),
                ..self.policy
            },
            ..self
        }
    }

    /// Notes a wake-up; says whether one was pending already.
    pub fn publish_wake(&mut self) -> (pending: bool)
        ensures
            pending == old(self).wake_pending,
            *final(self) == (ThreadRecord { wake_pending: true, ..*old(self) }),
            old(self).wf() ==> final(self).wf(),
    {
        let pending = self.wake_pending;
        self.wake_pending = true;
        pending
    }

    /// Takes a pending wake-up.
    pub fn take_park_notification(&mut self) -> (pending: bool)
        ensures
            pending == old(self).wake_pending,
            *final(self) == (ThreadRecord { wake_pending: false, ..*old(self) }),
            old(self).wf() ==> final(self).wf(),
    {
        let pending = self.wake_pending;
        self.wake_pending = false;
        pending
    }

    /// Numbers a park.
    pub fn next_park_generation(&mut self) -> (result: Result<u64, TaskError>)
        ensures
            result == if old(self).park_generation < u64::MAX {
                Ok((old(self).park_generation + 1) as u64)
            } else {
                Err(TaskError::InvalidConfiguration)
            },
            *final(self) == match result {
                Ok(generation) => ThreadRecord { park_generation: generation, ..*old(self) },
                Err(_) => *old(self),
            },
            old(self).wf() ==> final(self).wf(),
    {
        if self.park_generation == u64::MAX {
            return Err(TaskError::InvalidConfiguration);
        }
        self.park_generation = self.park_generation + 1;
        Ok(self.park_generation)
    }

    /// Whether the thread stands where its affinity allows.
    pub open spec fn affinity_satisfied(&self) -> bool {
        match self.placement.task_cpu {
            Some(cpu) => self.placement.on_rq == TaskOnRunQueue::Off
                || self.placement.affinity.has(cpu),
            None => true,
        }
    }

    pub open spec fn affinity_settled(self) -> ThreadRecord {
        ThreadRecord {
            affinity_pending: self.affinity_pending && !self.affinity_satisfied(),
            ..self
        }
    }

    /// Ends a pending change of affinity once the thread stands right.
    pub fn complete_affinity_if_satisfied(&mut self) -> (completed: bool)
        ensures
            completed == (old(self).affinity_pending && old(self).affinity_satisfied()),
            *final(self) == old(self).affinity_settled(),
            old(self).wf() ==> final(self).wf(),
    {
        if !self.affinity_pending {
            return false;
        }
        let satisfied = match self.placement.task_cpu {
            Some(cpu) => self.placement.on_rq == TaskOnRunQueue::Off
                || self.placement.affinity.contains(cpu),
            None => true,
        };
        if satisfied {
            self.affinity_pending = false;
        }
        satisfied
    }

    /// Whether the thread takes part in priority inheritance.
    pub fn has_live_pi_edges(&self) -> (live: bool)
        ensures
            live == (self.pi.blocked_on is Some || self.pi.donors.entries@.len() > 0),
    {
        self.pi.blocked_on.is_some() || !self.pi.donors.is_empty()
    }
}

/// No lifecycle step leaves the exited state, and every other state has one.
pub proof fn exit_is_final(from: ThreadState)
    ensures
        from == ThreadState::Exited <==> forall|to: ThreadState| !#[trigger] may_become(from, to),
{
    assert(may_become(ThreadState::New, ThreadState::Ready));
    assert(may_become(ThreadState::Ready, ThreadState::Running));
    assert(may_become(ThreadState::Running, ThreadState::Ready));
    assert(may_become(ThreadState::Parking, ThreadState::Running));
    assert(may_become(ThreadState::Blocked, ThreadState::Waking));
    assert(may_become(ThreadState::Waking, ThreadState::Ready));
}

} // verus!
