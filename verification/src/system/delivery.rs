//! Threads that enter and leave run queues.
use vstd::prelude::*;
use crate::cpu::local::CpuLocal;
use crate::cpu::remote::CpuRemote;
use crate::cpu::run_queue::WakePreemptionDecision;
use crate::error::{TaskError, ThreadState};
use crate::ids::{CpuId, ThreadId};
use crate::scheduler::entity::{EnqueueReason, SchedulingEntity};
use crate::scheduler::policy::SchedulePolicy;
use crate::scheduler::run_queue::{QueueMembershipClass, RunQueue};
use crate::system::ready::{
    can_ready, judged_at, link_ready_thread, link_throttled_deadline, may_ready_as, queue_readied,
    queue_throttled, record_readied, returned,
};
use crate::system::task_system::{TaskSystem, cpus_wf_after, with_queue, with_record};
use crate::system::wake::{
    has_push_pending, kicked_if, push_pending, renew_budget, renewed, renews_budget,
};
use crate::thread::placement::{TaskOnRunQueue, ThreadPlacementState};
use crate::thread::record::{DeadlineReservation, ThreadRecord};
use crate::time::MonotonicInstant;

verus! {

/// The record of a thread that enters a run queue. Only a wake-up looks at the
/// Deadline budget anew.
pub open spec fn entering(record: ThreadRecord, reason: EnqueueReason, now_ns: u64) -> ThreadRecord {
    if reason == EnqueueReason::Wake {
        renewed(record, now_ns)
    } else {
        record
    }
}

/// Whether a thread enters without budget.
pub open spec fn enters_throttled(record: &ThreadRecord, reason: EnqueueReason, now_ns: u64) -> bool {
    (entering(*record, reason, now_ns).policy.active->0).effective().is_throttled()
}

/// Whether a thread can enter a run queue.
pub open spec fn can_enter(queue: &RunQueue, record: &ThreadRecord, owner: CpuId, reason: EnqueueReason, now_ns: u64) -> bool {
    &&& record.policy.active is Some
    &&& reason == EnqueueReason::Wake && renews_budget(record) ==> (
    record.policy.active->0).effective().can_activate(now_ns)
    &&& can_ready(queue, &entering(*record, reason, now_ns), owner)
    &&& enters_throttled(record, reason, now_ns) ==> (record.policy.active->0).policy is Deadline
        && record.placement.on_cpu is None
}

/// The CPU after a thread was linked to its run queue.
#[verifier::opaque]
pub open spec fn linked(after: CpuLocal, before: CpuLocal, record: &ThreadRecord, placed: SchedulingEntity, reason: EnqueueReason) -> bool {
    let pulled = with_queue(
        CpuLocal {
            remote: CpuRemote { idle_pull: before.remote.idle_pull.cancelled(), ..before.remote },
            ..before
        },
        after.queue(),
    );
    &&& after == pulled.with_remote(pulled.remote.showing_load())
    &&& if (record.policy.active->0).effective().is_throttled() {
        placed == (record.policy.active->0).effective() && queue_throttled(
            &after.queue(),
            &before.queue(),
            record,
        )
    } else {
        queue_readied(&after.queue(), &before.queue(), record, reason, placed)
    }
}

/// Whether a linked thread should preempt what its CPU runs.
pub open spec fn linked_ahead(after: CpuLocal, record: &ThreadRecord, placed: SchedulingEntity) -> bool {
    !(record.policy.active->0).effective().is_throttled() && after.queue().preemption(
        record.id,
        (record.policy.active->0).policy,
        placed,
        judged_at(&after.queue(), placed),
    ) == WakePreemptionDecision::WakeeSelected
}

/// The CPU after a thread entered its run queue.
pub open spec fn entered(after: CpuLocal, before: CpuLocal, record: ThreadRecord, placed: SchedulingEntity, reason: EnqueueReason, now_ns: u64) -> bool {
    linked(after, before, &entering(record, reason, now_ns), placed, reason)
}

/// Whether a thread that entered should preempt what its CPU runs.
pub open spec fn enters_ahead(after: CpuLocal, record: &ThreadRecord, placed: SchedulingEntity, reason: EnqueueReason, now_ns: u64) -> bool {
    linked_ahead(after, &entering(*record, reason, now_ns), placed)
}

/// The record whose reservation needs its timers looked at, if it has one.
pub open spec fn timers_due(record: ThreadRecord) -> ThreadRecord {
    if record.policy.base is Deadline {
        ThreadRecord {
            deadline: DeadlineReservation { timers_stale: true, ..record.deadline },
            ..record
        }
    } else {
        record
    }
}

/// The record after its thread entered the run queue of `owner`.
pub open spec fn record_entered(record: ThreadRecord, owner: CpuId, placed: SchedulingEntity, reason: EnqueueReason, now_ns: u64) -> ThreadRecord {
    timers_due(
        record_readied(entering(record, reason, now_ns), owner, placed),
    ).affinity_settled()
}

/// Whether the owner of a run queue reschedules for a thread that enters it.
pub open spec fn announces(reason: EnqueueReason) -> bool {
    reason == EnqueueReason::Wake || reason == EnqueueReason::Replenished || reason
        == EnqueueReason::Migrated
}

/// The CPU after its owner took note of a thread that entered.
pub open spec fn entry_noted(local: CpuLocal, owner: CpuId, reason: EnqueueReason, preempts: bool) -> CpuLocal {
    let asked = if announces(reason) && preempts {
        local.with_remote(local.remote.asked_to_reschedule())
    } else {
        local
    };
    kicked_if(asked, !preempts && push_pending(&local.queue()), owner)
}

/// Tests `can_enter`.
pub fn may_enter(queue: &RunQueue, record: &ThreadRecord, owner: CpuId, reason: EnqueueReason, now_ns: u64) -> (may: bool)
    requires
        queue.wf(),
        record.wf(),
    ensures
        may == can_enter(queue, record, owner, reason, now_ns),
{
    let active = match record.policy.active {
        Some(active) => active,
        None => {
            return false;
        },
    };
    let deadline = match active.policy {
        SchedulePolicy::Deadline(_) => true,
        _ => false,
    };
    let wakes = reason == EnqueueReason::Wake;
    if wakes && deadline && !record.is_pi_boosted() && !active.entity().may_activate(now_ns) {
        return false;
    }
    let fresh = if wakes {
        renew_budget(record, active, now_ns)
    } else {
        active
    };
    let throttled = fresh.entity().is_deadline_throttled();
    assert(returned(*record, fresh) == entering(*record, reason, now_ns));
    if throttled && (!deadline || record.placement.on_cpu.is_some()) {
        return false;
    }
    may_ready_as(queue, record, fresh, record.deadline, owner)
}

/// Links a thread to the run queue of `owner`, among the throttled ones if it
/// has no budget.
fn link_entry(local: &mut CpuLocal, record: &mut ThreadRecord, owner: CpuId, reason: EnqueueReason) -> (result: (bool, SchedulingEntity))
    requires
        old(local).wf(),
        old(record).wf(),
        can_ready(&old(local).queue(), old(record), owner),
        (old(record).policy.active->0).effective().is_throttled() ==> (old(record).policy.active->0).policy is Deadline && old(record).placement.on_cpu is None,
    ensures
        linked(*final(local), *old(local), old(record), result.1, reason),
        final(local).remote.owner == old(local).remote.owner,
        *final(record) == record_readied(*old(record), owner, result.1),
        result.0 == linked_ahead(*final(local), old(record), result.1),
        final(local).wf(),
        final(record).wf(),
{
    let active = record.policy.active.unwrap();
    local.remote.cancel_idle_pull_if_uncommitted();
    let entity = active.entity();
    let (preempts, placed) = if entity.is_deadline_throttled() {
        link_throttled_deadline(&mut local.remote.run_queue.queue, record, owner);
        (false, entity)
    } else {
        link_ready_thread(&mut local.remote.run_queue.queue, record, owner, reason)
    };
    local.remote.publish_run_queue_load_summary();
    proof {
        reveal(linked);
    }
    (preempts, placed)
}

/// Notes what follows from an entry in the record.
fn settle_entry(record: &mut ThreadRecord)
    ensures
        *final(record) == timers_due(*old(record)).affinity_settled(),
        old(record).wf() ==> final(record).wf(),
{
    match record.policy.base {
        SchedulePolicy::Deadline(_) => {
            record.deadline.timers_stale = true;
        },
        _ => {},
    }
    let _ = record.complete_affinity_if_satisfied();
}

/// Lets a thread enter the run queue of `owner`. Says whether it should preempt
/// what the CPU runs.
pub fn enter_queue(local: &mut CpuLocal, record: &mut ThreadRecord, owner: CpuId, reason: EnqueueReason, now_ns: u64) -> (result: (bool, SchedulingEntity))
    requires
        old(local).wf(),
        old(record).wf(),
        can_enter(&old(local).queue(), old(record), owner, reason, now_ns),
    ensures
        entered(*final(local), *old(local), *old(record), result.1, reason, now_ns),
        *final(record) == record_entered(*old(record), owner, result.1, reason, now_ns),
        result.0 == enters_ahead(*final(local), old(record), result.1, reason, now_ns),
        final(local).remote.owner == old(local).remote.owner,
        final(local).wf(),
        final(record).wf(),
{
    if reason == EnqueueReason::Wake {
        let active = record.policy.active.unwrap();
        let fresh = renew_budget(record, active, now_ns);
        record.policy.active = Some(fresh);
    }
    assert(*record == entering(*old(record), reason, now_ns));
    let result = link_entry(local, record, owner, reason);
    settle_entry(record);
    result
}

/// Lets the owner of a run queue take note of a thread that entered it.
pub fn note_entry(local: &mut CpuLocal, owner: CpuId, reason: EnqueueReason, preempts: bool)
    requires
        old(local).wf(),
    ensures
        *final(local) == entry_noted(*old(local), owner, reason, preempts),
        final(local).wf(),
{
    let announced = match reason {
        EnqueueReason::Wake | EnqueueReason::Replenished | EnqueueReason::Migrated => true,
        _ => false,
    };
    let pushes = !preempts && has_push_pending(&local.remote.run_queue.queue);
    if announced && preempts {
        local.request_reschedule();
    }
    if pushes {
        let _ = local.remote.kick_scheduler_work(owner);
    }
}

/// The CPU after a thread entered its run queue and its owner took note.
#[verifier::opaque]
pub open spec fn received(after: CpuLocal, before: CpuLocal, record: ThreadRecord, owner: CpuId, placed: SchedulingEntity, reason: EnqueueReason, now_ns: u64) -> bool {
    exists|local: CpuLocal|
        #[trigger] entered(local, before, record, placed, reason, now_ns) && after == entry_noted(
            local,
            owner,
            reason,
            enters_ahead(local, &record, placed, reason, now_ns),
        )
}

/// Lets a thread enter the run queue of `owner`, and the owner take note.
pub fn receive(local: &mut CpuLocal, record: &mut ThreadRecord, owner: CpuId, reason: EnqueueReason, now_ns: u64) -> (placed: SchedulingEntity)
    requires
        old(local).wf(),
        old(record).wf(),
        can_enter(&old(local).queue(), old(record), owner, reason, now_ns),
    ensures
        received(*final(local), *old(local), *old(record), owner, placed, reason, now_ns),
        *final(record) == record_entered(*old(record), owner, placed, reason, now_ns),
        final(local).remote.owner == old(local).remote.owner,
        final(local).wf(),
        final(record).wf(),
{
    let (preempts, placed) = enter_queue(local, record, owner, reason, now_ns);
    note_entry(local, owner, reason, preempts);
    proof {
        reveal(received);
    }
    placed
}

impl TaskSystem {
    /// Why a thread cannot enter the run queue of a CPU.
    pub open spec fn enqueue_error(&self, cpu: CpuId, thread: ThreadId, reason: EnqueueReason, now_ns: u64) -> Option<TaskError> {
        if !self.has_cpu(cpu) {
            Some(TaskError::InvalidCpu(cpu.index))
        } else if !self.online(cpu) {
            Some(TaskError::CpuOffline(cpu.index))
        } else {
            match self.record(thread) {
                None => Some(TaskError::StaleThreadId),
                Some(record) => if record.lifecycle != ThreadState::Ready {
                    Some(TaskError::NotReady)
                } else if !record.placement.affinity.has(cpu) && reason != EnqueueReason::Migrated {
                    Some(TaskError::InvalidCpu(cpu.index))
                } else if !can_enter(&self.cpu(cpu).queue(), &record, cpu, reason, now_ns) {
                    Some(TaskError::InvalidConfiguration)
                } else {
                    None
                },
            }
        }
    }

    /// The system after a thread entered the run queue of a CPU.
    pub open spec fn enqueued_on(&self, before: &Self, cpu: CpuId, thread: ThreadId, reason: EnqueueReason, now_ns: u64, monotonic_now: MonotonicInstant) -> bool {
        let record = before.record(thread)->0;
        exists|placed: SchedulingEntity|
            #[trigger] received(
                self.cpu(cpu),
                before.cpu(cpu),
                record,
                cpu,
                placed,
                reason,
                now_ns,
            ) && self.relinked(
                before,
                record_entered(record, cpu, placed, reason, now_ns),
                before.cpus@.update(cpu.index as int, self.cpu(cpu)),
                before.root_domain.rt_activated_if(
                    self.cpu(cpu).queue().has_rt_thread(),
                    cpu,
                    monotonic_now,
                ),
            )
    }

    pub(crate) fn check_enqueue(&self, cpu: CpuId, thread: ThreadId, reason: EnqueueReason, now_ns: u64) -> (error: Option<TaskError>)
        requires
            self.wf(),
        ensures
            error == self.enqueue_error(cpu, thread, reason, now_ns),
    {
        if let Err(error) = self.ensure_owner_cpu_online(cpu) {
            return Some(error);
        }
        let record = match self.thread_record(thread) {
            Ok(record) => record,
            Err(error) => {
                return Some(error);
            },
        };
        if record.lifecycle != ThreadState::Ready {
            return Some(TaskError::NotReady);
        }
        if !record.placement.affinity.contains(cpu) && reason != EnqueueReason::Migrated {
            return Some(TaskError::InvalidCpu(cpu.index));
        }
        assert(self.cpus@[cpu.index as int].wf());
        let queue = &self.cpus[cpu.index as usize].remote.run_queue.queue;
        if may_enter(queue, record, cpu, reason, now_ns) {
            None
        } else {
            Some(TaskError::InvalidConfiguration)
        }
    }

    #[verifier::spinoff_prover]
    #[verifier::rlimit(60)]
    fn enter_cpu(&mut self, cpu: CpuId, thread: ThreadId, reason: EnqueueReason, now_ns: u64, monotonic_now: MonotonicInstant)
        requires
            old(self).wf(),
            old(self).has_cpu(cpu),
            old(self).record(thread) is Some,
            can_enter(
                &old(self).cpu(cpu).queue(),
                &(old(self).record(thread)->0),
                cpu,
                reason,
                now_ns,
            ),
        ensures
            final(self).enqueued_on(old(self), cpu, thread, reason, now_ns, monotonic_now),
            final(self).wf(),
    {
        let ghost before = *self;
        let at: usize = cpu.index as usize;
        assert(before.cpus@[at as int].wf());
        let mut record = self.take_record(thread);
        let ghost start = record;
        let placed = receive(&mut self.cpus[at], &mut record, cpu, reason, now_ns);
        proof {
            assert(self.cpus@ =~= before.cpus@.update(at as int, self.cpus@[at as int]));
            cpus_wf_after(before.cpus@, self.cpus@, at as int);
        }
        if self.cpus[at].remote.run_queue.queue.has_rt() {
            let _ = self.root_domain.activate_rt_period(cpu, monotonic_now);
        }
        self.put_record(record);
        proof {
            assert(self.slots@ =~= with_record(before.slots@, record));
            assert(received(self.cpu(cpu), before.cpu(cpu), start, cpu, placed, reason, now_ns));
        }
    }

    /// Puts a ready thread on the run queue of a CPU, for the owner of that CPU.
    pub fn enqueue_owner_thread(&mut self, cpu: CpuId, thread: ThreadId, reason: EnqueueReason, now_ns: u64, monotonic_now: MonotonicInstant) -> (result: Result<(), TaskError>)
        requires
            old(self).wf(),
        ensures
            result == match old(self).enqueue_error(cpu, thread, reason, now_ns) {
                Some(error) => Err::<(), TaskError>(error),
                None => Ok(()),
            },
            result is Err ==> *final(self) == *old(self),
            result is Ok ==> final(self).enqueued_on(
                old(self),
                cpu,
                thread,
                reason,
                now_ns,
                monotonic_now,
            ),
            final(self).wf(),
    {
        if let Some(error) = self.check_enqueue(cpu, thread, reason, now_ns) {
            return Err(error);
        }
        self.enter_cpu(cpu, thread, reason, now_ns, monotonic_now);
        Ok(())
    }

    /// Puts a ready thread on the run queue of a CPU.
    pub fn enqueue(&mut self, cpu: CpuId, thread: ThreadId, now_ns: u64, monotonic_now: MonotonicInstant) -> (result: Result<(), TaskError>)
        requires
            old(self).wf(),
        ensures
            result == match old(self).enqueue_error(cpu, thread, EnqueueReason::Wake, now_ns) {
                Some(error) => Err::<(), TaskError>(error),
                None => Ok(()),
            },
            result is Err ==> *final(self) == *old(self),
            result is Ok ==> final(self).enqueued_on(
                old(self),
                cpu,
                thread,
                EnqueueReason::Wake,
                now_ns,
                monotonic_now,
            ),
            final(self).wf(),
    {
        self.enqueue_owner_thread(cpu, thread, EnqueueReason::Wake, now_ns, monotonic_now)
    }

    /// Why a thread cannot leave the run queue of a CPU.
    pub open spec fn dequeue_error(&self, cpu: CpuId, thread: ThreadId) -> Option<TaskError> {
        if !self.has_cpu(cpu) {
            Some(TaskError::InvalidCpu(cpu.index))
        } else if !self.online(cpu) {
            Some(TaskError::CpuOffline(cpu.index))
        } else {
            match self.record(thread) {
                None => Some(TaskError::StaleThreadId),
                Some(record) => if self.cpu(cpu).queue().member(thread) is None {
                    Some(TaskError::NotReady)
                } else if !record.placement.can_deactivate(cpu) || (self.cpu(
                    cpu,
                ).queue().nr_running == 0 && self.cpu(cpu).queue().member(thread) != Some(
                    QueueMembershipClass::DeadlineThrottled,
                )) {
                    Some(TaskError::InvalidConfiguration)
                } else {
                    None
                },
            }
        }
    }

    /// The record that left a run queue with its scheduling state.
    pub open spec fn unqueued(record: ThreadRecord, queue: &RunQueue) -> ThreadRecord {
        let back = returned(record, queue.record(record.id).active);
        ThreadRecord {
            placement: ThreadPlacementState {
                on_rq: TaskOnRunQueue::Off,
                migration_request: None,
                ..back.placement
            },
            ..back
        }
    }

    fn check_dequeue(&self, cpu: CpuId, thread: ThreadId) -> (error: Option<TaskError>)
        requires
            self.wf(),
        ensures
            error == self.dequeue_error(cpu, thread),
    {
        if let Err(error) = self.ensure_owner_cpu_online(cpu) {
            return Some(error);
        }
        let record = match self.thread_record(thread) {
            Ok(record) => record,
            Err(error) => {
                return Some(error);
            },
        };
        assert(self.cpus@[cpu.index as int].wf());
        let queue = &self.cpus[cpu.index as usize].remote.run_queue.queue;
        let class = match queue.membership_class(thread) {
            Some(class) => class,
            None => {
                return Some(TaskError::NotReady);
            },
        };
        let here = match record.placement.task_cpu {
            Some(assigned) => assigned == cpu,
            None => false,
        };
        if !here || record.placement.on_rq != TaskOnRunQueue::Queued
            || record.placement.on_cpu.is_some() {
            return Some(TaskError::InvalidConfiguration);
        }
        if queue.nr_running == 0 && class != QueueMembershipClass::DeadlineThrottled {
            return Some(TaskError::InvalidConfiguration);
        }
        None
    }

    /// Takes a waiting thread off the run queue of a CPU.
    pub fn dequeue(&mut self, cpu: CpuId, thread: ThreadId) -> (result: Result<(), TaskError>)
        requires
            old(self).wf(),
        ensures
            result == match old(self).dequeue_error(cpu, thread) {
                Some(error) => Err::<(), TaskError>(error),
                None => Ok(()),
            },
            result is Err ==> *final(self) == *old(self),
            result is Ok ==> exists|queue: RunQueue|
                #[trigger] queue.departed(&old(self).cpu(cpu).queue(), thread, true) && {
                    let left = with_queue(old(self).cpu(cpu), queue);
                    final(self).relinked(
                        old(self),
                        Self::unqueued(old(self).record(thread)->0, &old(self).cpu(cpu).queue()),
                        old(self).cpus@.update(
                            cpu.index as int,
                            left.with_remote(left.remote.showing_load()),
                        ),
                        old(self).root_domain,
                    )
                },
            final(self).wf(),
    {
        if let Some(error) = self.check_dequeue(cpu, thread) {
            return Err(error);
        }
        let ghost before = *self;
        let at: usize = cpu.index as usize;
        assert(before.cpus@[at as int].wf());
        proof {
            before.cpus@[at as int].queue().member_record(thread);
        }
        let mut record = self.take_record(thread);
        let ghost start = record;
        let removed = self.cpus[at].remote.run_queue.queue.deactivate_task(thread);
        let ghost queue = self.cpus@[at as int].queue();
        record.policy.active = Some(removed.unwrap().active);
        record.placement.deactivate(cpu);
        self.cpus[at].remote.publish_run_queue_load_summary();
        proof {
            assert(queue.departed(&before.cpu(cpu).queue(), thread, true));
            assert(self.cpus@ =~= before.cpus@.update(at as int, self.cpus@[at as int]));
            cpus_wf_after(before.cpus@, self.cpus@, at as int);
        }
        self.put_record(record);
        assert(self.slots@ =~= with_record(before.slots@, record));
        Ok(())
    }
}

} // verus!
