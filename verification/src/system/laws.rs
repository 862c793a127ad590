//! What holds of the scheduler as a whole.
use vstd::prelude::*;
use crate::cpu::doorbell::SchedulerRequestClaim;
use crate::cpu::handoff::SwitchHandoff;
use crate::cpu::local::CpuLocal;
use crate::error::{TaskError, ThreadState};
use crate::ids::{CpuId, ThreadId};
use crate::scheduler::entity::{EnqueueReason, SchedulingEntity};
use crate::scheduler::policy::{FairMode, SchedulePolicy};
use crate::scheduler::task::ActiveSchedulingState;
use crate::system::exit::{held_reservation, left_for_good};
use crate::system::inherit::resolved;
use crate::system::membership::entering_is_sound;
use crate::system::park::{ParkCommit, ParkStep, ParkTicket, fell_asleep};
use crate::system::pi_mutex::PiMutexLockResult;
use crate::system::policy::{policy_applied_on, reservation_moved};
use crate::system::restate::SchedulePosition;
use crate::system::switch_out::lifted;
use crate::system::switch_tail::stack_left;
use crate::system::task_system::{TaskSystem, with_record};
use crate::system::wake::WakeResult;
use crate::thread::pi::{PiMutexId, PiWaitEntry, named_owner};
use crate::thread::placement::TaskOnRunQueue;
use crate::thread::record::{PendingPolicyUpdate, ThreadRecord};
use crate::time::MonotonicInstant;

verus! {

/// A record that was put into the registry is the one that is found there.
pub proof fn records_are_found(before: &TaskSystem, after: &TaskSystem, thread: ThreadId, record: ThreadRecord)
    requires
        before.wf(),
        before.record(thread) is Some,
        record.id == thread,
        after.slots@ == with_record(before.slots@, record),
    ensures
        after.record(thread) == Some(record),
{
    assert(before.slots@[thread.slot as int].wf_at(thread.slot as int));
}

/// Only ordinary fair work is sent to a CPU that has less to do. Any other
/// thread that is made runnable on a CPU on which it may run is queued there.
pub proof fn other_classes_become_ready_locally(before: &TaskSystem, after: &TaskSystem, cpu: CpuId, thread: ThreadId, now_ns: u64, monotonic_now: MonotonicInstant)
    requires
        before.wf(),
        before.queues_sound(),
        before.record(thread) matches Some(record) && record.placement.affinity.has(cpu) && {
            let policy = (record.policy.active->0).policy;
            policy is Fair ==> policy->Fair_mode == FairMode::Idle
        },
        after.placed_ready(before, cpu, thread, now_ns, monotonic_now, Ok(())),
    ensures
        after.cpu(cpu).queue().member(thread) is Some,
        after.record(thread) matches Some(record) && record.placement.queued_on() == Some(cpu),
{
    entering_is_sound(before, after, cpu, thread, EnqueueReason::Wake, now_ns, monotonic_now);
}

/// A wake-up is not lost: a thread that is woken after it announced a park does
/// not block.
pub proof fn woken_threads_do_not_block(
    before: &TaskSystem,
    woken: &TaskSystem,
    after: &TaskSystem,
    cpu: CpuId,
    thread: ThreadId,
    preferred: Option<CpuId>,
    by: CpuId,
    claim: SchedulerRequestClaim,
    now_ns: u64,
    monotonic_now: MonotonicInstant,
    result: Result<ParkCommit, TaskError>,
)
    requires
        before.wf(),
        before.record(thread) matches Some(record) && record.lifecycle == ThreadState::Parking
            && !record.exiting,
        woken.woken(before, thread, preferred, by, now_ns, monotonic_now),
        after.park_closed(woken, cpu, thread, claim, now_ns, result),
    ensures
        before.wake_outcome(thread, preferred, now_ns).0 != WakeResult::Unavailable,
        woken.record(thread) matches Some(record) && record.wake_pending,
        !(result matches Ok(ParkCommit::Blocked(_))),
        result == Ok::<ParkCommit, TaskError>(ParkCommit::Notified),
{
    let record = before.record(thread)->0;
    assert(before.slots@[thread.slot as int].wf_at(thread.slot as int));
    if !record.wake_pending {
        records_are_found(before, woken, thread, TaskSystem::wake_noted(record));
    } else {
        assert(woken.slots@ == before.slots@);
    }
    assert(woken.park_step(cpu, thread) == ParkStep::Resume);
}

/// A ticket is good for one park: once a park was made good or withdrawn, the
/// same ticket is refused and nothing changes.
pub proof fn tickets_are_spent_once(before: &TaskSystem, after: &TaskSystem, cpu: CpuId, ticket: ParkTicket, now_ns: u64, monotonic_now: MonotonicInstant, result: Result<ParkCommit, TaskError>)
    requires
        before.has_cpu(cpu),
        ticket.resolved,
        after.park_committed(before, cpu, ticket, now_ns, monotonic_now, result),
    ensures
        result == Err::<ParkCommit, TaskError>(TaskError::StaleThreadId),
        *after == *before,
{
}

/// A thread that blocked is on no run queue, and its CPU runs nothing until it
/// has chosen the next thread.
pub proof fn blocked_threads_wait_nowhere(before: &TaskSystem, after: &TaskSystem, cpu: CpuId, thread: ThreadId, now_ns: u64)
    requires
        before.wf(),
        before.has_cpu(cpu),
        before.park_step(cpu, thread) == ParkStep::Sleep,
        after.asleep_on(before, cpu, thread, now_ns),
    ensures
        after.record(thread) matches Some(record) && record.lifecycle == ThreadState::Blocked
            && record.placement.on_rq == TaskOnRunQueue::Off && record.policy.active is Some,
        after.cpu(cpu).current is None,
        after.cpu(cpu).queue().current is None,
        after.cpu(cpu).queue().nr_running < before.cpu(cpu).queue().nr_running,
{
    assert(before.slots@[thread.slot as int].wf_at(thread.slot as int));
    let record = before.record(thread)->0;
    reveal(fell_asleep);
    reveal(lifted);
    let (local, settled) = choose|local: CpuLocal, settled: ThreadRecord|
        #[trigger] fell_asleep(
            local,
            settled,
            before.cpu(cpu),
            record,
            cpu,
            now_ns,
            before.config.timing_granularity_ns,
        ) && after.relinked(
            before,
            settled,
            before.cpus@.update(cpu.index as int, local),
            before.root_domain,
        );
    records_are_found(before, after, thread, settled);
}

/// A thread that exited holds no bandwidth and is on no run queue; it waits to
/// be reclaimed.
pub proof fn exited_threads_hold_nothing(before: &TaskSystem, after: &TaskSystem, cpu: CpuId, thread: ThreadId)
    requires
        before.wf(),
        before.has_cpu(cpu),
        before.can_leave(cpu, thread),
        after.exited_on(before, cpu, thread),
    ensures
        after.record(thread) matches Some(record) && record.lifecycle == ThreadState::Exited
            && record.placement.on_rq == TaskOnRunQueue::Off && record.deadline.owner is None
            && record.deadline.reservation_scaled == 0 && record.policy.pending is None,
        after.exited@ == before.exited@.push(thread),
{
    assert(before.slots@[thread.slot as int].wf_at(thread.slot as int));
    let record = before.record(thread)->0;
    reveal(TaskSystem::exited_on);
    reveal(left_for_good);
    let (local, settled, left, queued) = choose|
        local: CpuLocal,
        settled: ThreadRecord,
        left: TaskSystem,
        queued: TaskSystem,
    |
        #[trigger] left_for_good(local, settled, before.cpu(cpu), record)
            && #[trigger] left.relinked(
            before,
            settled,
            before.cpus@.update(cpu.index as int, local),
            before.root_domain,
        ) && #[trigger] queued.awaits_reclaim(&left, thread) && after.admission_exchanged(
            &queued,
            held_reservation(&record),
            0,
        );
    records_are_found(before, &left, thread, settled);
}

/// Nobody can wake an exited thread, and the attempt changes nothing.
pub proof fn exited_threads_stay_exited(before: &TaskSystem, after: &TaskSystem, thread: ThreadId, preferred: Option<CpuId>, by: CpuId, now_ns: u64, monotonic_now: MonotonicInstant)
    requires
        before.record(thread) matches Some(record) && record.lifecycle == ThreadState::Exited,
        after.woken(before, thread, preferred, by, now_ns, monotonic_now),
    ensures
        before.wake_outcome(thread, preferred, now_ns).0 == WakeResult::Exited,
        after.unchanged(before),
{
}

/// A thread that is woken while its stack is still in use is made runnable when
/// the switch ends, not before.
pub proof fn wakeups_wait_for_the_stack(before: &TaskSystem, after: &TaskSystem, thread: ThreadId, preferred: Option<CpuId>, by: CpuId, now_ns: u64, monotonic_now: MonotonicInstant)
    requires
        before.wf(),
        before.record(thread) matches Some(record) && record.lifecycle == ThreadState::Blocked
            && record.placement.on_cpu is Some && !record.exiting && !record.wake_pending,
        after.woken(before, thread, preferred, by, now_ns, monotonic_now),
    ensures
        before.wake_outcome(thread, preferred, now_ns).0 == WakeResult::Notified,
        after.record(thread) matches Some(record) && record.lifecycle == ThreadState::Waking
            && record.placement == (before.record(thread)->0).placement,
        after.tail_wake_target(thread, now_ns) is None,
        after.cpus@ == before.cpus@,
{
    assert(before.slots@[thread.slot as int].wf_at(thread.slot as int));
    records_are_found(before, after, thread, TaskSystem::wake_noted(before.record(thread)->0));
}

/// The stack of a thread that a switch left behind is free once the switch has
/// ended, and the thread is where it was to go.
pub proof fn ended_switches_free_the_stack(before: &TaskSystem, after: &TaskSystem, cpu: CpuId, handoff: SwitchHandoff)
    requires
        before.wf(),
        before.has_cpu(cpu),
        before.tail_error(cpu, handoff) is None,
        after.previous_left(before, cpu, handoff),
    ensures
        after.record(handoff.previous) matches Some(record) && record.placement.on_cpu is None
            && record.placement.task_cpu == (before.record(
            handoff.previous,
        )->0).placement.task_cpu && (handoff.target_cpu() is Some ==> record.deadline.owner is None
            && record.placement.migrating_to() == handoff.target_cpu()),
        after.cpu(cpu).switch_handoff is None,
{
    let thread = handoff.previous;
    assert(before.slots@[thread.slot as int].wf_at(thread.slot as int));
    reveal(TaskSystem::previous_left);
    records_are_found(
        before,
        after,
        thread,
        stack_left(before.record(thread)->0, handoff.target_cpu()),
    );
}

/// A policy that was applied is the thread's own, and no change waits.
pub proof fn applied_policies_are_in_force(
    after: CpuLocal,
    settled: ThreadRecord,
    before: CpuLocal,
    record: ThreadRecord,
    pending: PendingPolicyUpdate,
    owner: CpuId,
    position: SchedulePosition,
    next: ActiveSchedulingState,
)
    requires
        policy_applied_on(after, settled, before, record, pending, owner, position, next),
        record.policy.dispatch_generation < u64::MAX,
    ensures
        settled.id == record.id,
        settled.policy.base == pending.policy,
        settled.policy.effective == next.policy,
        settled.policy.pending is None,
        settled.policy.dispatch_generation == record.policy.dispatch_generation + 1,
        settled.deadline.reservation_scaled == pending.reservation_scaled,
{
    reveal(policy_applied_on);
    reveal(reservation_moved);
}

/// A thread never queues up for a mutex that it owns, nor for two at once.
pub proof fn waits_are_sound(before: &TaskSystem, after: &TaskSystem, lock: PiMutexId, waiter: ThreadId, sequence: u64, now_ns: u64, by: CpuId, result: Result<PiMutexLockResult, TaskError>)
    requires
        before.wf(),
        before.record(waiter) matches Some(record) && (record.pi.blocked_on is Some || (
        before.has_mutex(lock) && named_owner(before.mutex(lock).owner) == Some(waiter))),
        after.slowly_locked(before, lock, waiter, sequence, now_ns, by, result),
    ensures
        result is Err,
        *after == *before,
{
    assert(before.slots@[waiter.slot as int].wf_at(waiter.slot as int));
}

/// What a thread inherits is never worse than its own: it inherits only from a
/// waiter that is more urgent, and else runs as itself.
pub proof fn inheritance_only_helps(base: SchedulePolicy, entity: SchedulingEntity, top: Option<PiWaitEntry>)
    ensures
        ({
            let update = resolved(base, entity, top);
            &&& update.donor is None ==> update.policy == base && update.deadline_donor is None
            &&& update.donor is Some ==> top is Some
                && top->0.donation.boost_urgency.before(entity.urgency(base)) && update.donor
                == Some(top->0.donation.root)
        }),
{
}

/// A stopper inherits nothing, and no Deadline thread becomes a real-time or a
/// fair one by inheritance.
pub proof fn inheritance_keeps_the_class_order(base: SchedulePolicy, entity: SchedulingEntity, top: Option<PiWaitEntry>)
    ensures
        base is KernelStop && !(top matches Some(top) && top.donation.policy is Deadline)
            ==> resolved(base, entity, top).policy == base,
        base is Deadline ==> resolved(base, entity, top).policy is Deadline,
        resolved(base, entity, top).policy is Fair ==> base is Fair,
{
}

} // verus!
