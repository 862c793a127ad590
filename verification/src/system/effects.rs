//! What the steps of the scheduler leave behind.
use vstd::prelude::*;
use crate::cpu::dispatch::{CurrentClassState, CurrentDispatch};
use crate::cpu::local::CpuLocal;
use crate::error::{TaskError, ThreadState};
use crate::ids::{CpuId, ThreadId};
use crate::scheduler::bandwidth::RootRtBandwidth;
use crate::scheduler::entity::{EnqueueReason, SchedulingEntity};
use crate::scheduler::realtime::{RT_PRIORITY_LEVELS, any_exempt};
use crate::scheduler::run_queue::{QueueMembershipClass, RtEligibility, RunQueue};
use crate::scheduler::task::{ActiveSchedulingState, PickedThread, index_of};
use crate::system::creation::PendingThread;
use crate::system::delivery::entry_noted;
use crate::system::exit::CurrentExitPermit;
use crate::system::inherit::{PiScheduleUpdate, heir, inheriting, told_of_change};
use crate::system::park::{ParkPrepare, SwitchReason, park_over, switch_plan};
use crate::system::pi_mutex::PiLockStep;
use crate::system::ready::{judged_at, queue_throttled};
use crate::system::restate::{SchedulePosition, redispatched};
use crate::system::switch::carried_on;
use crate::system::switch_in::rt_eligibility;
use crate::system::switch_out::{can_lift, runner_put_back};
use crate::system::task_system::TaskSystem;
use crate::system::wake::{nudged, push_pending};
use crate::scheduler::policy::{SchedulePolicy, SchedulerClass};
use crate::thread::pi::{
    OWNER_HAS_WAITERS, PiDonation, PiMutexId, PiWaitEntry, PiWaitRegistration, can_own, named_owner,
};
use crate::thread::record::{ThreadRecord, may_become};
use crate::time::MonotonicInstant;

verus! {

/// Real-time threads are held back only on a CPU that is limited and has used
/// its quota, and not while one of them holds a mutex that others wait for.
pub proof fn realtime_is_held_back_by_its_quota(local: CpuLocal)
    ensures
        rt_eligibility(local) == RtEligibility::Throttled ==> local.remote.run_queue.rt.enabled
            && local.remote.run_queue.rt.throttled && forall|p: int|
            0 <= p < RT_PRIORITY_LEVELS ==> !any_exempt(#[trigger] local.queue().rt.levels@[p]@),
        rt_eligibility(local) != RtEligibility::Throttled ==> !local.remote.run_queue.rt.enabled
            || !local.remote.run_queue.rt.throttled || exists|p: int|
            0 <= p < RT_PRIORITY_LEVELS && any_exempt(#[trigger] local.queue().rt.levels@[p]@),
        rt_eligibility(local) == RtEligibility::Throttled || rt_eligibility(local)
            == RtEligibility::Runnable,
{
}

/// The next edge of the period lies after the present and at most one period
/// ahead, a whole number of periods after the one that fired.
pub proof fn period_edges_stay_in_step(rt: RootRtBandwidth, now: MonotonicInstant)
    requires
        rt.wf(),
        rt.deadline is Some,
        now.ns >= (rt.deadline->0).ns,
    ensures
        rt.elapsed_periods(now) >= 1,
        now.ns < rt.next_edge(now) <= now.ns + rt.period_ns,
        rt.next_edge(now) == (rt.deadline->0).ns + rt.elapsed_periods(now) * rt.period_ns,
{
    let late = now.ns - (rt.deadline->0).ns;
    let period = rt.period_ns as int;
    assert((late / period) * period <= late < (late / period + 1) * period && late / period >= 0
        && (late / period + 1) * period == (late / period) * period + period) by (nonlinear_arith)
        requires
            late >= 0,
            period > 0,
    ;
}

/// A thread that announces a park gets a new ticket, unless a wake-up came
/// first: that is used up instead, and the thread runs on.
pub proof fn parks_are_announced(before: &TaskSystem, after: &TaskSystem, thread: ThreadId, result: Result<ParkPrepare, TaskError>)
    requires
        before.wf(),
        before.record(thread) is Some,
        after.park_announced(before, thread, result),
    ensures
        after.record(thread) is Some,
        ({
            let was = before.record(thread)->0;
            let new = after.record(thread)->0;
            &&& was.wake_pending ==> result == Ok::<ParkPrepare, TaskError>(ParkPrepare::Notified)
                && !new.wake_pending && new.lifecycle == was.lifecycle && new.park_generation
                == was.park_generation
            &&& result matches Ok(ParkPrepare::Prepared(ticket)) ==> !was.wake_pending
                && ticket.thread == thread && ticket.generation == was.park_generation + 1
                && !ticket.resolved && new.park_generation == ticket.generation && new.lifecycle
                == ThreadState::Parking && was.lifecycle == ThreadState::Running
            &&& !was.wake_pending && was.lifecycle == ThreadState::Running && was.park_generation
                < u64::MAX ==> result is Ok
            &&& new.placement == was.placement && new.policy == was.policy
        }),
{
    assert(before.slots@[thread.slot as int].wf_at(thread.slot as int));
}

/// A thread that gives up its park runs on; a wake-up that ended the park is
/// used up.
pub proof fn ended_parks_run_on(before: &TaskSystem, after: &TaskSystem, cpu: CpuId, thread: ThreadId, woken: bool, result: Result<(), TaskError>)
    requires
        before.wf(),
        before.record(thread) is Some,
        after.resumed_on(before, cpu, thread, woken, result),
    ensures
        after.record(thread) is Some,
        ({
            let was = before.record(thread)->0;
            let new = after.record(thread)->0;
            &&& result is Ok <==> was.lifecycle == ThreadState::Parking || was.lifecycle
                == ThreadState::Ready
            &&& result is Ok ==> new.lifecycle == ThreadState::Running
            &&& result is Err ==> new.lifecycle == was.lifecycle
            &&& woken ==> !new.wake_pending
            &&& !woken ==> new.wake_pending == was.wake_pending
            &&& new.placement == was.placement
        }),
{
    assert(before.slots@[thread.slot as int].wf_at(thread.slot as int));
}

/// What is decided at a switch: who leaves, who comes, why and when.
pub proof fn decisions_name_both_threads(previous: ThreadId, next: ThreadId, reason: SwitchReason, timestamp_ns: u64)
    ensures
        switch_plan(previous, next, reason, timestamp_ns).previous == Some(previous),
        switch_plan(previous, next, reason, timestamp_ns).next == next,
        switch_plan(previous, next, reason, timestamp_ns).switch_reason == reason,
        switch_plan(previous, next, reason, timestamp_ns).timestamp_ns == timestamp_ns,
{
}

/// A switch to another thread is kept in mind until the other has arrived; one
/// to the same thread is none.
pub proof fn switches_are_kept_in_mind(before: &TaskSystem, after: &TaskSystem, cpu: CpuId, previous: ThreadId, next: ThreadId)
    requires
        before.has_cpu(cpu),
        after.handoff_staged(before, cpu, previous, next),
    ensures
        previous == next ==> *after == *before,
        previous != next ==> {
            &&& after.cpu(cpu).switch_handoff matches Some(handoff)
            &&& handoff.previous == previous && handoff.migration is None
        },
        after.cpu(cpu).queue() == before.cpu(cpu).queue(),
        after.slots == before.slots,
{
}

/// An exit permit is good for the thread that still runs on its CPU, waits for
/// nothing and is waited for by nobody.
pub proof fn permits_are_for_the_running_thread(system: &TaskSystem, cpu: CpuId, permit: CurrentExitPermit)
    ensures
        system.permit_error(cpu, permit) is None <==> system.online(cpu) && system.cpu(cpu).current
            == Some(permit.thread) && system.record(permit.thread) is Some && (system.record(
            permit.thread,
        )->0).pi.blocked_on is None && (system.record(
            permit.thread,
        )->0).pi.donors.entries@.len() == 0,
{
}

/// A thread that was begun is finished only if its context could be made and,
/// for a Deadline thread, if it is still admitted.
pub proof fn begun_threads_are_checked_again(system: &TaskSystem, pending: &PendingThread, status: u32)
    ensures
        system.commit_error(pending, status) is None ==> (pending.has_context ==> status == 0) && (
        pending.policy is Deadline ==> system.root_domain.admission.reserved_scaled
            <= system.root_domain.admission.capacity() && (forall|cpu: CpuId|
            system.root_domain.online.has(cpu) ==> #[trigger] pending.affinity.has(cpu))),
        pending.has_context && status != 0 ==> system.commit_error(pending, status) == Some(
            TaskError::RuntimeFailure(status),
        ),
        !(pending.policy is Deadline) && (status == 0 || !pending.has_context)
            ==> system.commit_error(pending, status) is None,
{
}

/// A CPU is told of a newcomer that should run at once; one that renews its own
/// budget there asks for it itself.
pub proof fn preemption_is_told(cpu: CpuLocal, renews: bool, by: CpuId)
    ensures
        nudged(cpu, renews, false, by) == cpu,
        nudged(cpu, true, true, by).remote == cpu.remote.asked_to_reschedule(),
        nudged(cpu, false, true, by).remote == cpu.remote.told_to_reschedule(by),
{
}

/// A Deadline or real-time thread that cannot run at once is to be pushed to
/// another CPU; fair threads wait to be pulled.
pub proof fn urgent_threads_are_pushed(queue: &RunQueue)
    ensures
        push_pending(queue) <==> queue.pushable() == Some(SchedulerClass::Deadline)
            || queue.pushable() == Some(SchedulerClass::Realtime),
{
    reveal(RunQueue::pushable);
}

/// A newcomer is announced once: either the CPU is asked to reschedule for it,
/// or, if it has to wait and could run elsewhere, to push it.
pub proof fn newcomers_are_acted_on(local: CpuLocal, owner: CpuId, preempts: bool)
    ensures
        entry_noted(local, owner, EnqueueReason::Wake, true).remote
            == local.remote.asked_to_reschedule(),
        entry_noted(local, owner, EnqueueReason::Migrated, true).remote
            == local.remote.asked_to_reschedule(),
        entry_noted(local, owner, EnqueueReason::Yield, true) == local,
        !push_pending(&local.queue()) ==> entry_noted(local, owner, EnqueueReason::Wake, false)
            == local,
        push_pending(&local.queue()) ==> entry_noted(
            local,
            owner,
            EnqueueReason::Wake,
            false,
        ).remote == local.remote.kicked(owner),
{
}

/// Who runs and has its policy changed goes on under the new policy: its
/// reservation, its donor and its exemption are those of its record, and what
/// it has used is kept.
pub proof fn running_threads_change_policy(current: CurrentDispatch, record: ThreadRecord, active: ActiveSchedulingState)
    ensures
        ({
            let after = redispatched(current, &record, active);
            &&& after.thread == current.thread
            &&& after.accounted_until_ns == current.accounted_until_ns
            &&& after.charged_runtime_ns == current.charged_runtime_ns
            &&& after.deadline_donor == record.pi.deadline_donor
            &&& after.deadline_bandwidth_scaled == record.deadline.reservation_scaled
            &&& after.policy_generation == record.policy.dispatch_generation
            &&& after.rt_quota_exempt <==> record.pi.donor is Some && (active.policy is Fifo
                || active.policy is RoundRobin)
            &&& active.policy is Deadline || active.policy is Fifo || active.policy is RoundRobin
                ==> after.schedule == (CurrentClassState::Linked { policy: active.policy })
            &&& active.policy is Fair || active.policy is KernelStop ==> after.schedule
                == CurrentClassState::Owned(active)
        }),
{
}

/// Who inherits is noted in the record, with its donor, and every change is told
/// apart from the one before.
pub proof fn heirs_are_recorded(record: ThreadRecord, update: PiScheduleUpdate)
    requires
        record.policy.dispatch_generation < u64::MAX,
    ensures
        heir(record, update).pi.donor == update.donor,
        heir(record, update).pi.deadline_donor == update.deadline_donor,
        heir(record, update).policy.dispatch_generation == record.policy.dispatch_generation + 1,
        heir(record, update).policy.base == record.policy.base,
        heir(record, update).placement == record.placement,
        heir(record, update).pi.donors == record.pi.donors,
{
}

/// Who inherits starts afresh in the class of its donor and keeps its own state
/// for later; who inherits no more has just that.
pub proof fn own_state_is_kept_for_later(next: ActiveSchedulingState, state: ActiveSchedulingState, base: SchedulePolicy, update: PiScheduleUpdate, slice_ns: u64, now_ns: u64)
    requires
        inheriting(next, state, base, update, slice_ns, now_ns),
    ensures
        next.base_entity == state.base_entity,
        update.donor is None ==> next.policy == base && next.inherited is None && next.effective()
            == state.base_entity,
        update.donor is Some ==> next.policy == update.policy && next.inherited is Some,
        update.donor is Some && update.policy is Fifo ==> next.effective()
            == SchedulingEntity::Fifo,
        update.donor is Some && update.policy is RoundRobin ==> next.effective() == (
        SchedulingEntity::RoundRobin { remaining_quantum_ns: update.policy->quantum_ns }),
{
}

/// A CPU learns of what changed for one of its threads: of one that rests it has
/// work to do, for any other it reschedules.
pub proof fn changes_are_told(cpu: CpuLocal, by: CpuId)
    ensures
        told_of_change(cpu, SchedulePosition::Resting, by).remote == cpu.remote.asked_to_work(),
        told_of_change(cpu, SchedulePosition::Running, by).remote == cpu.remote.told_to_reschedule(
            by,
        ),
        told_of_change(cpu, SchedulePosition::Queued, by).remote == cpu.remote.told_to_reschedule(
            by,
        ),
{
}

/// A thread with a spent budget waits apart from those that can run, behind
/// those that came before it.
pub proof fn throttled_threads_wait_apart(after: &RunQueue, before: &RunQueue, record: ThreadRecord)
    requires
        queue_throttled(after, before, &record),
    ensures
        ({
            let apart = QueueMembershipClass::DeadlineThrottled;
            let list = after.list_of(apart);
            &&& list.len() == before.list_of(apart).len() + 1
            &&& list.last().id == record.id
            &&& list.drop_last() == before.list_of(apart)
            &&& after.nr_running == before.nr_running
            &&& after.current == before.current
        }),
{
    reveal(queue_throttled);
    let apart = QueueMembershipClass::DeadlineThrottled;
    assert(after.list_of(apart).drop_last() =~= before.list_of(apart));
}

/// A thread that yields goes behind its equals; one that was preempted keeps its
/// place in front.
pub proof fn yielding_goes_to_the_back(after: &RunQueue, before: &RunQueue, id: ThreadId, reason: EnqueueReason)
    requires
        runner_put_back(after, before, id, reason),
        before.member(id) matches Some(QueueMembershipClass::Realtime(_)),
        0 <= index_of(before.list_of(before.member(id)->0), id) < before.list_of(
            before.member(id)->0,
        ).len(),
    ensures
        ({
            let class = before.member(id)->0;
            let list = before.list_of(class);
            let at = index_of(list, id);
            &&& reason != EnqueueReason::Yield ==> after.list_of(class) == list
            &&& reason == EnqueueReason::Yield ==> after.list_of(class).last() == list[at]
                && after.list_of(class).drop_last() == list.remove(at)
            &&& after.nr_running == before.nr_running && after.membership@ == before.membership@
        }),
{
    reveal(runner_put_back);
    let class = before.member(id)->0;
    let list = before.list_of(class);
    let at = index_of(list, id);
    if reason == EnqueueReason::Yield {
        assert(after.list_of(class).drop_last() =~= list.remove(at));
    }
}

/// A thread that has to leave while its stack is in use is delivered when the
/// switch has ended: it is carried along, with its load.
pub proof fn leavers_are_carried_along(cpu: CpuId, picked: PickedThread, target: CpuId)
    ensures
        carried_on(cpu, picked, target, true, None) matches Some(delivery) && delivery.thread
            == picked.thread_id() && delivery.source == cpu && delivery.target == target
            && delivery.placement_demand == picked.thread_policy().load(),
        carried_on(cpu, picked, target, false, None) is None,
{
}

/// A thread queues up for a mutex behind the others, and is known to wait for
/// it; the mutex keeps its owner.
pub proof fn waiters_are_known(before: &TaskSystem, after: &TaskSystem, lock: PiMutexId, waiter: ThreadId, registration: PiWaitRegistration, donation: PiDonation)
    requires
        before.wf(),
        before.has_mutex(lock),
        before.record(waiter) is Some,
        after.waiter_queued(before, lock, waiter, registration, donation),
    ensures
        after.entries(lock) == before.entries(lock).push(
            PiWaitEntry { key: registration.key, donation },
        ),
        after.mutex(lock).owner == before.mutex(lock).owner,
        after.record(waiter) matches Some(record) && record.pi.blocked_on == Some(registration),
{
    assert(before.slots@[waiter.slot as int].wf_at(waiter.slot as int));
}

/// A mutex is taken only if it is free and nobody waits; its owner may not take
/// it again; and nobody waits for a thread that exits.
pub proof fn mutexes_are_asked_for_in_order(system: &TaskSystem, lock: PiMutexId, record: ThreadRecord)
    ensures
        ({
            let word = system.mutex(lock).owner;
            let step = system.word_step(lock, &record);
            &&& step == PiLockStep::Acquire <==> word == 0 && system.entries(lock).len() == 0
                && can_own(record.id)
            &&& word != 0 && named_owner(word) == Some(record.id) ==> step is Refused
            &&& step matches PiLockStep::Wait { owner } ==> word != 0 && owner == named_owner(word)
                && owner != Some(record.id) && (word >= OWNER_HAS_WAITERS) == (system.entries(
                lock,
            ).len() > 0)
            &&& step matches PiLockStep::Wait { owner: Some(owner) } ==> system.record(owner)
                is Some && !(system.record(owner)->0).exiting
        }),
{
}

/// Work for the task service is counted, so that the service sees that there is
/// some.
pub proof fn work_is_counted(system: TaskSystem)
    ensures
        system.work_published().task_work != system.task_work,
        system.task_work < u64::MAX ==> system.work_published().task_work == system.task_work + 1,
        system.work_published().slots == system.slots,
        system.work_published().cpus == system.cpus,
{
}

/// Fair threads are judged at the virtual time of their queue; for others there
/// is none.
pub proof fn fair_threads_are_judged_by_their_queue(queue: &RunQueue, entity: SchedulingEntity)
    ensures
        entity matches SchedulingEntity::Fair(fair) ==> judged_at(queue, entity)
            == queue.mode_time(fair.mode),
        !(entity is Fair) ==> judged_at(queue, entity) == 0,
{
}

/// When a park is over, its preemption is made up for if the thread runs on, and
/// dropped if it sleeps.
pub proof fn parks_end_at_the_doorbell(cpu: CpuLocal, resumes: bool)
    ensures
        park_over(cpu, resumes).remote.doorbell == cpu.remote.doorbell.park_finished(resumes),
        park_over(cpu, resumes).queue() == cpu.queue(),
        park_over(cpu, resumes).current == cpu.current,
{
}

/// A thread that is waiting for an exit to be completed is marked, and one whose
/// exit was refused is marked no more.
pub proof fn exits_are_marked(before: &TaskSystem, after: &TaskSystem, thread: ThreadId, exiting: bool)
    requires
        before.wf(),
        before.record(thread) is Some,
        after.exit_marked(before, thread, exiting),
    ensures
        after.record(thread) matches Some(record) && record.exiting == exiting && record.lifecycle
            == (before.record(thread)->0).lifecycle,
        after.cpus@ == before.cpus@,
{
    assert(before.slots@[thread.slot as int].wf_at(thread.slot as int));
}

/// The running thread can be taken off a CPU only if the CPU has its state.
pub proof fn running_threads_have_state(queue: &RunQueue, record: ThreadRecord)
    ensures
        can_lift(queue, &record) ==> queue.nr_running > 0 && queue.current is Some && (
        queue.current->0).thread == record.id,
        may_become(ThreadState::Running, ThreadState::Blocked),
{
}

} // verus!
