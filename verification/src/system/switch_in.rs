//! Choosing what a CPU runs next.
use vstd::prelude::*;
use crate::cpu::dispatch::CurrentClassState;
use crate::cpu::local::CpuLocal;
use crate::error::ThreadState;
use crate::ids::CpuId;
use crate::scheduler::fair::{fair_choice, mean_time};
use crate::scheduler::realtime::{RT_PRIORITY_LEVELS, any_exempt};
use crate::scheduler::run_queue::{QueueMembershipClass, RtEligibility, RunQueue};
use crate::scheduler::task::{ActiveSchedulingState, PickedThread, index_of_is_unique};
use crate::system::affinity::shown;
use crate::system::bandwidth::{can_detach, detach_deadline_bandwidth, detached, ledger_detached};
use crate::system::creation::{dispatch_of, owner_dispatch};
use crate::system::migration::{capture_owner_fair_migration, captured};
use crate::system::ready::returned;
use crate::system::task_system::{TaskSystem, with_queue};
use crate::thread::placement::{TaskOnRunQueue, ThreadPlacementState};
use crate::thread::record::ThreadRecord;

verus! {

/// Whether the real-time class of a CPU may run. One thread that the quota does
/// not bind keeps the whole class runnable.
pub open spec fn rt_eligibility(local: CpuLocal) -> RtEligibility {
    let rt = local.remote.run_queue.rt;
    let exempt = exists|i: int|
        0 <= i < RT_PRIORITY_LEVELS && any_exempt(#[trigger] local.queue().rt.levels@[i]@);
    if !rt.enabled || exempt || !rt.throttled {
        RtEligibility::Runnable
    } else {
        RtEligibility::Throttled
    }
}

/// The scheduling state of a selected thread.
pub open spec fn picked_state(queue: &RunQueue, picked: PickedThread) -> ActiveSchedulingState {
    match picked {
        PickedThread::Linked(snapshot) => queue.record(snapshot.id).active,
        PickedThread::Owned(thread) => thread.active,
    }
}

/// A selection and the queue it was made from agree.
pub open spec fn picked_ok(queue: &RunQueue, picked: PickedThread) -> bool {
    &&& picked_state(queue, picked).wf()
    &&& picked.thread_policy() == picked_state(queue, picked).policy
    &&& match picked {
        PickedThread::Linked(snapshot) => queue.member(snapshot.id) is Some,
        PickedThread::Owned(thread) => {
            &&& QueueMembershipClass::home(thread.active.policy).fits(thread)
            &&& thread.id.slot < queue.membership@.len()
            &&& queue.membership@[thread.id.slot as int] is None
            &&& thread.active.policy is KernelStop ==> queue.stop is None
        },
    }
}

/// Selects the next thread of a CPU.
pub fn pick(local: &mut CpuLocal) -> (picked: Option<PickedThread>)
    requires
        old(local).wf(),
    ensures
        final(local).queue().picks(&old(local).queue(), rt_eligibility(*old(local)), picked),
        *final(local) == with_queue(*old(local), final(local).queue()),
        picked matches Some(picked) ==> picked_ok(&final(local).queue(), picked),
        final(local).wf(),
{
    let exempt = local.remote.run_queue.queue.has_exempt_rt();
    let eligibility = if local.remote.run_queue.rt.may_run(exempt) {
        RtEligibility::Runnable
    } else {
        RtEligibility::Throttled
    };
    let ghost before = local.queue();
    let picked = local.remote.run_queue.queue.pick_next_task(eligibility);
    proof {
        selection_is_consistent(&local.queue(), &before, eligibility, picked);
    }
    picked
}

proof fn selection_is_consistent(after: &RunQueue, before: &RunQueue, eligibility: RtEligibility, picked: Option<PickedThread>)
    requires
        before.wf(),
        after.wf(),
        after.picks(before, eligibility, picked),
    ensures
        picked matches Some(picked) ==> picked_ok(after, picked),
        after.current == before.current,
        after.deadline.bandwidth == before.deadline.bandwidth,
{
    reveal(RunQueue::picks);
    if before.stop is Some {
        let stopper = before.stop->0;
        assert(before.list_of(QueueMembershipClass::Stop)[0] == stopper);
        assert(before.record_ok(QueueMembershipClass::Stop, 0));
        assert(after.list_of(QueueMembershipClass::Stop).len() == 0);
    } else if before.deadline.entries@.len() > 0 {
        let at = before.deadline.choice()->0;
        assert(before.list_of(QueueMembershipClass::Deadline)[at].id
            == before.deadline.entries@[at].id);
        assert(before.record_ok(QueueMembershipClass::Deadline, at));
        let id = before.deadline.entries@[at].id;
        index_of_is_unique(
            before.list_of(QueueMembershipClass::Deadline),
            id,
            at,
        );
    } else if eligibility == RtEligibility::Runnable && before.has_rt_thread() {
        let snapshot = (picked->0)->Linked_0;
        let p = choose|p: u8| #![trigger before.rt.level(p)]
            1 <= p <= 99 && before.rt.level(p).len() > 0 && snapshot
                == before.rt.level(p)[0].snapshot() && forall|i: int|
                p <= i < RT_PRIORITY_LEVELS ==> (#[trigger] before.rt.levels@[i])@.len() == 0;
        assert(before.list_of(QueueMembershipClass::Realtime(p))[0] == before.rt.level(p)[0]);
        assert(before.record_ok(QueueMembershipClass::Realtime(p), 0));
        before.lists_are_distinct(QueueMembershipClass::Realtime(p));
        index_of_is_unique(
            before.list_of(QueueMembershipClass::Realtime(p)),
            before.rt.level(p)[0].id,
            0,
        );
    } else if before.fair.entries@.len() > 0 {
        let now = mean_time(
            before.fair.entries@,
            before.fair.virtual_time,
            None,
        );
        let at = fair_choice(before.fair.entries@, now)->0;
        assert(before.record_ok(QueueMembershipClass::Fair, at));
    } else if before.idle_fair.entries@.len() > 0 {
        let now = mean_time(
            before.idle_fair.entries@,
            before.idle_fair.virtual_time,
            None,
        );
        let at = fair_choice(before.idle_fair.entries@, now)->0;
        assert(before.record_ok(QueueMembershipClass::IdleFair, at));
    }
}

/// The schedule under which a selected thread runs.
pub open spec fn picked_schedule(picked: PickedThread) -> CurrentClassState {
    match picked {
        PickedThread::Linked(snapshot) => CurrentClassState::Linked { policy: snapshot.policy },
        PickedThread::Owned(thread) => CurrentClassState::Owned(thread.active),
    }
}

/// The record of a thread that runs.
pub open spec fn set_running(record: ThreadRecord, cpu: CpuId) -> ThreadRecord {
    ThreadRecord {
        lifecycle: ThreadState::Running,
        placement: ThreadPlacementState { on_cpu: Some(cpu), ..record.placement },
        ..record
    }
}

/// The CPU that runs a selected thread.
pub open spec fn running_picked(after: CpuLocal, before: CpuLocal, record: &ThreadRecord, cpu: CpuId, picked: PickedThread, now_ns: u64) -> bool {
    exists|queue: RunQueue|
        #[trigger] queue.next_set(&before.queue(), picked) && after == shown(
            with_queue(before, queue).dispatching(
                dispatch_of(
                    &set_running(*record, cpu),
                    picked_schedule(picked),
                    picked.thread_policy(),
                    now_ns,
                ),
            ).occupied(record.id),
        )
}

/// Lets a selected thread run.
pub fn run_picked(local: &mut CpuLocal, record: &mut ThreadRecord, cpu: CpuId, picked: PickedThread, now_ns: u64)
    requires
        old(local).wf(),
        old(record).wf(),
        picked_ok(&old(local).queue(), picked),
        picked.thread_id() == old(record).id,
        old(record).placement.can_set_next(cpu),
    ensures
        running_picked(*final(local), *old(local), old(record), cpu, picked, now_ns),
        *final(record) == set_running(*old(record), cpu),
        final(local).remote.owner == old(local).remote.owner,
        final(local).wf(),
        final(record).wf(),
{
    local.remote.run_queue.queue.set_next_task(&picked);
    let ghost queue = local.queue();
    record.placement.set_next_task(cpu);
    record.lifecycle = ThreadState::Running;
    let schedule = match picked {
        PickedThread::Linked(snapshot) => CurrentClassState::Linked { policy: snapshot.policy },
        PickedThread::Owned(thread) => CurrentClassState::Owned(thread.active),
    };
    let dispatch = owner_dispatch(record, schedule, picked.policy(), now_ns);
    local.install_dispatch(dispatch);
    local.set_current_thread(record.id);
    local.remote.publish_run_queue_load_summary();
    proof {
        assert(queue.next_set(&old(local).queue(), picked));
    }
}

/// The queue without a selected thread that will not run here.
pub open spec fn picked_dropped(after: &RunQueue, before: &RunQueue, picked: PickedThread) -> bool {
    match picked {
        PickedThread::Linked(snapshot) => after.departed(before, snapshot.id, true),
        PickedThread::Owned(_) => *after == (RunQueue {
            nr_running: (before.nr_running - 1) as usize,
            ..*before
        }),
    }
}

/// Takes a selected thread off the run queue.
fn drop_picked(queue: &mut RunQueue, picked: PickedThread) -> (active: ActiveSchedulingState)
    requires
        old(queue).wf(),
        picked_ok(old(queue), picked),
        old(queue).nr_running > 0,
    ensures
        picked_dropped(final(queue), old(queue), picked),
        active == picked_state(old(queue), picked),
        active.wf(),
        final(queue).current == old(queue).current,
        final(queue).same_ledger(old(queue)),
        final(queue).wf(),
{
    match picked {
        PickedThread::Linked(snapshot) => {
            proof {
                queue.member_record(snapshot.id);
            }
            queue.deactivate_task(snapshot.id).unwrap().active
        },
        PickedThread::Owned(thread) => {
            queue.deactivate_unlinked_current(thread.id);
            thread.active
        },
    }
}

/// The record of a selected thread that is sent to another CPU. The stack of the
/// outgoing thread is still in use: its reservation leaves with it later.
pub open spec fn picked_away(record: ThreadRecord, active: ActiveSchedulingState, target: CpuId, outgoing: bool) -> ThreadRecord {
    let held = if outgoing {
        record
    } else {
        detached(record)
    };
    TaskSystem::handed_over(returned(held, active), target)
}

/// The queue that a selected thread left for another CPU.
pub open spec fn picked_sent(after: &RunQueue, before: &RunQueue, record: &ThreadRecord, picked: PickedThread, outgoing: bool) -> bool {
    exists|dropped: RunQueue|
        #[trigger] picked_dropped(&dropped, before, picked) && if outgoing {
            *after == dropped
        } else {
            ledger_detached(after, &dropped, record)
        }
}

/// Sends a selected thread to another CPU.
pub fn send_picked(local: &mut CpuLocal, record: &mut ThreadRecord, cpu: CpuId, picked: PickedThread, target: CpuId, outgoing: bool, granularity_ns: u64) -> (queue: Ghost<RunQueue>)
    requires
        old(local).wf(),
        old(record).wf(),
        picked_ok(&old(local).queue(), picked),
        old(local).queue().nr_running > 0,
        old(record).placement.can_begin_migration(cpu, target),
        !outgoing ==> can_detach(&old(local).queue(), old(record), cpu),
    ensures
        picked_sent(&queue@, &old(local).queue(), old(record), picked, outgoing),
        *final(local) == with_queue(*old(local), queue@),
        *final(record) == picked_away(
            *old(record),
            captured(picked_state(&old(local).queue(), picked), &queue@, granularity_ns),
            target,
            outgoing,
        ),
        final(local).remote.owner == old(local).remote.owner,
        final(local).wf(),
        final(record).wf(),
{
    let active = drop_picked(&mut local.remote.run_queue.queue, picked);
    let ghost dropped = local.queue();
    if !outgoing {
        detach_deadline_bandwidth(&mut local.remote.run_queue.queue, record, cpu);
    }
    let ghost queue = local.queue();
    let moved = capture_owner_fair_migration(
        active,
        &local.remote.run_queue.queue,
        granularity_ns,
    );
    record.policy.active = Some(moved);
    record.placement.begin_migration(cpu, target);
    record.wake_cpu_hint = Some(target);
    proof {
        assert(picked_dropped(&dropped, &old(local).queue(), picked));
    }
    Ghost(queue)
}

/// The record of an idle thread that runs.
pub open spec fn set_idling(record: ThreadRecord, cpu: CpuId) -> ThreadRecord {
    ThreadRecord {
        lifecycle: if record.lifecycle == ThreadState::Ready {
            ThreadState::Running
        } else {
            record.lifecycle
        },
        placement: ThreadPlacementState {
            task_cpu: if record.placement.queued_on() is None {
                Some(cpu)
            } else {
                record.placement.task_cpu
            },
            on_rq: TaskOnRunQueue::Queued,
            migration_request: if record.placement.queued_on() is None
                && record.placement.migration_request == Some(cpu) {
                None
            } else {
                record.placement.migration_request
            },
            on_cpu: Some(cpu),
            ..record.placement
        },
        ..record
    }
}

/// Whether the idle thread of a CPU can run.
pub open spec fn can_idle(record: &ThreadRecord, cpu: CpuId) -> bool {
    &&& record.policy.active is Some
    &&& record.placement.on_cpu is None || record.placement.on_cpu == Some(cpu)
    &&& match record.placement.queued_on() {
        Some(queued) => queued == cpu,
        None => record.placement.can_activate(cpu),
    }
}

pub fn may_idle(record: &ThreadRecord, cpu: CpuId) -> (may: bool)
    ensures
        may == can_idle(record, cpu),
{
    if record.policy.active.is_none() {
        return false;
    }
    let here = match record.placement.on_cpu {
        Some(on_cpu) => on_cpu == cpu,
        None => true,
    };
    if !here {
        return false;
    }
    match record.placement.queued_cpu() {
        Some(queued) => queued == cpu,
        None => {
            let assigned = match record.placement.task_cpu {
                Some(assigned) => assigned == cpu,
                None => false,
            };
            record.placement.on_cpu.is_none() && match record.placement.on_rq {
                TaskOnRunQueue::Off => true,
                TaskOnRunQueue::Migrating => assigned,
                TaskOnRunQueue::Queued => false,
            }
        },
    }
}

/// The CPU that idles.
pub open spec fn idling(before: CpuLocal, record: &ThreadRecord, cpu: CpuId, now_ns: u64) -> CpuLocal {
    let active = record.policy.active->0;
    shown(
        before.dispatching(
            dispatch_of(
                &set_idling(*record, cpu),
                CurrentClassState::Idle(active),
                active.policy,
                now_ns,
            ),
        ).occupied(record.id),
    )
}

/// Lets the idle thread run.
pub fn run_idle(local: &mut CpuLocal, record: &mut ThreadRecord, cpu: CpuId, now_ns: u64)
    requires
        old(local).wf(),
        old(record).wf(),
        can_idle(old(record), cpu),
    ensures
        *final(local) == idling(*old(local), old(record), cpu, now_ns),
        *final(record) == set_idling(*old(record), cpu),
        final(local).remote.owner == old(local).remote.owner,
        final(local).wf(),
        final(record).wf(),
{
    if record.lifecycle == ThreadState::Ready {
        record.lifecycle = ThreadState::Running;
    }
    if record.placement.queued_cpu().is_none() {
        record.placement.activate(cpu);
    }
    if record.placement.on_cpu.is_none() {
        record.placement.set_next_task(cpu);
    }
    let active = record.policy.active.unwrap();
    let dispatch = owner_dispatch(
        record,
        CurrentClassState::Idle(active),
        active.policy,
        now_ns,
    );
    local.install_dispatch(dispatch);
    local.set_current_thread(record.id);
    local.remote.publish_run_queue_load_summary();
}

} // verus!
