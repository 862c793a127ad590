//! A woken thread is held by the run queue of the CPU that was chosen for it.
use vstd::prelude::*;
use crate::error::ThreadState;
use crate::ids::{CpuId, ThreadId};
use crate::scheduler::entity::SchedulingEntity;
use crate::system::membership::{
    elsewhere_kept, joined_only, members_kept, taken_joins, wake_targets_exist,
};
use crate::system::ready::record_readied;
use crate::system::task_system::{TaskSystem, with_record};
use crate::system::wake::{
    can_take, following, preempts_there, pushes_after, renewed, renews_budget, runs_realtime,
    source_left,
};
use crate::thread::record::ThreadRecord;
use crate::time::MonotonicInstant;

verus! {

/// An announcement leaves the run queues as they are.
pub(crate) proof fn announcing_keeps(before: &TaskSystem, after: &TaskSystem, thread: ThreadId, target: CpuId, by: CpuId, renews: bool, preempts: bool, pushes: bool, period_started: bool)
    requires
        before.has_cpu(target),
        after.announced(before, thread, target, by, renews, preempts, pushes, period_started),
    ensures
        after.slots@ == before.slots@,
        members_kept(after.cpus@, before.cpus@),
{
    reveal(TaskSystem::announced);
}

/// A thread that leaves its old CPU changes no run queue.
pub(crate) proof fn releasing_keeps(before: &TaskSystem, after: &TaskSystem, record: ThreadRecord, target: CpuId, by: CpuId)
    requires
        record.deadline.owner matches Some(source) ==> source != target ==> before.has_cpu(source),
        after.source_released(before, record, target, by),
    ensures
        after.slots@ == with_record(
            before.slots@,
            following(ThreadRecord { lifecycle: ThreadState::Ready, ..record }, target),
        ),
        members_kept(after.cpus@, before.cpus@),
{
    reveal(TaskSystem::source_released);
    assert(source_left(after.cpus@, before.cpus@, &record, target, by));
}

/// The run queue that takes a woken thread holds it.
pub(crate) proof fn linking_joins(before: &TaskSystem, after: &TaskSystem, ready: ThreadRecord, target: CpuId, placed: SchedulingEntity, now_ns: u64, monotonic_now: MonotonicInstant) -> (woken: ThreadRecord)
    requires
        before.has_cpu(target),
        ready.placement.on_cpu is None,
        ready.id.slot < before.cpu(target).queue().membership@.len(),
        after.wakeup_linked(before, ready, target, placed, now_ns, monotonic_now),
    ensures
        woken.id == ready.id,
        woken.lifecycle == ready.lifecycle,
        woken.placement.queued_on() == Some(target),
        after.slots@ == with_record(before.slots@, woken),
        elsewhere_kept(after.cpus@, before.cpus@, target),
        joined_only(
            after.cpu(target).queue().membership@,
            before.cpu(target).queue().membership@,
            ready.id,
        ),
        after.cpu(target).queue().member(ready.id) is Some,
{
    reveal(TaskSystem::wakeup_linked);
    taken_joins(after.cpu(target), before.cpu(target), ready, placed, target, now_ns);
    record_readied(renewed(ready, now_ns), target, placed)
}

/// A wake-up leaves every mutex as it is.
pub(crate) proof fn waking_keeps_mutexes(before: &TaskSystem, after: &TaskSystem, thread: ThreadId, preferred: Option<CpuId>, by: CpuId, now_ns: u64, monotonic_now: MonotonicInstant)
    requires
        after.woken(before, thread, preferred, by, now_ns, monotonic_now),
    ensures
        after.mutexes@ == before.mutexes@,
{
    reveal(TaskSystem::woken_on);
    reveal(TaskSystem::source_released);
    reveal(TaskSystem::wakeup_linked);
    reveal(TaskSystem::announced);
}

/// A wake-up that finds its thread asleep makes it ready, and puts it on the
/// run queue of the CPU that was chosen for it.
pub proof fn woken_threads_wait_to_run(before: &TaskSystem, after: &TaskSystem, thread: ThreadId, preferred: Option<CpuId>, by: CpuId, now_ns: u64, monotonic_now: MonotonicInstant, target: CpuId)
    requires
        before.wf(),
        before.wake_outcome(thread, preferred, now_ns).1 == Some(target),
        after.woken(before, thread, preferred, by, now_ns, monotonic_now),
    ensures
        after.cpu(target).queue().member(thread) is Some,
        after.record(thread) matches Some(woken) && woken.lifecycle == ThreadState::Ready
            && woken.placement.queued_on() == Some(target),
{
    reveal(can_take);
    reveal(TaskSystem::woken_on);
    let record = before.record(thread)->0;
    assert(before.slots@[thread.slot as int].wf_at(thread.slot as int));
    wake_targets_exist(before, record, preferred);
    let ready = following(ThreadRecord { lifecycle: ThreadState::Ready, ..record }, target);
    let (left, linked, placed) = choose|left: TaskSystem, linked: TaskSystem, placed: SchedulingEntity|
        #[trigger] left.source_released(before, record, target, by)
            && #[trigger] linked.wakeup_linked(&left, ready, target, placed, now_ns, monotonic_now)
            && after.announced(
            &linked,
            ready.id,
            target,
            by,
            renews_budget(&ready),
            preempts_there(linked.cpu(target), &ready, placed, now_ns),
            pushes_after(linked.cpu(target), &ready, placed, now_ns),
            runs_realtime(&ready, now_ns) && before.root_domain.rt_starts(),
        );
    releasing_keeps(before, &left, record, target, by);
    let woken = linking_joins(&left, &linked, ready, target, placed, now_ns, monotonic_now);
    announcing_keeps(
        &linked,
        after,
        ready.id,
        target,
        by,
        renews_budget(&ready),
        preempts_there(linked.cpu(target), &ready, placed, now_ns),
        pushes_after(linked.cpu(target), &ready, placed, now_ns),
        runs_realtime(&ready, now_ns) && before.root_domain.rt_starts(),
    );
    assert(after.record(thread) == Some(woken));
    assert(after.cpu(target).queue().membership@ == linked.cpu(target).queue().membership@);
}

} // verus!
