//! Each thread that a run queue holds is placed there by its record, and so no
//! thread is on two run queues.
use vstd::prelude::*;
use crate::cpu::handoff::{PreparedMigrationDelivery, SwitchHandoff};
use crate::cpu::local::CpuLocal;
use crate::error::{TaskError, ThreadState};
use crate::ids::{CpuId, ThreadId};
use crate::scheduler::entity::{EnqueueReason, SchedulingEntity};
use crate::scheduler::fair::{fair_choice, mean_time};
use crate::scheduler::realtime::RT_PRIORITY_LEVELS;
use crate::scheduler::run_queue::{QueueMembership, QueueMembershipClass, RtEligibility, RunQueue};
use crate::scheduler::task::{ActiveSchedulingState, PickedThread, QueuedThread};
use crate::system::affinity::{
    AffinityStep, bound_for, departing, sent_away, shown, staying, wanting,
};
use crate::system::delivery::{
    entered, entering, enters_ahead, entry_noted, linked, received, record_entered,
};
use crate::system::exit::{held_reservation, left_for_good};
use crate::system::migration::{captured, expecting};
use crate::system::park::{ParkStep, fell_asleep};
use crate::system::placement::PlacementRank;
use crate::system::pull::offered;
use crate::system::ready::{queue_readied, queue_throttled};
use crate::system::restate::{SchedulePosition, state_at};
use crate::system::switch::{PickStep, carried_on};
use crate::system::switch_in::{
    can_idle, picked_away, picked_sent, picked_state, rt_eligibility, set_idling, set_running,
};
use crate::system::switch_out::{
    ScheduleOut, can_requeue, lifted, put_back, requeued, runner_put_back, sent_off, starved,
    undispatched, waiting_again,
};
use crate::system::switch_tail::stack_left;
use crate::system::task_system::{TaskSystem, with_queue, with_record};
use crate::system::waking::{announcing_keeps, linking_joins, releasing_keeps};
use crate::system::wake::{
    WakeResult, can_take, following, preempts_there, pushes_after, renewed, renews_budget,
    runs_realtime, stays_throttled, taken, wake_preference,
};
use crate::thread::record::ThreadRecord;
use crate::time::MonotonicInstant;

verus! {

/// Whether the run queue of a CPU holds a thread.
pub open spec fn queue_holds(cpus: Seq<CpuLocal>, i: int, thread: ThreadId) -> bool {
    cpus[i].queue().member(thread) is Some
}

impl TaskSystem {
    /// Every thread that a run queue holds is known, and its record names the
    /// CPU of that run queue.
    pub open spec fn queues_sound(&self) -> bool {
        forall|i: int, thread: ThreadId|
            0 <= i < self.cpus@.len() && #[trigger] queue_holds(self.cpus@, i, thread) ==> (
            self.record(thread) matches Some(record) && record.placement.queued_on() == Some(
                CpuId { index: i as u32 },
            ))
    }
}

/// No thread is on the run queues of two CPUs.
pub proof fn one_run_queue_each(system: &TaskSystem, first: CpuId, second: CpuId, thread: ThreadId)
    requires
        system.wf(),
        system.queues_sound(),
        system.has_cpu(first),
        system.has_cpu(second),
        system.cpu(first).queue().member(thread) is Some,
        system.cpu(second).queue().member(thread) is Some,
    ensures
        first == second,
{
    assert(queue_holds(system.cpus@, first.index as int, thread));
    assert(queue_holds(system.cpus@, second.index as int, thread));
}

/// The index of a run queue names nobody anew, but for one thread.
pub open spec fn joined_only(after: Seq<Option<QueueMembership>>, before: Seq<Option<QueueMembership>>, thread: ThreadId) -> bool {
    forall|slot: int|
        0 <= slot < after.len() && (#[trigger] after[slot]) is Some ==> (slot < before.len()
            && after[slot] == before[slot]) || (slot == thread.slot && after[slot]->0.generation
            == thread.generation)
}

/// No CPU but one has had threads join its queue.
pub open spec fn elsewhere_kept(after: Seq<CpuLocal>, before: Seq<CpuLocal>, cpu: CpuId) -> bool {
    &&& after.len() == before.len()
    &&& forall|i: int|
        0 <= i < after.len() && i != cpu.index ==> (#[trigger] after[i]).queue().membership@
            == before[i].queue().membership@
}

/// A change of one thread on one CPU is sound if the thread's record says where
/// it is now, and it was on no other run queue before.
pub(crate) proof fn sound_after(before: &TaskSystem, after: &TaskSystem, cpu: CpuId, record: ThreadRecord)
    requires
        before.cpus@.len() <= u32::MAX,
        before.queues_sound(),
        before.has_cpu(cpu),
        before.record(record.id) is Some,
        after.slots@ == with_record(before.slots@, record),
        elsewhere_kept(after.cpus@, before.cpus@, cpu),
        joined_only(after.cpu(cpu).queue().membership@, before.cpu(cpu).queue().membership@, record.id),
        after.cpu(cpu).queue().member(record.id) is Some ==> record.placement.queued_on() == Some(
            cpu,
        ),
        ({
            let was = (before.record(record.id)->0).placement.queued_on();
            was is None || was == Some(cpu) || record.placement.queued_on() == was
        }),
    ensures
        after.queues_sound(),
{
    let id = record.id;
    assert forall|i: int, thread: ThreadId|
        0 <= i < after.cpus@.len() && #[trigger] queue_holds(after.cpus@, i, thread) implies (
    after.record(thread) matches Some(found) && found.placement.queued_on() == Some(
        CpuId { index: i as u32 },
    )) by {
        if thread == id {
            assert(after.record(thread) == Some(record));
            if i != cpu.index {
                assert(queue_holds(before.cpus@, i, thread));
            }
        } else {
            if i == cpu.index {
                assert(after.cpu(cpu).queue().member(thread) is Some);
                assert(before.cpu(cpu).queue().member(thread) is Some);
            }
            assert(queue_holds(before.cpus@, i, thread));
            assert(before.record(thread) is Some);
            assert(thread.slot != id.slot) by {
                assert(before.slots@[thread.slot as int].generation == thread.generation);
                assert(before.slots@[id.slot as int].generation == id.generation);
            }
            assert(after.record(thread) == before.record(thread));
        }
    }
}

proof fn readied_joins(after: &RunQueue, before: &RunQueue, record: &ThreadRecord, reason: EnqueueReason, placed: SchedulingEntity)
    requires
        queue_readied(after, before, record, reason, placed),
        record.id.slot < before.membership@.len(),
    ensures
        joined_only(after.membership@, before.membership@, record.id),
        after.member(record.id) is Some,
{
    reveal(queue_readied);
}

proof fn throttled_joins(after: &RunQueue, before: &RunQueue, record: &ThreadRecord)
    requires
        queue_throttled(after, before, record),
        record.id.slot < before.membership@.len(),
    ensures
        joined_only(after.membership@, before.membership@, record.id),
        after.member(record.id) is Some,
{
    reveal(queue_throttled);
}

proof fn linked_joins(after: CpuLocal, before: CpuLocal, record: &ThreadRecord, placed: SchedulingEntity, reason: EnqueueReason)
    requires
        linked(after, before, record, placed, reason),
        record.id.slot < before.queue().membership@.len(),
    ensures
        joined_only(after.queue().membership@, before.queue().membership@, record.id),
        after.queue().member(record.id) is Some,
{
    reveal(linked);
    if (record.policy.active->0).effective().is_throttled() {
        throttled_joins(&after.queue(), &before.queue(), record);
    } else {
        readied_joins(&after.queue(), &before.queue(), record, reason, placed);
    }
}

/// A thread that enters a run queue is held by it, and by no other.
pub proof fn entering_is_sound(before: &TaskSystem, after: &TaskSystem, cpu: CpuId, thread: ThreadId, reason: EnqueueReason, now_ns: u64, monotonic_now: MonotonicInstant)
    requires
        before.wf(),
        before.queues_sound(),
        before.enqueue_error(cpu, thread, reason, now_ns) is None,
        after.enqueued_on(before, cpu, thread, reason, now_ns, monotonic_now),
    ensures
        after.queues_sound(),
        after.cpus@.len() == before.cpus@.len(),
        after.cpu(cpu).queue().member(thread) is Some,
        after.record(thread) matches Some(record) && record.placement.queued_on() == Some(cpu),
{
    let record = before.record(thread)->0;
    assert(before.slots@[thread.slot as int].wf_at(thread.slot as int));
    reveal(received);
    let placed = choose|placed: SchedulingEntity|
        #[trigger] received(
            after.cpu(cpu),
            before.cpu(cpu),
            record,
            cpu,
            placed,
            reason,
            now_ns,
        ) && after.relinked(
            before,
            record_entered(record, cpu, placed, reason, now_ns),
            before.cpus@.update(cpu.index as int, after.cpu(cpu)),
            before.root_domain.rt_activated_if(
                after.cpu(cpu).queue().has_rt_thread(),
                cpu,
                monotonic_now,
            ),
        );
    let local = choose|local: CpuLocal|
        #[trigger] entered(local, before.cpu(cpu), record, placed, reason, now_ns) && after.cpu(cpu)
            == entry_noted(
            local,
            cpu,
            reason,
            enters_ahead(local, &record, placed, reason, now_ns),
        );
    linked_joins(
        local,
        before.cpu(cpu),
        &entering(record, reason, now_ns),
        placed,
        reason,
    );
    assert(after.cpu(cpu).queue() == local.queue());
    sound_after(
        before,
        after,
        cpu,
        record_entered(record, cpu, placed, reason, now_ns),
    );
}

/// A thread that leaves a run queue is on none.
pub proof fn leaving_is_sound(before: &TaskSystem, after: &TaskSystem, cpu: CpuId, thread: ThreadId, queue: RunQueue)
    requires
        before.wf(),
        before.queues_sound(),
        before.dequeue_error(cpu, thread) is None,
        queue.departed(&before.cpu(cpu).queue(), thread, true),
        after.slots@ == with_record(
            before.slots@,
            TaskSystem::unqueued(before.record(thread)->0, &before.cpu(cpu).queue()),
        ),
        elsewhere_kept(after.cpus@, before.cpus@, cpu),
        after.cpu(cpu).queue() == queue,
    ensures
        after.queues_sound(),
        after.cpus@.len() == before.cpus@.len(),
        after.cpu(cpu).queue().member(thread) is None,
{
    let record = before.record(thread)->0;
    assert(before.slots@[thread.slot as int].wf_at(thread.slot as int));
    sound_after(
        before,
        after,
        cpu,
        TaskSystem::unqueued(record, &before.cpu(cpu).queue()),
    );
}

/// The run queues of all CPUs hold what they held.
pub open spec fn members_kept(after: Seq<CpuLocal>, before: Seq<CpuLocal>) -> bool {
    &&& after.len() == before.len()
    &&& forall|i: int|
        0 <= i < after.len() ==> (#[trigger] after[i]).queue().membership@
            == before[i].queue().membership@
}

/// A change that leaves threads and run queues alone is sound.
pub(crate) proof fn sound_when_kept(before: &TaskSystem, after: &TaskSystem)
    requires
        before.queues_sound(),
        after.slots@ == before.slots@,
        members_kept(after.cpus@, before.cpus@),
    ensures
        after.queues_sound(),
{
    assert forall|i: int, thread: ThreadId|
        0 <= i < after.cpus@.len() && #[trigger] queue_holds(after.cpus@, i, thread) implies (
    after.record(thread) matches Some(found) && found.placement.queued_on() == Some(
        CpuId { index: i as u32 },
    )) by {
        assert(after.cpus@[i].queue().membership@ == before.cpus@[i].queue().membership@);
        assert(queue_holds(before.cpus@, i, thread));
    }
}

/// A change of a record that leaves the thread where it is is sound.
pub(crate) proof fn sound_when_placed(before: &TaskSystem, after: &TaskSystem, record: ThreadRecord)
    requires
        before.queues_sound(),
        before.record(record.id) matches Some(held) && held.placement.queued_on()
            == record.placement.queued_on(),
        after.slots@ == with_record(before.slots@, record),
        members_kept(after.cpus@, before.cpus@),
    ensures
        after.queues_sound(),
{
    let id = record.id;
    assert forall|i: int, thread: ThreadId|
        0 <= i < after.cpus@.len() && #[trigger] queue_holds(after.cpus@, i, thread) implies (
    after.record(thread) matches Some(found) && found.placement.queued_on() == Some(
        CpuId { index: i as u32 },
    )) by {
        assert(after.cpus@[i].queue().membership@ == before.cpus@[i].queue().membership@);
        assert(queue_holds(before.cpus@, i, thread));
        assert(before.record(thread) is Some);
        if thread == id {
            assert(after.record(thread) == Some(record));
        } else {
            assert(thread.slot != id.slot) by {
                assert(before.slots@[thread.slot as int].generation == thread.generation);
                assert(before.slots@[id.slot as int].generation == id.generation);
            }
            assert(after.record(thread) == before.record(thread));
        }
    }
}

pub(crate) proof fn taken_joins(after: CpuLocal, before: CpuLocal, record: ThreadRecord, placed: SchedulingEntity, owner: CpuId, now_ns: u64)
    requires
        taken(after, before, record, placed, owner, now_ns),
        record.id.slot < before.queue().membership@.len(),
    ensures
        joined_only(after.queue().membership@, before.queue().membership@, record.id),
        after.queue().member(record.id) is Some,
{
    let woken = renewed(record, now_ns);
    if stays_throttled(&record, now_ns) {
        throttled_joins(&after.queue(), &before.queue(), &woken);
    } else {
        readied_joins(&after.queue(), &before.queue(), &woken, EnqueueReason::Wake, placed);
    }
}

proof fn waking_on_is_sound(before: &TaskSystem, after: &TaskSystem, record: ThreadRecord, target: CpuId, by: CpuId, now_ns: u64, monotonic_now: MonotonicInstant)
    requires
        before.wf(),
        before.queues_sound(),
        before.has_cpu(target),
        before.record(record.id) == Some(record),
        before.can_wake_on(&record, target, now_ns),
        after.woken_on(before, record, target, by, now_ns, monotonic_now),
    ensures
        after.queues_sound(),
        after.cpus@.len() == before.cpus@.len(),
{
    reveal(can_take);
    reveal(TaskSystem::woken_on);
    let ready = following(ThreadRecord { lifecycle: ThreadState::Ready, ..record }, target);
    assert(before.slots@[record.id.slot as int].wf_at(record.id.slot as int));
    let (left, joined, placed) = choose|left: TaskSystem, joined: TaskSystem, placed: SchedulingEntity|
        #[trigger] left.source_released(before, record, target, by)
            && #[trigger] joined.wakeup_linked(&left, ready, target, placed, now_ns, monotonic_now)
            && after.announced(
            &joined,
            ready.id,
            target,
            by,
            renews_budget(&ready),
            preempts_there(joined.cpu(target), &ready, placed, now_ns),
            pushes_after(joined.cpu(target), &ready, placed, now_ns),
            runs_realtime(&ready, now_ns) && before.root_domain.rt_starts(),
        );
    releasing_keeps(before, &left, record, target, by);
    assert(record.placement.queued_on() is None);
    sound_when_placed(before, &left, ready);
    assert(left.cpu(target).queue().membership@ == before.cpu(target).queue().membership@);
    let woken = linking_joins(&left, &joined, ready, target, placed, now_ns, monotonic_now);
    assert(left.record(ready.id) == Some(ready));
    sound_after(&left, &joined, target, woken);
    announcing_keeps(
        &joined,
        after,
        ready.id,
        target,
        by,
        renews_budget(&ready),
        preempts_there(joined.cpu(target), &ready, placed, now_ns),
        pushes_after(joined.cpu(target), &ready, placed, now_ns),
        runs_realtime(&ready, now_ns) && before.root_domain.rt_starts(),
    );
    sound_when_kept(&joined, after);
}

pub(crate) proof fn wake_targets_exist(system: &TaskSystem, record: ThreadRecord, preferred: Option<CpuId>)
    requires
        system.wf(),
    ensures
        system.wake_target(&record, preferred) matches Some(target) ==> system.has_cpu(target),
{
    if let Some(active) = record.policy.active {
        system.priority_choice_is_eligible(
            active.policy,
            active.effective(),
            &record.placement.affinity,
            wake_preference(&record, preferred),
            None,
        );
    }
}

proof fn leave_targets_exist(system: &TaskSystem, record: ThreadRecord, cpu: CpuId)
    requires
        system.wf(),
    ensures
        system.leave_target(&record, cpu) matches Some(target) ==> system.has_cpu(target) && target
            != cpu,
{
    system.best_cpu_is_eligible(
        &record.placement.affinity,
        None,
        Some(cpu),
        PlacementRank::Runnable,
    );
}

/// A wake-up puts a thread on one run queue at most.
pub proof fn waking_is_sound(before: &TaskSystem, after: &TaskSystem, thread: ThreadId, preferred: Option<CpuId>, by: CpuId, now_ns: u64, monotonic_now: MonotonicInstant)
    requires
        before.wf(),
        before.queues_sound(),
        after.woken(before, thread, preferred, by, now_ns, monotonic_now),
    ensures
        after.queues_sound(),
        after.cpus@.len() == before.cpus@.len(),
{
    if before.record(thread) is Some {
        let record = before.record(thread)->0;
        assert(before.slots@[thread.slot as int].wf_at(thread.slot as int));
        let outcome = before.wake_outcome(thread, preferred, now_ns);
        match outcome.1 {
            Some(target) => {
                wake_targets_exist(before, record, preferred);
                waking_on_is_sound(before, after, record, target, by, now_ns, monotonic_now);
            },
            None => {
                if outcome.0 == WakeResult::Notified {
                    sound_when_placed(before, after, TaskSystem::wake_noted(record));
                } else {
                    sound_when_kept(before, after);
                }
            },
        }
    } else {
        sound_when_kept(before, after);
    }
}

proof fn lifting_frees(after: &RunQueue, before: &RunQueue, record: &ThreadRecord)
    requires
        lifted(after, before, record),
    ensures
        joined_only(after.membership@, before.membership@, record.id),
        after.member(record.id) is None,
{
    reveal(lifted);
}

/// A thread that falls asleep is on no run queue.
pub proof fn sleeping_is_sound(before: &TaskSystem, after: &TaskSystem, cpu: CpuId, thread: ThreadId, now_ns: u64)
    requires
        before.wf(),
        before.queues_sound(),
        before.has_cpu(cpu),
        before.park_step(cpu, thread) == ParkStep::Sleep,
        after.asleep_on(before, cpu, thread, now_ns),
    ensures
        after.queues_sound(),
        after.cpus@.len() == before.cpus@.len(),
        after.cpu(cpu).queue().member(thread) is None,
{
    assert(before.slots@[thread.slot as int].wf_at(thread.slot as int));
    let record = before.record(thread)->0;
    reveal(fell_asleep);
    let (local, settled) = choose|local: CpuLocal, settled: ThreadRecord|
        #[trigger] fell_asleep(
            local,
            settled,
            before.cpu(cpu),
            record,
            cpu,
            now_ns,
            before.config.timing_granularity_ns,
        ) && after.relinked(
            before,
            settled,
            before.cpus@.update(cpu.index as int, local),
            before.root_domain,
        );
    assert forall|freed: RunQueue| #[trigger] lifted(&freed, &before.cpu(cpu).queue(), &record) implies joined_only(
        freed.membership@,
        before.cpu(cpu).queue().membership@,
        thread,
    ) && freed.member(thread) is None by {
        lifting_frees(&freed, &before.cpu(cpu).queue(), &record);
    }
    assert(settled.id == thread);
    sound_after(before, after, cpu, settled);
}

/// A thread that exits is on no run queue.
pub proof fn exiting_is_sound(before: &TaskSystem, after: &TaskSystem, cpu: CpuId, thread: ThreadId)
    requires
        before.wf(),
        before.queues_sound(),
        before.has_cpu(cpu),
        before.can_leave(cpu, thread),
        after.exited_on(before, cpu, thread),
    ensures
        after.queues_sound(),
        after.cpus@.len() == before.cpus@.len(),
{
    assert(before.slots@[thread.slot as int].wf_at(thread.slot as int));
    let record = before.record(thread)->0;
    reveal(TaskSystem::exited_on);
    reveal(left_for_good);
    let (local, settled, left, queued) = choose|
        local: CpuLocal,
        settled: ThreadRecord,
        left: TaskSystem,
        queued: TaskSystem,
    |
        #[trigger] left_for_good(local, settled, before.cpu(cpu), record)
            && #[trigger] left.relinked(
            before,
            settled,
            before.cpus@.update(cpu.index as int, local),
            before.root_domain,
        ) && #[trigger] queued.awaits_reclaim(&left, thread) && after.admission_exchanged(
            &queued,
            held_reservation(&record),
            0,
        );
    assert forall|freed: RunQueue| #[trigger] lifted(&freed, &before.cpu(cpu).queue(), &record) implies joined_only(
        freed.membership@,
        before.cpu(cpu).queue().membership@,
        thread,
    ) && freed.member(thread) is None by {
        lifting_frees(&freed, &before.cpu(cpu).queue(), &record);
    }
    sound_after(before, &left, cpu, settled);
    sound_when_kept(&left, &queued);
    exchanging_is_sound(&queued, after, held_reservation(&record), 0);
}

/// An exchange of reservations moves no thread.
proof fn exchanging_is_sound(before: &TaskSystem, after: &TaskSystem, held: u64, committed: u64)
    requires
        before.queues_sound(),
        after.admission_exchanged(before, held, committed),
    ensures
        after.queues_sound(),
        after.cpus@.len() == before.cpus@.len(),
{
    assert(members_kept(after.cpus@, before.cpus@));
    sound_when_kept(before, after);
}

/// Charging what a CPU runs moves no thread.
pub proof fn charging_is_sound(before: &TaskSystem, after: &TaskSystem, cpu: CpuId, now_ns: u64, reschedule: bool)
    requires
        before.queues_sound(),
        before.has_cpu(cpu),
        after.charged_on(before, cpu, now_ns, reschedule),
    ensures
        after.queues_sound(),
        after.cpus@.len() == before.cpus@.len(),
{
    assert(members_kept(after.cpus@, before.cpus@));
    sound_when_kept(before, after);
}

/// A thread that waits for its turn again is held by its run queue.
proof fn requeueing_is_sound(before: &TaskSystem, after: &TaskSystem, cpu: CpuId, record: ThreadRecord, reason: EnqueueReason, now_ns: u64, monotonic_now: MonotonicInstant)
    requires
        before.wf(),
        before.queues_sound(),
        before.has_cpu(cpu),
        before.record(record.id) == Some(record),
        record.placement.queued_on() == Some(cpu),
        can_requeue(before.cpu(cpu), &record, cpu, reason, now_ns),
        after.scheduled_out(
            before,
            cpu,
            record.id,
            reason,
            now_ns,
            monotonic_now,
            ScheduleOut::Requeue,
        ),
    ensures
        after.queues_sound(),
        after.cpus@.len() == before.cpus@.len(),
        after.cpu(cpu).queue().member(record.id) is Some,
{
    let local = before.cpu(cpu);
    let active = state_at(&local.queue(), &record, SchedulePosition::Running)->0;
    let waiting = waiting_again(record, active);
    let placed = choose|placed: SchedulingEntity|
        #[trigger] requeued(after.cpu(cpu), local, waiting, cpu, placed, reason, now_ns)
            && after.relinked(
            before,
            record_entered(waiting, cpu, placed, reason, now_ns),
            before.cpus@.update(cpu.index as int, after.cpu(cpu)),
            before.root_domain.rt_activated_if(
                after.cpu(cpu).queue().has_rt_thread(),
                cpu,
                monotonic_now,
            ),
        );
    reveal(requeued);
    let free = undispatched(local);
    let back = choose|back: CpuLocal|
        #[trigger] entered(back, free, waiting, placed, reason, now_ns) && after.cpu(cpu)
            == entry_noted(
            back.vacated(),
            cpu,
            reason,
            enters_ahead(back, &waiting, placed, reason, now_ns),
        );
    assert(record.id.slot < local.queue().membership@.len()) by {
        reveal(can_requeue);
    }
    linked_joins(back, free, &entering(waiting, reason, now_ns), placed, reason);
    sound_after(before, after, cpu, record_entered(waiting, cpu, placed, reason, now_ns));
}

/// A thread that makes room for another stays on its run queue or leaves it
/// for one other. One that waits for its turn again is held by the run queue.
pub proof fn scheduling_out_is_sound(
    before: &TaskSystem,
    after: &TaskSystem,
    cpu: CpuId,
    thread: ThreadId,
    reason: EnqueueReason,
    now_ns: u64,
    monotonic_now: MonotonicInstant,
)
    requires
        before.wf(),
        before.queues_sound(),
        before.has_cpu(cpu),
        after.scheduled_out(
            before,
            cpu,
            thread,
            reason,
            now_ns,
            monotonic_now,
            before.schedule_out_step(cpu, thread, reason, now_ns),
        ),
    ensures
        after.queues_sound(),
        after.cpus@.len() == before.cpus@.len(),
        ({
            let step = before.schedule_out_step(cpu, thread, reason, now_ns);
            step is PutPrev || step is Requeue ==> after.cpu(cpu).queue().member(thread) is Some
        }),
{
    let step = before.schedule_out_step(cpu, thread, reason, now_ns);
    let local = before.cpu(cpu);
    if before.record(thread) is Some {
        let record = before.record(thread)->0;
        assert(before.slots@[thread.slot as int].wf_at(thread.slot as int));
        let active = state_at(
            &local.queue(),
            &record,
            SchedulePosition::Running,
        )->0;
        assert forall|freed: RunQueue| #[trigger] lifted(&freed, &local.queue(), &record) implies joined_only(
            freed.membership@,
            local.queue().membership@,
            thread,
        ) && freed.member(thread) is None by {
            lifting_frees(&freed, &local.queue(), &record);
        }
        match step {
            ScheduleOut::Refused(_) => {},
            ScheduleOut::Migrate { target } => {
                leave_targets_exist(before, record, cpu);
                let gone = sent_off(
                    record,
                    captured(
                        active,
                        &local.queue(),
                        before.config.timing_granularity_ns,
                    ),
                    target,
                );
                assert(elsewhere_kept(after.cpus@, before.cpus@, cpu));
                sound_after(before, after, cpu, gone);
            },
            ScheduleOut::Throttle => {
                sound_after(
                    before,
                    after,
                    cpu,
                    starved(record, active),
                );
            },
            ScheduleOut::Idle => {
                sound_when_placed(
                    before,
                    after,
                    ThreadRecord { lifecycle: ThreadState::Ready, ..record },
                );
            },
            ScheduleOut::PutPrev => {
                reveal(runner_put_back);
                assert(members_kept(after.cpus@, before.cpus@));
                sound_when_placed(
                    before,
                    after,
                    put_back(
                        record,
                        active.policy,
                        active.effective(),
                        cpu,
                    ),
                );
            },
            ScheduleOut::Requeue => {
                requeueing_is_sound(before, after, cpu, record, reason, now_ns, monotonic_now);
            },
        }
    }
}

/// What a selection takes out of a run queue, its index no longer names.
proof fn picking_frees(after: &RunQueue, before: &RunQueue, eligibility: RtEligibility, picked: Option<PickedThread>)
    requires
        before.wf(),
        after.picks(before, eligibility, picked),
    ensures
        picked matches Some(picked) ==> {
            let id = picked.thread_id();
            &&& before.member(id) is Some
            &&& picked is Owned ==> after.membership@ == before.membership@.update(
                id.slot as int,
                None,
            )
            &&& picked is Linked ==> after.membership@ == before.membership@
        },
        picked is None ==> after.membership@ == before.membership@,
        forall|thread: ThreadId|
            (#[trigger] after.member(thread)) is Some ==> before.member(thread) is Some,
{
    reveal(RunQueue::picks);
    if before.stop is Some {
        assert(before.list_of(QueueMembershipClass::Stop)[0] == before.stop->0);
        assert(before.record_ok(QueueMembershipClass::Stop, 0));
    } else if before.deadline.entries@.len() > 0 {
        let at = before.deadline.choice()->0;
        assert(before.record_ok(QueueMembershipClass::Deadline, at));
        assert(before.list_of(QueueMembershipClass::Deadline)[at]
            == before.deadline.entries@[at]);
    } else if eligibility == RtEligibility::Runnable && before.has_rt_thread() {
        if let Some(PickedThread::Linked(snapshot)) = picked {
            let p = choose|p: u8|
                #![trigger before.rt.level(p)]
                1 <= p <= 99 && before.rt.level(p).len() > 0 && snapshot
                    == before.rt.level(p)[0].snapshot() && forall|i: int|
                    p <= i < RT_PRIORITY_LEVELS ==> (
                    #[trigger] before.rt.levels@[i])@.len() == 0;
            assert(before.record_ok(QueueMembershipClass::Realtime(p), 0));
            assert(before.list_of(QueueMembershipClass::Realtime(p))[0] == before.rt.level(p)[0]);
        }
    } else if before.fair.entries@.len() > 0 {
        let now = mean_time(before.fair.entries@, before.fair.virtual_time, None);
        let at = fair_choice(before.fair.entries@, now)->0;
        assert(before.record_ok(QueueMembershipClass::Fair, at));
        assert(before.list_of(QueueMembershipClass::Fair)[at] == before.fair.entries@[at]);
    } else if before.idle_fair.entries@.len() > 0 {
        let now = mean_time(before.idle_fair.entries@, before.idle_fair.virtual_time, None);
        let at = fair_choice(before.idle_fair.entries@, now)->0;
        assert(before.record_ok(QueueMembershipClass::IdleFair, at));
        assert(before.list_of(QueueMembershipClass::IdleFair)[at]
            == before.idle_fair.entries@[at]);
    }
}

/// A selected thread is placed where it was selected, and what a list gave up
/// the index no longer names.
spec fn still_placed(system: &TaskSystem, cpu: CpuId, picked: PickedThread) -> bool {
    let id = picked.thread_id();
    &&& system.record(id) matches Some(record) && record.placement.queued_on() == Some(cpu)
    &&& id.slot < system.cpu(cpu).queue().membership@.len()
    &&& picked is Owned ==> system.cpu(cpu).queue().member(id) is None
}

/// A selection alone moves no thread to another run queue, and what it takes
/// is placed where it was.
proof fn selecting_is_sound(before: &TaskSystem, after: &TaskSystem, cpu: CpuId, picked: Option<PickedThread>)
    requires
        before.wf(),
        before.queues_sound(),
        before.has_cpu(cpu),
        after.selected_on(before, cpu, picked),
    ensures
        after.queues_sound(),
        after.cpus@.len() == before.cpus@.len(),
        picked matches Some(picked) ==> still_placed(after, cpu, picked),
{
    let queue = before.cpu(cpu).queue();
    assert(before.cpus@[cpu.index as int].wf());
    picking_frees(
        &after.cpu(cpu).queue(),
        &queue,
        rt_eligibility(before.cpu(cpu)),
        picked,
    );
    if let Some(found) = picked {
        assert(queue_holds(before.cpus@, cpu.index as int, found.thread_id()));
    }
    assert forall|i: int, thread: ThreadId|
        0 <= i < after.cpus@.len() && #[trigger] queue_holds(after.cpus@, i, thread) implies (
    after.record(thread) matches Some(found) && found.placement.queued_on() == Some(
        CpuId { index: i as u32 },
    )) by {
        if i == cpu.index {
            assert(after.cpu(cpu).queue().member(thread) is Some);
        }
        assert(queue_holds(before.cpus@, i, thread));
    }
}

proof fn idling_is_sound(before: &TaskSystem, after: &TaskSystem, cpu: CpuId, now_ns: u64, carried: Option<PreparedMigrationDelivery>, result: Result<(ThreadId, Option<PreparedMigrationDelivery>), TaskError>)
    requires
        before.wf(),
        before.queues_sound(),
        before.has_cpu(cpu),
        after.idled(before, cpu, now_ns, carried, result),
    ensures
        after.queues_sound(),
        after.cpus@.len() == before.cpus@.len(),
{
    if let Some(idle) = before.cpu(cpu).idle {
        if before.record(idle) is Some {
            assert(before.slots@[idle.slot as int].wf_at(idle.slot as int));
            let record = before.record(idle)->0;
            if can_idle(&record, cpu) {
                sound_after(
                    before,
                    after,
                    cpu,
                    set_idling(record, cpu),
                );
            }
        }
    }
}

proof fn returning_is_sound(before: &TaskSystem, after: &TaskSystem, cpu: CpuId, picked: PickedThread)
    requires
        before.wf(),
        before.queues_sound(),
        before.has_cpu(cpu),
        before.record(picked.thread_id()) matches Some(record) && record.placement.queued_on()
            == Some(cpu),
        picked.thread_id().slot < before.cpu(cpu).queue().membership@.len(),
        after.unpicked(before, cpu, picked),
    ensures
        after.queues_sound(),
        after.cpus@.len() == before.cpus@.len(),
{
    let id = picked.thread_id();
    assert(before.slots@[id.slot as int].wf_at(id.slot as int));
    assert(before.cpus@[cpu.index as int].wf());
    reveal(RunQueue::rolled_back);
    let record = before.record(id)->0;
    assert(before.slots@ =~= with_record(before.slots@, record));
    if after.cpus@ != before.cpus@ {
        sound_after(before, after, cpu, record);
    }
}

proof fn running_is_sound(before: &TaskSystem, after: &TaskSystem, cpu: CpuId, picked: PickedThread, now_ns: u64)
    requires
        before.wf(),
        before.queues_sound(),
        before.has_cpu(cpu),
        before.record(picked.thread_id()) is Some,
        after.picked_runs(before, cpu, picked, now_ns),
    ensures
        after.queues_sound(),
        after.cpus@.len() == before.cpus@.len(),
{
    let id = picked.thread_id();
    assert(before.slots@[id.slot as int].wf_at(id.slot as int));
    reveal(RunQueue::next_set);
    assert(members_kept(after.cpus@, before.cpus@));
    sound_when_placed(
        before,
        after,
        set_running(before.record(id)->0, cpu),
    );
}

proof fn parting_is_sound(before: &TaskSystem, parted: &TaskSystem, cpu: CpuId, picked: PickedThread, target: CpuId, outgoing: bool)
    requires
        before.wf(),
        before.queues_sound(),
        before.has_cpu(cpu),
        before.record(picked.thread_id()) matches Some(record) && record.placement.queued_on()
            == Some(cpu),
        picked.thread_id().slot < before.cpu(cpu).queue().membership@.len(),
        picked is Owned ==> before.cpu(cpu).queue().member(picked.thread_id()) is None,
        parted.picked_parted(before, cpu, picked, target, outgoing),
    ensures
        parted.queues_sound(),
        parted.cpus@.len() == before.cpus@.len(),
{
    let id = picked.thread_id();
    let record = before.record(id)->0;
    assert(before.slots@[id.slot as int].wf_at(id.slot as int));
    let queue = before.cpu(cpu).queue();
    reveal(TaskSystem::picked_parted);
    let left = choose|left: RunQueue|
        #[trigger] picked_sent(&left, &queue, &record, picked, outgoing) && parted.relinked(
            before,
            picked_away(
                record,
                captured(
                    picked_state(&queue, picked),
                    &left,
                    before.config.timing_granularity_ns,
                ),
                target,
                outgoing,
            ),
            before.cpus@.update(cpu.index as int, with_queue(before.cpu(cpu), left)),
            before.root_domain,
        );
    let active = captured(
        picked_state(&queue, picked),
        &left,
        before.config.timing_granularity_ns,
    );
    sending_leaves(&left, &queue, record, active, picked, target, outgoing);
    sound_after(before, parted, cpu, picked_away(record, active, target, outgoing));
}

/// A selected thread that is sent away leaves the run queue.
proof fn sending_leaves(left: &RunQueue, queue: &RunQueue, record: ThreadRecord, active: ActiveSchedulingState, picked: PickedThread, target: CpuId, outgoing: bool)
    requires
        picked.thread_id() == record.id,
        record.id.slot < queue.membership@.len(),
        picked is Owned ==> queue.member(record.id) is None,
        picked_sent(left, queue, &record, picked, outgoing),
    ensures
        joined_only(left.membership@, queue.membership@, record.id),
        left.member(record.id) is None,
        picked_away(record, active, target, outgoing).id == record.id,
{
}

proof fn sending_is_sound(before: &TaskSystem, after: &TaskSystem, cpu: CpuId, picked: PickedThread, target: CpuId, outgoing: bool)
    requires
        before.wf(),
        before.queues_sound(),
        before.has_cpu(cpu),
        before.has_cpu(target),
        before.record(picked.thread_id()) matches Some(record) && record.placement.queued_on()
            == Some(cpu),
        picked.thread_id().slot < before.cpu(cpu).queue().membership@.len(),
        picked is Owned ==> before.cpu(cpu).queue().member(picked.thread_id()) is None,
        after.picked_sent_off(before, cpu, picked, target, outgoing),
    ensures
        after.queues_sound(),
        after.cpus@.len() == before.cpus@.len(),
{
    let id = picked.thread_id();
    let load = picked.thread_policy().load();
    reveal(TaskSystem::picked_sent_off);
    let parted = choose|parted: TaskSystem|
        #[trigger] parted.picked_parted(before, cpu, picked, target, outgoing) && if outgoing {
            after.cpu_becomes(&parted, target, expecting(parted.cpu(target), load))
        } else {
            after.migration_sent(&parted, id, cpu, target, load)
        };
    parting_is_sound(before, &parted, cpu, picked, target, outgoing);
    assert(members_kept(after.cpus@, parted.cpus@));
    sound_when_kept(&parted, after);
}

/// The choice of the next thread leaves every thread on one run queue at most.
pub proof fn choosing_is_sound(
    before: &TaskSystem,
    after: &TaskSystem,
    cpu: CpuId,
    outgoing: Option<ThreadId>,
    left: nat,
    carried: Option<PreparedMigrationDelivery>,
    now_ns: u64,
    result: Result<(ThreadId, Option<PreparedMigrationDelivery>), TaskError>,
)
    requires
        before.wf(),
        before.queues_sound(),
        before.has_cpu(cpu),
        after.next_chosen(before, cpu, outgoing, left, carried, now_ns, result),
    ensures
        after.queues_sound(),
        after.cpus@.len() == before.cpus@.len(),
    decreases left, 2int,
{
    let (selected, picked) = choose|selected: TaskSystem, picked: Option<PickedThread>|
        #[trigger] selected.selected_on(before, cpu, picked) && selected.wf()
            && after.chosen_from(&selected, cpu, picked, outgoing, left, carried, now_ns, result);
    selecting_is_sound(before, &selected, cpu, picked);
    assert(selected.cpus@.len() == before.cpus@.len());
    choosing_from_is_sound(
        &selected,
        after,
        cpu,
        picked,
        outgoing,
        left,
        carried,
        now_ns,
        result,
    );
}

proof fn choosing_from_is_sound(
    selected: &TaskSystem,
    after: &TaskSystem,
    cpu: CpuId,
    selection: Option<PickedThread>,
    outgoing: Option<ThreadId>,
    left: nat,
    carried: Option<PreparedMigrationDelivery>,
    now_ns: u64,
    result: Result<(ThreadId, Option<PreparedMigrationDelivery>), TaskError>,
)
    requires
        selected.wf(),
        selected.queues_sound(),
        selected.has_cpu(cpu),
        selection matches Some(picked) ==> still_placed(selected, cpu, picked),
        after.chosen_from(selected, cpu, selection, outgoing, left, carried, now_ns, result),
    ensures
        after.queues_sound(),
        after.cpus@.len() == selected.cpus@.len(),
    decreases left, 1int,
{
    match selection {
        None => {
            idling_is_sound(selected, after, cpu, now_ns, carried, result);
        },
        Some(picked) => {
            match selected.pick_plan(cpu, picked, outgoing) {
                PickStep::Refused(_) => {
                    returning_is_sound(selected, after, cpu, picked);
                },
                PickStep::Run => {
                    running_is_sound(selected, after, cpu, picked, now_ns);
                },
                PickStep::Send { target, outgoing: leaves } => {
                    let record = selected.record(picked.thread_id())->0;
                    leave_targets_exist(selected, record, cpu);
                    let sent = choose|sent: TaskSystem|
                        #[trigger] sent.picked_sent_off(selected, cpu, picked, target, leaves)
                            && sent.wf() && after.chosen_after(
                            &sent,
                            cpu,
                            picked,
                            target,
                            leaves,
                            outgoing,
                            left,
                            carried,
                            now_ns,
                            result,
                        );
                    sending_is_sound(selected, &sent, cpu, picked, target, leaves);
                    choosing_after_is_sound(
                        &sent,
                        after,
                        cpu,
                        picked,
                        target,
                        leaves,
                        outgoing,
                        left,
                        carried,
                        now_ns,
                        result,
                    );
                },
            }
        },
    }
}

proof fn choosing_after_is_sound(
    sent: &TaskSystem,
    after: &TaskSystem,
    cpu: CpuId,
    picked: PickedThread,
    target: CpuId,
    leaves: bool,
    outgoing: Option<ThreadId>,
    left: nat,
    carried: Option<PreparedMigrationDelivery>,
    now_ns: u64,
    result: Result<(ThreadId, Option<PreparedMigrationDelivery>), TaskError>,
)
    requires
        sent.wf(),
        sent.queues_sound(),
        sent.has_cpu(cpu),
        after.chosen_after(
            sent,
            cpu,
            picked,
            target,
            leaves,
            outgoing,
            left,
            carried,
            now_ns,
            result,
        ),
    ensures
        after.queues_sound(),
        after.cpus@.len() == sent.cpus@.len(),
    decreases left, 0int,
{
    let carries = carried_on(cpu, picked, target, leaves, carried);
    if left <= 1 {
        let asked = choose|asked: TaskSystem|
            #[trigger] asked.cpu_becomes(
                sent,
                cpu,
                sent.cpu(cpu).with_remote(sent.cpu(cpu).remote.asked_to_work()),
            ) && asked.wf() && after.idled(&asked, cpu, now_ns, carries, result);
        assert(members_kept(asked.cpus@, sent.cpus@));
        sound_when_kept(sent, &asked);
        idling_is_sound(&asked, after, cpu, now_ns, carries, result);
    } else {
        choosing_is_sound(
            sent,
            after,
            cpu,
            outgoing,
            (left - 1) as nat,
            carries,
            now_ns,
            result,
        );
    }
}

/// A message for a CPU moves no thread.
proof fn sending_a_message_is_sound(before: &TaskSystem, after: &TaskSystem, thread: ThreadId, source: CpuId, target: CpuId, demand: u64)
    requires
        before.queues_sound(),
        before.has_cpu(target),
        after.migration_sent(before, thread, source, target, demand),
    ensures
        after.queues_sound(),
        after.cpus@.len() == before.cpus@.len(),
{
    assert(members_kept(after.cpus@, before.cpus@));
    sound_when_kept(before, after);
}

/// A waiting thread that is sent to another CPU is on no run queue until it
/// arrives.
pub proof fn transferring_is_sound(before: &TaskSystem, after: &TaskSystem, cpu: CpuId, thread: ThreadId, target: CpuId)
    requires
        before.wf(),
        before.queues_sound(),
        before.has_cpu(cpu),
        before.has_cpu(target),
        before.record(thread) matches Some(record) && before.affinity_step_to(cpu, &record, target)
            == Ok::<AffinityStep, TaskError>(AffinityStep::Transfer { target }),
        after.transferred(before, cpu, thread, target),
    ensures
        after.queues_sound(),
        after.cpus@.len() == before.cpus@.len(),
{
    let record = before.record(thread)->0;
    assert(before.slots@[thread.slot as int].wf_at(thread.slot as int));
    let (parted, queue, entry) = choose|parted: TaskSystem, queue: RunQueue, entry: QueuedThread|
        #[trigger] sent_away(
            &queue,
            &before.cpu(cpu).queue(),
            &record,
            before.config.timing_granularity_ns,
            entry,
        ) && #[trigger] parted.relinked(
            before,
            departing(record, entry, &queue, target, before.config.timing_granularity_ns),
            before.cpus@.update(
                cpu.index as int,
                shown(with_queue(before.cpu(cpu), queue)),
            ),
            before.root_domain,
        ) && after.migration_sent(
            &parted,
            thread,
            cpu,
            target,
            before.cpu(cpu).queue().record(thread).active.policy.load(),
        );
    assert(joined_only(queue.membership@, before.cpu(cpu).queue().membership@, thread)
        && queue.member(thread) is None) by {
        reveal(sent_away);
        reveal(RunQueue::remarked);
        reveal(RunQueue::parted);
    }
    sound_after(
        before,
        &parted,
        cpu,
        departing(record, entry, &queue, target, before.config.timing_granularity_ns),
    );
    sending_a_message_is_sound(
        &parted,
        after,
        thread,
        cpu,
        target,
        before.cpu(cpu).queue().record(thread).active.policy.load(),
    );
}

/// A change of affinity leaves a thread on one run queue at most.
pub proof fn reconciling_is_sound(before: &TaskSystem, after: &TaskSystem, cpu: CpuId, thread: ThreadId, step: AffinityStep)
    requires
        before.wf(),
        before.queues_sound(),
        before.has_cpu(cpu),
        before.affinity_step(cpu, thread) == Ok::<AffinityStep, TaskError>(step),
        after.reconciled(before, cpu, thread, step),
    ensures
        after.queues_sound(),
        after.cpus@.len() == before.cpus@.len(),
{
    let record = before.record(thread)->0;
    assert(before.slots@[thread.slot as int].wf_at(thread.slot as int));
    before.best_cpu_is_eligible(
        &record.placement.affinity,
        None,
        Some(cpu),
        PlacementRank::Runnable,
    );
    match step {
        AffinityStep::Forward { owner, target } => {
            let noted = choose|noted: TaskSystem|
                #[trigger] noted.only_thread(before, bound_for(record, target))
                    && after.retry_sent(&noted, thread, owner, target, cpu);
            sound_when_placed(before, &noted, bound_for(record, target));
            assert(members_kept(after.cpus@, noted.cpus@));
            sound_when_kept(&noted, after);
        },
        AffinityStep::Refresh => {
            reveal(RunQueue::remarked);
            assert(members_kept(after.cpus@, before.cpus@));
            sound_when_placed(before, after, staying(record, cpu));
        },
        AffinityStep::Transfer { target } => {
            transferring_is_sound(before, after, cpu, thread, target);
        },
        AffinityStep::Request { target } => {
            assert(members_kept(after.cpus@, before.cpus@));
            sound_when_placed(before, after, wanting(record, target).affinity_settled());
        },
        AffinityStep::PassOn { target } => {
            sound_when_placed(before, after, wanting(record, target));
        },
        AffinityStep::Settle { target } => {
            sound_when_placed(before, after, bound_for(record, target).affinity_settled());
        },
    }
}

/// A CPU that helps an idle one out leaves every thread on one run queue at
/// most.
pub proof fn balancing_is_sound(before: &TaskSystem, after: &TaskSystem, cpu: CpuId, target: CpuId, migrated: bool)
    requires
        before.wf(),
        before.queues_sound(),
        before.has_cpu(cpu),
        before.has_cpu(target),
        after.balanced_to(before, cpu, target, migrated),
    ensures
        after.queues_sound(),
        after.cpus@.len() == before.cpus@.len(),
{
    reveal(TaskSystem::balanced_to);
    let (scanned, candidate) = choose|scanned: TaskSystem, candidate: Option<ThreadId>|
        #[trigger] scanned.offered_on(before, cpu, candidate) && scanned.wf() && match candidate {
            Some(thread) => if scanned.sendable(cpu, thread, target) {
                migrated && after.transferred(&scanned, cpu, thread, target)
            } else {
                !migrated && *after == scanned
            },
            None => !migrated && *after == scanned,
        };
    reveal(offered);
    assert(members_kept(scanned.cpus@, before.cpus@));
    sound_when_kept(before, &scanned);
    if let Some(thread) = candidate {
        if scanned.sendable(cpu, thread, target) {
            transferring_is_sound(&scanned, after, cpu, thread, target);
        }
    }
}

/// The end of a switch leaves every thread on one run queue at most.
pub proof fn ending_a_switch_is_sound(before: &TaskSystem, after: &TaskSystem, cpu: CpuId, handoff: SwitchHandoff, now_ns: u64, monotonic_now: MonotonicInstant)
    requires
        before.wf(),
        before.queues_sound(),
        before.has_cpu(cpu),
        before.tail_error(cpu, handoff) is None,
        after.switch_ended(before, cpu, handoff, now_ns, monotonic_now),
    ensures
        after.queues_sound(),
        after.cpus@.len() == before.cpus@.len(),
{
    let thread = handoff.previous;
    let record = before.record(thread)->0;
    assert(before.slots@[thread.slot as int].wf_at(thread.slot as int));
    reveal(TaskSystem::switch_ended);
    let (left, sent, woken, seen) = choose|
        left: TaskSystem,
        sent: TaskSystem,
        woken: TaskSystem,
        seen: TaskSystem,
    |
        {
            &&& #[trigger] left.previous_left(before, cpu, handoff)
            &&& #[trigger] sent.migration_committed(&left, handoff.migration)
            &&& sent.wf()
            &&& #[trigger] woken.tail_woken(&sent, thread, cpu, now_ns, monotonic_now)
            &&& #[trigger] seen.load_shown(&woken, cpu)
            &&& *after == if record.lifecycle == ThreadState::Exited {
                seen.work_published()
            } else {
                seen
            }
        };
    let parting = stack_left(record, handoff.target_cpu());
    assert(members_kept(left.cpus@, before.cpus@) && left.slots@ == with_record(
        before.slots@,
        parting,
    )) by {
        reveal(TaskSystem::previous_left);
    }
    sound_when_placed(before, &left, parting);
    assert(members_kept(sent.cpus@, left.cpus@) && sent.slots@ == left.slots@) by {
        reveal(TaskSystem::migration_committed);
    }
    sound_when_kept(&left, &sent);
    if let Some(target) = sent.tail_wake_target(thread, now_ns) {
        assert(sent.slots@[thread.slot as int].wf_at(thread.slot as int));
        wake_targets_exist(&sent, sent.record(thread)->0, None);
        waking_on_is_sound(
            &sent,
            &woken,
            sent.record(thread)->0,
            target,
            cpu,
            now_ns,
            monotonic_now,
        );
    }
    assert(woken.cpus@.len() == before.cpus@.len());
    assert(members_kept(seen.cpus@, woken.cpus@));
    sound_when_kept(&woken, &seen);
    sound_when_kept(&seen, after);
}

} // verus!
