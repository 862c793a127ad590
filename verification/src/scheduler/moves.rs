//! What holds of the threads that are looked at for other CPUs, and of how
//! threads begin.
use vstd::prelude::*;
use crate::cpu::dispatch::CurrentDispatch;
use crate::scheduler::balance::{judged, movable, none_movable};
use crate::scheduler::entity::SchedulingEntity;
use crate::scheduler::policy::{FairMode, SchedulePolicy};
use crate::scheduler::run_queue::{QueueMembershipClass, RunQueue};
use crate::scheduler::scan::decides;
use crate::scheduler::task::{QueuedThread, due, first_due, first_due_is_a_minimum, within_quarter};
use crate::time::{circular_distance, circular_offset};

verus! {

/// A thread that is offered to another CPU does not run, was not offered in
/// this round, and may leave. Deadline threads are offered before real-time
/// threads, those of higher priority before those of lower, and these before
/// fair threads; nobody else is offered.
pub proof fn offered_threads_may_move<F: Fn(&QueuedThread) -> bool>(queue: RunQueue, may_migrate: F, epoch: u64, class: QueueMembershipClass, at: int)
    requires
        queue.is_next_candidate(may_migrate, epoch, class, at),
        decides(may_migrate),
    ensures
        ({
            let thread = queue.list_of(class)[at];
            &&& 0 <= at < queue.list_of(class).len()
            &&& queue.linked() != Some(thread.id)
            &&& thread.balance_scan_epoch != epoch
            &&& call_ensures(may_migrate, (&thread,), true)
            &&& class == QueueMembershipClass::Deadline || class is Realtime || class
                == QueueMembershipClass::Fair
            &&& class != QueueMembershipClass::Deadline ==> forall|i: int|
                0 <= i < queue.deadline.entries@.len() ==> !stands_open(
                    queue,
                    may_migrate,
                    epoch,
                    #[trigger] queue.deadline.entries@[i],
                )
            &&& class == QueueMembershipClass::Fair ==> forall|q: int, i: int|
                0 <= q < 99 && 0 <= i < queue.rt.levels@[q]@.len() ==> !stands_open(
                    queue,
                    may_migrate,
                    epoch,
                    #[trigger] queue.rt.levels@[q]@[i],
                )
            &&& class matches QueueMembershipClass::Realtime(p) ==> forall|q: int, i: int|
                p <= q < 99 && 0 <= i < queue.rt.levels@[q]@.len() ==> !stands_open(
                    queue,
                    may_migrate,
                    epoch,
                    #[trigger] queue.rt.levels@[q]@[i],
                )
            &&& class is Realtime ==> forall|i: int|
                0 <= i < at ==> !stands_open(
                    queue,
                    may_migrate,
                    epoch,
                    #[trigger] queue.list_of(class)[i],
                )
        }),
{
    if class != QueueMembershipClass::Deadline {
        assert(none_movable(may_migrate, queue.linked(), epoch, queue.deadline.entries@));
    }
    if class == QueueMembershipClass::Fair {
        assert forall|q: int, i: int|
            0 <= q < 99 && 0 <= i < queue.rt.levels@[q]@.len() implies !stands_open(
            queue,
            may_migrate,
            epoch,
            #[trigger] queue.rt.levels@[q]@[i],
        ) by {
            assert(none_movable(may_migrate, queue.linked(), epoch, queue.rt.levels@[q]@));
        }
    }
    if let QueueMembershipClass::Realtime(p) = class {
        assert forall|q: int, i: int|
            p <= q < 99 && 0 <= i < queue.rt.levels@[q]@.len() implies !stands_open(
            queue,
            may_migrate,
            epoch,
            #[trigger] queue.rt.levels@[q]@[i],
        ) by {
            assert(none_movable(may_migrate, queue.linked(), epoch, queue.rt.levels@[q]@));
        }
    }
}

/// A thread that could be offered: it does not run, was not offered in this
/// round, and may leave.
pub open spec fn stands_open<F: Fn(&QueuedThread) -> bool>(queue: RunQueue, may_migrate: F, epoch: u64, thread: QueuedThread) -> bool {
    &&& queue.linked() != Some(thread.id)
    &&& thread.balance_scan_epoch != epoch
    &&& call_ensures(may_migrate, (&thread,), true)
}

/// Of the Deadline threads that could be offered, and of the fair ones, the one
/// with the earliest deadline is.
pub proof fn the_earliest_is_offered<F: Fn(&QueuedThread) -> bool>(queue: RunQueue, may_migrate: F, epoch: u64, class: QueueMembershipClass, at: int, base: u64, i: int)
    requires
        queue.is_next_candidate(may_migrate, epoch, class, at),
        decides(may_migrate),
        class == QueueMembershipClass::Deadline || class == QueueMembershipClass::Fair,
        within_quarter(queue.list_of(class), base),
        0 <= i < queue.list_of(class).len(),
        stands_open(queue, may_migrate, epoch, queue.list_of(class)[i]),
    ensures
        circular_distance(due(queue.list_of(class)[at]), due(queue.list_of(class)[i])) <= 0,
{
    let list = queue.list_of(class);
    let n = list.len() as int;
    let admitted = choose|admitted: Seq<bool>|
        #[trigger] judged(may_migrate, queue.linked(), epoch, list, admitted) && first_due(
            list,
            admitted,
            n,
        ) == Some(at);
    assert(movable(may_migrate, queue.linked(), epoch, list[i], admitted[i]));
    first_due_is_a_minimum(list, admitted, n, base, i);
}

/// The queue of a thread follows its policy: stoppers, Deadline threads, the
/// level of a real-time priority, fair threads, and idle work.
pub proof fn queues_follow_policies(policy: SchedulePolicy)
    ensures
        QueueMembershipClass::home(policy) == QueueMembershipClass::Stop <==> policy is KernelStop,
        QueueMembershipClass::home(policy) == QueueMembershipClass::Deadline <==> policy
            is Deadline,
        policy matches SchedulePolicy::Fifo { priority } ==> QueueMembershipClass::home(policy)
            == QueueMembershipClass::Realtime(priority.value),
        policy matches SchedulePolicy::RoundRobin { priority, .. } ==> QueueMembershipClass::home(
            policy,
        ) == QueueMembershipClass::Realtime(priority.value),
        policy matches SchedulePolicy::Fair { mode, .. } ==> (QueueMembershipClass::home(policy)
            == QueueMembershipClass::IdleFair <==> mode == FairMode::Idle),
        policy matches SchedulePolicy::Fair { mode, .. } ==> (QueueMembershipClass::home(policy)
            == QueueMembershipClass::Fair <==> mode != FairMode::Idle),
{
}

/// A thread begins with all that its policy gives it: the whole quantum, the
/// whole budget without a deadline yet, or a whole request at the given virtual
/// time.
pub proof fn threads_begin_with_all_they_get(entity: SchedulingEntity, policy: SchedulePolicy, slice_ns: u64, vruntime: u64)
    requires
        entity.initial(policy, slice_ns, vruntime),
    ensures
        entity.serves(policy),
        policy matches SchedulePolicy::RoundRobin { quantum_ns, .. } ==> entity == (
        SchedulingEntity::RoundRobin { remaining_quantum_ns: quantum_ns }),
        policy matches SchedulePolicy::Deadline(deadline) ==> {
            &&& entity->Deadline_0.policy == deadline
            &&& entity->Deadline_0.remaining_runtime_ns == deadline.runtime_ns
            &&& entity->Deadline_0.absolute_deadline is None
            &&& !entity->Deadline_0.throttled && !entity->Deadline_0.rescued
        },
        policy is Fair ==> {
            &&& entity->Fair_0.vruntime == vruntime
            &&& entity->Fair_0.slice_ns == slice_ns
            &&& entity->Fair_0.remaining_request_ns == slice_ns
            &&& entity->Fair_0.weight == policy.load()
            &&& entity->Fair_0.virtual_deadline == circular_offset(
                vruntime,
                slice_ns * 1024 / policy.load() as int,
            )
        },
{
}

/// Only a thread that runs on its own reservation, and asked for it, is charged
/// less when bandwidth lies idle.
pub proof fn only_reclaimers_reclaim(current: CurrentDispatch, runtime_ns: u64, inactive: u64, extra: u64, max: u64, reclaimed_ns: u64)
    ensures
        !(current.policy() is Deadline) || !current.policy()->Deadline_0.flags.reclaim
            || current.deadline_donor is Some ==> RunQueue::total_reclaimed(
            current,
            runtime_ns,
            inactive,
            extra,
            max,
            reclaimed_ns,
        ) == reclaimed_ns,
{
}

} // verus!
