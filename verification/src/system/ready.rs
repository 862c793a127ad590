//! Making a thread runnable on a run queue.
use vstd::prelude::*;
use crate::cpu::run_queue::WakePreemptionDecision;
use crate::ids::CpuId;
use crate::scheduler::entity::{EnqueueReason, FairEntity, SchedulingEntity};
use crate::scheduler::policy::SchedulePolicy;
use crate::scheduler::run_queue::{QueueMembership, QueueMembershipClass, RunQueue};
use crate::scheduler::task::{ActiveSchedulingState, QueuedThread};
use crate::system::bandwidth::{
    may_contend_as, activate_deadline_bandwidth, can_contend, contending, ledger_contends,
};
use crate::thread::placement::{TaskOnRunQueue, ThreadPlacementState};
use crate::thread::record::{DeadlineReservation, ThreadPolicyState, ThreadRecord};
use crate::time::circular_offset;

verus! {

/// The running fair entity.
pub open spec fn running_fair(queue: &RunQueue) -> Option<FairEntity> {
    match queue.running_entity() {
        Some(entity) => entity.as_fair(),
        None => None,
    }
}

/// The running entity of a queue whose dispatch is in order is well-formed.
pub proof fn running_entity_is_wf(queue: &RunQueue)
    requires
        queue.wf(),
        queue.dispatch_ok(),
    ensures
        queue.running_entity() matches Some(entity) ==> entity.wf(),
        running_fair(queue) matches Some(fair) ==> fair.wf(),
{
    if let Some(id) = queue.linked() {
        queue.member_record(id);
    }
}

pub fn current_fair(queue: &RunQueue) -> (fair: Option<FairEntity>)
    requires
        queue.wf(),
        queue.dispatch_ok(),
    ensures
        fair == running_fair(queue),
        fair matches Some(entity) ==> entity.wf(),
{
    proof {
        running_entity_is_wf(queue);
    }
    match queue.current_scheduling_entity() {
        Some(entity) => entity.fair(),
        None => None,
    }
}

/// The record without its scheduling state, which a run queue has taken.
pub open spec fn lent(record: ThreadRecord) -> ThreadRecord {
    ThreadRecord { policy: ThreadPolicyState { active: None, ..record.policy }, ..record }
}

/// The record that has its scheduling state back.
pub open spec fn returned(record: ThreadRecord, active: ActiveSchedulingState) -> ThreadRecord {
    ThreadRecord { policy: ThreadPolicyState { active: Some(active), ..record.policy }, ..record }
}

/// The placement of a thread that is linked to the run queue of `owner`.
pub open spec fn linked_placement(placement: ThreadPlacementState, owner: CpuId) -> ThreadPlacementState {
    if placement.on_cpu == Some(owner) {
        placement
    } else {
        ThreadPlacementState {
            task_cpu: Some(owner),
            on_rq: TaskOnRunQueue::Queued,
            migration_request: if placement.migration_request == Some(owner) {
                None
            } else {
                placement.migration_request
            },
            ..placement
        }
    }
}

pub open spec fn can_link(placement: &ThreadPlacementState, owner: CpuId) -> bool {
    if placement.on_cpu == Some(owner) {
        placement.can_put_prev(owner)
    } else {
        placement.can_activate(owner)
    }
}

/// Whether a thread can be made runnable: it holds its scheduling state, no
/// list holds the thread, and there is room for it.
pub open spec fn can_ready(queue: &RunQueue, record: &ThreadRecord, owner: CpuId) -> bool {
    &&& record.policy.active matches Some(active)
    &&& queue.can_enqueue(record.entry(active))
    &&& queue.member(record.id) is None
    &&& active.policy is KernelStop ==> queue.stop is None
    &&& can_contend(queue, record, owner)
    &&& can_link(&record.placement, owner)
}

/// The fair virtual time against which a wakee is judged.
pub open spec fn judged_at(queue: &RunQueue, entity: SchedulingEntity) -> u64 {
    match entity {
        SchedulingEntity::Fair(fair) => queue.mode_time(fair.mode),
        _ => 0,
    }
}

/// The queue after a thread was made runnable: virtual time moves to the
/// present, the thread enters its list, its reservation contends, and virtual
/// time moves again.
#[verifier::opaque]
pub open spec fn queue_readied(after: &RunQueue, before: &RunQueue, record: &ThreadRecord, reason: EnqueueReason, placed: SchedulingEntity) -> bool {
    let fair = running_fair(before);
    let entry = record.entry(record.policy.active->0);
    exists|timed: RunQueue, queued: RunQueue, counted: RunQueue|
        #[trigger] timed.retimed(before, fair) && #[trigger] queued.enqueued(
            &timed,
            entry,
            reason,
            fair,
        ) && placed == timed.placed_record(entry, reason, fair).entity()
            && #[trigger] ledger_contends(&counted, &queued, record) && after.retimed(
            &counted,
            fair,
        )
}

/// The record after its thread was made runnable.
pub open spec fn record_readied(record: ThreadRecord, owner: CpuId, placed: SchedulingEntity) -> ThreadRecord {
    let held = contending(lent(record), owner).published(
        (record.policy.active->0).policy,
        placed,
    );
    ThreadRecord {
        placement: linked_placement(held.placement, owner),
        wake_cpu_hint: Some(owner),
        ..held
    }
}

pub fn may_link(placement: &ThreadPlacementState, owner: CpuId) -> (may: bool)
    ensures
        may == can_link(placement, owner),
{
    let here = match placement.on_cpu {
        Some(cpu) => cpu == owner,
        None => false,
    };
    let assigned_here = match placement.task_cpu {
        Some(cpu) => cpu == owner,
        None => false,
    };
    if here {
        placement.on_rq == TaskOnRunQueue::Queued && assigned_here
            && placement.migration_request.is_none()
    } else {
        placement.on_cpu.is_none() && match placement.on_rq {
            TaskOnRunQueue::Off => true,
            TaskOnRunQueue::Migrating => assigned_here,
            TaskOnRunQueue::Queued => false,
        }
    }
}

/// Tests `can_ready` of a scheduling state and a reservation that the record may
/// come to hold.
pub fn may_ready_as(
    queue: &RunQueue,
    record: &ThreadRecord,
    active: ActiveSchedulingState,
    reservation: DeadlineReservation,
    owner: CpuId,
) -> (may: bool)
    requires
        queue.wf(),
        record.wf(),
        active.wf(),
    ensures
        may == can_ready(
            queue,
            &returned(ThreadRecord { deadline: reservation, ..*record }, active),
            owner,
        ),
{
    let stop_ok = match active.policy {
        SchedulePolicy::KernelStop => queue.stop.is_none(),
        _ => true,
    };
    stop_ok && !queue.contains(record.id) && queue.may_enqueue(record.queued_thread(active))
        && may_contend_as(queue, record, reservation, owner) && may_link(&record.placement, owner)
}

/// Links the thread to the run queue of `owner` and hands its scheduling state
/// over. Says whether the thread should preempt the running one.
pub fn link_ready_thread(queue: &mut RunQueue, record: &mut ThreadRecord, owner: CpuId, reason: EnqueueReason) -> (result: (bool, SchedulingEntity))
    requires
        old(queue).wf(),
        old(queue).dispatch_ok(),
        old(record).wf(),
        can_ready(old(queue), old(record), owner),
    ensures
        queue_readied(final(queue), old(queue), old(record), reason, result.1),
        *final(record) == record_readied(*old(record), owner, result.1),
        result.0 == (final(queue).preemption(
            old(record).id,
            (old(record).policy.active->0).policy,
            result.1,
            judged_at(final(queue), result.1),
        ) == WakePreemptionDecision::WakeeSelected),
        final(queue).current == old(queue).current,
        final(queue).wf(),
        final(queue).dispatch_ok(),
        final(record).wf(),
{
    let active = record.policy.active.unwrap();
    let policy = active.policy;
    let entry = record.queued_thread(active);
    let fair = current_fair(queue);
    let ghost before = *queue;
    queue.update_fair_virtual_time(fair);
    let ghost timed = *queue;
    proof {
        assert(timed.list_of(QueueMembershipClass::Fair) == before.list_of(
            QueueMembershipClass::Fair,
        ));
        assert(timed.list_of(QueueMembershipClass::IdleFair) == before.list_of(
            QueueMembershipClass::IdleFair,
        ));
        assert(timed.list_of(QueueMembershipClass::Stop) == before.list_of(
            QueueMembershipClass::Stop,
        ));
        if timed.stop is Some {
            assert(timed.list_of(QueueMembershipClass::Stop).len() == 1);
        }
        if before.stop is None {
            assert(before.list_of(QueueMembershipClass::Stop).len() == 0);
        }
    }
    record.policy.active = None;
    let placed = match queue.enqueue_task(entry, reason, fair) {
        Ok(placed) => placed,
        Err(_) => active.entity(),
    };
    let ghost queued = *queue;
    activate_deadline_bandwidth(queue, record, owner);
    let ghost counted = *queue;
    queue.update_fair_virtual_time(fair);
    let fair_virtual_time: u64 = match placed {
        SchedulingEntity::Fair(fair) => queue.virtual_time_for_mode(fair.mode),
        _ => 0,
    };
    let decision = queue.wakee_preemption(record.id, policy, placed, fair_virtual_time);
    record.publish_effective_schedule(policy, placed);
    let here = match record.placement.on_cpu {
        Some(cpu) => cpu == owner,
        None => false,
    };
    if here {
        record.placement.put_prev(owner);
    } else {
        record.placement.activate(owner);
    }
    record.wake_cpu_hint = Some(owner);
    proof {
        reveal(queue_readied);
        assert(timed.retimed(&before, fair));
        assert(queued.enqueued(&timed, entry, reason, fair));
        assert(ledger_contends(&counted, &queued, old(record)));
    }
    (decision.requests_reschedule(), placed)
}

/// Whether a throttled Deadline thread can be parked on a run queue.
pub open spec fn can_throttle(queue: &RunQueue, record: &ThreadRecord, owner: CpuId) -> bool {
    &&& can_ready(queue, record, owner)
    &&& (record.policy.active->0).policy is Deadline
    &&& (record.policy.active->0).effective().is_throttled()
    &&& record.placement.on_cpu is None
}

/// The queue after a throttled Deadline thread was parked on it.
#[verifier::opaque]
pub open spec fn queue_throttled(after: &RunQueue, before: &RunQueue, record: &ThreadRecord) -> bool {
    let class = QueueMembershipClass::DeadlineThrottled;
    let entry = record.entry(record.policy.active->0);
    exists|counted: RunQueue| #[trigger] ledger_contends(&counted, before, record) && {
        &&& after.list_of(class) == counted.list_of(class).push(
            QueuedThread { sequence: counted.next_sequence, ..entry },
        )
        &&& after.only_list_changed(&counted, class)
        &&& after.membership@ == counted.membership@.update(
            record.id.slot as int,
            Some(QueueMembership { generation: record.id.generation, class }),
        )
        &&& after.nr_running == counted.nr_running
        &&& after.fixed_placement_demand == counted.fixed_placement_demand
        &&& after.current == counted.current
        &&& after.next_sequence == circular_offset(counted.next_sequence, 1)
        &&& after.balance_scan_epoch == counted.balance_scan_epoch
        &&& after.same_ledger(&counted)
        &&& after.same_times(&counted)
        &&& after.same_rt_pushable(&counted)
    }
}

/// Parks a thread without budget on the run queue of `owner`.
pub fn link_throttled_deadline(queue: &mut RunQueue, record: &mut ThreadRecord, owner: CpuId)
    requires
        old(queue).wf(),
        old(record).wf(),
        can_throttle(old(queue), old(record), owner),
    ensures
        queue_throttled(final(queue), old(queue), old(record)),
        *final(record) == record_readied(
            *old(record),
            owner,
            (old(record).policy.active->0).effective(),
        ),
        final(queue).current == old(queue).current,
        final(queue).wf(),
        old(queue).dispatch_ok() ==> final(queue).dispatch_ok(),
        final(record).wf(),
{
    let active = record.policy.active.unwrap();
    let ghost before = *queue;
    let entry = record.queued_thread(active);
    activate_deadline_bandwidth(queue, record, owner);
    let ghost counted = *queue;
    proof {
        assert(counted.list_of(QueueMembershipClass::Fair) == before.list_of(
            QueueMembershipClass::Fair,
        ));
        assert(counted.list_of(QueueMembershipClass::IdleFair) == before.list_of(
            QueueMembershipClass::IdleFair,
        ));
        assert(ledger_contends(&counted, &before, old(record)));
    }
    record.policy.active = None;
    let _ = queue.enqueue_throttled_deadline(entry);
    proof {
        reveal(queue_throttled);
    }
    record.publish_effective_schedule(active.policy, active.entity());
    record.placement.activate(owner);
    record.wake_cpu_hint = Some(owner);
}

} // verus!
