//! Changes of policy, applied by the owner of the CPU that answers for the
//! thread.
use vstd::prelude::*;
use crate::cpu::local::CpuLocal;
use crate::ids::CpuId;
use crate::scheduler::entity::SchedulingEntity;
use crate::scheduler::policy::SchedulePolicy;
use crate::scheduler::run_queue::RunQueue;
use crate::scheduler::task::ActiveSchedulingState;
use crate::system::affinity::shown;
use crate::system::bandwidth::{
    activate_deadline_bandwidth, can_contend, can_detach, contending, detach_deadline_bandwidth,
    detached, ledger_contends, ledger_detached, may_contend,
};
use crate::system::restate::{SchedulePosition, can_restate, record_restated, restate, restated};
use crate::system::task_system::with_queue;
use crate::thread::record::{
    DeadlineReservation, PendingPolicyUpdate, ThreadPolicyState, ThreadRecord,
};

verus! {

/// The thread's own entity under a new policy. A fair entity that stays fair
/// keeps its lag, measured where it waits; any other starts afresh.
pub open spec fn rebased(next: SchedulingEntity, base: SchedulingEntity, policy: SchedulePolicy, queue: &RunQueue, position: SchedulePosition, slice_ns: u64, now_ns: u64) -> bool {
    match (base, policy) {
        (SchedulingEntity::Fair(fair), SchedulePolicy::Fair { nice, mode }) => {
            let resting = position == SchedulePosition::Resting;
            let source = if resting {
                fair.vruntime
            } else {
                queue.mode_time(fair.mode)
            };
            let destination = if resting {
                source
            } else {
                queue.mode_time(mode)
            };
            next == SchedulingEntity::Fair(fair.reconfigured(nice, mode, source, destination))
        },
        _ => exists|fresh: SchedulingEntity|
            #[trigger] fresh.initial(policy, slice_ns, 0) && next == if position
                == SchedulePosition::Resting {
                fresh
            } else {
                fresh.activated(now_ns)
            },
    }
}

/// The scheduling state under a new base policy. An inheritance goes on.
pub open spec fn reconfigured_state(next: ActiveSchedulingState, state: ActiveSchedulingState, boosted: bool, policy: SchedulePolicy, queue: &RunQueue, position: SchedulePosition, slice_ns: u64, now_ns: u64) -> bool {
    exists|base: SchedulingEntity|
        #[trigger] rebased(base, state.base_entity, policy, queue, position, slice_ns, now_ns)
            && next == if boosted {
            ActiveSchedulingState { base_entity: base, ..state }
        } else {
            ActiveSchedulingState { policy, base_entity: base, inherited: None }
        }
}

/// Computes the scheduling state under a new base policy.
pub(crate) fn reconfigure(state: ActiveSchedulingState, boosted: bool, policy: SchedulePolicy, queue: &RunQueue, position: SchedulePosition, slice_ns: u64, now_ns: u64) -> (next: ActiveSchedulingState)
    requires
        state.wf(),
        policy.valid(),
        boosted ==> state.inherited is Some,
    ensures
        reconfigured_state(next, state, boosted, policy, queue, position, slice_ns, now_ns),
        next.wf(),
{
    let resting = position == SchedulePosition::Resting;
    let base = match (state.base_entity, policy) {
        (SchedulingEntity::Fair(fair), SchedulePolicy::Fair { nice, mode }) => {
            let source: u64 = if resting {
                fair.vruntime
            } else {
                queue.virtual_time_for_mode(fair.mode)
            };
            let destination: u64 = if resting {
                source
            } else {
                queue.virtual_time_for_mode(mode)
            };
            SchedulingEntity::Fair(fair.reconfigure(nice, mode, source, destination))
        },
        _ => {
            let mut entity = SchedulingEntity::new(policy, slice_ns, 0);
            let ghost fresh = entity;
            assert(fresh.initial(policy, slice_ns, 0));
            if !resting {
                entity.activate_deadline(now_ns);
            }
            entity
        },
    };
    proof {
        assert(rebased(base, state.base_entity, policy, queue, position, slice_ns, now_ns));
    }
    let mut next = state;
    next.replace_base_entity(base);
    if !boosted {
        next.use_base_entity(policy);
    }
    next
}

/// The record under a new policy.
pub open spec fn policy_committed(record: ThreadRecord, pending: PendingPolicyUpdate) -> ThreadRecord {
    ThreadRecord {
        policy: ThreadPolicyState {
            base: pending.policy,
            pending: None,
            dispatch_generation: (record.policy.dispatch_generation + 1) as u64,
            ..record.policy
        },
        deadline: DeadlineReservation {
            reservation_scaled: pending.reservation_scaled,
            ..record.deadline
        },
        ..record
    }
}

/// The record whose old reservation left its run queue.
pub open spec fn reservation_exchanged(record: ThreadRecord, held: DeadlineReservation) -> ThreadRecord {
    if held.owner is None {
        record
    } else {
        ThreadRecord {
            deadline: DeadlineReservation {
                reservation_scaled: record.deadline.reservation_scaled,
                ..detached(ThreadRecord { deadline: held, ..record }).deadline
            },
            ..record
        }
    }
}

/// Whether the new reservation of a runnable thread contends at once.
pub open spec fn recontends(queue: &RunQueue, record: &ThreadRecord, owner: CpuId, position: SchedulePosition) -> bool {
    position != SchedulePosition::Resting && can_contend(queue, record, owner)
}

/// The run queue and the record after the old reservation left and, if the
/// thread is runnable, the new one contends.
#[verifier::opaque]
pub open spec fn reservation_moved(after: &RunQueue, settled: ThreadRecord, before: &RunQueue, record: ThreadRecord, held: DeadlineReservation, owner: CpuId, position: SchedulePosition) -> bool {
    let exchanged = reservation_exchanged(record, held);
    exists|freed: RunQueue|
        #[trigger] ledger_detached(&freed, before, &ThreadRecord { deadline: held, ..record }) && if recontends(&freed, &exchanged, owner, position) {
            ledger_contends(after, &freed, &exchanged) && settled == contending(exchanged, owner)
        } else {
            *after == freed && settled == exchanged
        }
}

/// Takes a reservation out of a run queue and lets the one that the record
/// carries contend in its place.
fn move_reservation(queue: &mut RunQueue, record: &mut ThreadRecord, held: DeadlineReservation, owner: CpuId, position: SchedulePosition)
    requires
        old(queue).wf(),
        old(queue).dispatch_ok(),
        old(record).wf(),
        can_detach(old(queue), &(ThreadRecord { deadline: held, ..*old(record) }), owner),
    ensures
        reservation_moved(
            final(queue),
            *final(record),
            old(queue),
            *old(record),
            held,
            owner,
            position,
        ),
        final(queue).dispatch_ok(),
        final(queue).wf(),
        final(record).wf(),
{
    let ghost start = *record;
    let committed: u64 = record.deadline.reservation_scaled;
    let keeps = record.deadline;
    record.deadline = held;
    detach_deadline_bandwidth(queue, record, owner);
    if held.owner.is_some() {
        record.deadline.reservation_scaled = committed;
    } else {
        record.deadline = keeps;
    }
    let ghost freed = *queue;
    proof {
        assert(*record == reservation_exchanged(start, held));
        assert(ledger_detached(&freed, old(queue), &ThreadRecord { deadline: held, ..start }));
        reveal(reservation_moved);
    }
    if position != SchedulePosition::Resting && may_contend(queue, record, owner) {
        activate_deadline_bandwidth(queue, record, owner);
    }
}

/// The CPU and the record after a new policy was applied: the thread is given
/// its new scheduling state, the old reservation leaves, and the new one
/// contends if the thread is runnable.
#[verifier::opaque]
pub open spec fn policy_applied_on(
    after: CpuLocal,
    settled: ThreadRecord,
    before: CpuLocal,
    record: ThreadRecord,
    pending: PendingPolicyUpdate,
    owner: CpuId,
    position: SchedulePosition,
    next: ActiveSchedulingState,
) -> bool {
    let committed = policy_committed(record, pending);
    exists|changed: RunQueue, queue: RunQueue|
        #[trigger] restated(&changed, &before.queue(), &committed, position, next)
            && #[trigger] reservation_moved(
            &queue,
            settled,
            &changed,
            record_restated(committed, position, next),
            record.deadline,
            owner,
            position,
        ) && after == shown(with_queue(before, queue))
}

/// What was done step by step is what a new policy amounts to.
proof fn policy_is_applied(
    after: CpuLocal,
    settled: ThreadRecord,
    before: CpuLocal,
    record: ThreadRecord,
    pending: PendingPolicyUpdate,
    owner: CpuId,
    position: SchedulePosition,
    next: ActiveSchedulingState,
    changed: RunQueue,
    queue: RunQueue,
)
    requires
        restated(&changed, &before.queue(), &policy_committed(record, pending), position, next),
        reservation_moved(
            &queue,
            settled,
            &changed,
            record_restated(policy_committed(record, pending), position, next),
            record.deadline,
            owner,
            position,
        ),
        after == shown(with_queue(before, queue)),
    ensures
        policy_applied_on(after, settled, before, record, pending, owner, position, next),
{
    reveal(policy_applied_on);
}

/// Of two run queues that a CPU is given, the second counts.
proof fn requeueing_twice(local: CpuLocal, changed: CpuLocal, queue: RunQueue)
    requires
        changed == with_queue(local, changed.queue()),
    ensures
        with_queue(changed, queue) == with_queue(local, queue),
{
}

/// Moves the reservation of a thread on its CPU, and shows the load.
fn move_reservation_on(local: &mut CpuLocal, record: &mut ThreadRecord, held: DeadlineReservation, owner: CpuId, position: SchedulePosition)
    requires
        old(local).wf(),
        old(record).wf(),
        can_detach(
            &old(local).queue(),
            &(ThreadRecord { deadline: held, ..*old(record) }),
            owner,
        ),
    ensures
        reservation_moved(
            &final(local).queue(),
            *final(record),
            &old(local).queue(),
            *old(record),
            held,
            owner,
            position,
        ),
        *final(local) == shown(with_queue(*old(local), final(local).queue())),
        final(local).wf(),
        final(record).wf(),
{
    move_reservation(&mut local.remote.run_queue.queue, record, held, owner, position);
    let ghost queue = local.queue();
    local.remote.publish_run_queue_load_summary();
    assert(*local == shown(with_queue(*old(local), queue)));
}

/// Applies a new policy on the CPU that answers for a thread.
pub(crate) fn apply_policy_on(local: &mut CpuLocal, record: &mut ThreadRecord, pending: PendingPolicyUpdate, owner: CpuId, position: SchedulePosition, next: ActiveSchedulingState)
    requires
        old(local).wf(),
        old(record).wf(),
        pending.policy.valid(),
        old(record).policy.dispatch_generation < u64::MAX,
        can_restate(
            &old(local).queue(),
            &policy_committed(*old(record), pending),
            position,
            next,
        ),
        can_detach(&old(local).queue(), old(record), owner),
    ensures
        policy_applied_on(
            *final(local),
            *final(record),
            *old(local),
            *old(record),
            pending,
            owner,
            position,
            next,
        ),
        final(local).remote.owner == old(local).remote.owner,
        final(local).wf(),
        final(record).wf(),
{
    let ghost start = *record;
    let held = record.deadline;
    record.policy.base = pending.policy;
    record.policy.pending = None;
    record.policy.dispatch_generation = record.policy.dispatch_generation + 1;
    record.deadline.reservation_scaled = pending.reservation_scaled;
    let ghost committed = *record;
    assert(committed == policy_committed(start, pending));
    restate(&mut local.remote.run_queue.queue, record, position, next);
    let ghost changed = *local;
    assert(changed == with_queue(*old(local), changed.queue()));
    move_reservation_on(local, record, held, owner, position);
    proof {
        requeueing_twice(*old(local), changed, local.queue());
        policy_is_applied(
            *local,
            *record,
            *old(local),
            start,
            pending,
            owner,
            position,
            next,
            changed.queue(),
            local.queue(),
        );
    }
}

} // verus!
