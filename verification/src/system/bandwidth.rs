//! Deadline reservations on a run queue's bandwidth ledger.
use vstd::prelude::*;
use crate::ids::CpuId;
use crate::scheduler::deadline::DeadlineRunQueueBandwidth;
use crate::scheduler::entity::SchedulingEntity;
use crate::scheduler::policy::SchedulePolicy;
use crate::scheduler::run_queue::RunQueue;
use crate::thread::record::{DeadlineActivity, DeadlineReservation, ThreadRecord};
use crate::time::{circular_before, wrapping_before};

verus! {

/// Whether the reservation of a thread may start to contend on a run queue: it
/// is on no other one, and the ledger has room for it.
pub open spec fn can_contend(queue: &RunQueue, record: &ThreadRecord, owner: CpuId) -> bool {
    record.policy.base is Deadline ==> match record.deadline.owner {
        None => queue.deadline.bandwidth.can_add(record.deadline.reservation_scaled) && (
        queue.deadline.members@.contains(record.id) || queue.deadline.members@.len()
            < queue.deadline.member_capacity),
        Some(assigned) => assigned == owner && (record.deadline.activity
            == DeadlineActivity::Inactive ==> queue.deadline.bandwidth.running_bw_scaled
            + record.deadline.reservation_scaled <= queue.deadline.bandwidth.this_bw_scaled),
    }
}

/// The ledger after the reservation of a thread has started to contend.
pub open spec fn ledger_contends(after: &RunQueue, before: &RunQueue, record: &ThreadRecord) -> bool {
    let scaled = record.deadline.reservation_scaled;
    let ledger = before.deadline.bandwidth;
    &&& after.deadline.bandwidth == if !(record.policy.base is Deadline) {
        ledger
    } else if record.deadline.owner is None {
        ledger.added(scaled, true)
    } else if record.deadline.activity == DeadlineActivity::Inactive {
        DeadlineRunQueueBandwidth {
            running_bw_scaled: (ledger.running_bw_scaled + scaled) as u64,
            ..ledger
        }
    } else {
        ledger
    }
    &&& after.deadline.members@ == if record.policy.base is Deadline && record.deadline.owner
        is None && !before.deadline.members@.contains(record.id) {
        before.deadline.members@.push(record.id)
    } else {
        before.deadline.members@
    }
    &&& after.deadline.member_capacity == before.deadline.member_capacity
    &&& after.outside_ledger(before)
}

/// The reservation of a thread that contends on a run queue.
pub open spec fn contending(record: ThreadRecord, owner: CpuId) -> ThreadRecord {
    if record.policy.base is Deadline {
        ThreadRecord {
            deadline: DeadlineReservation {
                owner: Some(owner),
                activity: DeadlineActivity::Contending,
                ..record.deadline
            },
            ..record
        }
    } else {
        record
    }
}

/// Whether the reservation of a thread may leave a run queue.
pub open spec fn can_detach(queue: &RunQueue, record: &ThreadRecord, owner: CpuId) -> bool {
    record.deadline.owner matches Some(assigned) ==> assigned == owner
        && queue.deadline.bandwidth.can_remove(
        record.deadline.reservation_scaled,
        record.deadline.activity != DeadlineActivity::Inactive,
    )
}

/// The ledger after the reservation of a thread has left.
pub open spec fn ledger_detached(after: &RunQueue, before: &RunQueue, record: &ThreadRecord) -> bool {
    if record.deadline.owner is None {
        *after == *before
    } else {
        &&& after.deadline.bandwidth == before.deadline.bandwidth.removed(
            record.deadline.reservation_scaled,
            record.deadline.activity != DeadlineActivity::Inactive,
        )
        &&& forall|other|
            after.deadline.members@.contains(other) <==> before.deadline.members@.contains(other)
                && other != record.id
        &&& after.deadline.member_capacity == before.deadline.member_capacity
        &&& after.outside_ledger(before)
    }
}

/// The reservation of a thread that is on no run queue.
pub open spec fn detached(record: ThreadRecord) -> ThreadRecord {
    if record.deadline.owner is None {
        record
    } else {
        ThreadRecord {
            deadline: DeadlineReservation {
                owner: None,
                activity: DeadlineActivity::Inactive,
                timers_stale: true,
                ..record.deadline
            },
            ..record
        }
    }
}

/// Tests `can_contend` of a reservation that the record may come to hold.
pub fn may_contend_as(queue: &RunQueue, record: &ThreadRecord, reservation: DeadlineReservation, owner: CpuId) -> (may: bool)
    requires
        queue.wf(),
    ensures
        may == can_contend(queue, &(ThreadRecord { deadline: reservation, ..*record }), owner),
{
    match record.policy.base {
        SchedulePolicy::Deadline(_) => {},
        _ => {
            return true;
        },
    }
    let bandwidth = queue.deadline.bandwidth;
    let scaled: u64 = reservation.reservation_scaled;
    match reservation.owner {
        None => bandwidth.this_bw_scaled <= u64::MAX - scaled && (queue.is_deadline_member(
            record.id,
        ) || queue.deadline.members.len() < queue.deadline.member_capacity),
        Some(assigned) => assigned == owner && (reservation.activity != DeadlineActivity::Inactive
            || (bandwidth.running_bw_scaled <= bandwidth.this_bw_scaled && scaled
            <= bandwidth.this_bw_scaled - bandwidth.running_bw_scaled)),
    }
}

/// Tests `can_contend`.
pub fn may_contend(queue: &RunQueue, record: &ThreadRecord, owner: CpuId) -> (may: bool)
    requires
        queue.wf(),
    ensures
        may == can_contend(queue, record, owner),
{
    may_contend_as(queue, record, record.deadline, owner)
}

/// Tests `can_detach`.
pub fn may_detach(queue: &RunQueue, record: &ThreadRecord, owner: CpuId) -> (may: bool)
    requires
        queue.wf(),
    ensures
        may == can_detach(queue, record, owner),
{
    let assigned = match record.deadline.owner {
        Some(assigned) => assigned,
        None => {
            return true;
        },
    };
    let bandwidth = queue.deadline.bandwidth;
    let scaled: u64 = record.deadline.reservation_scaled;
    let active = record.deadline.activity != DeadlineActivity::Inactive;
    if assigned != owner || scaled > bandwidth.this_bw_scaled {
        return false;
    }
    if active {
        scaled <= bandwidth.running_bw_scaled && bandwidth.running_bw_scaled - scaled
            <= bandwidth.this_bw_scaled - scaled
    } else {
        bandwidth.running_bw_scaled <= bandwidth.this_bw_scaled - scaled
    }
}

/// Lets the reservation of a thread contend on the run queue of `owner`.
pub fn activate_deadline_bandwidth(queue: &mut RunQueue, record: &mut ThreadRecord, owner: CpuId)
    requires
        old(queue).wf(),
        can_contend(old(queue), old(record), owner),
    ensures
        ledger_contends(final(queue), old(queue), old(record)),
        *final(record) == contending(*old(record), owner),
        final(queue).wf(),
        old(record).wf() ==> final(record).wf(),
{
    match record.policy.base {
        SchedulePolicy::Deadline(_) => {},
        _ => {
            return;
        },
    }
    let scaled: u64 = record.deadline.reservation_scaled;
    match record.deadline.owner {
        None => {
            let _ = queue.register_deadline_member(record.id);
            queue.add_deadline_bandwidth(scaled, true);
        },
        Some(_) => {
            if record.deadline.activity == DeadlineActivity::Inactive {
                queue.activate_deadline_bandwidth(scaled);
            }
        },
    }
    record.deadline.owner = Some(owner);
    record.deadline.activity = DeadlineActivity::Contending;
}

/// Takes the reservation of a thread off the run queue of `owner`.
pub fn detach_deadline_bandwidth(queue: &mut RunQueue, record: &mut ThreadRecord, owner: CpuId)
    requires
        old(queue).wf(),
        can_detach(old(queue), old(record), owner),
    ensures
        ledger_detached(final(queue), old(queue), old(record)),
        *final(record) == detached(*old(record)),
        final(queue).wf(),
        old(record).wf() ==> final(record).wf(),
{
    if record.deadline.owner.is_none() {
        return;
    }
    queue.remove_deadline_bandwidth(
        record.deadline.reservation_scaled,
        record.deadline.activity != DeadlineActivity::Inactive,
    );
    queue.unregister_deadline_member(record.id);
    record.deadline.owner = None;
    record.deadline.activity = DeadlineActivity::Inactive;
    record.deadline.timers_stale = true;
}

/// Whether the reservation of a thread that is not runnable can be put on a run
/// queue.
pub open spec fn can_assign(queue: &RunQueue, record: &ThreadRecord) -> bool {
    record.policy.base is Deadline && record.deadline.owner is None
        ==> queue.deadline.bandwidth.can_add(record.deadline.reservation_scaled) && (
    queue.deadline.members@.contains(record.id) || queue.deadline.members@.len()
        < queue.deadline.member_capacity)
}

/// The ledger with the reservation put on it, claiming nothing.
pub open spec fn ledger_assigned(after: &RunQueue, before: &RunQueue, record: &ThreadRecord) -> bool {
    if record.policy.base is Deadline && record.deadline.owner is None {
        &&& after.deadline.bandwidth == before.deadline.bandwidth.added(
            record.deadline.reservation_scaled,
            false,
        )
        &&& after.deadline.members@ == if before.deadline.members@.contains(record.id) {
            before.deadline.members@
        } else {
            before.deadline.members@.push(record.id)
        }
        &&& after.deadline.member_capacity == before.deadline.member_capacity
        &&& after.outside_ledger(before)
    } else {
        *after == *before
    }
}

/// The record whose reservation is put on a run queue, claiming nothing.
pub open spec fn assigned(record: ThreadRecord, owner: CpuId) -> ThreadRecord {
    if record.policy.base is Deadline && record.deadline.owner is None {
        ThreadRecord {
            deadline: DeadlineReservation {
                owner: Some(owner),
                activity: DeadlineActivity::Inactive,
                timers_stale: true,
                ..record.deadline
            },
            ..record
        }
    } else {
        record
    }
}

/// Tests whether the reservation of a resting thread can be put on a run queue.
pub fn may_assign(queue: &RunQueue, record: &ThreadRecord, owner: CpuId) -> (may: bool)
    requires
        queue.wf(),
    ensures
        may == can_assign(queue, record),
{
    if record.deadline.owner.is_some() {
        return true;
    }
    may_contend(queue, record, owner)
}

/// Puts the reservation of a resting thread on the run queue of `owner`.
pub fn assign_inactive_deadline_bandwidth(queue: &mut RunQueue, record: &mut ThreadRecord, owner: CpuId)
    requires
        old(queue).wf(),
        can_assign(old(queue), old(record)),
    ensures
        ledger_assigned(final(queue), old(queue), old(record)),
        *final(record) == assigned(*old(record), owner),
        final(queue).wf(),
        old(record).wf() ==> final(record).wf(),
{
    match record.policy.base {
        SchedulePolicy::Deadline(_) => {},
        _ => {
            return;
        },
    }
    if record.deadline.owner.is_some() {
        return;
    }
    let _ = queue.register_deadline_member(record.id);
    queue.add_deadline_bandwidth(record.deadline.reservation_scaled, false);
    record.deadline.owner = Some(owner);
    record.deadline.activity = DeadlineActivity::Inactive;
    record.deadline.timers_stale = true;
}

/// The instant from which a sleeping reservation claims no bandwidth, if it
/// claims any.
pub open spec fn claim_ends(record: &ThreadRecord, base: SchedulingEntity, owner: CpuId) -> Option<u64> {
    match base {
        SchedulingEntity::Deadline(deadline) => if record.deadline.owner == Some(owner)
            && record.deadline.activity == DeadlineActivity::Contending
            && deadline.absolute_deadline is Some {
            Some(deadline.zero_lag())
        } else {
            None
        },
        _ => None,
    }
}

/// The record after its thread has gone to sleep.
pub open spec fn resting(record: ThreadRecord, base: SchedulingEntity, owner: CpuId, now_ns: u64) -> ThreadRecord {
    match claim_ends(&record, base, owner) {
        Some(zero_lag_ns) => ThreadRecord {
            deadline: DeadlineReservation {
                activity: if circular_before(now_ns, zero_lag_ns) {
                    DeadlineActivity::NonContending { zero_lag_ns }
                } else {
                    DeadlineActivity::Inactive
                },
                timers_stale: true,
                ..record.deadline
            },
            ..record
        },
        None => record,
    }
}

/// The ledger after a thread has gone to sleep: its claim ends at once where its
/// zero-lag instant has passed.
pub open spec fn ledger_rests(after: &RunQueue, before: &RunQueue, record: &ThreadRecord, base: SchedulingEntity, owner: CpuId, now_ns: u64) -> bool {
    match claim_ends(record, base, owner) {
        Some(zero_lag_ns) => if circular_before(now_ns, zero_lag_ns) {
            *after == *before
        } else {
            &&& after.deadline.bandwidth == (DeadlineRunQueueBandwidth {
                running_bw_scaled: (before.deadline.bandwidth.running_bw_scaled
                    - record.deadline.reservation_scaled) as u64,
                ..before.deadline.bandwidth
            })
            &&& after.deadline.members == before.deadline.members
            &&& after.deadline.member_capacity == before.deadline.member_capacity
            &&& after.outside_ledger(before)
        },
        None => *after == *before,
    }
}

/// Ends the contention of a thread that goes to sleep.
pub fn mark_deadline_non_contending(
    queue: &mut RunQueue,
    record: &mut ThreadRecord,
    base: SchedulingEntity,
    owner: CpuId,
    now_ns: u64,
)
    requires
        old(queue).wf(),
        base.wf(),
        old(record).deadline.owner == Some(owner) && old(record).deadline.activity
            == DeadlineActivity::Contending ==> old(record).deadline.reservation_scaled <= old(
            queue,
        ).deadline.bandwidth.running_bw_scaled,
    ensures
        ledger_rests(final(queue), old(queue), old(record), base, owner, now_ns),
        *final(record) == resting(*old(record), base, owner, now_ns),
        final(queue).wf(),
        old(record).wf() ==> final(record).wf(),
{
    let assigned = match record.deadline.owner {
        Some(assigned) => assigned == owner,
        None => false,
    };
    if !assigned || record.deadline.activity != DeadlineActivity::Contending {
        return;
    }
    let deadline = match base.deadline() {
        Some(deadline) => deadline,
        None => {
            return;
        },
    };
    let zero_lag_ns: u64 = match deadline.zero_lag_ns() {
        Some(zero_lag_ns) => zero_lag_ns,
        None => {
            return;
        },
    };
    record.deadline.timers_stale = true;
    if wrapping_before(now_ns, zero_lag_ns) {
        record.deadline.activity = DeadlineActivity::NonContending { zero_lag_ns };
    } else {
        record.deadline.activity = DeadlineActivity::Inactive;
        queue.deactivate_deadline_bandwidth(record.deadline.reservation_scaled);
    }
}

/// Taking a reservation off a run queue undoes putting it there.
pub proof fn detaching_undoes_attaching(before: DeadlineRunQueueBandwidth, scaled: u64)
    requires
        before.wf(),
        before.can_add(scaled),
    ensures
        before.added(scaled, true).can_remove(scaled, true),
        before.added(scaled, true).removed(scaled, true) == before,
{
}

} // verus!
