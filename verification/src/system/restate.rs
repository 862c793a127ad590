//! Changing the scheduling state of a thread wherever it stands.
use vstd::prelude::*;
use crate::cpu::dispatch::{CurrentClassState, CurrentDispatch};
use crate::ids::{CpuId, ThreadId};
use crate::scheduler::entity::EnqueueReason;
use crate::scheduler::run_queue::{QueueMembershipClass, RunQueue, saturated_sub};
use crate::scheduler::task::{ActiveSchedulingState, QueuedThread};
use crate::system::ready::{current_fair, returned, running_fair};
use crate::thread::record::ThreadRecord;

verus! {

/// Who holds the scheduling state of a thread.
#[derive(Clone, Copy, Debug, PartialEq, Eq, Structural)]
pub enum SchedulePosition {
    /// The CPU that runs the thread.
    Running,
    /// The run queue on which the thread waits.
    Queued,
    /// The thread itself.
    Resting,
}

pub open spec fn position_of(record: &ThreadRecord, owner: CpuId) -> SchedulePosition {
    if record.placement.executing_on() == Some(owner) {
        SchedulePosition::Running
    } else if record.placement.queued_on() == Some(owner) {
        SchedulePosition::Queued
    } else {
        SchedulePosition::Resting
    }
}

pub fn schedule_position(record: &ThreadRecord, owner: CpuId) -> (position: SchedulePosition)
    ensures
        position == position_of(record, owner),
{
    let running = match record.placement.execution_cpu() {
        Some(cpu) => cpu == owner,
        None => false,
    };
    let queued = match record.placement.queued_cpu() {
        Some(cpu) => cpu == owner,
        None => false,
    };
    if running {
        SchedulePosition::Running
    } else if queued {
        SchedulePosition::Queued
    } else {
        SchedulePosition::Resting
    }
}

/// The scheduling state of a thread, if the one who should hold it does.
pub open spec fn state_at(queue: &RunQueue, record: &ThreadRecord, position: SchedulePosition) -> Option<ActiveSchedulingState> {
    match position {
        SchedulePosition::Resting => record.policy.active,
        SchedulePosition::Queued => if queue.member(record.id) is Some && queue.linked() != Some(
            record.id,
        ) {
            Some(queue.record(record.id).active)
        } else {
            None
        },
        SchedulePosition::Running => match queue.current {
            Some(current) => if current.thread != record.id {
                None
            } else {
                match current.schedule {
                    CurrentClassState::Owned(active) => if queue.member(record.id) is None {
                        Some(active)
                    } else {
                        None
                    },
                    CurrentClassState::Linked { .. } => if queue.linked() == Some(record.id) {
                        Some(queue.record(record.id).active)
                    } else {
                        None
                    },
                    CurrentClassState::Idle(_) => None,
                }
            },
            None => None,
        },
    }
}

/// Reads the scheduling state of a thread.
pub fn find_state(queue: &RunQueue, record: &ThreadRecord, position: SchedulePosition) -> (state: Option<ActiveSchedulingState>)
    requires
        queue.wf(),
    ensures
        state == state_at(queue, record, position),
{
    let held = match queue.queued_record(record.id) {
        Some(entry) => Some(entry.active),
        None => None,
    };
    match position {
        SchedulePosition::Resting => record.policy.active,
        SchedulePosition::Queued => if queue.is_linked_current(record.id) {
            None
        } else {
            held
        },
        SchedulePosition::Running => match queue.current {
            Some(current) => if current.thread != record.id {
                None
            } else {
                match current.schedule {
                    CurrentClassState::Owned(active) => if held.is_none() {
                        Some(active)
                    } else {
                        None
                    },
                    CurrentClassState::Linked { .. } => if queue.is_linked_current(record.id) {
                        held
                    } else {
                        None
                    },
                    CurrentClassState::Idle(_) => None,
                }
            },
            None => None,
        },
    }
}

/// Whether a thread can be given another scheduling state where it stands.
#[verifier::opaque]
pub open spec fn can_restate(queue: &RunQueue, record: &ThreadRecord, position: SchedulePosition, active: ActiveSchedulingState) -> bool {
    &&& active.wf()
    &&& state_at(queue, record, position) is Some
    &&& position != SchedulePosition::Resting ==> {
        &&& !(active.policy is KernelStop)
        &&& queue.can_enqueue(record.entry(active))
        &&& queue.nr_running + 1 < usize::MAX
    }
}

/// The dispatch of the running thread under another scheduling state.
pub open spec fn redispatched(current: CurrentDispatch, record: &ThreadRecord, active: ActiveSchedulingState) -> CurrentDispatch {
    CurrentDispatch {
        schedule: if active.policy.is_deadline() || active.policy.is_rt() {
            CurrentClassState::Linked { policy: active.policy }
        } else {
            CurrentClassState::Owned(active)
        },
        deadline_donor: record.pi.deadline_donor,
        deadline_bandwidth_scaled: record.deadline.reservation_scaled,
        policy_generation: record.policy.dispatch_generation,
        rt_quota_exempt: record.exempt(active.policy),
        ..current
    }
}

/// The queue that links its running thread in the class of an entry.
pub open spec fn runner_linked(after: &RunQueue, before: &RunQueue, entry: QueuedThread) -> bool {
    exists|queued: RunQueue|
        #[trigger] queued.enqueued(before, entry, EnqueueReason::PolicyChanged, None)
            && after.pushable_refreshed(
            &(RunQueue {
                fixed_placement_demand: saturated_sub(
                    queued.fixed_placement_demand,
                    entry.active.policy.fixed_load(),
                ),
                ..queued
            }),
            entry.id,
            entry.active.policy,
            Some(entry.id),
        )
}

/// The queue after the running thread left its class, if a list held it.
pub open spec fn runner_freed(after: &RunQueue, before: &RunQueue, id: ThreadId) -> bool {
    if before.member(id) is Some {
        after.reclassified(before, id)
    } else {
        *after == *before
    }
}

/// The queue after a thread was given another scheduling state.
#[verifier::opaque]
pub open spec fn restated(after: &RunQueue, before: &RunQueue, record: &ThreadRecord, position: SchedulePosition, active: ActiveSchedulingState) -> bool {
    let entry = record.entry(active);
    match position {
        SchedulePosition::Resting => *after == *before,
        SchedulePosition::Queued => exists|freed: RunQueue|
            #[trigger] freed.reclassified(before, record.id) && after.enqueued(
                &freed,
                entry,
                EnqueueReason::PolicyChanged,
                running_fair(before),
            ),
        SchedulePosition::Running => exists|freed: RunQueue, held: RunQueue|
            #[trigger] runner_freed(&freed, before, record.id) && (if active.policy.is_deadline()
                || active.policy.is_rt() {
                runner_linked(&held, &freed, entry)
            } else {
                held == freed
            }) && *after == (#[trigger] with_current(
                held,
                redispatched(before.current->0, record, active),
            )),
    }
}

pub open spec fn with_current(queue: RunQueue, current: CurrentDispatch) -> RunQueue {
    RunQueue { current: Some(current), ..queue }
}

/// The record after its thread was given another scheduling state.
pub open spec fn record_restated(record: ThreadRecord, position: SchedulePosition, active: ActiveSchedulingState) -> ThreadRecord {
    let held = match position {
        SchedulePosition::Resting => returned(record, active),
        _ => record,
    };
    held.published(active.policy, active.effective())
}

fn restate_queued(queue: &mut RunQueue, record: &ThreadRecord, active: ActiveSchedulingState)
    requires
        old(queue).wf(),
        old(queue).dispatch_ok(),
        can_restate(old(queue), record, SchedulePosition::Queued, active),
    ensures
        restated(final(queue), old(queue), record, SchedulePosition::Queued, active),
        final(queue).current == old(queue).current,
        final(queue).deadline.bandwidth == old(queue).deadline.bandwidth,
        final(queue).wf(),
{
    proof {
        reveal(can_restate);
    }
    let ghost before = *queue;
    let fair = current_fair(queue);
    let _ = queue.reclassify_task(record.id);
    let ghost freed = *queue;
    let entry = record.queued_thread(active);
    proof {
        reveal(restated);
        before.member_record(record.id);
        freed_takes_entry(&freed, &before, record.id, entry);
    }
    let _ = queue.enqueue_task(entry, EnqueueReason::PolicyChanged, fair);
    assert(freed.reclassified(&before, record.id));
}

/// A queue that let a thread go can take it back.
proof fn freed_takes_entry(freed: &RunQueue, before: &RunQueue, id: ThreadId, entry: QueuedThread)
    requires
        before.wf(),
        before.member(id) is Some,
        freed.reclassified(before, id),
        freed.wf(),
        before.can_enqueue(entry),
        before.nr_running + 1 < usize::MAX,
        entry.id == id,
        !(entry.active.policy is KernelStop),
    ensures
        freed.can_enqueue(entry),
        freed.member(id) is None,
        freed.linked() != Some(id),
        before.linked() == Some(id) || before.linked() is None ==> freed.linked() is None,
        freed.current == before.current,
        freed.same_ledger(before),
{
    before.member_record(id);
    let class = before.member(id)->0;
    let list = before.list_of(class);
    let inner = RunQueue {
        nr_running: (freed.nr_running - if class == QueueMembershipClass::DeadlineThrottled {
            1int
        } else {
            0int
        }) as usize,
        ..*freed
    };
    assert(inner.departed(before, id, false));
    assert(inner.list_of(class) == list.remove(crate::scheduler::task::index_of(list, id)));
    if class != QueueMembershipClass::Fair {
        assert(inner.list_of(QueueMembershipClass::Fair) == before.list_of(
            QueueMembershipClass::Fair,
        ));
    }
    if class != QueueMembershipClass::IdleFair {
        assert(inner.list_of(QueueMembershipClass::IdleFair) == before.list_of(
            QueueMembershipClass::IdleFair,
        ));
    }
    assert(freed.list_of(QueueMembershipClass::Fair).len() <= before.list_of(
        QueueMembershipClass::Fair,
    ).len());
    assert(freed.list_of(QueueMembershipClass::IdleFair).len() <= before.list_of(
        QueueMembershipClass::IdleFair,
    ).len());
    if let Some(current) = before.current {
        if current.thread != id && freed.member(current.thread) is Some {
            assert(current.thread.slot != id.slot);
            assert(before.member(current.thread) == freed.member(current.thread));
        }
    }
}

fn restate_running(queue: &mut RunQueue, record: &ThreadRecord, active: ActiveSchedulingState)
    requires
        old(queue).wf(),
        old(queue).dispatch_ok(),
        can_restate(old(queue), record, SchedulePosition::Running, active),
    ensures
        restated(final(queue), old(queue), record, SchedulePosition::Running, active),
        final(queue).deadline.bandwidth == old(queue).deadline.bandwidth,
        final(queue).dispatch_ok(),
        final(queue).wf(),
{
    proof {
        reveal(can_restate);
    }
    let ghost before = *queue;
    let entry = record.queued_thread(active);
    if queue.contains(record.id) {
        let _ = queue.reclassify_task(record.id);
        proof {
            freed_takes_entry(queue, &before, record.id, entry);
        }
    }
    let ghost freed = *queue;
    let links = active.policy.retains_running_link();
    if links {
        let _ = queue.link_running(entry);
    }
    let ghost held = *queue;
    let mut current = queue.current.unwrap();
    current.schedule = if links {
        CurrentClassState::Linked { policy: active.policy }
    } else {
        CurrentClassState::Owned(active)
    };
    current.refresh_scheduler_metadata(
        record.rq_task_metadata(),
        record.is_pi_boosted_rt_owner_for(active.policy),
    );
    queue.current = Some(current);
    proof {
        reveal(restated);
        RunQueue::wf_when_lists_stay(&held, queue);
        assert(runner_freed(&freed, &before, record.id));
        assert(*queue == with_current(held, redispatched(before.current->0, record, active)));
    }
}

/// Gives a thread another scheduling state where it stands.
pub fn restate(queue: &mut RunQueue, record: &mut ThreadRecord, position: SchedulePosition, active: ActiveSchedulingState)
    requires
        old(queue).wf(),
        old(queue).dispatch_ok(),
        old(record).wf(),
        can_restate(old(queue), old(record), position, active),
    ensures
        restated(final(queue), old(queue), old(record), position, active),
        *final(record) == record_restated(*old(record), position, active),
        final(queue).deadline.bandwidth == old(queue).deadline.bandwidth,
        final(queue).dispatch_ok(),
        final(queue).wf(),
        final(record).wf(),
{
    proof {
        reveal(can_restate);
    }
    match position {
        SchedulePosition::Resting => {
            proof {
                reveal(restated);
            }
            record.policy.active = Some(active);
        },
        SchedulePosition::Queued => {
            restate_queued(queue, record, active);
        },
        SchedulePosition::Running => {
            restate_running(queue, record, active);
        },
    }
    record.publish_effective_schedule(active.policy, active.entity());
}

} // verus!
