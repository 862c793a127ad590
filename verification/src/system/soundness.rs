//! The operations that owners of CPUs carry out leave every thread on one run
//! queue at most.
use vstd::prelude::*;
use crate::cpu::doorbell::SchedulerRequestClaim;
use crate::cpu::handoff::PreparedMigrationDelivery;
use crate::cpu::inbox::{IdlePullReservation, IdlePullState, InboxMessage};
use crate::cpu::local::CpuLocal;
use crate::error::{TaskError, ThreadState};
use crate::ids::{CpuId, ThreadId};
use crate::scheduler::entity::EnqueueReason;
use crate::scheduler::run_queue::RunQueue;
use crate::scheduler::task::ActiveSchedulingState;
use crate::system::affinity::shown;
use crate::system::bandwidth::{assigned, can_contend, contending};
use crate::system::commit::overrun_recorded;
use crate::system::creation::{PendingThread, ThreadSpec, cpus_prepared, queue_prepared, wanted};
use crate::system::drain::{DeliveryStep, OwnerControlDrain, arriving_demand, timers_outdated};
use crate::system::exit::{CurrentExitPermit, request_claimed};
use crate::system::membership::{
    balancing_is_sound, charging_is_sound, choosing_is_sound, elsewhere_kept,
    ending_a_switch_is_sound, entering_is_sound, exiting_is_sound, members_kept, queue_holds,
    reconciling_is_sound, sleeping_is_sound, sound_after, sound_when_kept, sound_when_placed,
};
use crate::system::park::{
    ParkCommit, ParkPrepare, ParkStep, ParkTicket, ScheduleDecision, SwitchReason, claimed,
    park_begun, switch_plan,
};
use crate::system::pi_membership::{
    bears_its_name, cleaning_is_sound, named_after, orderly_kept, orderly_record, orderly_when_wf,
    peopled_through, refreshing_is_sound, restating_keeps,
};
use crate::system::pi_waiters::PiWaiterRefresh;
use crate::system::policy::{policy_applied_on, policy_committed, reservation_moved};
use crate::system::policy_update::{PolicyGate, PolicyStep, cleaned, policy_gate, policy_retry};
use crate::system::pull::with_pull;
use crate::system::restate::{SchedulePosition, can_restate, position_of, record_restated, restated};
use crate::system::switch_tail::SwitchInCompletion;
use crate::system::task_system::{TaskSystem, ThreadSlot, with_queue};
use crate::thread::record::{PendingPolicyUpdate, ThreadRecord};
use crate::time::MonotonicInstant;

verus! {

/// Reading out what a CPU ran moves no thread.
pub proof fn committing_a_dispatch_is_sound(before: &TaskSystem, after: &TaskSystem, cpu: CpuId, now_ns: u64)
    requires
        before.orderly(),
        before.has_cpu(cpu),
        after.dispatch_committed(before, cpu, now_ns),
    ensures
        after.orderly(),
        after.peopled_as(before),
{
    let (charged, read, reschedule) = choose|
        charged: TaskSystem,
        read: TaskSystem,
        reschedule: bool,
    |
        #[trigger] charged.charged_on(before, cpu, now_ns, reschedule)
            && #[trigger] read.read_out_on(&charged, cpu) && after.overrun_noted(
            &read,
            charged.overrun_on(cpu),
        );
    assert(members_kept(charged.cpus@, before.cpus@));
    orderly_kept(before, &charged);
    assert(members_kept(read.cpus@, charged.cpus@));
    orderly_kept(&charged, &read);
    peopled_through(before, &charged, &read);
    if let Some(thread) = charged.overrun_on(cpu) {
        if let Some(record) = read.record(thread) {
            let mid = choose|mid: TaskSystem|
                #[trigger] mid.relinked(
                    &read,
                    overrun_recorded(record),
                    read.cpus@,
                    read.root_domain,
                ) && *after == mid.work_published();
            bears_its_name(&read, thread);
            assert(members_kept(mid.cpus@, read.cpus@));
            orderly_record(&read, &mid, overrun_recorded(record));
            assert(members_kept(after.cpus@, mid.cpus@));
            orderly_kept(&mid, after);
            peopled_through(&read, &mid, after);
            peopled_through(before, &read, after);
        }
    }
}

/// The choice of another thread in place of one that left is sound.
proof fn switching_away_is_sound(before: &TaskSystem, after: &TaskSystem, cpu: CpuId, previous: ThreadId, reason: SwitchReason, claim: SchedulerRequestClaim, now_ns: u64, result: Result<ScheduleDecision, TaskError>)
    requires
        before.wf(),
        before.queues_sound(),
        before.has_cpu(cpu),
        after.switched_away(before, cpu, previous, reason, claim, now_ns, result),
    ensures
        after.queues_sound(),
        after.cpus@.len() == before.cpus@.len(),
{
    reveal(TaskSystem::switched_away);
    let (chosen, outcome) = choose|
        chosen: TaskSystem,
        outcome: Result<(ThreadId, Option<PreparedMigrationDelivery>), TaskError>,
    |
        #[trigger] chosen.next_chosen(
            before,
            cpu,
            Some(previous),
            before.cpu(cpu).batch_limit as nat,
            None,
            now_ns,
            outcome,
        ) && match outcome {
            Err(error) => result == Err::<ScheduleDecision, TaskError>(error) && *after == chosen,
            Ok((next, carried)) => if carried is Some || (next != previous && chosen.cpu(
                cpu,
            ).switch_handoff is Some) {
                result == Err::<ScheduleDecision, TaskError>(TaskError::InvalidConfiguration)
                    && *after == chosen
            } else {
                result == Ok::<ScheduleDecision, TaskError>(
                    switch_plan(previous, next, reason, now_ns),
                ) && exists|staged: TaskSystem|
                    #[trigger] staged.handoff_staged(&chosen, cpu, previous, next)
                        && after.acknowledged_on(&staged, cpu, claim)
            },
        };
    choosing_is_sound(
        before,
        &chosen,
        cpu,
        Some(previous),
        before.cpu(cpu).batch_limit as nat,
        None,
        now_ns,
        outcome,
    );
    if let Ok((next, carried)) = outcome {
        if !(carried is Some || (next != previous && chosen.cpu(cpu).switch_handoff is Some)) {
            let staged = choose|staged: TaskSystem|
                #[trigger] staged.handoff_staged(&chosen, cpu, previous, next)
                    && after.acknowledged_on(&staged, cpu, claim);
            assert(members_kept(staged.cpus@, chosen.cpus@));
            sound_when_kept(&chosen, &staged);
            assert(members_kept(after.cpus@, staged.cpus@));
            sound_when_kept(&staged, after);
        }
    }
}

proof fn resuming_is_sound(before: &TaskSystem, after: &TaskSystem, cpu: CpuId, thread: ThreadId, woken: bool, result: Result<(), TaskError>)
    requires
        before.wf(),
        before.queues_sound(),
        before.has_cpu(cpu),
        before.record(thread) is Some,
        after.resumed_on(before, cpu, thread, woken, result),
    ensures
        after.queues_sound(),
        after.cpus@.len() == before.cpus@.len(),
{
    assert(before.slots@[thread.slot as int].wf_at(thread.slot as int));
    let record = before.record(thread)->0;
    let wake_pending = record.wake_pending && !woken;
    assert(members_kept(after.cpus@, before.cpus@));
    if result is Ok {
        sound_when_placed(
            before,
            after,
            ThreadRecord {
                wake_pending,
                lifecycle: ThreadState::Running,
                ..record
            },
        );
    } else {
        sound_when_placed(
            before,
            after,
            ThreadRecord { wake_pending, ..record },
        );
    }
}

/// The end of a park leaves every thread on one run queue at most.
pub proof fn closing_a_park_is_sound(before: &TaskSystem, after: &TaskSystem, cpu: CpuId, thread: ThreadId, claim: SchedulerRequestClaim, now_ns: u64, result: Result<ParkCommit, TaskError>)
    requires
        before.wf(),
        before.queues_sound(),
        before.has_cpu(cpu),
        after.park_closed(before, cpu, thread, claim, now_ns, result),
    ensures
        after.queues_sound(),
        after.cpus@.len() == before.cpus@.len(),
{
    match before.park_step(cpu, thread) {
        ParkStep::Refused(_) => {},
        ParkStep::Resume => {
            let (resumed, outcome) = choose|resumed: TaskSystem, outcome: Result<(), TaskError>|
                #[trigger] resumed.resumed_on(before, cpu, thread, true, outcome) && match outcome {
                    Err(error) => result == Err::<ParkCommit, TaskError>(error) && *after
                        == resumed,
                    Ok(_) => result == Ok::<ParkCommit, TaskError>(ParkCommit::Notified)
                        && exists|seen: TaskSystem|
                        #[trigger] seen.load_shown(&resumed, cpu) && after.acknowledged_on(
                            &seen,
                            cpu,
                            claim,
                        ),
                };
            resuming_is_sound(before, &resumed, cpu, thread, true, outcome);
            if outcome is Ok {
                let seen = choose|seen: TaskSystem|
                    #[trigger] seen.load_shown(&resumed, cpu) && after.acknowledged_on(
                        &seen,
                        cpu,
                        claim,
                    );
                assert(members_kept(seen.cpus@, resumed.cpus@));
                sound_when_kept(&resumed, &seen);
                assert(members_kept(after.cpus@, seen.cpus@));
                sound_when_kept(&seen, after);
            }
        },
        ParkStep::Sleep => {
            let (quiet, outcome) = choose|
                quiet: TaskSystem,
                outcome: Result<ScheduleDecision, TaskError>,
            |
                #[trigger] quiet.asleep_on(before, cpu, thread, now_ns) && quiet.wf()
                    && #[trigger] after.switched_away(
                    &quiet,
                    cpu,
                    thread,
                    SwitchReason::Blocked,
                    claim,
                    now_ns,
                    outcome,
                );
            sleeping_is_sound(before, &quiet, cpu, thread, now_ns);
            switching_away_is_sound(
                &quiet,
                after,
                cpu,
                thread,
                SwitchReason::Blocked,
                claim,
                now_ns,
                outcome,
            );
        },
    }
}

/// The end of a switch, asked for by the CPU that is in it, is sound.
pub proof fn completing_a_switch_is_sound(before: &TaskSystem, after: &TaskSystem, cpu: CpuId, now_ns: u64, monotonic_now: MonotonicInstant, result: Result<SwitchInCompletion, TaskError>)
    requires
        before.wf(),
        before.queues_sound(),
        after.switch_completed(before, cpu, now_ns, monotonic_now, result),
    ensures
        after.queues_sound(),
        after.cpus@.len() == before.cpus@.len(),
{
    if before.has_cpu(cpu) {
        if let Some(handoff) = before.cpu(cpu).switch_handoff {
            if before.tail_error(cpu, handoff) is None {
                let done = choose|done: TaskSystem|
                    #[trigger] done.platform_done(before, cpu, handoff) && done.wf()
                        && match before.cpu(cpu).current {
                        None => result == Err::<SwitchInCompletion, TaskError>(
                            TaskError::NoRunnableThread,
                        ) && *after == done,
                        Some(incoming) => if incoming == handoff.previous {
                            result == Err::<SwitchInCompletion, TaskError>(
                                TaskError::InvalidConfiguration,
                            ) && *after == done
                        } else {
                            result == Ok::<SwitchInCompletion, TaskError>(
                                SwitchInCompletion { incoming: Some(incoming) },
                            ) && after.switch_ended(&done, cpu, handoff, now_ns, monotonic_now)
                        },
                    };
                assert(members_kept(done.cpus@, before.cpus@));
                sound_when_kept(before, &done);
                if let Some(incoming) = before.cpu(cpu).current {
                    if incoming != handoff.previous {
                        assert(done.tail_error(cpu, handoff) is None);
                        ending_a_switch_is_sound(
                            &done,
                            after,
                            cpu,
                            handoff,
                            now_ns,
                            monotonic_now,
                        );
                    }
                }
            }
        }
    }
}

/// A ready thread that is sent to another CPU is on no run queue until it
/// arrives.
pub proof fn placing_is_sound(before: &TaskSystem, parted: &TaskSystem, after: &TaskSystem, cpu: CpuId, thread: ThreadId, target: CpuId, now_ns: u64, demand: u64)
    requires
        before.wf(),
        before.queues_sound(),
        before.placement_plan(cpu, thread, now_ns) == Ok::<CpuId, TaskError>(target),
        target != cpu,
        before.has_cpu(target),
        parted.only_thread(before, TaskSystem::handed_over(before.record(thread)->0, target)),
        after.migration_sent(parted, thread, cpu, target, demand),
    ensures
        after.queues_sound(),
{
    assert(before.slots@[thread.slot as int].wf_at(thread.slot as int));
    assert(members_kept(parted.cpus@, before.cpus@));
    sound_when_placed(
        before,
        parted,
        TaskSystem::handed_over(before.record(thread)->0, target),
    );
    assert(members_kept(after.cpus@, parted.cpus@));
    sound_when_kept(parted, after);
}

/// The end of a request for a thread leaves threads and run queues alone.
proof fn ending_a_pull_keeps(before: &TaskSystem, after: &TaskSystem, target: CpuId, reservation: IdlePullReservation)
    requires
        before.has_cpu(target),
        after.pull_ended(before, target, reservation),
    ensures
        after.slots@ == before.slots@,
        members_kept(after.cpus@, before.cpus@),
{
    reveal(TaskSystem::pull_ended);
}

/// The answer to an idle CPU leaves every thread on one run queue at most.
pub proof fn answering_is_sound(before: &TaskSystem, after: &TaskSystem, cpu: CpuId, target: CpuId, reservation: IdlePullReservation)
    requires
        before.wf(),
        before.queues_sound(),
        before.has_cpu(cpu),
        before.has_cpu(target),
        after.pull_answered(before, cpu, target, reservation),
    ensures
        after.queues_sound(),
        after.cpus@.len() == before.cpus@.len(),
{
    let state = before.cpu(target).remote.idle_pull;
    if state.claimable(reservation) {
        if !before.overloaded(cpu) {
            let ended = choose|ended: TaskSystem|
                #[trigger] ended.pull_ended(before, target, reservation) && after.kicked_on(
                    &ended,
                    target,
                    cpu,
                );
            ending_a_pull_keeps(before, &ended, target, reservation);
            sound_when_kept(before, &ended);
            assert(members_kept(after.cpus@, ended.cpus@));
            sound_when_kept(&ended, after);
        } else {
            let (fixed, moved, ended, migrated) = choose|
                fixed: TaskSystem,
                moved: TaskSystem,
                ended: TaskSystem,
                migrated: bool,
            |
                {
                    &&& #[trigger] fixed.cpu_becomes(
                        before,
                        target,
                        with_pull(
                            before.cpu(target),
                            IdlePullState { committed: true, ..state },
                        ),
                    )
                    &&& fixed.wf()
                    &&& #[trigger] moved.balanced_to(&fixed, cpu, target, migrated)
                    &&& #[trigger] ended.pull_ended(&moved, target, reservation)
                    &&& if migrated {
                        *after == ended
                    } else {
                        after.kicked_on(&ended, target, cpu)
                    }
                };
            assert(members_kept(fixed.cpus@, before.cpus@));
            sound_when_kept(before, &fixed);
            balancing_is_sound(&fixed, &moved, cpu, target, migrated);
            ending_a_pull_keeps(&moved, &ended, target, reservation);
            sound_when_kept(&moved, &ended);
            assert(members_kept(after.cpus@, ended.cpus@));
            sound_when_kept(&ended, after);
        }
    }
}

proof fn refreshing_a_reservation_is_sound(before: &TaskSystem, after: &TaskSystem, cpu: CpuId, thread: ThreadId, contends: bool)
    requires
        before.wf(),
        before.queues_sound(),
        before.has_cpu(cpu),
        before.record(thread) is Some,
        after.reservation_refreshed(before, cpu, thread, contends),
    ensures
        after.queues_sound(),
        after.cpus@.len() == before.cpus@.len(),
{
    assert(before.slots@[thread.slot as int].wf_at(thread.slot as int));
    let record = before.record(thread)->0;
    assert(members_kept(after.cpus@, before.cpus@));
    if contends && can_contend(&before.cpu(cpu).queue(), &record, cpu) {
        sound_when_placed(
            before,
            after,
            timers_outdated(contending(record, cpu)),
        );
    } else {
        sound_when_placed(before, after, timers_outdated(record));
    }
}

proof fn hearing_affinity_is_sound(before: &TaskSystem, after: &TaskSystem, cpu: CpuId, thread: ThreadId, result: Result<(), TaskError>)
    requires
        before.wf(),
        before.queues_sound(),
        before.has_cpu(cpu),
        after.affinity_heard(before, cpu, thread, result),
    ensures
        after.queues_sound(),
        after.cpus@.len() == before.cpus@.len(),
{
    if let Ok(step) = before.affinity_step(cpu, thread) {
        reconciling_is_sound(before, after, cpu, thread, step);
    }
}

proof fn arriving_is_sound(before: &TaskSystem, after: &TaskSystem, cpu: CpuId, thread: ThreadId, moves: bool, now_ns: u64, monotonic_now: MonotonicInstant, result: Result<(), TaskError>)
    requires
        before.wf(),
        before.queues_sound(),
        before.has_cpu(cpu),
        after.arrived(before, cpu, thread, moves, now_ns, monotonic_now, result),
    ensures
        after.queues_sound(),
        after.cpus@.len() == before.cpus@.len(),
{
    if before.enqueue_error(cpu, thread, EnqueueReason::Migrated, now_ns) is None {
        let entered = choose|entered: TaskSystem|
            #[trigger] entered.enqueued_on(
                before,
                cpu,
                thread,
                EnqueueReason::Migrated,
                now_ns,
                monotonic_now,
            ) && entered.wf() && if moves {
                after.affinity_heard(&entered, cpu, thread, result)
            } else {
                result == Ok::<(), TaskError>(()) && *after == entered
            };
        entering_is_sound(
            before,
            &entered,
            cpu,
            thread,
            EnqueueReason::Migrated,
            now_ns,
            monotonic_now,
        );
        if moves {
            hearing_affinity_is_sound(&entered, after, cpu, thread, result);
        }
    }
}

proof fn settling_is_sound(before: &TaskSystem, after: &TaskSystem, cpu: CpuId, thread: ThreadId, now_ns: u64)
    requires
        before.wf(),
        before.queues_sound(),
        before.has_cpu(cpu),
        before.record(thread) is Some,
        after.policy_settled(before, cpu, thread, now_ns),
    ensures
        after.queues_sound(),
        after.cpus@.len() == before.cpus@.len(),
        after.record(thread) is Some,
{
    reveal(TaskSystem::policy_settled);
    assert(before.slots@[thread.slot as int].wf_at(thread.slot as int));
    let record = before.record(thread)->0;
    match position_of(&record, cpu) {
        SchedulePosition::Running => {
            orderly_when_wf(before);
            committing_a_dispatch_is_sound(before, after, cpu, now_ns);
            reveal(TaskSystem::orderly);
        },
        SchedulePosition::Queued => {
            let reschedule = choose|reschedule: bool|
                #[trigger] after.charged_on(before, cpu, now_ns, reschedule);
            charging_is_sound(before, after, cpu, now_ns, reschedule);
        },
        SchedulePosition::Resting => {
            if *after != *before {
                assert(members_kept(after.cpus@, before.cpus@));
                sound_when_placed(
                    before,
                    after,
                    cleaned(record, false),
                );
            }
        },
    }
}

proof fn applying_is_sound(before: &TaskSystem, after: &TaskSystem, cpu: CpuId, thread: ThreadId, pending: PendingPolicyUpdate, next: ActiveSchedulingState)
    requires
        before.wf(),
        before.queues_sound(),
        before.has_cpu(cpu),
        before.record(thread) is Some,
        can_restate(
            &before.cpu(cpu).queue(),
            &policy_committed(before.record(thread)->0, pending),
            position_of(&(before.record(thread)->0), cpu),
            next,
        ),
        after.policy_applied(before, cpu, thread, pending, next),
    ensures
        after.orderly(),
        after.peopled_as(before),
{
    assert(before.slots@[thread.slot as int].wf_at(thread.slot as int));
    let record = before.record(thread)->0;
    let position = position_of(&record, cpu);
    reveal(TaskSystem::policy_applied);
    reveal(policy_applied_on);
    reveal(reservation_moved);
    let (local, settled) = choose|local: CpuLocal, settled: ThreadRecord|
        #[trigger] policy_applied_on(
            local,
            settled,
            before.cpu(cpu),
            record,
            pending,
            cpu,
            position,
            next,
        ) && after.relinked(
            before,
            settled,
            before.cpus@.update(cpu.index as int, local),
            before.root_domain,
        );
    let committed = policy_committed(record, pending);
    let (changed, queue) = choose|changed: RunQueue, queue: RunQueue|
        #[trigger] restated(&changed, &before.cpu(cpu).queue(), &committed, position, next)
            && #[trigger] reservation_moved(
            &queue,
            settled,
            &changed,
            record_restated(committed, position, next),
            record.deadline,
            cpu,
            position,
        ) && local == shown(with_queue(before.cpu(cpu), queue));
    restating_keeps(&changed, &before.cpu(cpu).queue(), &committed, position, next);
    assert(queue.membership@ == changed.membership@);
    assert(settled.id == thread);
    assert(settled.placement == record.placement);
    orderly_when_wf(before);
    named_after(before, after, settled);
    if position == SchedulePosition::Resting {
        assert(members_kept(after.cpus@, before.cpus@));
        sound_when_placed(before, after, settled);
    } else {
        assert(elsewhere_kept(after.cpus@, before.cpus@, cpu));
        sound_after(before, after, cpu, settled);
    }
    reveal(TaskSystem::orderly);
}

proof fn propagating_is_sound(before: &TaskSystem, after: &TaskSystem, thread: ThreadId, now_ns: u64, by: CpuId, result: Result<(), TaskError>)
    requires
        before.orderly(),
        before.record(thread) is Some,
        after.waiter_propagated(before, thread, now_ns, by, result),
    ensures
        after.orderly(),
        after.peopled_as(before),
{
    reveal(TaskSystem::waiter_propagated);
    let (refreshed, outcome) = choose|
        refreshed: TaskSystem,
        outcome: Result<PiWaiterRefresh, TaskError>,
    |
        #[trigger] refreshed.waiter_refreshed(before, thread, now_ns, by, outcome) && match outcome {
            Err(error) => result == Err::<(), TaskError>(error) && *after == refreshed,
            Ok(refresh) => if !refresh.changed || refresh.owner is None {
                result == Ok::<(), TaskError>(()) && *after == refreshed
            } else if refresh.owner == Some(thread) {
                result == Err::<(), TaskError>(TaskError::PiCycle) && *after == refreshed
            } else {
                after.chain_cleaned(&refreshed, refresh.owner->0, thread, now_ns, by, result)
            },
        };
    refreshing_is_sound(before, &refreshed, thread, now_ns, by, outcome);
    if let Ok(refresh) = outcome {
        if refresh.changed && refresh.owner is Some && refresh.owner != Some(thread) {
            cleaning_is_sound(&refreshed, after, refresh.owner->0, thread, now_ns, by, result);
            peopled_through(before, &refreshed, after);
        }
    }
}

proof fn finishing_is_sound(before: &TaskSystem, after: &TaskSystem, cpu: CpuId, thread: ThreadId, position: SchedulePosition, result: Result<(), TaskError>)
    requires
        before.orderly(),
        before.has_cpu(cpu),
        before.record(thread) is Some,
        after.policy_finished(before, cpu, thread, position, result),
    ensures
        after.orderly(),
        after.peopled_as(before),
{
    reveal(TaskSystem::policy_finished);
    assert(members_kept(after.cpus@, before.cpus@));
    if after.slots@ == before.slots@ {
        orderly_kept(before, after);
    } else {
        bears_its_name(before, thread);
        orderly_record(
            before,
            after,
            assigned(before.record(thread)->0, cpu),
        );
    }
}

proof fn carrying_out_is_sound(before: &TaskSystem, after: &TaskSystem, cpu: CpuId, thread: ThreadId, pending: PendingPolicyUpdate, next: ActiveSchedulingState, now_ns: u64, result: Result<(), TaskError>)
    requires
        before.wf(),
        before.queues_sound(),
        before.has_cpu(cpu),
        before.record(thread) is Some,
        can_restate(
            &before.cpu(cpu).queue(),
            &policy_committed(before.record(thread)->0, pending),
            position_of(&(before.record(thread)->0), cpu),
            next,
        ),
        after.policy_carried_out(before, cpu, thread, pending, next, now_ns, result),
    ensures
        after.orderly(),
        after.peopled_as(before),
{
    reveal(TaskSystem::policy_carried_out);
    let record = before.record(thread)->0;
    let (applied, admitted, spread, outcome) = choose|
        applied: TaskSystem,
        admitted: TaskSystem,
        spread: TaskSystem,
        outcome: Result<(), TaskError>,
    |
        {
            &&& #[trigger] applied.policy_applied(before, cpu, thread, pending, next)
            &&& #[trigger] admitted.admission_exchanged(
                &applied,
                record.deadline.reservation_scaled,
                pending.reservation_scaled,
            )
            &&& #[trigger] spread.waiter_propagated(&admitted, thread, now_ns, cpu, outcome)
            &&& match outcome {
                Err(error) => result == outcome && *after == spread,
                Ok(_) => after.policy_finished(
                    &spread,
                    cpu,
                    thread,
                    position_of(&record, cpu),
                    result,
                ),
            }
        };
    applying_is_sound(before, &applied, cpu, thread, pending, next);
    assert(applied.record(thread) is Some == before.record(thread) is Some);
    assert(members_kept(admitted.cpus@, applied.cpus@));
    orderly_kept(&applied, &admitted);
    peopled_through(before, &applied, &admitted);
    propagating_is_sound(&admitted, &spread, thread, now_ns, cpu, outcome);
    peopled_through(before, &admitted, &spread);
    assert(spread.record(thread) is Some == before.record(thread) is Some);
    if outcome is Ok {
        finishing_is_sound(&spread, after, cpu, thread, position_of(&record, cpu), result);
        peopled_through(before, &spread, after);
    }
}

/// A change of policy leaves every thread on one run queue at most.
pub proof fn delivering_a_policy_is_sound(before: &TaskSystem, after: &TaskSystem, cpu: CpuId, thread: ThreadId, generation: u64, now_ns: u64, result: Result<(), TaskError>)
    requires
        before.wf(),
        before.queues_sound(),
        before.has_cpu(cpu),
        before.record(thread) is Some,
        after.policy_delivered(before, cpu, thread, generation, now_ns, result),
    ensures
        after.queues_sound(),
        after.cpus@.len() == before.cpus@.len(),
{
    assert(before.slots@[thread.slot as int].wf_at(thread.slot as int));
    let record = before.record(thread)->0;
    match policy_gate(&record, cpu, generation) {
        PolicyGate::Ignore => {},
        PolicyGate::Cleanup => {
            if *after != *before {
                assert(members_kept(after.cpus@, before.cpus@));
                sound_when_placed(before, after, cleaned(record, true));
            }
        },
        PolicyGate::Retry => {
            let message = policy_retry(thread, cpu, record.policy.update_generation);
            let (posted, held) = choose|posted: TaskSystem, held: CpuLocal|
                {
                    &&& #[trigger] TaskSystem::messaged(held, before.cpu(cpu), message)
                    &&& #[trigger] posted.cpu_becomes(
                        before,
                        cpu,
                        held.with_remote(held.remote.kicked(cpu)),
                    )
                    &&& after.cpu_becomes(
                        &posted,
                        cpu,
                        posted.cpu(cpu).with_remote(posted.cpu(cpu).remote.asked_to_work()),
                    )
                };
            assert(members_kept(posted.cpus@, before.cpus@));
            sound_when_kept(before, &posted);
            assert(members_kept(after.cpus@, posted.cpus@));
            sound_when_kept(&posted, after);
        },
        PolicyGate::Settle => {
            let (settled, step) = choose|settled: TaskSystem, step: PolicyStep|
                #[trigger] settled.policy_settled(before, cpu, thread, now_ns) && settled.wf()
                    && #[trigger] settled.policy_step(cpu, thread, generation, now_ns, step)
                    && match step {
                    PolicyStep::Refused(error) => result == Err::<(), TaskError>(error) && *after
                        == settled,
                    PolicyStep::Apply { pending, next } => after.policy_carried_out(
                        &settled,
                        cpu,
                        thread,
                        pending,
                        next,
                        now_ns,
                        result,
                    ),
                };
            settling_is_sound(before, &settled, cpu, thread, now_ns);
            if let PolicyStep::Apply { pending, next } = step {
                carrying_out_is_sound(
                    &settled,
                    after,
                    cpu,
                    thread,
                    pending,
                    next,
                    now_ns,
                    result,
                );
                reveal(TaskSystem::orderly);
            }
        },
    }
}

/// What a message asks for leaves every thread on one run queue at most.
pub proof fn delivering_is_sound(before: &TaskSystem, after: &TaskSystem, cpu: CpuId, message: InboxMessage, now_ns: u64, monotonic_now: MonotonicInstant, result: Result<(), TaskError>)
    requires
        before.wf(),
        before.queues_sound(),
        before.has_cpu(cpu),
        after.message_delivered(before, cpu, message, now_ns, monotonic_now, result),
    ensures
        after.queues_sound(),
        after.cpus@.len() == before.cpus@.len(),
{
    reveal(TaskSystem::message_delivered);
    if let Some(thread) = message.thread {
        if before.record(thread) is Some {
            assert(before.slots@[thread.slot as int].wf_at(thread.slot as int));
        }
    }
    match before.delivery_step(cpu, message) {
        DeliveryStep::Refused(_) => {},
        DeliveryStep::Skip => {},
        DeliveryStep::Balance { target, reservation } => {
            answering_is_sound(before, after, cpu, target, reservation);
        },
        DeliveryStep::Refresh { thread, contends } => {
            refreshing_a_reservation_is_sound(before, after, cpu, thread, contends);
        },
        DeliveryStep::Affinity { thread } => {
            hearing_affinity_is_sound(before, after, cpu, thread, result);
        },
        DeliveryStep::Arrival { thread, moves } => {
            arriving_is_sound(before, after, cpu, thread, moves, now_ns, monotonic_now, result);
        },
        DeliveryStep::Policy { thread } => {
            delivering_a_policy_is_sound(
                before,
                after,
                cpu,
                thread,
                message.generation,
                now_ns,
                result,
            );
        },
    }
}

proof fn delivering_all_is_sound(before: &TaskSystem, after: &TaskSystem, cpu: CpuId, messages: Seq<InboxMessage>, now_ns: u64, monotonic_now: MonotonicInstant, result: Result<(), TaskError>)
    requires
        before.wf(),
        before.queues_sound(),
        before.has_cpu(cpu),
        after.batch_delivered(before, cpu, messages, now_ns, monotonic_now, result),
    ensures
        after.queues_sound(),
        after.cpus@.len() == before.cpus@.len(),
    decreases messages.len(),
{
    if messages.len() > 0 {
        let (next, outcome) = choose|next: TaskSystem, outcome: Result<(), TaskError>|
            #[trigger] next.message_delivered(
                before,
                cpu,
                messages[0],
                now_ns,
                monotonic_now,
                outcome,
            ) && next.wf() && match outcome {
                Err(error) => result == outcome && *after == next,
                Ok(_) => after.batch_delivered(
                    &next,
                    cpu,
                    messages.skip(1),
                    now_ns,
                    monotonic_now,
                    result,
                ),
            };
        delivering_is_sound(before, &next, cpu, messages[0], now_ns, monotonic_now, outcome);
        if outcome is Ok {
            delivering_all_is_sound(
                &next,
                after,
                cpu,
                messages.skip(1),
                now_ns,
                monotonic_now,
                result,
            );
        }
    }
}

/// Working off an inbox leaves every thread on one run queue at most.
pub proof fn draining_is_sound(before: &TaskSystem, after: &TaskSystem, cpu: CpuId, now_ns: u64, monotonic_now: MonotonicInstant, result: Result<OwnerControlDrain, TaskError>)
    requires
        before.wf(),
        before.queues_sound(),
        after.inbox_drained(before, cpu, now_ns, monotonic_now, result),
    ensures
        after.queues_sound(),
        after.cpus@.len() == before.cpus@.len(),
{
    let waiting = before.cpu(cpu).remote.inbox.messages@.len();
    if before.online(cpu) {
        if before.cpu(cpu).switch_handoff is Some && waiting > 0 {
            assert(members_kept(after.cpus@, before.cpus@));
            sound_when_kept(before, after);
        } else if arriving_demand(before.next_batch(cpu)) <= before.cpu(
            cpu,
        ).remote.load.incoming_migration_demand {
            let (taken, done, outcome) = choose|
                taken: TaskSystem,
                done: TaskSystem,
                outcome: Result<(), TaskError>,
            |
                {
                    &&& #[trigger] taken.batch_taken(before, cpu)
                    &&& taken.wf()
                    &&& #[trigger] done.batch_delivered(
                        &taken,
                        cpu,
                        before.next_batch(cpu),
                        now_ns,
                        monotonic_now,
                        outcome,
                    )
                    &&& match outcome {
                        Err(error) => result == Err::<OwnerControlDrain, TaskError>(error)
                            && *after == done,
                        Ok(_) => result == Ok::<OwnerControlDrain, TaskError>(
                            OwnerControlDrain {
                                drained: before.batch_size(cpu) as usize,
                                pending: waiting > before.batch_size(cpu),
                            },
                        ) && if waiting > before.batch_size(cpu) {
                            after.cpu_becomes(
                                &done,
                                cpu,
                                done.cpu(cpu).with_remote(done.cpu(cpu).remote.asked_to_work()),
                            )
                        } else {
                            *after == done
                        },
                    }
                };
            assert(members_kept(taken.cpus@, before.cpus@));
            sound_when_kept(before, &taken);
            delivering_all_is_sound(
                &taken,
                &done,
                cpu,
                before.next_batch(cpu),
                now_ns,
                monotonic_now,
                outcome,
            );
            assert(members_kept(after.cpus@, done.cpus@));
            sound_when_kept(&done, after);
        }
    }
}

/// What the owner of a CPU does of its own accord leaves every thread on one
/// run queue at most.
pub proof fn working_is_sound(before: &TaskSystem, after: &TaskSystem, cpu: CpuId, now_ns: u64, monotonic_now: MonotonicInstant, result: Result<(), TaskError>)
    requires
        before.wf(),
        before.queues_sound(),
        before.has_cpu(cpu),
        after.owner_work_drained(before, cpu, now_ns, monotonic_now, result),
    ensures
        after.queues_sound(),
        after.cpus@.len() == before.cpus@.len(),
{
    if before.cpu(cpu).remote.inbox.messages@.len() > 0 {
        let (done, outcome) = choose|
            done: TaskSystem,
            outcome: Result<OwnerControlDrain, TaskError>,
        |
            #[trigger] done.inbox_drained(before, cpu, now_ns, monotonic_now, outcome)
                && match outcome {
                Err(error) => result == Err::<(), TaskError>(error) && *after == done,
                Ok(_) => result == Ok::<(), TaskError>(()) && if done.cpu(
                    cpu,
                ).remote.inbox.messages@.len() > 0 && done.cpu(cpu).remote.hears() {
                    after.cpu_becomes(
                        &done,
                        cpu,
                        done.cpu(cpu).with_remote(done.cpu(cpu).remote.deferred_work()),
                    )
                } else {
                    *after == done
                },
            };
        draining_is_sound(before, &done, cpu, now_ns, monotonic_now, outcome);
        assert(members_kept(after.cpus@, done.cpus@));
        sound_when_kept(&done, after);
    }
}

/// A park that is made good leaves every thread on one run queue at most.
pub proof fn parking_is_sound(before: &TaskSystem, after: &TaskSystem, cpu: CpuId, ticket: ParkTicket, now_ns: u64, monotonic_now: MonotonicInstant, result: Result<ParkCommit, TaskError>)
    requires
        before.wf(),
        before.queues_sound(),
        after.park_committed(before, cpu, ticket, now_ns, monotonic_now, result),
    ensures
        after.queues_sound(),
        after.cpus@.len() == before.cpus@.len(),
{
    if before.has_cpu(cpu) && !ticket.resolved {
        let (drained, outcome) = choose|drained: TaskSystem, outcome: Result<(), TaskError>|
            #[trigger] drained.owner_work_drained(before, cpu, now_ns, monotonic_now, outcome)
                && drained.wf() && match outcome {
                Err(error) => result == Err::<ParkCommit, TaskError>(error) && *after == drained,
                Ok(_) => after.park_made_good(&drained, cpu, ticket, now_ns, result),
            };
        working_is_sound(before, &drained, cpu, now_ns, monotonic_now, outcome);
        if outcome is Ok {
            making_good_is_sound(&drained, after, cpu, ticket, now_ns, result);
        }
    }
}

proof fn making_good_is_sound(before: &TaskSystem, after: &TaskSystem, cpu: CpuId, ticket: ParkTicket, now_ns: u64, result: Result<ParkCommit, TaskError>)
    requires
        before.wf(),
        before.queues_sound(),
        before.has_cpu(cpu),
        after.park_made_good(before, cpu, ticket, now_ns, result),
    ensures
        after.queues_sound(),
        after.cpus@.len() == before.cpus@.len(),
{
    if before.ticket_error(cpu, ticket) is None {
        if (before.record(ticket.thread)->0).wake_pending {
            let outcome = choose|outcome: Result<(), TaskError>|
                #[trigger] after.resumed_on(before, cpu, ticket.thread, true, outcome) && result
                    == match outcome {
                    Err(error) => Err::<ParkCommit, TaskError>(error),
                    Ok(_) => Ok(ParkCommit::Notified),
                };
            resuming_is_sound(before, after, cpu, ticket.thread, true, outcome);
        } else {
            let opened = choose|opened: TaskSystem|
                #[trigger] opened.park_opened(before, cpu, now_ns) && opened.wf()
                    && after.park_closed(
                    &opened,
                    cpu,
                    ticket.thread,
                    claimed(before.cpu(cpu)),
                    now_ns,
                    result,
                );
            let begun = choose|begun: TaskSystem|
                #[trigger] begun.cpu_becomes(before, cpu, park_begun(before.cpu(cpu)))
                    && opened.dispatch_committed(&begun, cpu, now_ns);
            orderly_when_wf(before);
            assert(members_kept(begun.cpus@, before.cpus@));
            orderly_kept(before, &begun);
            committing_a_dispatch_is_sound(&begun, &opened, cpu, now_ns);
            reveal(TaskSystem::orderly);
            closing_a_park_is_sound(
                &opened,
                after,
                cpu,
                ticket.thread,
                claimed(before.cpu(cpu)),
                now_ns,
                result,
            );
        }
    }
}

/// A park that is withdrawn leaves every thread on one run queue at most.
pub proof fn withdrawing_a_park_is_sound(before: &TaskSystem, after: &TaskSystem, cpu: CpuId, ticket: ParkTicket, result: Result<(), TaskError>)
    requires
        before.wf(),
        before.queues_sound(),
        after.park_withdrawn(before, cpu, ticket, result),
    ensures
        after.queues_sound(),
{
    if before.has_cpu(cpu) && !ticket.resolved && before.ticket_error(cpu, ticket) is None {
        resuming_is_sound(before, after, cpu, ticket.thread, false, result);
    }
}

/// The announcement of a park leaves every thread on one run queue at most.
pub proof fn preparing_a_park_is_sound(before: &TaskSystem, after: &TaskSystem, cpu: CpuId, now_ns: u64, monotonic_now: MonotonicInstant, result: Result<ParkPrepare, TaskError>)
    requires
        before.wf(),
        before.queues_sound(),
        after.park_prepared(before, cpu, now_ns, monotonic_now, result),
    ensures
        after.queues_sound(),
        after.cpus@.len() == before.cpus@.len(),
{
    let (switched, outcome) = choose|
        switched: TaskSystem,
        outcome: Result<SwitchInCompletion, TaskError>,
    |
        #[trigger] switched.switch_completed(before, cpu, now_ns, monotonic_now, outcome)
            && switched.wf() && match outcome {
            Err(error) => result == Err::<ParkPrepare, TaskError>(error) && *after == switched,
            Ok(_) => if !switched.online(cpu) {
                result == Err::<ParkPrepare, TaskError>(TaskError::CpuOffline(cpu.index))
                    && *after == switched
            } else {
                match switched.cpu(cpu).current {
                    None => result == Err::<ParkPrepare, TaskError>(TaskError::NoRunnableThread)
                        && *after == switched,
                    Some(thread) => if switched.record(thread) is None {
                        result == Err::<ParkPrepare, TaskError>(TaskError::NoRunnableThread)
                            && *after == switched
                    } else {
                        after.park_announced(&switched, thread, result)
                    },
                }
            },
        };
    completing_a_switch_is_sound(before, &switched, cpu, now_ns, monotonic_now, outcome);
    if *after != switched {
        let thread = switched.cpu(cpu).current->0;
        let record = switched.record(thread)->0;
        let generation = (record.park_generation + 1) as u64;
        assert(switched.slots@[thread.slot as int].wf_at(thread.slot as int));
        assert(members_kept(after.cpus@, switched.cpus@));
        let announced = if record.wake_pending {
            ThreadRecord { wake_pending: false, ..record }
        } else if record.park_generation == u64::MAX {
            record
        } else if result is Err {
            ThreadRecord { park_generation: generation, ..record }
        } else {
            ThreadRecord {
                park_generation: generation,
                lifecycle: ThreadState::Parking,
                ..record
            }
        };
        sound_when_placed(&switched, after, announced);
    }
}

/// A thread that blocks leaves every thread on one run queue at most.
pub proof fn blocking_is_sound(before: &TaskSystem, after: &TaskSystem, cpu: CpuId, now_ns: u64, monotonic_now: MonotonicInstant, result: Result<ScheduleDecision, TaskError>)
    requires
        before.wf(),
        before.queues_sound(),
        after.blocked_on_cpu(before, cpu, now_ns, monotonic_now, result),
    ensures
        after.queues_sound(),
{
    let (prepared, announced) = choose|
        prepared: TaskSystem,
        announced: Result<ParkPrepare, TaskError>,
    |
        #[trigger] prepared.park_prepared(before, cpu, now_ns, monotonic_now, announced)
            && prepared.wf() && match announced {
            Err(error) => result == Err::<ScheduleDecision, TaskError>(error) && *after
                == prepared,
            Ok(ParkPrepare::Notified) => *after == prepared && result == prepared.runs_on(
                cpu,
                now_ns,
            ),
            Ok(ParkPrepare::Prepared(ticket)) => exists|outcome: Result<ParkCommit, TaskError>|
                #[trigger] after.park_committed(
                    &prepared,
                    cpu,
                    ticket,
                    now_ns,
                    monotonic_now,
                    outcome,
                ),
        };
    preparing_a_park_is_sound(before, &prepared, cpu, now_ns, monotonic_now, announced);
    if let Ok(ParkPrepare::Prepared(ticket)) = announced {
        let outcome = choose|outcome: Result<ParkCommit, TaskError>|
            #[trigger] after.park_committed(
                &prepared,
                cpu,
                ticket,
                now_ns,
                monotonic_now,
                outcome,
            );
        parking_is_sound(&prepared, after, cpu, ticket, now_ns, monotonic_now, outcome);
    }
}

proof fn marking_is_sound(before: &TaskSystem, after: &TaskSystem, thread: ThreadId, exiting: bool)
    requires
        before.wf(),
        before.queues_sound(),
        before.record(thread) is Some,
        after.exit_marked(before, thread, exiting),
    ensures
        after.queues_sound(),
        after.cpus@.len() == before.cpus@.len(),
{
    assert(before.slots@[thread.slot as int].wf_at(thread.slot as int));
    assert(members_kept(after.cpus@, before.cpus@));
    sound_when_placed(
        before,
        after,
        ThreadRecord { exiting, ..before.record(thread)->0 },
    );
}

/// The preparation of an exit leaves every thread on one run queue at most.
pub proof fn preparing_an_exit_is_sound(before: &TaskSystem, after: &TaskSystem, cpu: CpuId, needs_context: bool, now_ns: u64, monotonic_now: MonotonicInstant, result: Result<CurrentExitPermit, TaskError>)
    requires
        before.wf(),
        before.queues_sound(),
        before.has_cpu(cpu),
        after.exit_prepared(before, cpu, needs_context, now_ns, monotonic_now, result),
    ensures
        after.queues_sound(),
        after.cpus@.len() == before.cpus@.len(),
{
    let (settled, outcome) = choose|settled: TaskSystem, outcome: Result<(), TaskError>|
        #[trigger] settled.owner_settled(before, cpu, now_ns, monotonic_now, outcome)
            && settled.wf() && match outcome {
            Err(error) => result == Err::<CurrentExitPermit, TaskError>(error) && *after
                == settled,
            Ok(_) => match settled.exit_error(cpu, needs_context) {
                Some(error) => result == Err::<CurrentExitPermit, TaskError>(error) && *after
                    == settled,
                None => after.exit_marked(&settled, settled.cpu(cpu).current->0, true),
            },
        };
    let (switched, ended) = choose|
        switched: TaskSystem,
        ended: Result<SwitchInCompletion, TaskError>,
    |
        #[trigger] switched.switch_completed(before, cpu, now_ns, monotonic_now, ended)
            && switched.wf() && match ended {
            Err(error) => outcome == Err::<(), TaskError>(error) && settled == switched,
            Ok(_) => settled.owner_work_drained(
                &switched,
                cpu,
                now_ns,
                monotonic_now,
                outcome,
            ),
        };
    completing_a_switch_is_sound(before, &switched, cpu, now_ns, monotonic_now, ended);
    if ended is Ok {
        working_is_sound(&switched, &settled, cpu, now_ns, monotonic_now, outcome);
    }
    if outcome is Ok && settled.exit_error(cpu, needs_context) is None {
        marking_is_sound(&settled, after, settled.cpu(cpu).current->0, true);
    }
}

/// An exit leaves every thread on one run queue at most.
pub proof fn committing_an_exit_is_sound(before: &TaskSystem, after: &TaskSystem, cpu: CpuId, permit: CurrentExitPermit, now_ns: u64, result: Result<ScheduleDecision, TaskError>)
    requires
        before.wf(),
        before.queues_sound(),
        before.has_cpu(cpu),
        after.exit_committed(before, cpu, permit, now_ns, result),
    ensures
        after.queues_sound(),
{
    if before.permit_error(cpu, permit) is Some {
        if before.record(permit.thread) is Some {
            marking_is_sound(before, after, permit.thread, false);
        }
    } else {
        let (claiming, charged) = choose|claiming: TaskSystem, charged: TaskSystem|
            #[trigger] claiming.cpu_becomes(before, cpu, request_claimed(before.cpu(cpu)))
                && #[trigger] charged.dispatch_committed(&claiming, cpu, now_ns) && charged.wf()
                && if !charged.can_leave(cpu, permit.thread) {
                result == Err::<ScheduleDecision, TaskError>(TaskError::InvalidConfiguration)
                    && after.permit_voided(&charged, permit)
            } else {
                exists|left: TaskSystem|
                    #[trigger] left.exited_on(&charged, cpu, permit.thread) && left.wf()
                        && after.switched_away(
                        &left,
                        cpu,
                        permit.thread,
                        SwitchReason::Exited,
                        claimed(before.cpu(cpu)),
                        now_ns,
                        result,
                    )
            };
        orderly_when_wf(before);
        assert(members_kept(claiming.cpus@, before.cpus@));
        orderly_kept(before, &claiming);
        committing_a_dispatch_is_sound(&claiming, &charged, cpu, now_ns);
        reveal(TaskSystem::orderly);
        if !charged.can_leave(cpu, permit.thread) {
            if charged.record(permit.thread) is Some {
                marking_is_sound(&charged, after, permit.thread, false);
            }
        } else {
            let left = choose|left: TaskSystem|
                #[trigger] left.exited_on(&charged, cpu, permit.thread) && left.wf()
                    && after.switched_away(
                    &left,
                    cpu,
                    permit.thread,
                    SwitchReason::Exited,
                    claimed(before.cpu(cpu)),
                    now_ns,
                    result,
                );
            exiting_is_sound(&charged, &left, cpu, permit.thread);
            switching_away_is_sound(
                &left,
                after,
                cpu,
                permit.thread,
                SwitchReason::Exited,
                claimed(before.cpu(cpu)),
                now_ns,
                result,
            );
        }
    }
}

/// A system without threads has sound run queues.
pub proof fn a_new_system_is_sound(system: &TaskSystem)
    requires
        forall|i: int|
            0 <= i < system.cpus@.len() ==> (#[trigger] system.cpus@[i]).queue().membership@.len()
                == 0,
    ensures
        system.queues_sound(),
{
    assert forall|i: int, thread: ThreadId|
        0 <= i < system.cpus@.len() && #[trigger] queue_holds(
            system.cpus@,
            i,
            thread,
        ) implies (system.record(thread) matches Some(record) && record.placement.queued_on()
        == Some(CpuId { index: i as u32 })) by {
        assert(system.cpus@[i].queue().membership@.len() == 0);
    }
}

/// A new thread is on no run queue, and the others stay where they are.
pub proof fn creating_is_sound(before: &TaskSystem, after: &TaskSystem, spec: &ThreadSpec, id: ThreadId)
    requires
        before.wf(),
        before.queues_sound(),
        before.creation_error(spec) is None,
        id == before.next_identity(),
        after.created(before, spec, id),
    ensures
        after.queues_sound(),
        after.cpus@.len() == before.cpus@.len(),
{
    let record = after.record(id)->0;
    let (mid, pending) = choose|mid: TaskSystem, pending: PendingThread|
        #[trigger] mid.reserved_for(before, &pending) && pending.id == id && pending.reservation
            == wanted(spec.policy) && after.slots@ == mid.slots@.update(
            id.slot as int,
            ThreadSlot {
                generation: id.generation,
                record: Some(record),
                pending_deadline_reservation: 0,
            },
        ) && after.cpus@ == mid.cpus@ && after.same_rest(&mid);
    let extra = choose|extra: Seq<CpuLocal>|
        #[trigger] cpus_prepared(mid.cpus@, extra, id.slot as int) && if pending.reservation == 0 {
            extra == before.cpus@ && mid.root_domain == before.root_domain
        } else {
            &&& mid.root_domain == before.root_domain.holding(pending.reservation as int)
            &&& mid.root_domain.exchanged_on(extra, before.cpus@, 0, pending.reservation)
        };
    if before.free_slots@.len() > 0 {
        let last = before.free_slots@.len() - 1;
        assert(before.free_slots@[last] == id.slot);
        assert(before.slots@[before.free_slots@[last] as int].record is None);
    }
    assert forall|i: int, thread: ThreadId|
        0 <= i < after.cpus@.len() && #[trigger] queue_holds(
            after.cpus@,
            i,
            thread,
        ) implies (after.record(thread) matches Some(found) && found.placement.queued_on() == Some(
        CpuId { index: i as u32 },
    )) by {
        assert(extra[i].queue() == before.cpus@[i].queue());
        assert(queue_prepared(
            &mid.cpus@[i].queue(),
            &extra[i].queue(),
            id.slot as int,
        ));
        assert(queue_holds(before.cpus@, i, thread));
        assert(before.record(thread) is Some);
        assert(thread.slot != id.slot);
        assert(after.slots@[thread.slot as int] == before.slots@[thread.slot as int]);
    }
}

/// A thread that a CPU starts to run when it boots is on no other run queue.
pub proof fn booting_is_sound(before: &TaskSystem, after: &TaskSystem, cpu: CpuId, id: ThreadId, now_ns: u64)
    requires
        before.wf(),
        before.queues_sound(),
        before.has_cpu(cpu),
        before.record(id) matches Some(record) && record.placement.queued_on() is None,
        after.only_thread_and_cpu(
            before,
            TaskSystem::booted(before.record(id)->0, cpu),
            TaskSystem::booting(before.cpu(cpu), before.record(id)->0, now_ns),
        ),
    ensures
        after.queues_sound(),
{
    assert(before.slots@[id.slot as int].wf_at(id.slot as int));
    assert(before.cpus@[cpu.index as int].remote.owner == cpu);
    assert(elsewhere_kept(after.cpus@, before.cpus@, cpu));
    sound_after(before, after, cpu, TaskSystem::booted(before.record(id)->0, cpu));
}

} // verus!
