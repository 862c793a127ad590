//! What holds of the choice of a CPU for a thread.
use vstd::prelude::*;
use crate::error::{TaskError, ThreadState};
use crate::ids::{CpuId, CpuSet, ThreadId};
use crate::scheduler::entity::{EnqueueReason, SchedulingEntity};
use crate::scheduler::policy::{FairMode, SchedulePolicy};
use crate::scheduler::task::{ActiveSchedulingState, PickedThread};
use crate::system::affinity::{AffinityStep, physical_owner, staying, wanting};
use crate::system::placement::{
    PlacementRank, least_ranked, least_ranked_is_least, ranks_of,
};
use crate::system::restate::{SchedulePosition, position_of, state_at};
use crate::system::switch::PickStep;
use crate::system::switch_out::ScheduleOut;
use crate::system::task_system::TaskSystem;
use crate::system::wake::{WakeResult, wake_preference};
use crate::thread::placement::TaskOnRunQueue;
use crate::thread::record::ThreadRecord;

verus! {

/// A thread may be put on a CPU: it is online, allowed and not ruled out.
pub open spec fn may_go_to(system: &TaskSystem, cpu: CpuId, affinity: &CpuSet, excluded: Option<CpuId>) -> bool {
    &&& system.has_cpu(cpu)
    &&& system.online(cpu)
    &&& affinity.has(cpu)
    &&& excluded != Some(cpu)
}

proof fn ties_go_to_the_preferred(ranks: Seq<Option<u64>>, preferred: CpuId, n: int)
    requires
        0 <= preferred.index < n <= ranks.len() <= u32::MAX,
        ranks[preferred.index as int] is Some,
        forall|j: int|
            0 <= j < ranks.len() && (#[trigger] ranks[j]) is Some ==> ranks[preferred.index as int]->0
                <= ranks[j]->0,
    ensures
        least_ranked(ranks, Some(preferred), n) == Some(preferred.index as int),
    decreases n,
{
    least_ranked_is_least(ranks, Some(preferred), n - 1);
    if preferred.index < n - 1 {
        ties_go_to_the_preferred(ranks, preferred, n - 1);
    }
}

/// What is chosen comes first by rank, the preferred CPU before its equals, and
/// nothing is chosen only if there is nothing to choose from.
proof fn the_best_is_chosen(system: &TaskSystem, affinity: &CpuSet, preferred: Option<CpuId>, excluded: Option<CpuId>, rank: PlacementRank, other: CpuId)
    requires
        system.wf(),
        system.has_cpu(other),
    ensures
        ({
            let ranks = ranks_of(system.cpus@, affinity, excluded, rank);
            let choice = system.best_cpu(affinity, preferred, excluded, rank);
            &&& choice matches Some(cpu) ==> may_go_to(system, cpu, affinity, excluded)
                && ranks[cpu.index as int] is Some
            &&& ranks[other.index as int] is Some ==> choice is Some
                && ranks[(choice->0).index as int]->0 <= ranks[other.index as int]->0
            &&& ranks[other.index as int] is Some && preferred == Some(other)
                && ranks[(choice->0).index as int]->0 == ranks[other.index as int]->0 ==> choice
                == Some(other)
            &&& choice is None ==> ranks[other.index as int] is None
        }),
{
    let ranks = ranks_of(system.cpus@, affinity, excluded, rank);
    let n = ranks.len() as int;
    least_ranked_is_least(ranks, preferred, n);
    if let Some(i) = least_ranked(ranks, preferred, n) {
        assert(system.cpus@[i].remote.owner == (CpuId { index: i as u32 }));
        assert(ranks[i] is Some);
        if ranks[other.index as int] is Some && preferred == Some(other) && ranks[i]->0
            == ranks[other.index as int]->0 {
            ties_go_to_the_preferred(ranks, other, n);
        }
    }
    assert(system.cpus@[other.index as int].remote.owner == other);
}

/// By demand the CPU is chosen that is asked least of, those on their way
/// counted, and the preferred one before its equals.
pub proof fn the_least_demanded_cpu_is_chosen(system: &TaskSystem, affinity: &CpuSet, preferred: Option<CpuId>, excluded: Option<CpuId>, other: CpuId)
    requires
        system.wf(),
        may_go_to(system, other, affinity, excluded),
        system.cpu(other).remote.load.placement() is Some,
    ensures
        ({
            let demand = |cpu: CpuId| system.cpu(cpu).remote.load.placement();
            system.best_cpu(affinity, preferred, excluded, PlacementRank::Demand) matches Some(cpu)
                && may_go_to(system, cpu, affinity, excluded) && demand(cpu) is Some && demand(
                cpu,
            )->0 <= demand(other)->0 && (demand(cpu) == demand(other) && preferred == Some(other)
                ==> cpu == other)
        }),
{
    the_best_is_chosen(system, affinity, preferred, excluded, PlacementRank::Demand, other);
    assert(system.cpus@[other.index as int].remote.owner == other);
}

/// By runnable threads the CPU is chosen where fewest wait.
pub proof fn the_least_crowded_cpu_is_chosen(system: &TaskSystem, affinity: &CpuSet, preferred: Option<CpuId>, excluded: Option<CpuId>, other: CpuId)
    requires
        system.wf(),
        may_go_to(system, other, affinity, excluded),
        system.cpu(other).remote.runnable() is Some,
    ensures
        ({
            let waiting = |cpu: CpuId| system.cpu(cpu).remote.runnable();
            system.best_cpu(affinity, preferred, excluded, PlacementRank::Runnable) matches Some(cpu)
                && may_go_to(system, cpu, affinity, excluded) && waiting(cpu) is Some && waiting(
                cpu,
            )->0 <= waiting(other)->0 && (waiting(cpu) == waiting(other) && preferred == Some(other)
                ==> cpu == other)
        }),
{
    the_best_is_chosen(system, affinity, preferred, excluded, PlacementRank::Runnable, other);
    assert(system.cpus@[other.index as int].remote.owner == other);
}

/// A real-time thread goes where the lowest real-time priority is in use, and
/// always below its own; a CPU without real-time threads is as good as any.
pub proof fn realtime_threads_go_to_lower_priorities(system: &TaskSystem, policy: SchedulePolicy, entity: SchedulingEntity, affinity: &CpuSet, preferred: Option<CpuId>, excluded: Option<CpuId>, other: CpuId)
    requires
        system.wf(),
        policy is Fifo || policy is RoundRobin,
        policy.valid(),
        may_go_to(system, other, affinity, excluded),
    ensures
        ({
            let own = if policy is Fifo {
                policy->Fifo_priority.value
            } else {
                policy->RoundRobin_priority.value
            };
            let top = |cpu: CpuId| system.cpu(cpu).queue().top_rt();
            let choice = system.class_choice(policy, entity, affinity, preferred, excluded);
            &&& choice matches Some(cpu) ==> may_go_to(system, cpu, affinity, excluded) && (top(cpu)
                is None || top(cpu)->0 < own)
            &&& top(other) is None ==> choice is Some && (top(choice->0) is None || top(choice->0)
                == Some(0u8))
            &&& top(other) is Some && top(other)->0 < own ==> choice is Some && (top(choice->0)
                is None || top(choice->0)->0 <= top(other)->0)
            &&& top(other) is None && preferred == Some(other) ==> choice == Some(other)
        }),
{
    let own = policy.rt()->0.value;
    the_best_is_chosen(
        system,
        affinity,
        preferred,
        excluded,
        PlacementRank::RealtimeBelow(own),
        other,
    );
    assert(system.cpus@[other.index as int].remote.owner == other);
}

/// A Deadline thread goes where no earlier deadline is in force: to a CPU
/// without deadlines, or to the one whose first deadline is the latest.
pub proof fn deadline_threads_go_to_later_deadlines(system: &TaskSystem, affinity: &CpuSet, preferred: Option<CpuId>, excluded: Option<CpuId>, own: u64, other: CpuId)
    requires
        system.wf(),
        may_go_to(system, other, affinity, excluded),
    ensures
        ({
            let first = |cpu: CpuId| system.cpu(cpu).queue().earliest_due();
            let choice = system.best_cpu(
                affinity,
                preferred,
                excluded,
                PlacementRank::DeadlineAfter(own),
            );
            &&& choice matches Some(cpu) ==> may_go_to(system, cpu, affinity, excluded) && (first(
                cpu,
            ) is None || first(cpu)->0 > own)
            &&& first(other) is None ==> choice is Some && (first(choice->0) is None || first(
                choice->0,
            ) == Some(u64::MAX))
            &&& first(other) is Some && first(other)->0 > own ==> choice is Some && (first(
                choice->0,
            ) is None || first(choice->0)->0 >= first(other)->0)
            &&& first(other) is None && preferred == Some(other) ==> choice == Some(other)
        }),
{
    the_best_is_chosen(
        system,
        affinity,
        preferred,
        excluded,
        PlacementRank::DeadlineAfter(own),
        other,
    );
    assert(system.cpus@[other.index as int].remote.owner == other);
}

/// A thread that its class sends nowhere goes to the preferred CPU if it may,
/// and else where fewest wait; a fair thread is one of these.
pub proof fn others_go_where_they_are_wanted(system: &TaskSystem, policy: SchedulePolicy, entity: SchedulingEntity, affinity: &CpuSet, preferred: CpuId, excluded: Option<CpuId>)
    requires
        system.wf(),
        policy is Fair || policy is KernelStop,
    ensures
        ({
            let choice = system.priority_choice(
                policy,
                entity,
                affinity,
                Some(preferred),
                excluded,
            );
            &&& may_go_to(system, preferred, affinity, excluded) ==> choice == Some(preferred)
            &&& !may_go_to(system, preferred, affinity, excluded) ==> choice == system.best_cpu(
                affinity,
                None,
                excluded,
                PlacementRank::Runnable,
            )
            &&& choice matches Some(cpu) ==> may_go_to(system, cpu, affinity, excluded)
        }),
{
    system.best_cpu_is_eligible(affinity, None, excluded, PlacementRank::Runnable);
}

/// What the class of a thread chooses is taken before what is preferred.
pub proof fn classes_choose_first(system: &TaskSystem, policy: SchedulePolicy, entity: SchedulingEntity, affinity: &CpuSet, preferred: Option<CpuId>, excluded: Option<CpuId>)
    ensures
        ({
            let class = system.class_choice(policy, entity, affinity, preferred, excluded);
            class is Some ==> system.priority_choice(policy, entity, affinity, preferred, excluded)
                == class
        }),
        policy is Fair || policy is KernelStop ==> system.class_choice(
            policy,
            entity,
            affinity,
            preferred,
            excluded,
        ) is None,
{
}

/// A woken thread prefers the CPU that is named, else the one where it was,
/// else the one that was noted for it.
pub proof fn woken_threads_prefer_their_cpu(record: ThreadRecord, named: Option<CpuId>)
    ensures
        named is Some ==> wake_preference(&record, named) == named,
        named is None && record.placement.task_cpu is Some ==> wake_preference(&record, named)
            == record.placement.task_cpu,
        named is None && record.placement.task_cpu is None ==> wake_preference(&record, named)
            == record.wake_cpu_hint,
{
}

/// A wake-up comes to a CPU where the thread may run, and is not lost: a thread
/// that runs or is still on its stack is told of it, one that sleeps is moved,
/// and only a thread that is gone or told already is left alone.
pub proof fn wakeups_find_their_thread(system: &TaskSystem, thread: ThreadId, preferred: Option<CpuId>, now_ns: u64)
    requires
        system.wf(),
        system.record(thread) is Some,
    ensures
        ({
            let record = system.record(thread)->0;
            let (result, target) = system.wake_outcome(thread, preferred, now_ns);
            let gone = record.exiting || record.lifecycle == ThreadState::Exited;
            let sleeps = record.lifecycle == ThreadState::Blocked && record.placement.on_cpu is None;
            &&& gone <==> result == WakeResult::Exited
            &&& !gone && record.wake_pending <==> result == WakeResult::AlreadyPending
            &&& target is Some ==> sleeps && !gone && !record.wake_pending && result
                == WakeResult::Notified && may_go_to(
                system,
                target->0,
                &record.placement.affinity,
                None,
            )
            &&& !gone && !record.wake_pending && !sleeps && record.lifecycle != ThreadState::New
                ==> result == WakeResult::Notified
            &&& sleeps && result == WakeResult::Notified ==> target is Some
            &&& result == WakeResult::Unavailable ==> sleeps || record.lifecycle == ThreadState::New
        }),
{
    let record = system.record(thread)->0;
    if record.policy.active is Some {
        let active = record.policy.active->0;
        system.priority_choice_is_eligible(
            active.policy,
            active.effective(),
            &record.placement.affinity,
            wake_preference(&record, preferred),
            None,
        );
    }
}

/// A wake-up of a thread that does not sleep yet is remembered: one that is
/// about to sleep finds it, one that left the run queue but not its stack wakes
/// when it has.
pub proof fn wakeups_are_remembered(record: ThreadRecord)
    ensures
        ({
            let after = TaskSystem::wake_noted(record);
            &&& record.lifecycle == ThreadState::Blocked ==> after.lifecycle == ThreadState::Waking
                && after.wake_pending == record.wake_pending
            &&& record.lifecycle != ThreadState::Blocked && record.lifecycle != ThreadState::New
                ==> after.wake_pending && after.lifecycle == record.lifecycle
            &&& record.lifecycle == ThreadState::New ==> after == record
            &&& after.id == record.id && after.placement == record.placement && after.policy
                == record.policy && after.exiting == record.exiting
        }),
{
}

/// A thread stays on a CPU exactly while it is allowed there and not asked to
/// go elsewhere; where it then goes is another CPU where it may run, the one
/// that was asked for if it may.
pub proof fn threads_leave_when_they_must(system: &TaskSystem, record: ThreadRecord, cpu: CpuId)
    requires
        system.wf(),
    ensures
        TaskSystem::must_leave(&record, cpu) <==> record.placement.migration_request is Some
            || !record.placement.affinity.has(cpu),
        system.leave_target(&record, cpu) matches Some(target) ==> may_go_to(
            system,
            target,
            &record.placement.affinity,
            Some(cpu),
        ),
        record.placement.migration_request matches Some(asked) ==> (may_go_to(
            system,
            asked,
            &record.placement.affinity,
            Some(cpu),
        ) ==> system.leave_target(&record, cpu) == Some(asked)),
{
    system.best_cpu_is_eligible(
        &record.placement.affinity,
        None,
        Some(cpu),
        PlacementRank::Runnable,
    );
}

/// What becomes of a thread that stops running: it leaves if it must, waits for
/// its next period if its budget is spent and it was not rescued, and else
/// waits for its turn. Only the idle thread waits for nothing.
pub proof fn stopped_threads_wait_in_place(system: &TaskSystem, cpu: CpuId, thread: ThreadId, reason: EnqueueReason, now_ns: u64)
    requires
        system.wf(),
        system.online(cpu),
        system.record(thread) is Some,
    ensures
        ({
            let record = system.record(thread)->0;
            let queue = system.cpu(cpu).queue();
            let state = state_at(&queue, &record, SchedulePosition::Running);
            let spent = state is Some && (state->0).effective().is_throttled()
                && !(queue.current->0).pi_critical_rescue;
            let goes = record.placement.migration_request is Some || !record.placement.affinity.has(
                cpu,
            );
            let step = system.schedule_out_step(cpu, thread, reason, now_ns);
            &&& step matches ScheduleOut::Migrate { target } ==> goes && may_go_to(
                system,
                target,
                &record.placement.affinity,
                Some(cpu),
            )
            &&& goes ==> step is Migrate || step is Refused
            &&& step is Throttle ==> spent && !goes
            &&& spent && !goes ==> step is Throttle || step is Refused
            &&& step is Idle ==> system.cpu(cpu).idle == Some(thread)
            &&& step is PutPrev ==> queue.linked() == Some(thread)
            &&& step is PutPrev || step is Requeue ==> !goes && !spent && system.cpu(cpu).idle
                != Some(thread)
            &&& !(step is Refused) ==> record.lifecycle == ThreadState::Running
                && record.placement.on_cpu == Some(cpu) && record.placement.task_cpu == Some(cpu)
        }),
{
    let record = system.record(thread)->0;
    threads_leave_when_they_must(system, record, cpu);
}

/// A thread that was picked runs only where it waits, where it may run, when
/// nobody asked it to leave and when its stack is free; otherwise it goes to
/// another CPU where it may run.
pub proof fn picked_threads_run_where_they_may(system: &TaskSystem, cpu: CpuId, picked: PickedThread, outgoing: Option<ThreadId>)
    requires
        system.wf(),
        system.record(picked.thread_id()) is Some,
    ensures
        ({
            let record = system.record(picked.thread_id())->0;
            let plan = system.pick_plan(cpu, picked, outgoing);
            let goes = record.placement.migration_request is Some || !record.placement.affinity.has(
                cpu,
            );
            &&& plan is Run ==> !goes && record.lifecycle == ThreadState::Ready
            &&& !(plan is Refused) ==> record.placement.on_rq == TaskOnRunQueue::Queued
                && record.placement.task_cpu == Some(cpu)
            &&& !(plan is Refused) && record.placement.on_cpu is Some ==> record.placement.on_cpu
                == Some(cpu) && outgoing == Some(record.id)
            &&& plan matches PickStep::Send { target, outgoing: leaves } ==> goes && may_go_to(
                system,
                target,
                &record.placement.affinity,
                Some(cpu),
            ) && leaves == (record.placement.on_cpu is Some)
            &&& goes ==> !(plan is Run)
        }),
{
    let record = system.record(picked.thread_id())->0;
    threads_leave_when_they_must(system, record, cpu);
}

/// A thread whose affinity has changed stays if it may, and else goes to
/// another CPU where it may run.
pub proof fn affinity_is_respected(system: &TaskSystem, record: ThreadRecord, cpu: CpuId)
    requires
        system.wf(),
        system.has_cpu(cpu),
    ensures
        record.placement.affinity.has(cpu) ==> system.affinity_target(&record, cpu) == Some(cpu),
        !record.placement.affinity.has(cpu) ==> (system.affinity_target(&record, cpu) matches Some(
            target,
        ) ==> may_go_to(system, target, &record.placement.affinity, Some(cpu))),
{
    system.best_cpu_is_eligible(
        &record.placement.affinity,
        None,
        Some(cpu),
        PlacementRank::Runnable,
    );
}

/// The CPU that has a thread is asked about it, and no other: the one where it
/// waits, the one on whose stack it is, the one it is on its way to, or the one
/// that holds its reservation.
pub proof fn the_owner_moves_the_thread(system: &TaskSystem, cpu: CpuId, record: ThreadRecord, target: CpuId)
    requires
        system.has_cpu(cpu),
    ensures
        record.placement.on_rq == TaskOnRunQueue::Queued ==> physical_owner(&record)
            == record.placement.task_cpu,
        record.placement.on_rq != TaskOnRunQueue::Queued && record.placement.on_cpu is Some
            ==> physical_owner(&record) == record.placement.on_cpu,
        record.placement.on_rq == TaskOnRunQueue::Migrating && record.placement.on_cpu is None
            ==> physical_owner(&record) == record.placement.task_cpu,
        record.placement.on_rq == TaskOnRunQueue::Off && record.placement.on_cpu is None
            ==> physical_owner(&record) == record.deadline.owner,
        physical_owner(&record) matches Some(owner) && owner != cpu && system.has_cpu(owner)
            ==> system.affinity_step_to(cpu, &record, target) == Ok::<AffinityStep, TaskError>(
            AffinityStep::Forward { owner: physical_owner(&record)->0, target },
        ),
        system.affinity_step_to(cpu, &record, target) matches Ok(step) ==> {
            let here = physical_owner(&record) == Some(cpu);
            let waits = record.placement.on_rq == TaskOnRunQueue::Queued;
            let runs = record.placement.on_cpu == Some(cpu);
            &&& step is Transfer ==> here && waits && !runs && target != cpu
                && system.cpu(cpu).queue().member(record.id) is Some
            &&& step is Refresh ==> here && waits && !runs && target == cpu
            &&& step is Request ==> here && waits && runs
            &&& step is PassOn ==> here && record.placement.on_rq == TaskOnRunQueue::Migrating
            &&& step is Settle ==> record.placement.on_rq == TaskOnRunQueue::Off
                || physical_owner(&record) is None
        },
{
}

/// A thread that runs and is wanted elsewhere is asked to go; one that is off
/// its run queue, or wanted where it is, is not.
pub proof fn movers_are_asked_to_go(record: ThreadRecord, target: CpuId)
    ensures
        ({
            let after = wanting(record, target);
            &&& record.placement.on_rq != TaskOnRunQueue::Off && record.placement.task_cpu != Some(
                target,
            ) ==> after.placement.migration_request == Some(target)
            &&& record.placement.on_rq == TaskOnRunQueue::Off || record.placement.task_cpu == Some(
                target,
            ) ==> after.placement.migration_request is None
            &&& after.wake_cpu_hint == Some(target)
            &&& after.placement.affinity == record.placement.affinity
            &&& staying(record, target).placement.migration_request is None
        }),
{
}

/// Where a new or woken thread is placed: stoppers and idle work stay where
/// they are if they may, other fair threads go where least is demanded, and
/// Deadline and real-time threads stay if they may.
pub proof fn ready_threads_are_placed(system: &TaskSystem, record: ThreadRecord, active: ActiveSchedulingState, owner: CpuId)
    requires
        system.wf(),
    ensures
        ({
            let affinity = &record.placement.affinity;
            let choice = system.placement_target(&record, active, owner);
            let balanced = active.policy is Fair && active.policy->mode != FairMode::Idle;
            &&& !balanced && affinity.has(owner) ==> choice == Some(owner)
            &&& balanced ==> choice == system.best_cpu(
                affinity,
                Some(owner),
                None,
                PlacementRank::Demand,
            )
            &&& choice matches Some(cpu) ==> affinity.has(cpu) && (cpu == owner || system.online(
                cpu,
            ))
        }),
{
    let affinity = &record.placement.affinity;
    system.best_cpu_is_eligible(affinity, None, None, PlacementRank::Allowed);
    system.best_cpu_is_eligible(affinity, Some(owner), None, PlacementRank::Demand);
    system.priority_choice_is_eligible(
        active.policy,
        active.effective(),
        affinity,
        Some(owner),
        None,
    );
}

/// A thread is handed over once: it is on its way to the target, which is noted
/// for it, and no request is left.
pub proof fn handed_over_threads_are_on_their_way(record: ThreadRecord, target: CpuId)
    ensures
        ({
            let after = TaskSystem::handed_over(record, target);
            &&& after.placement.on_rq == TaskOnRunQueue::Migrating
            &&& after.placement.task_cpu == Some(target)
            &&& after.placement.migration_request is None
            &&& after.placement.on_cpu == record.placement.on_cpu
            &&& after.placement.affinity == record.placement.affinity
            &&& after.wake_cpu_hint == Some(target)
            &&& after.lifecycle == record.lifecycle && after.policy == record.policy
        }),
{
}

/// A thread runs where it is queued and on whose stack it is; it waits where it
/// is queued; and else it rests.
pub proof fn threads_are_in_one_position(record: ThreadRecord, owner: CpuId)
    ensures
        position_of(&record, owner) == SchedulePosition::Running <==> record.placement.on_rq
            == TaskOnRunQueue::Queued && record.placement.task_cpu == Some(owner)
            && record.placement.on_cpu == Some(owner),
        position_of(&record, owner) == SchedulePosition::Queued <==> record.placement.on_rq
            == TaskOnRunQueue::Queued && record.placement.task_cpu == Some(owner)
            && record.placement.on_cpu != Some(owner),
{
}

} // verus!
