//! What a CPU does of its own accord: how it takes threads on, when it looks
//! ahead, and what it reports.
use vstd::prelude::*;
use crate::cpu::dispatch::{CurrentDispatch, CurrentSchedule};
use crate::cpu::doorbell::{SchedulerDoorbell, SchedulerRequestClaim, SchedulerRequestReason};
use crate::cpu::inbox::{IdlePullReservation, IdlePullState};
use crate::cpu::load::{RemoteLoadState, RunQueueLoadPublication};
use crate::cpu::local::{CpuLocal, least};
use crate::cpu::remote::CpuRemote;
use crate::ids::ThreadId;
use crate::scheduler::entity::SchedulingEntity;
use crate::scheduler::fair::{all_fair, weight_sum, weight_sum_bounds};
use crate::scheduler::policy::SchedulerClass;
use crate::scheduler::realtime::RealtimeRunQueue;
use crate::scheduler::run_queue::RunQueue;
use crate::scheduler::task::due;
use crate::time::{MonotonicDeadline, MonotonicInstant, circular_distance, circular_offset};
use crate::timer::{
    TaskDeadlineExpireBatch, fired, first_to_fire_is_first, fires_before, next_to_fire,
};

verus! {

/// The real-time priority that counts for a CPU is the highest of all its
/// real-time threads, the running one included.
pub proof fn the_highest_priority_counts(queue: RunQueue, priority: Option<u8>, q: u8)
    requires
        queue.rt.wf(),
        queue.is_top_rt(priority),
        1 <= q <= 99,
    ensures
        ({
            let runs = match queue.running_schedule() {
                Some(current) => current.policy.rt(),
                None => None,
            };
            &&& queue.rt.levels@[q - 1]@.len() > 0 ==> priority is Some && priority->0 >= q
            &&& runs is Some ==> priority is Some && priority->0 >= (runs->0).value
            &&& priority matches Some(p) ==> (runs is Some && (runs->0).value == p) || (1 <= p <= 99
                && queue.rt.levels@[p - 1]@.len() > 0)
        }),
{
    reveal(RealtimeRunQueue::occupied);
}

/// The deadline that counts for a CPU is the smaller of that of the running
/// thread and that of the one that would be chosen next.
pub proof fn the_earliest_deadline_counts(queue: RunQueue)
    ensures
        ({
            let counts = queue.earliest_due();
            let next = due(queue.deadline.entries@[queue.deadline.choice()->0]);
            &&& queue.deadline.entries@.len() > 0 ==> counts is Some && counts->0 <= next
            &&& queue.running_schedule() matches Some(current) ==> (current.role
                == crate::cpu::dispatch::DispatchRole::Task && CurrentSchedule::deadline_of(
                current.entity,
            ) is Some ==> counts is Some && counts->0 <= CurrentSchedule::deadline_of(
                current.entity,
            )->0)
            &&& queue.deadline.entries@.len() == 0 && queue.running_schedule() is None ==> counts
                is None
            &&& counts is Some ==> (queue.deadline.entries@.len() > 0 && counts->0 == next) || (
            queue.running_schedule() matches Some(current) && CurrentSchedule::deadline_of(
                current.entity,
            ) == counts)
        }),
{
}

/// Of two deadlines the first is kept.
pub proof fn the_first_deadline_is_kept(a: Option<MonotonicDeadline>, b: Option<MonotonicDeadline>)
    ensures
        least(a, b) is None <==> a is None && b is None,
        least(a, b) matches Some(kept) ==> (a is Some ==> kept.ns <= (a->0).ns) && (b is Some
            ==> kept.ns <= (b->0).ns) && (a == Some(kept) || b == Some(kept)),
{
}

/// A CPU runs the thread that it has taken on, and none after it has let go.
pub proof fn cpus_run_whom_they_took_on(cpu: CpuLocal, thread: ThreadId, dispatch: CurrentDispatch)
    ensures
        cpu.occupied(thread).current == Some(thread),
        cpu.occupied(thread).remote.current_thread == Some(thread),
        cpu.occupied(thread).queue() == cpu.queue(),
        cpu.dispatching(dispatch).queue().current == Some(dispatch),
        cpu.dispatching(dispatch).current == cpu.current,
        cpu.vacated().current is None && cpu.vacated().remote.current_thread is None,
        cpu.vacated().queue().current is None,
        cpu.vacated().queue().nr_running == cpu.queue().nr_running,
        cpu.vacated().idle == cpu.idle,
{
}

/// A CPU looks for balance only while a fair thread waits that could run
/// elsewhere: there have to be two threads at least.
pub proof fn only_crowds_are_balanced(cpu: CpuLocal)
    ensures
        cpu.balances_periodically() ==> cpu.queue().fair.entries@.len() > 0,
        cpu.queue().fair.entries@.len() == 0 ==> !cpu.balances_periodically(),
        cpu.queue().queued_count() == 1 && (cpu.current is None || cpu.current == cpu.idle)
            ==> !cpu.balances_periodically(),
        cpu.queue().fair.entries@.len() > 0 && cpu.queue().queued_count() > 1
            ==> cpu.balances_periodically(),
        cpu.queue().fair.entries@.len() > 0 && cpu.queue().queued_count() == 1 && cpu.current is Some
            && cpu.current != cpu.idle ==> cpu.balances_periodically(),
{
}

/// The next round of balancing comes one interval later.
pub proof fn balancing_is_timed(cpu: CpuLocal, now: MonotonicInstant, interval_ns: u64)
    requires
        now.ns + interval_ns <= crate::time::MONOTONIC_MAX_NS,
    ensures
        ({
            let after = cpu.balancing_after(now, interval_ns);
            &&& after.remote.load.fair_balance_deadline.ns == now.ns + interval_ns
            &&& after.remote.load.fair_balance_armed && !after.remote.load.fair_balance_pending
            &&& after.fair_balance_interval_ns == interval_ns
            &&& after.current == cpu.current && after.queue() == cpu.queue()
        }),
{
}

/// A CPU that looks ahead asks for its scheduler when an instant of it has come,
/// and notes that balance is due when its time has come.
pub proof fn what_is_due_is_asked_for(cpu: CpuLocal, scheduler_now_ns: u64, monotonic_now: MonotonicInstant)
    ensures
        ({
            let after = cpu.looked_ahead(scheduler_now_ns, monotonic_now);
            let instant = cpu.next_scheduler_instant(scheduler_now_ns);
            let load = cpu.remote.load;
            &&& instant matches Some(at) ==> (circular_distance(scheduler_now_ns, at) >= 0
                ==> after.remote.doorbell == cpu.remote.asked_to_work().doorbell)
            &&& instant is None ==> after.remote.doorbell == cpu.remote.doorbell
            &&& instant matches Some(at) ==> (circular_distance(scheduler_now_ns, at) < 0
                ==> after.remote.doorbell == cpu.remote.doorbell)
            &&& cpu.balances_periodically() && load.fair_balance_armed && monotonic_now.ns
                >= load.fair_balance_deadline.ns ==> after.remote.load.fair_balance_pending
            &&& after.remote.load.fair_balance_pending && !load.fair_balance_pending
                ==> monotonic_now.ns >= load.fair_balance_deadline.ns && load.fair_balance_armed
            &&& after.queue() == cpu.queue() && after.current == cpu.current
        }),
{
}

/// A real-time thread that uses the quota is interrupted no later than when the
/// quota is used up, and a waiting Deadline thread no later than at its
/// deadline. An idle CPU without Deadline threads is not interrupted.
pub proof fn quotas_are_watched(cpu: CpuLocal, now_ns: u64)
    requires
        cpu.queue().current is Some,
        cpu.queue().running_entity() is Some,
    ensures
        ({
            let current = cpu.queue().current->0;
            let rt = cpu.remote.run_queue.rt;
            let next = cpu.next_scheduler_instant(now_ns);
            &&& !current.is_idle() && current.policy().rt() is Some && !current.rt_quota_exempt
                && rt.enabled && !rt.throttled ==> next is Some && (next->0 == circular_offset(
                now_ns,
                rt.runtime_ns - rt.time_ns + 1,
            ) || circular_distance(
                circular_offset(now_ns, rt.runtime_ns - rt.time_ns + 1),
                next->0,
            ) >= 0)
            &&& current.is_idle() && cpu.queue().deadline.entries@.len() == 0 ==> next is None
            &&& cpu.queue().deadline.entries@.len() > 0 ==> next is Some
        }),
{
}

/// Deadlines that have come are handed on in their order, as many as there is
/// room for and as are allowed; what is left is reported as it is.
pub proof fn expired_deadlines_are_handed_on(before: CpuLocal, after: CpuLocal, now: MonotonicInstant, budget: usize, batch: TaskDeadlineExpireBatch, i: int)
    requires
        after.promoted(&before, now, budget, batch),
        before.deadlines.wf(),
    ensures
        ({
            let entries = before.deadlines.queue.entries@;
            let left = after.deadlines.queue.entries@;
            let held = before.deadlines.expired@.len() as int;
            &&& batch.expired <= budget && batch.expired <= before.batch_limit
            &&& held + batch.expired <= before.deadlines.expired_room
            &&& after.deadlines.expired@.len() == held + batch.expired
            &&& after.deadlines.expired@.take(held) == before.deadlines.expired@
            &&& 0 <= i < batch.expired ==> after.deadlines.expired@[held + i].entry == fired(
                entries,
                now,
                before.promotion_budget(budget),
            )[i]
            &&& batch.pending ==> exists|j: int| 0 <= j < left.len() && (#[trigger] left[j]).deadline.ns
                <= now.ns
            &&& !batch.pending && 0 <= i < left.len() ==> now.ns < left[i].deadline.ns
            &&& batch.next_deadline is None <==> left.len() == 0
            &&& 0 <= i < left.len() ==> (batch.next_deadline->0).ns <= left[i].deadline.ns
        }),
{
    let allowed = before.promotion_budget(budget);
    let entries = before.deadlines.queue.entries@;
    at_most_the_budget(entries, now, allowed);
    let held = before.deadlines.expired@.len() as int;
    assert(after.deadlines.expired@.take(held) =~= before.deadlines.expired@);
    let left = after.deadlines.queue.entries@;
    if left.len() > 0 {
        first_to_fire_is_first(left, left.len() as int);
        assert(left[next_to_fire(left)].deadline.ns == left[next_to_fire(left)].deadline.ns);
        if 0 <= i < left.len() {
            assert(!fires_before(left[i], left[next_to_fire(left)]));
        }
    }
}

proof fn at_most_the_budget(entries: Seq<crate::timer::TimerEntry>, now: MonotonicInstant, budget: nat)
    ensures
        fired(entries, now, budget).len() <= budget,
    decreases budget,
{
    if budget > 0 && entries.len() > 0 {
        let at = next_to_fire(entries);
        at_most_the_budget(entries.remove(at), now, (budget - 1) as nat);
    }
}

/// A request adds its own reason to those that are pending, and takes none
/// away; it is told apart from those before.
pub proof fn requests_add_up(doorbell: SchedulerDoorbell, reason: SchedulerRequestReason)
    ensures
        ({
            let after = doorbell.requested(reason);
            &&& after.preempt <==> doorbell.preempt || reason == SchedulerRequestReason::Preempt
            &&& after.owner_work <==> doorbell.owner_work || reason
                == SchedulerRequestReason::OwnerWork
            &&& after.soft_timer <==> doorbell.soft_timer || reason
                == SchedulerRequestReason::SoftTimer
            &&& doorbell.generation < 0x00ff_ffff_ffff_ffff ==> after.generation
                == doorbell.generation + 1
            &&& after.ring == doorbell.ring && after.park_preempt_deferred
                == doorbell.park_preempt_deferred && after.acknowledged_generation
                == doorbell.acknowledged_generation
            &&& after.pending()
        }),
{
    reveal(SchedulerDoorbell::requested);
}

/// A request rings unless the CPU looks for requests by itself: because it
/// polls, or because it makes the request and serves its own work.
pub proof fn requests_ring(doorbell: SchedulerDoorbell, reason: SchedulerRequestReason, by_owner: bool)
    ensures
        ({
            let after = doorbell.delivered(reason, by_owner);
            &&& doorbell.idle_polling ==> after.ring == doorbell.ring
            &&& by_owner && doorbell.services_local_work ==> after.ring == doorbell.ring
            &&& !doorbell.idle_polling && !(by_owner && doorbell.services_local_work)
                ==> after.ring == Some(after.generation)
            &&& after.pending()
        }),
{
    reveal(SchedulerDoorbell::requested);
    reveal(SchedulerDoorbell::delivered);
}

/// What a CPU has served it acknowledges; what is still asked of it stays
/// asked.
pub proof fn served_requests_are_acknowledged(remote: CpuRemote, claim: SchedulerRequestClaim)
    ensures
        ({
            let after = remote.acknowledged(claim);
            &&& after.doorbell.acknowledged_generation == claim.generation
            &&& remote.doorbell.preempt ==> after.doorbell.preempt
            &&& remote.doorbell.owner_work ==> after.doorbell.owner_work
            &&& after.doorbell.soft_timer == remote.doorbell.soft_timer
            &&& remote.inbox.messages@.len() == 0 ==> after.doorbell.preempt
                == remote.doorbell.preempt && after.doorbell.owner_work
                == remote.doorbell.owner_work && after.doorbell.generation
                == remote.doorbell.generation
            &&& after.run_queue == remote.run_queue && after.load == remote.load
            &&& remote.deferred_work().doorbell.owner_work
            &&& remote.deferred_work().doorbell.ring == Some(
                remote.deferred_work().doorbell.generation,
            )
        }),
{
    reveal(SchedulerDoorbell::requested);
}

/// A CPU counts the thread that runs unless it is the idle one, is overloaded
/// exactly when it has two threads of which one could leave, and offers
/// real-time threads when no Deadline thread could leave.
pub proof fn running_threads_are_counted(queue: RunQueue, idle: Option<ThreadId>)
    requires
        queue.nr_running < usize::MAX,
    ensures
        ({
            let load = queue.load_of(idle);
            let runs = queue.running_schedule();
            let works = runs is Some && (idle is None || Some((runs->0).thread) != idle);
            &&& works ==> load.workload_count == load.runnable_count + 1
            &&& !works ==> load.workload_count == load.runnable_count
            &&& load.overloaded <==> load.workload_count > 1 && load.pushable_class is Some
            &&& load.pushable_class == Some(SchedulerClass::Realtime) ==> exists|p: u8|
                1 <= p <= 99 && #[trigger] queue.rt_pushable(p)
            &&& (exists|p: u8| 1 <= p <= 99 && #[trigger] queue.rt_pushable(p))
                ==> load.pushable_class == Some(SchedulerClass::Deadline) || load.pushable_class
                == Some(SchedulerClass::Realtime)
        }),
{
    reveal(RunQueue::load_of);
    reveal(RunQueue::pushable);
}

/// What a CPU demands is what its fair threads weigh and what its other threads
/// count for, and that of the thread that runs.
pub proof fn demand_is_what_threads_weigh(queue: RunQueue, idle: Option<ThreadId>)
    requires
        weight_sum(queue.fair.entries@) + weight_sum(queue.idle_fair.entries@)
            + queue.fixed_placement_demand + 0x1_0000_0000 <= u64::MAX,
        all_fair(queue.fair.entries@),
        all_fair(queue.idle_fair.entries@),
    ensures
        ({
            let load = queue.load_of(idle);
            let runs = queue.running_schedule();
            let waiting = weight_sum(queue.fair.entries@) + weight_sum(queue.idle_fair.entries@);
            let works = runs is Some && (idle is None || Some((runs->0).thread) != idle)
                && (runs->0).role == crate::cpu::dispatch::DispatchRole::Task;
            &&& works ==> load.workload_demand == waiting + queue.fixed_placement_demand + (
            runs->0).policy.load()
            &&& works ==> load.fair_demand == waiting + (runs->0).policy.fair_load()
            &&& !works ==> load.workload_demand == waiting + queue.fixed_placement_demand
            &&& !works ==> load.fair_demand == waiting
        }),
{
    reveal(RunQueue::load_of);
    weight_sum_bounds(queue.fair.entries@);
    weight_sum_bounds(queue.idle_fair.entries@);
}

/// What is shown of a load is what was published; it can be read again when it
/// is complete.
pub proof fn shown_loads_are_read(load: RemoteLoadState, publication: RunQueueLoadPublication)
    requires
        load.sequence % 2 == 0,
    ensures
        load.showing(publication).summary() matches Some(summary) && summary.runnable_count
            == publication.runnable_count && summary.workload_count == publication.workload_count
            && summary.workload_demand == publication.workload_demand && summary.fair_demand
            == publication.fair_demand && summary.pushable_class == publication.pushable_class
            && summary.overloaded == publication.overloaded && summary.current_key
            == publication.current_key,
        load.showing(publication).incoming_migration_demand == load.incoming_migration_demand,
        load.showing(publication).sequence != load.sequence,
{
    reveal(RemoteLoadState::showing);
}

/// A thread is due to be replaced when what it had is used up; an overrun is
/// reported only of a Deadline thread that asked for it.
pub proof fn used_up_turns_end(current: CurrentDispatch, entity: SchedulingEntity, runtime_ns: u64, now_ns: u64, reclaimed_ns: u64)
    requires
        !current.pi_critical_rescue,
        !current.blocks_pi_waiter,
    ensures
        ({
            let charge = current.charge_outcome(entity, runtime_ns, reclaimed_ns);
            let used = entity.charged(runtime_ns, 0, reclaimed_ns);
            let account = current.charged_account(entity, runtime_ns, now_ns, reclaimed_ns);
            &&& charge.slice_expired <==> match used {
                SchedulingEntity::Fair(fair) => fair.remaining_request_ns == 0,
                SchedulingEntity::RoundRobin { remaining_quantum_ns } => remaining_quantum_ns == 0,
                SchedulingEntity::Deadline(deadline) => deadline.remaining_runtime_ns == 0,
                _ => false,
            }
            &&& charge.deadline_overrun <==> charge.slice_expired && current.policy() is Deadline
                && current.policy()->Deadline_0.flags.dl_overrun
            &&& current.charged_entity(entity, runtime_ns, reclaimed_ns) == used
            &&& account.accounted_until_ns == now_ns
            &&& account.deadline_overrun <==> current.deadline_overrun || charge.deadline_overrun
            &&& current.charged_runtime_ns + runtime_ns <= u64::MAX ==> account.charged_runtime_ns
                == current.charged_runtime_ns + runtime_ns
            &&& !account.pi_critical_rescue
        }),
{
}

/// A request for work is answered while it stands, and only once.
pub proof fn pulls_are_claimed_once(state: IdlePullState, reservation: IdlePullReservation)
    ensures
        state.claimable(reservation) <==> state.reservation == Some(reservation)
            && !state.committed,
        state.committed ==> !state.claimable(reservation),
{
}

} // verus!
