//! What a CPU promises: who preempts whom, what running costs, when it is to be
//! interrupted, and what it tells the others.
use vstd::prelude::*;
use crate::cpu::clock::RunQueueClock;
use crate::cpu::deadline::{SchedulerClockEvent, clock_event};
use crate::cpu::dispatch::{CurrentDispatch, CurrentSchedule, DispatchRole, grub_charge};
use crate::cpu::doorbell::SchedulerDoorbell;
use crate::cpu::inbox::IdlePullState;
use crate::cpu::load::RemoteLoadState;
use crate::cpu::local::CpuLocal;
use crate::cpu::remote::{CpuLifecycleState, CpuRemote};
use crate::cpu::run_queue::{CpuRunQueueState, WakePreemptionDecision};
use crate::ids::{CpuId, ThreadId};
use crate::scheduler::bandwidth::RtRunQueueBandwidth;
use crate::scheduler::entity::SchedulingEntity;
use crate::scheduler::policy::{FairMode, SchedulePolicy, SchedulerClass};
use crate::scheduler::run_queue::RunQueue;
use crate::time::{MonotonicDeadline, MonotonicInstant, SchedulerTimestamp, circular_distance};
use crate::timer::{first_to_fire_is_first, fires_before, next_to_fire};

verus! {

/// The real-time priority of a policy, and nothing for any other.
pub open spec fn priority_of(policy: SchedulePolicy) -> int {
    match policy {
        SchedulePolicy::Fifo { priority } => priority.value as int,
        SchedulePolicy::RoundRobin { priority, .. } => priority.value as int,
        _ => 0,
    }
}

/// A woken real-time thread takes the CPU from a running one if and only if its
/// priority is higher.
pub proof fn higher_priorities_preempt(current: CurrentSchedule, policy: SchedulePolicy, entity: SchedulingEntity, virtual_time: u64)
    requires
        current.role == DispatchRole::Task,
        policy is Fifo || policy is RoundRobin,
        current.policy is Fifo || current.policy is RoundRobin,
    ensures
        current.preempted_by(policy, entity, virtual_time) == (priority_of(policy) > priority_of(
            current.policy,
        )),
{
}

/// A thread of a higher class takes the CPU from one of a lower class, and
/// never the other way round; anybody takes it from the idle thread.
pub proof fn higher_classes_preempt(current: CurrentSchedule, policy: SchedulePolicy, entity: SchedulingEntity, virtual_time: u64)
    ensures
        ({
            let preempts = current.preempted_by(policy, entity, virtual_time);
            let running = current.policy;
            let task = current.role == DispatchRole::Task;
            let rt = policy is Fifo || policy is RoundRobin;
            let running_rt = running is Fifo || running is RoundRobin;
            &&& !task ==> preempts
            &&& task && running is KernelStop ==> !preempts
            &&& task && policy is KernelStop && !(running is KernelStop) ==> preempts
            &&& task && policy is Deadline && (running_rt || running is Fair) ==> preempts
            &&& task && running is Deadline && (rt || policy is Fair) ==> !preempts
            &&& task && rt && running is Fair ==> preempts
            &&& task && running_rt && policy is Fair ==> !preempts
            &&& task && policy is Fair && running is Fair && policy->mode != FairMode::Idle
                && running->mode == FairMode::Idle ==> preempts
            &&& task && policy is Fair && running is Fair && policy->mode == FairMode::Idle
                && running->mode != FairMode::Idle ==> !preempts
        }),
{
}

/// A woken Deadline thread takes the CPU from a running one if and only if its
/// deadline is earlier.
pub proof fn earlier_deadlines_preempt(current: CurrentSchedule, policy: SchedulePolicy, entity: SchedulingEntity, virtual_time: u64)
    requires
        current.role == DispatchRole::Task,
        policy is Deadline,
        current.policy is Deadline,
        entity is Deadline,
        current.entity is Deadline,
        entity->Deadline_0.absolute_deadline is Some,
        current.entity->Deadline_0.absolute_deadline is Some,
    ensures
        current.preempted_by(policy, entity, virtual_time) == (
        entity->Deadline_0.absolute_deadline->0
            < current.entity->Deadline_0.absolute_deadline->0),
{
}

/// A woken fair thread takes the CPU from a running one of its class if and
/// only if it has had no more than its share, its virtual deadline is earlier,
/// and the running one has had more than its share or all that it asked for.
/// Batch work never does.
pub proof fn fair_wakeups_preempt_in_turn(current: CurrentSchedule, policy: SchedulePolicy, entity: SchedulingEntity, virtual_time: u64)
    requires
        current.role == DispatchRole::Task,
        policy is Fair,
        current.policy is Fair,
        (policy->mode == FairMode::Idle) == (current.policy->mode == FairMode::Idle),
        entity is Fair,
        current.entity is Fair,
    ensures
        current.preempted_by(policy, entity, virtual_time) == {
            let woken = entity->Fair_0;
            let running = current.entity->Fair_0;
            &&& policy->mode != FairMode::Batch
            &&& circular_distance(virtual_time, woken.vruntime) >= 0
            &&& circular_distance(woken.virtual_deadline, running.virtual_deadline) < 0
            &&& circular_distance(virtual_time, running.vruntime) < 0
                || running.remaining_request_ns == 0
        },
{
}

/// The decision about a wake-up follows the comparison of the two threads: the
/// running one goes on unless it is preempted, and a woken thread that is not
/// of the fair class is then the one that runs.
pub proof fn wakeup_decisions_follow_the_comparison(queue: RunQueue, wakee: ThreadId, policy: SchedulePolicy, entity: SchedulingEntity, virtual_time: u64)
    ensures
        ({
            let decision = queue.preemption(wakee, policy, entity, virtual_time);
            &&& queue.running_schedule() is None ==> decision
                == WakePreemptionDecision::WakeeSelected
            &&& queue.running_schedule() matches Some(current) ==> {
                &&& decision == WakePreemptionDecision::KeepCurrent <==> !current.preempted_by(
                    policy,
                    entity,
                    virtual_time,
                )
                &&& !(policy is Fair) && current.preempted_by(policy, entity, virtual_time)
                    ==> decision == WakePreemptionDecision::WakeeSelected
            }
        }),
{
    reveal(RunQueue::preemption);
}

/// A thread that reclaims unused bandwidth is charged in full when there is
/// none, and the less the more of it there is; it never runs for less than its
/// own share costs.
pub proof fn reclaiming_shares_what_is_unused(runtime_ns: u64, own: u64, inactive: u64, extra: u64, more: u64, max: u64)
    requires
        0 < own <= max,
        inactive + extra <= more,
    ensures
        grub_charge(runtime_ns, own, 0, 0, max) == runtime_ns,
        grub_charge(runtime_ns, own, more, 0, max) <= grub_charge(
            runtime_ns,
            own,
            inactive,
            extra,
            max,
        ),
        inactive + extra >= max - own ==> grub_charge(runtime_ns, own, inactive, extra, max)
            == runtime_ns * own / (max as int),
{
    let r = runtime_ns as int;
    let m = max as int;
    assert(r * m / m == r) by (nonlinear_arith)
        requires
            m > 0,
    ;
    let x = crate::cpu::dispatch::grub_rate(own, more, 0, max);
    let y = crate::cpu::dispatch::grub_rate(own, inactive, extra, max);
    assert(x <= y);
    assert(r * x <= r * y) by (nonlinear_arith)
        requires
            x <= y,
            r >= 0,
    ;
    vstd::arithmetic::div_mod::lemma_div_is_ordered(r * x, r * y, m);
}

/// Running is paid for once: what is charged is noted as accounted for, so that
/// the same instant owes nothing more.
pub proof fn running_is_paid_for_once(before: CpuRunQueueState, after: CpuRunQueueState, now_ns: u64, extra_bw_scaled: u64, reclaimed_ns: u64, charge: crate::cpu::dispatch::DispatchCharge, reschedule: bool)
    requires
        before.queue.current is Some,
        after.settled(&before, now_ns, extra_bw_scaled, reclaimed_ns, charge, reschedule),
    ensures
        after.queue.current matches Some(current) && current.accounted_until_ns == now_ns,
        after.owed(now_ns) == 0,
        after.queue.current->0.thread == before.queue.current->0.thread,
        !(before.queue.current->0.schedule is Idle) && now_ns
            >= before.queue.current->0.accounted_until_ns ==> {
            let ran = now_ns - before.queue.current->0.accounted_until_ns;
            &&& before.busy_runtime_ns + ran <= u64::MAX ==> after.busy_runtime_ns
                == before.busy_runtime_ns + ran
            &&& before.queue.current->0.charged_runtime_ns + ran <= u64::MAX
                ==> after.queue.current->0.charged_runtime_ns
                == before.queue.current->0.charged_runtime_ns + ran
        },
        before.queue.current->0.schedule is Idle ==> after.busy_runtime_ns
            == before.busy_runtime_ns && !reschedule,
{
    reveal(CpuRunQueueState::settled);
}

/// Only real-time threads use the real-time quota, and their class is throttled
/// exactly when it has used more than its quota.
pub proof fn only_realtime_uses_the_quota(rt: RtRunQueueBandwidth, policy: SchedulePolicy, runtime_ns: u64)
    requires
        rt.enabled,
        !rt.throttled,
        rt.time_ns + runtime_ns <= u64::MAX,
    ensures
        ({
            let after = CpuRunQueueState::quota_after(rt, policy, runtime_ns);
            let counts = policy is Fifo || policy is RoundRobin;
            &&& counts ==> after.time_ns == rt.time_ns + runtime_ns && after.throttled == (
            rt.time_ns + runtime_ns > rt.runtime_ns)
            &&& !counts ==> after == rt
            &&& after.runtime_ns == rt.runtime_ns
        }),
{
}

/// A Deadline thread that spends its budget while others wait for its mutex is
/// let through to the end of its critical section: it is not throttled, and
/// what it uses from then on is not charged.
pub proof fn owners_are_rescued(dispatch: CurrentDispatch, entity: SchedulingEntity, runtime_ns: u64, now_ns: u64, reclaimed_ns: u64)
    requires
        entity is Deadline,
        entity.wf(),
        !entity->Deadline_0.throttled,
        dispatch.policy() is Deadline,
    ensures
        ({
            let after = dispatch.charged_entity(entity, runtime_ns, reclaimed_ns)->Deadline_0;
            let account = dispatch.charged_account(entity, runtime_ns, now_ns, reclaimed_ns);
            let outcome = dispatch.charge_outcome(entity, runtime_ns, reclaimed_ns);
            &&& dispatch.blocks_pi_waiter ==> !after.throttled && !outcome.slice_expired
            &&& dispatch.pi_critical_rescue ==> after == entity->Deadline_0
                && account.pi_critical_rescue
            &&& dispatch.blocks_pi_waiter && after.remaining_runtime_ns == 0
                ==> account.pi_critical_rescue
            &&& !dispatch.pi_critical_rescue && !dispatch.blocks_pi_waiter ==> (
            outcome.slice_expired <==> after.remaining_runtime_ns == 0)
        }),
{
}

/// A running thread is interrupted when its quantum or its request is used up;
/// a first-in-first-out thread is not interrupted at all.
pub proof fn turns_are_timed(dispatch: CurrentDispatch, entity: SchedulingEntity, now_ns: u64)
    requires
        entity.wf(),
    ensures
        ({
            let event = dispatch.next_event(entity, now_ns);
            &&& entity is Fifo || entity is KernelStop ==> event is None
            &&& entity is RoundRobin && entity->remaining_quantum_ns < 0x8000_0000_0000_0000
                ==> event is Some && circular_distance(event->0, now_ns)
                == entity->remaining_quantum_ns
            &&& entity is Fair && entity->Fair_0.remaining_request_ns < 0x8000_0000_0000_0000
                ==> event is Some && circular_distance(event->0, now_ns)
                == entity->Fair_0.remaining_request_ns
            &&& entity is Deadline && !dispatch.pi_critical_rescue ==> event is Some && (
            circular_distance(event->0, now_ns) == entity->Deadline_0.remaining_runtime_ns || (
            !entity->Deadline_0.throttled && event == entity->Deadline_0.absolute_deadline)
                || entity->Deadline_0.throttled)
        }),
{
    if let SchedulingEntity::RoundRobin { remaining_quantum_ns } = entity {
        if remaining_quantum_ns < 0x8000_0000_0000_0000 {
            crate::time::circular_distance_inverts_offset(now_ns, remaining_quantum_ns as int);
        }
    }
    if let SchedulingEntity::Fair(fair) = entity {
        if fair.remaining_request_ns < 0x8000_0000_0000_0000 {
            crate::time::circular_distance_inverts_offset(
                now_ns,
                fair.remaining_request_ns as int,
            );
        }
    }
    if let SchedulingEntity::Deadline(deadline) = entity {
        crate::time::circular_distance_inverts_offset(
            now_ns,
            deadline.remaining_runtime_ns as int,
        );
    }
}

/// The clock of a run queue follows its source, except that it never goes back.
pub proof fn clocks_follow_their_source(clock: RunQueueClock, source: SchedulerTimestamp)
    ensures
        clock.now is None ==> clock.reading(source) == source,
        clock.now matches Some(now) ==> {
            &&& circular_distance(source.ns, now.ns) >= 0 ==> clock.reading(source) == source
            &&& circular_distance(source.ns, now.ns) < 0 ==> clock.reading(source) == now
        },
{
}

/// An instant of the scheduler's clock lies as far ahead on the clock that
/// interrupts; one that has come is due at once.
pub proof fn clock_events_keep_their_distance(now_ns: u64, monotonic_now: MonotonicInstant, deadline_ns: u64)
    ensures
        ({
            let ahead = circular_distance(deadline_ns, now_ns);
            let event = clock_event(now_ns, monotonic_now, deadline_ns);
            &&& 0 < ahead && monotonic_now.ns + ahead <= 0x7fff_ffff_ffff_ffff ==> event
                == SchedulerClockEvent::Future(
                MonotonicDeadline { ns: (monotonic_now.ns + ahead) as u64 },
            )
            &&& 0 < ahead ==> event is Future
            &&& -0x8000_0000_0000_0000 < ahead <= 0 ==> event is Due
        }),
{
}

/// The clock interrupts no later than at the first armed deadline, the next
/// edge of the real-time period and the next round of balancing.
pub proof fn no_deadline_is_missed(cpu: CpuLocal, now_ns: u64, monotonic_now: MonotonicInstant, rt_period: Option<MonotonicDeadline>, i: int)
    requires
        !cpu.remote.doorbell.soft_timer,
        0 <= i < cpu.deadlines.queue.entries@.len(),
    ensures
        ({
            let event = cpu.next_event_of(now_ns, monotonic_now, rt_period);
            &&& event matches Some(event) && event.ns
                <= cpu.deadlines.queue.entries@[i].deadline.ns
            &&& rt_period matches Some(edge) ==> event->0.ns <= edge.ns
        }),
{
    let entries = cpu.deadlines.queue.entries@;
    first_to_fire_is_first(entries, entries.len() as int);
    assert(!fires_before(entries[i], entries[next_to_fire(entries)]));
}

/// The next edge of the real-time period is an event for the clock, whatever
/// else there is.
pub proof fn period_edges_are_not_missed(cpu: CpuLocal, now_ns: u64, monotonic_now: MonotonicInstant, edge: MonotonicDeadline)
    ensures
        cpu.next_event_of(now_ns, monotonic_now, Some(edge)) matches Some(event) && event.ns
            <= edge.ns,
{
}

/// A CPU that another one tells to reschedule learns of it: it is interrupted
/// unless it polls anyway, and its scheduler is wanted to preempt.
pub proof fn remote_requests_arrive(remote: CpuRemote, by: CpuId)
    requires
        remote.lifecycle != CpuLifecycleState::Offline,
        by != remote.owner,
    ensures
        ({
            let told = remote.told_to_reschedule(by).doorbell;
            let kicked = remote.kicked(by).doorbell;
            &&& told.preempt
            &&& kicked.owner_work
            &&& !remote.doorbell.idle_polling ==> told.ring is Some && told.ring == Some(
                told.generation,
            ) && kicked.ring == Some(kicked.generation)
            &&& remote.doorbell.generation < 0x00ff_ffff_ffff_ffff ==> told.generation
                == remote.doorbell.generation + 1
        }),
{
    reveal(SchedulerDoorbell::requested);
    reveal(SchedulerDoorbell::delivered);
}

/// A CPU that is off hears nothing.
pub proof fn offline_cpus_hear_nothing(remote: CpuRemote, by: CpuId)
    requires
        remote.lifecycle == CpuLifecycleState::Offline,
    ensures
        remote.asked_to_reschedule() == remote,
        remote.told_to_reschedule(by) == remote,
        remote.asked_to_work() == remote,
        remote.kicked(by) == remote,
{
}

/// A preemption that was put off while a thread parked is made up for when the
/// thread runs on after all, and forgotten when it blocked.
pub proof fn deferred_preemption_is_made_up_for(doorbell: SchedulerDoorbell)
    ensures
        doorbell.park_preempt_deferred ==> doorbell.park_finished(true).preempt,
        !doorbell.park_finished(true).park_preempt_deferred,
        doorbell.park_finished(false).preempt == doorbell.preempt,
        !doorbell.park_preempt_deferred ==> doorbell.park_finished(true).preempt
            == doorbell.preempt,
{
    reveal(SchedulerDoorbell::requested);
}

/// Messages are not forgotten: a CPU that still has some is wanted again after
/// it has acknowledged what was asked of it.
pub proof fn messages_are_not_forgotten(remote: CpuRemote, claim: crate::cpu::doorbell::SchedulerRequestClaim)
    requires
        remote.lifecycle != CpuLifecycleState::Offline,
        remote.inbox.messages@.len() > 0,
    ensures
        remote.acknowledged(claim).doorbell.preempt || remote.acknowledged(
            claim,
        ).doorbell.owner_work,
        remote.acknowledged(claim).inbox == remote.inbox,
{
    reveal(SchedulerDoorbell::requested);
}

/// A CPU sleeps only when nothing is asked of it, nobody has written to it, and
/// nobody waits to run.
pub proof fn sleeping_cpus_have_nothing_to_do(remote: CpuRemote)
    requires
        remote.may_sleep(),
    ensures
        !remote.doorbell.preempt,
        !remote.doorbell.owner_work,
        !remote.doorbell.soft_timer,
        remote.doorbell.generation == remote.doorbell.acknowledged_generation,
        remote.inbox.messages@.len() == 0,
        remote.load.sequence % 2 == 0,
        remote.load.published.runnable_count == 0,
{
}

/// A CPU may go only when it runs nothing but its idle thread, has nobody
/// queued, holds no reservation, has no timer armed or expired, is not in the
/// middle of a switch, and neither messages nor threads are on their way to it.
pub proof fn quiescent_cpus_are_empty(cpu: CpuLocal)
    requires
        cpu.quiescent(),
        cpu.current is Some,
    ensures
        cpu.current == cpu.idle,
        cpu.queue().deadline.members@.len() == 0,
        cpu.deadlines.queue.entries@.len() == 0,
        cpu.deadlines.expired@.len() == 0,
        cpu.switch_handoff is None,
        cpu.remote.inbox.messages@.len() == 0,
        cpu.remote.load.incoming_migration_demand == 0,
{
}

/// What a CPU shows of its load: those that wait, those and the one that runs,
/// and whether somebody could be taken off it. Deadline threads are offered
/// before real-time ones, and those before fair ones.
pub proof fn shown_load_is_the_load(queue: RunQueue, idle: Option<ThreadId>)
    requires
        queue.nr_running < usize::MAX,
    ensures
        ({
            let load = queue.load_of(idle);
            let runs = queue.current is Some && !(queue.current->0.schedule is Idle);
            &&& runs && queue.nr_running > 0 ==> load.runnable_count == queue.nr_running - 1
            &&& !runs ==> load.runnable_count == queue.nr_running
            &&& load.workload_count > load.runnable_count ==> queue.current is Some
                && queue.current->0.thread != idle->0 || idle is None
            &&& load.overloaded ==> load.workload_count > 1 && load.pushable_class is Some
            &&& load.pushable_class == Some(SchedulerClass::Deadline) <==> exists|i: int|
                0 <= i < queue.deadline.entries@.len()
                    && #[trigger] queue.deadline.entries@[i].pushable
            &&& load.pushable_class == Some(SchedulerClass::Fair) ==> exists|i: int|
                0 <= i < queue.fair.entries@.len()
                    && #[trigger] queue.fair.entries@[i].migration_capable
            &&& load.pushable_class is None ==> forall|i: int|
                0 <= i < queue.fair.entries@.len()
                    ==> !#[trigger] queue.fair.entries@[i].migration_capable
        }),
{
    reveal(RunQueue::load_of);
    reveal(RunQueue::pushable);
}

/// The demand by which CPUs are compared counts the threads that are on their
/// way there; a load that is being written is not read.
pub proof fn placement_counts_what_is_coming(load: RemoteLoadState)
    ensures
        load.sequence % 2 == 1 ==> load.placement() is None && load.summary() is None,
        load.sequence % 2 == 0 && load.published.workload_demand + load.incoming_migration_demand
            <= u64::MAX ==> load.placement() == Some(
            (load.published.workload_demand + load.incoming_migration_demand) as u64,
        ),
{
}

/// The wait between rounds of balancing doubles until it is as long as it may
/// be.
pub proof fn balancing_backs_off(cpu: CpuLocal, minimum: u64, maximum: u64)
    requires
        0 < minimum <= cpu.fair_balance_interval_ns <= maximum,
    ensures
        ({
            let next = cpu.backed_off(minimum, maximum);
            &&& cpu.fair_balance_interval_ns <= next <= maximum
            &&& 2 * cpu.fair_balance_interval_ns <= maximum ==> next
                == 2 * cpu.fair_balance_interval_ns
            &&& 2 * cpu.fair_balance_interval_ns >= maximum ==> next == maximum
        }),
{
}

/// A request of an idle CPU for work can be withdrawn until somebody has agreed
/// to send some.
pub proof fn agreed_pulls_stand(state: IdlePullState)
    ensures
        state.committed ==> state.cancelled() == state,
        !state.committed ==> state.cancelled().reservation is None,
        state.cancelled().generation == state.generation,
{
}

} // verus!
