//! What holds of the single steps of the scheduler.
use vstd::prelude::*;
use crate::cpu::handoff::SwitchHandoff;
use crate::cpu::inbox::{IdlePullReservation, IdlePullState, InboxMessage, InboxOperation};
use crate::cpu::local::CpuLocal;
use crate::cpu::dispatch::CurrentDispatch;
use crate::error::{TaskError, ThreadState};
use crate::ids::{CpuId, ThreadId};
use crate::scheduler::deadline::DeadlineRunQueueBandwidth;
use crate::scheduler::entity::{EnqueueReason, SchedulingEntity};
use crate::scheduler::policy::SchedulePolicy;
use crate::scheduler::run_queue::RunQueue;
use crate::scheduler::task::ActiveSchedulingState;
use crate::system::bandwidth::{
    assigned, can_assign, can_contend, can_detach, contending, detached, ledger_assigned,
    ledger_contends, ledger_detached, ledger_rests, resting,
};
use crate::system::commit::{overrun_recorded, overrun_thread, read_out};
use crate::system::creation::{ThreadSpec, dispatch_of};
use crate::system::delivery::{announces, entering, timers_due};
use crate::system::drain::{DeliveryStep, arriving_demand};
use crate::system::exit::{gone, held_reservation};
use crate::system::migration::{can_expect, captured, expecting, migration_of};
use crate::system::park::{ParkStep, ParkTicket, asleep, claimed, park_begun, slept};
use crate::system::policy::{policy_committed, reconfigured_state};
use crate::system::policy_update::{PolicyGate, generation_error, policy_gate};
use crate::system::pull::pull_released;
use crate::system::ready::{can_link, linked_placement, record_readied};
use crate::system::restate::SchedulePosition;
use crate::system::switch_in::{can_idle, set_idling, set_running};
use crate::system::switch_out::{put_back, sent_off, starved, waiting_again};
use crate::system::switch_tail::{handoff_state, stack_left};
use crate::system::task_system::TaskSystem;
use crate::system::wake::{following, renewed, renews_budget, stays_throttled};
use crate::thread::placement::TaskOnRunQueue;
use crate::thread::record::{DeadlineActivity, PendingPolicyUpdate, ThreadRecord};
use crate::time::circular_distance;

verus! {

/// A Deadline thread that becomes ready claims its reservation on its CPU: one
/// that had none there brings it, one that had let go of it uses it again, and
/// one that still held it claims no more. Nobody else claims anything.
pub proof fn reservations_are_claimed_once(after: &RunQueue, before: &RunQueue, record: ThreadRecord, owner: CpuId)
    requires
        before.deadline.bandwidth.wf(),
        can_contend(before, &record, owner),
        ledger_contends(after, before, &record),
    ensures
        ({
            let was = before.deadline.bandwidth;
            let new = after.deadline.bandwidth;
            let claim = record.deadline.reservation_scaled;
            let settled = contending(record, owner);
            &&& new.max_bw_scaled == was.max_bw_scaled && new.wf()
            &&& !(record.policy.base is Deadline) ==> new == was && settled == record
            &&& record.policy.base is Deadline && record.deadline.owner is None
                ==> new.this_bw_scaled == was.this_bw_scaled + claim && new.running_bw_scaled
                == was.running_bw_scaled + claim
            &&& record.policy.base is Deadline && record.deadline.owner is Some
                ==> new.this_bw_scaled == was.this_bw_scaled
            &&& record.policy.base is Deadline && record.deadline.owner is Some
                && record.deadline.activity == DeadlineActivity::Inactive ==> new.running_bw_scaled
                == was.running_bw_scaled + claim
            &&& record.policy.base is Deadline && record.deadline.owner is Some
                && record.deadline.activity != DeadlineActivity::Inactive ==> new == was
            &&& record.policy.base is Deadline ==> settled.deadline.owner == Some(owner)
                && settled.deadline.activity == DeadlineActivity::Contending
                && settled.deadline.reservation_scaled == claim
            &&& record.policy.base is Deadline && record.deadline.owner is None
                ==> after.deadline.members@.contains(record.id)
        }),
{
    let members = before.deadline.members@;
    assert(members.push(record.id)[members.len() as int] == record.id);
}

/// A reservation that leaves a CPU takes along what it claimed there, no more
/// and no less, and the CPU forgets the thread.
pub proof fn reservations_leave_nothing_behind(after: &RunQueue, before: &RunQueue, record: ThreadRecord, owner: CpuId)
    requires
        can_detach(before, &record, owner),
        ledger_detached(after, before, &record),
    ensures
        ({
            let was = before.deadline.bandwidth;
            let new = after.deadline.bandwidth;
            let claim = record.deadline.reservation_scaled;
            let settled = detached(record);
            &&& record.deadline.owner is None ==> *after == *before && settled == record
            &&& record.deadline.owner is Some ==> record.deadline.owner == Some(owner)
                && new.this_bw_scaled == was.this_bw_scaled - claim
                && !after.deadline.members@.contains(record.id)
            &&& record.deadline.owner is Some && record.deadline.activity
                == DeadlineActivity::Inactive ==> new.running_bw_scaled == was.running_bw_scaled
            &&& record.deadline.owner is Some && record.deadline.activity
                != DeadlineActivity::Inactive ==> new.running_bw_scaled == was.running_bw_scaled
                - claim
            &&& settled.deadline.owner is None
            &&& record.deadline.owner is Some ==> settled.deadline.activity
                == DeadlineActivity::Inactive && settled.deadline.timers_stale
            &&& settled.deadline.reservation_scaled == claim
        }),
{
}

/// A reservation that is assigned to a CPU while its thread rests is there, but
/// not in use.
pub proof fn assigned_reservations_rest(after: &RunQueue, before: &RunQueue, record: ThreadRecord, owner: CpuId)
    requires
        can_assign(before, &record),
        ledger_assigned(after, before, &record),
    ensures
        ({
            let was = before.deadline.bandwidth;
            let new = after.deadline.bandwidth;
            &&& new.running_bw_scaled == was.running_bw_scaled
            &&& record.policy.base is Deadline && record.deadline.owner is None
                ==> new.this_bw_scaled == was.this_bw_scaled + record.deadline.reservation_scaled
                && assigned(record, owner).deadline.owner == Some(owner) && assigned(
                record,
                owner,
            ).deadline.activity == DeadlineActivity::Inactive
            &&& !(record.policy.base is Deadline) || record.deadline.owner is Some ==> *after
                == *before && assigned(record, owner) == record
        }),
{
}

/// A thread that goes to sleep keeps using its bandwidth until the instant at
/// which it has had no more than its share; if that is past, it lets go at once.
pub proof fn sleepers_let_go_of_their_bandwidth(after: &RunQueue, before: &RunQueue, record: ThreadRecord, base: SchedulingEntity, owner: CpuId, now_ns: u64)
    requires
        ledger_rests(after, before, &record, base, owner, now_ns),
        base matches SchedulingEntity::Deadline(deadline) && deadline.absolute_deadline is Some,
        record.deadline.reservation_scaled <= before.deadline.bandwidth.running_bw_scaled,
    ensures
        ({
            let free_at = base->Deadline_0.zero_lag();
            let uses = record.deadline.owner == Some(owner) && record.deadline.activity
                == DeadlineActivity::Contending;
            let settled = resting(record, base, owner, now_ns);
            &&& !uses ==> *after == *before && settled == record
            &&& uses && circular_distance(now_ns, free_at) < 0 ==> *after == *before
                && settled.deadline.activity == (DeadlineActivity::NonContending {
                zero_lag_ns: free_at,
            })
            &&& uses && circular_distance(now_ns, free_at) >= 0
                ==> after.deadline.bandwidth.running_bw_scaled
                == before.deadline.bandwidth.running_bw_scaled - record.deadline.reservation_scaled
                && after.deadline.bandwidth.this_bw_scaled
                == before.deadline.bandwidth.this_bw_scaled && settled.deadline.activity
                == DeadlineActivity::Inactive
            &&& settled.deadline.owner == record.deadline.owner
            &&& settled.deadline.reservation_scaled == record.deadline.reservation_scaled
        }),
{
}

/// A thread is created only with a valid policy, with a CPU to run on, and
/// while there is room; a Deadline thread only if it may run on every CPU that
/// is online and if all reservations together stay within the capacity.
pub proof fn creation_is_admitted(system: &TaskSystem, spec: &ThreadSpec)
    ensures
        system.creation_error(spec) is None ==> {
            let allowed = spec.allowed(system.config.cpu_count as nat);
            &&& spec.policy.valid()
            &&& allowed.len() == system.config.cpu_count
            &&& spec.affinity is None ==> forall|i: int| 0 <= i < allowed.len() ==> #[trigger] allowed[i]
            &&& system.free_slots@.len() > 0 || system.slots@.len() < system.config.thread_capacity
            &&& spec.policy matches SchedulePolicy::Deadline(deadline) ==> {
                &&& deadline.utilization() as u64 == 0
                    || system.root_domain.admission.reserved_scaled + deadline.utilization() as u64
                    <= system.root_domain.admission.capacity()
                &&& forall|cpu: CpuId| #[trigger]
                    system.root_domain.online.has(cpu) ==> cpu.index < allowed.len()
                        && allowed[cpu.index as int]
            }
        },
        system.creation_error(spec) == Some(TaskError::InvalidPolicy) <==> !spec.policy.valid(),
        system.creation_error(spec) == Some(TaskError::DeadlineAdmission) ==> spec.policy is Deadline,
        system.creation_error(spec) == Some(TaskError::DeadlineAffinity) ==> spec.policy is Deadline,
        system.creation_error(spec) == Some(TaskError::ThreadCapacity) ==> system.free_slots@.len()
            == 0 && system.slots@.len() >= system.config.thread_capacity,
        spec.policy.valid() && spec.affinity is None && system.config.cpu_count > 0
            && !(spec.policy is Deadline) && (system.free_slots@.len() > 0 || system.slots@.len()
            < system.config.thread_capacity) && crate::ids::members(
            Seq::new(system.config.cpu_count as nat, |i: int| true),
        ) > 0 ==> system.creation_error(spec) is None,
{
    if system.creation_error(spec) is None && spec.policy is Deadline {
        let allowed = spec.allowed(system.config.cpu_count as nat);
        assert forall|cpu: CpuId| #[trigger] system.root_domain.online.has(cpu) implies cpu.index
            < allowed.len() && allowed[cpu.index as int] by {
            assert(crate::system::creation::covers_cpu(allowed, cpu));
        }
    }
}

/// A new thread gets a slot that nobody uses; a slot that was given up is used
/// again only under another name, and not at all when its names have run out.
pub proof fn names_are_not_used_twice(before: &TaskSystem, after: &TaskSystem, id: ThreadId)
    requires
        before.wf(),
        before.slots@.len() < u32::MAX,
        after.slot_abandoned(before, id),
        id.slot < before.slots@.len(),
    ensures
        before.record(before.next_identity()) is None,
        before.free_slots@.len() == 0 ==> before.next_identity().slot == before.slots@.len(),
        after.record(id) is None,
        id.generation < u32::MAX ==> after.next_identity() != id && after.next_identity().slot
            == id.slot && after.next_identity().generation == id.generation + 1,
        id.generation == u32::MAX ==> after.free_slots@ == before.free_slots@,
{
    if before.free_slots@.len() > 0 {
        let last = before.free_slots@.len() - 1;
        assert(before.free_slots@[last] == before.free_slots@.last());
    }
}

/// What a CPU notes of the thread that it starts to run.
pub proof fn dispatches_start_anew(record: ThreadRecord, schedule: crate::cpu::dispatch::CurrentClassState, policy: SchedulePolicy, now_ns: u64)
    ensures
        ({
            let current = dispatch_of(&record, schedule, policy, now_ns);
            &&& current.thread == record.id
            &&& current.accounted_until_ns == now_ns && current.charged_runtime_ns == 0
            &&& !current.deadline_overrun && !current.pi_critical_rescue
            &&& current.blocks_pi_waiter <==> record.pi.donors.entries@.len() > 0
            &&& current.rt_quota_exempt <==> record.pi.donor is Some && (policy is Fifo || policy
                is RoundRobin)
            &&& current.deadline_donor == record.pi.deadline_donor
            &&& current.deadline_bandwidth_scaled == record.deadline.reservation_scaled
        }),
{
}

/// An overrun counts against the thread whose reservation was used, and counts
/// once.
pub proof fn overruns_are_noted(current: CurrentDispatch, record: ThreadRecord)
    ensures
        overrun_thread(current) is Some <==> current.deadline_overrun,
        current.deadline_overrun && current.deadline_donor is Some ==> overrun_thread(current)
            == current.deadline_donor,
        current.deadline_overrun && current.deadline_donor is None ==> overrun_thread(current)
            == Some(current.thread),
        !read_out(current).deadline_overrun && read_out(current).charged_runtime_ns == 0,
        overrun_thread(read_out(current)) is None,
        record.deadline.overrun_events < u64::MAX ==> overrun_recorded(
            record,
        ).deadline.overrun_events == record.deadline.overrun_events + 1,
        overrun_recorded(record).lifecycle == record.lifecycle,
{
}

/// Messages are taken in the order in which they came, as many as may be taken
/// at once, and none is lost.
pub proof fn messages_are_taken_in_order(before: &TaskSystem, after: &TaskSystem, cpu: CpuId)
    requires
        before.has_cpu(cpu),
        after.batch_taken(before, cpu),
    ensures
        before.next_batch(cpu) + after.cpu(cpu).remote.inbox.messages@ == before.cpu(
            cpu,
        ).remote.inbox.messages@,
        before.next_batch(cpu).len() <= before.cpu(cpu).batch_limit,
        before.next_batch(cpu).len() < before.cpu(cpu).batch_limit ==> after.cpu(
            cpu,
        ).remote.inbox.messages@.len() == 0,
        before.cpu(cpu).remote.inbox.messages@.len() > 0 && before.cpu(cpu).batch_limit > 0
            ==> before.next_batch(cpu).len() > 0 && before.next_batch(cpu)[0] == before.cpu(
            cpu,
        ).remote.inbox.messages@[0],
{
    assert(before.next_batch(cpu) + after.cpu(cpu).remote.inbox.messages@ =~= before.cpu(
        cpu,
    ).remote.inbox.messages@);
}

/// The demand that arrives with messages is that of the threads among them.
pub proof fn arrivals_are_counted(messages: Seq<InboxMessage>, message: InboxMessage)
    ensures
        arriving_demand(Seq::empty()) == 0,
        message.operation == InboxOperation::Migration ==> arriving_demand(messages.push(message))
            == arriving_demand(messages) + message.placement_demand,
        message.operation != InboxOperation::Migration ==> arriving_demand(messages.push(message))
            == arriving_demand(messages),
{
    assert(messages.push(message).drop_last() =~= messages);
}

/// A thread that is sent is expected: its demand counts from then on, and the
/// message that announces it carries as much.
pub proof fn senders_announce_their_threads(cpu: CpuLocal, thread: ThreadId, source: CpuId, target: CpuId, demand: u64)
    requires
        can_expect(cpu, demand),
    ensures
        expecting(cpu, demand).remote.load.incoming_migration_demand
            == cpu.remote.load.incoming_migration_demand + demand,
        expecting(cpu, demand).remote.run_queue == cpu.remote.run_queue,
        migration_of(thread, source, target, demand).placement_demand == demand,
        migration_of(thread, source, target, demand).thread == Some(thread),
        migration_of(thread, source, target, demand).target == Some(target),
        migration_of(thread, source, target, demand).source == Some(source),
        arriving_demand(seq![migration_of(thread, source, target, demand)]) == demand,
{
    let message = migration_of(thread, source, target, demand);
    assert(seq![message] =~= Seq::empty().push(message));
    arrivals_are_counted(Seq::empty(), message);
}

/// A message is acted on by the CPU that it is for, and one about a thread that
/// is gone is dropped. A thread is taken in only if it is on its way there, is
/// ready and has left its stack; it moves on if it may not stay.
pub proof fn messages_reach_whom_they_are_for(system: &TaskSystem, cpu: CpuId, message: InboxMessage)
    ensures
        ({
            let step = system.delivery_step(cpu, message);
            let known = message.thread is Some && system.record(message.thread->0) is Some;
            let record = system.record(message.thread->0)->0;
            &&& message.operation == InboxOperation::Migration && message.target is Some
                && message.target != Some(cpu) ==> step is Refused || step is Skip
            &&& message.operation == InboxOperation::AffinityUpdate && message.source is Some
                && message.source != Some(cpu) ==> step is Refused || step is Skip
            &&& message.operation == InboxOperation::BalanceRequest && message.source is Some
                && message.source != Some(cpu) ==> step is Refused
            &&& known && (record.exiting || record.lifecycle == ThreadState::Exited)
                && message.operation != InboxOperation::BalanceRequest && message.operation
                != InboxOperation::Reclaim ==> step is Skip
            &&& step matches DeliveryStep::Arrival { thread, moves } ==> known && record.lifecycle
                == ThreadState::Ready && record.placement.on_rq == TaskOnRunQueue::Migrating
                && record.placement.task_cpu == Some(cpu) && record.placement.on_cpu is None && (
            moves <==> !record.placement.affinity.has(cpu) || record.placement.migration_request
                is Some)
            &&& step matches DeliveryStep::Balance { target, reservation } ==> message.target
                == Some(target) && message.reservation == Some(reservation)
        }),
{
}

/// A thread that is about to sleep runs on if a wake-up came first, and sleeps
/// only if it is still the one that runs.
pub proof fn parking_threads_heed_wakeups(system: &TaskSystem, cpu: CpuId, thread: ThreadId)
    requires
        system.record(thread) is Some,
    ensures
        ({
            let record = system.record(thread)->0;
            let step = system.park_step(cpu, thread);
            &&& record.wake_pending <==> step == ParkStep::Resume
            &&& step == ParkStep::Sleep ==> record.lifecycle == ThreadState::Parking
                && record.placement.on_cpu == Some(cpu) && record.placement.task_cpu == Some(cpu)
                && record.placement.on_rq == TaskOnRunQueue::Queued
        }),
{
}

/// A thread that sleeps is blocked, off every run queue, and asked to go
/// nowhere; it is on its stack until the switch has ended.
pub proof fn sleeping_threads_are_off_the_queue(record: ThreadRecord, active: ActiveSchedulingState, base: SchedulingEntity, owner: CpuId, now_ns: u64)
    ensures
        ({
            let after = asleep(record, active, base, owner, now_ns);
            &&& after.lifecycle == ThreadState::Blocked
            &&& after.placement.on_rq == TaskOnRunQueue::Off
            &&& after.placement.migration_request is None
            &&& after.placement.on_cpu == record.placement.on_cpu
            &&& after.placement.task_cpu == record.placement.task_cpu
            &&& after.policy.active == Some(active)
            &&& after.policy.base == record.policy.base && after.wake_pending == record.wake_pending
        }),
{
}

/// A park ticket is good for the thread that runs on the CPU, and only for the
/// park that it was made for.
pub proof fn tickets_are_for_the_running_thread(system: &TaskSystem, cpu: CpuId, ticket: ParkTicket)
    ensures
        system.ticket_error(cpu, ticket) is None <==> system.online(cpu) && system.cpu(cpu).current
            == Some(ticket.thread) && system.record(ticket.thread) is Some && (system.record(
            ticket.thread,
        )->0).park_generation == ticket.generation,
        system.has_cpu(cpu) && !system.online(cpu) ==> system.ticket_error(cpu, ticket) == Some(
            TaskError::CpuOffline(cpu.index),
        ),
        !system.has_cpu(cpu) ==> system.ticket_error(cpu, ticket) == Some(
            TaskError::InvalidCpu(cpu.index),
        ),
{
}

/// A preemption that is pending when a thread begins to park is put off and not
/// forgotten.
pub proof fn parking_puts_preemption_off(cpu: CpuLocal)
    ensures
        ({
            let after = park_begun(cpu).remote.doorbell;
            &&& !after.preempt && !after.owner_work
            &&& cpu.remote.doorbell.preempt || cpu.remote.doorbell.park_preempt_deferred
                <==> after.park_preempt_deferred
            &&& claimed(cpu).preempt == cpu.remote.doorbell.preempt
            &&& claimed(cpu).generation == cpu.remote.doorbell.generation
        }),
{
}

/// Only the running thread of an online CPU may exit, not the idle one, not one
/// that exits already, and none that waits for a mutex or is waited for.
pub proof fn exits_are_clean(system: &TaskSystem, cpu: CpuId, needs_context: bool)
    ensures
        system.exit_error(cpu, needs_context) is None ==> {
            let thread = system.cpu(cpu).current->0;
            let record = system.record(thread)->0;
            &&& system.cpu(cpu).current is Some && system.record(thread) is Some
            &&& system.cpu(cpu).idle != Some(thread)
            &&& system.online(cpu)
            &&& record.lifecycle == ThreadState::Running && !record.exiting
            &&& record.pi.blocked_on is None && record.pi.donors.entries@.len() == 0
            &&& record.placement.on_cpu == Some(cpu) && record.placement.task_cpu == Some(cpu)
            &&& needs_context ==> record.has_context
        },
        ({
            let thread = system.cpu(cpu).current->0;
            let record = system.record(thread)->0;
            &&& system.cpu(cpu).current is Some && system.record(thread) is Some
            &&& system.cpu(cpu).idle != Some(thread) && system.online(cpu)
            &&& record.lifecycle == ThreadState::Running && !record.exiting
            &&& record.pi.blocked_on is None && record.pi.donors.entries@.len() == 0
            &&& record.placement.executing_on() == Some(cpu)
            &&& record.has_context
        }) ==> system.exit_error(cpu, needs_context) is None,
{
}

/// An exited thread is off every run queue, holds no reservation, and has no
/// policy change left. What it held is the greater of what it has and what it
/// was promised.
pub proof fn exited_threads_are_stripped(record: ThreadRecord, active: ActiveSchedulingState)
    ensures
        ({
            let after = gone(record, active);
            &&& after.lifecycle == ThreadState::Exited
            &&& after.placement.on_rq == TaskOnRunQueue::Off
            &&& after.placement.migration_request is None
            &&& after.deadline.owner is None && after.deadline.reservation_scaled == 0
            &&& after.policy.pending is None
            &&& after.placement.on_cpu == record.placement.on_cpu
            &&& after.id == record.id
        }),
        held_reservation(&record) >= record.deadline.reservation_scaled,
        record.policy.pending matches Some(pending) ==> held_reservation(&record)
            >= pending.reservation_scaled,
        held_reservation(&record) == record.deadline.reservation_scaled || (record.policy.pending
            is Some && held_reservation(&record) == (record.policy.pending->0).reservation_scaled),
{
}

/// A policy change is made by the CPU that has the thread, when the reservation
/// is not lent, and only if it is the last one that was asked for.
pub proof fn policy_changes_are_made_in_order(record: ThreadRecord, cpu: CpuId, generation: u64)
    ensures
        policy_gate(&record, cpu, generation) == PolicyGate::Settle ==> generation
            <= record.policy.update_generation && record.pi.deadline_cbs_borrower is None,
        policy_gate(&record, cpu, generation) == PolicyGate::Retry ==> generation
            <= record.policy.update_generation && record.pi.deadline_cbs_borrower is Some,
        policy_gate(&record, cpu, generation) == PolicyGate::Ignore ==> generation
            > record.policy.update_generation,
        policy_gate(&record, cpu, generation) == PolicyGate::Cleanup ==> record.deadline.owner
            == Some(cpu) && record.deadline.cleanup_pending && record.placement.on_cpu is None,
        generation_error(&record, generation) is None <==> record.policy.pending is Some && (
        record.policy.pending->0).generation == generation && record.policy.update_generation
            == generation && record.policy.dispatch_generation < u64::MAX,
{
}

/// A new policy is in force at once, unless the thread inherits: then its own
/// policy changes, and what it inherits stays in force.
pub proof fn new_policies_take_effect(next: ActiveSchedulingState, state: ActiveSchedulingState, boosted: bool, policy: SchedulePolicy, queue: &RunQueue, position: SchedulePosition, slice_ns: u64, now_ns: u64)
    requires
        reconfigured_state(next, state, boosted, policy, queue, position, slice_ns, now_ns),
    ensures
        !boosted ==> next.policy == policy && next.inherited is None,
        boosted ==> next.policy == state.policy && next.inherited == state.inherited,
        policy is KernelStop ==> next.base_entity == SchedulingEntity::KernelStop,
        policy is Fifo ==> next.base_entity == SchedulingEntity::Fifo,
        policy matches SchedulePolicy::RoundRobin { quantum_ns, .. } ==> next.base_entity == (
        SchedulingEntity::RoundRobin { remaining_quantum_ns: quantum_ns }),
        policy matches SchedulePolicy::Fair { nice, mode } ==> next.base_entity is Fair
            && next.base_entity->Fair_0.nice == nice && next.base_entity->Fair_0.mode == mode,
        policy matches SchedulePolicy::Deadline(deadline) ==> next.base_entity is Deadline,
{
}

/// What a policy change leaves in the record of the thread.
pub proof fn committed_policies_are_recorded(record: ThreadRecord, pending: PendingPolicyUpdate)
    requires
        record.policy.dispatch_generation < u64::MAX,
    ensures
        ({
            let after = policy_committed(record, pending);
            &&& after.policy.base == pending.policy && after.policy.pending is None
            &&& after.policy.dispatch_generation == record.policy.dispatch_generation + 1
            &&& after.deadline.reservation_scaled == pending.reservation_scaled
            &&& after.deadline.owner == record.deadline.owner
            &&& after.placement == record.placement && after.lifecycle == record.lifecycle
        }),
{
}

/// Admission is exchanged in full or not at all: what is held is freed, what is
/// committed is reserved, and a reservation grows only within the capacity.
pub proof fn admission_is_exchanged_in_full(before: &TaskSystem, after: &TaskSystem, held: u64, committed: u64)
    requires
        after.admission_exchanged(before, held, committed),
        before.root_domain.admission.reserved_scaled + committed <= u64::MAX,
    ensures
        ({
            let was = before.root_domain.admission;
            let new = after.root_domain.admission;
            &&& new.reserved_scaled == was.reserved_scaled || new.reserved_scaled + held
                == was.reserved_scaled + committed
            &&& new.reserved_scaled > was.reserved_scaled ==> new.reserved_scaled <= was.capacity()
            &&& committed <= held <= was.reserved_scaled ==> new.reserved_scaled + held
                == was.reserved_scaled + committed
            &&& held <= was.reserved_scaled && was.reserved_scaled - held + committed
                <= was.capacity() ==> new.reserved_scaled + held == was.reserved_scaled + committed
            &&& new.online_cpus == was.online_cpus && new.cap_percent == was.cap_percent
        }),
{
}

/// A Deadline thread that wakes up renews its budget unless it inherits; one
/// whose budget is spent waits for its period.
pub proof fn woken_budgets_are_renewed(record: ThreadRecord, now_ns: u64)
    ensures
        renews_budget(&record) <==> record.policy.active is Some && (record.policy.active->0).policy
            is Deadline && record.pi.donor is None,
        !renews_budget(&record) ==> renewed(record, now_ns) == record && !stays_throttled(
            &record,
            now_ns,
        ),
        renewed(record, now_ns).lifecycle == record.lifecycle,
        renewed(record, now_ns).placement == record.placement,
        renewed(record, now_ns).policy.base == record.policy.base,
        record.policy.active is Some ==> (renewed(record, now_ns).policy.active->0).policy == (
        record.policy.active->0).policy,
        entering(record, EnqueueReason::Wake, now_ns) == renewed(record, now_ns),
        entering(record, EnqueueReason::Migrated, now_ns) == record,
        entering(record, EnqueueReason::Yield, now_ns) == record,
{
}

/// The reservation of a thread that wakes up elsewhere follows it.
pub proof fn reservations_follow_their_thread(record: ThreadRecord, target: CpuId)
    ensures
        record.deadline.owner == Some(target) ==> following(record, target) == record,
        record.deadline.owner != Some(target) ==> following(record, target).deadline.owner is None,
        following(record, target).deadline.reservation_scaled == record.deadline.reservation_scaled,
        following(record, target).placement == record.placement,
{
}

/// A thread that becomes ready waits on the CPU that takes it in, and has
/// arrived if it was asked to go there; one that is on its stack stays put.
pub proof fn ready_threads_wait_where_they_are_put(record: ThreadRecord, owner: CpuId, placed: SchedulingEntity)
    requires
        record.policy.active is Some,
    ensures
        ({
            let after = record_readied(record, owner, placed);
            &&& record.placement.on_cpu != Some(owner) ==> after.placement.on_rq
                == TaskOnRunQueue::Queued && after.placement.task_cpu == Some(owner)
                && after.placement.migration_request != Some(owner)
            &&& record.placement.on_cpu == Some(owner) ==> after.placement == record.placement
            &&& after.placement.on_cpu == record.placement.on_cpu
            &&& after.placement.affinity == record.placement.affinity
            &&& after.wake_cpu_hint == Some(owner)
            &&& after.policy.active is None
            &&& after.policy.effective == (record.policy.active->0).policy
            &&& after.policy.base == record.policy.base
            &&& after.lifecycle == record.lifecycle
        }),
        can_link(&record.placement, owner) && record.placement.on_cpu is None
            ==> record.placement.on_rq == TaskOnRunQueue::Off || (record.placement.on_rq
            == TaskOnRunQueue::Migrating && record.placement.task_cpu == Some(owner)),
        linked_placement(record.placement, owner).affinity == record.placement.affinity,
{
}

/// Those who wake up, are replenished or arrive are announced; those who only
/// had their turn are not.
pub proof fn newcomers_are_announced(reason: EnqueueReason)
    ensures
        announces(reason) <==> reason == EnqueueReason::Wake || reason == EnqueueReason::Replenished
            || reason == EnqueueReason::Migrated,
{
}

/// A thread is put on a run queue only if the CPU is online, the thread is ready
/// and may run there, or is passing through.
pub proof fn run_queues_take_ready_threads(system: &TaskSystem, cpu: CpuId, thread: ThreadId, reason: EnqueueReason, now_ns: u64)
    ensures
        system.enqueue_error(cpu, thread, reason, now_ns) is None ==> {
            let record = system.record(thread)->0;
            &&& system.online(cpu) && system.record(thread) is Some
            &&& record.lifecycle == ThreadState::Ready
            &&& record.placement.affinity.has(cpu) || reason == EnqueueReason::Migrated
            &&& system.cpu(cpu).queue().member(thread) is None || record.id != thread
        },
        system.has_cpu(cpu) && !system.online(cpu) ==> system.enqueue_error(
            cpu,
            thread,
            reason,
            now_ns,
        ) == Some(TaskError::CpuOffline(cpu.index)),
        system.dequeue_error(cpu, thread) is None ==> {
            let record = system.record(thread)->0;
            &&& system.online(cpu) && system.record(thread) is Some
            &&& system.cpu(cpu).queue().member(thread) is Some
            &&& record.placement.on_rq == TaskOnRunQueue::Queued && record.placement.task_cpu
                == Some(cpu) && record.placement.on_cpu is None
        },
{
}

/// A thread that starts to run, or to idle, is running and on the stack of its
/// CPU.
pub proof fn running_threads_are_on_their_stack(record: ThreadRecord, cpu: CpuId)
    ensures
        set_running(record, cpu).lifecycle == ThreadState::Running,
        set_running(record, cpu).placement.on_cpu == Some(cpu),
        set_running(record, cpu).placement.task_cpu == record.placement.task_cpu,
        set_idling(record, cpu).placement.on_cpu == Some(cpu),
        set_idling(record, cpu).placement.on_rq == TaskOnRunQueue::Queued,
        record.lifecycle == ThreadState::Ready ==> set_idling(record, cpu).lifecycle
            == ThreadState::Running,
        can_idle(&record, cpu) ==> set_idling(record, cpu).placement.task_cpu == Some(cpu),
{
}

/// What becomes of the record of a thread that stops running: it is ready when
/// it moves or waits, and blocked when its budget is spent.
pub proof fn stopped_threads_are_recorded(record: ThreadRecord, active: ActiveSchedulingState, target: CpuId)
    ensures
        sent_off(record, active, target).lifecycle == ThreadState::Ready,
        sent_off(record, active, target).placement.on_rq == TaskOnRunQueue::Migrating,
        sent_off(record, active, target).placement.task_cpu == Some(target),
        sent_off(record, active, target).policy.active == Some(active),
        starved(record, active).lifecycle == ThreadState::Blocked,
        starved(record, active).placement.on_rq == TaskOnRunQueue::Off,
        starved(record, active).policy.active == Some(active),
        record.policy.base is Deadline ==> starved(record, active).deadline.timers_stale,
        waiting_again(record, active).lifecycle == ThreadState::Ready,
        waiting_again(record, active).placement == record.placement,
        put_back(record, active.policy, active.effective(), target).lifecycle == ThreadState::Ready,
        put_back(record, active.policy, active.effective(), target).policy.effective
            == active.policy,
        record.policy.base is Deadline ==> timers_due(record).deadline.timers_stale,
{
}

/// A switch ends only for a thread that is still on the stack of its CPU; one
/// that migrates has to be on its way to where it was promised.
pub proof fn switches_end_where_they_began(record: ThreadRecord, owner: CpuId, bandwidth: DeadlineRunQueueBandwidth, handoff: SwitchHandoff)
    ensures
        handoff_state(&record, owner, bandwidth, handoff) matches Ok((target, exited)) ==> {
            &&& record.placement.on_cpu == Some(owner)
            &&& target == handoff.target_cpu()
            &&& exited <==> record.lifecycle == ThreadState::Exited
            &&& target is Some ==> record.lifecycle == ThreadState::Ready && record.placement.on_rq
                == TaskOnRunQueue::Migrating && record.placement.task_cpu == target
            &&& target is Some && record.deadline.owner is Some ==> record.deadline.owner == Some(
                owner,
            )
        },
        record.placement.on_cpu == Some(owner) && handoff.target_cpu() is None ==> handoff_state(
            &record,
            owner,
            bandwidth,
            handoff,
        ) is Ok,
        stack_left(record, handoff.target_cpu()).placement.on_cpu is None,
        stack_left(record, handoff.target_cpu()).placement.on_rq == record.placement.on_rq,
        stack_left(record, handoff.target_cpu()).lifecycle == record.lifecycle,
        handoff.target_cpu() is Some ==> stack_left(
            record,
            handoff.target_cpu(),
        ).deadline.owner is None,
        handoff.target_cpu() is None ==> stack_left(record, handoff.target_cpu()).deadline
            == record.deadline,
{
}

/// A request of an idle CPU ends with the reservation that it was made with; a
/// later one is left alone.
pub proof fn pulls_end_once(state: IdlePullState, reservation: IdlePullReservation)
    ensures
        state.reservation == Some(reservation) ==> pull_released(state, reservation).reservation
            is None && !pull_released(state, reservation).committed,
        state.reservation != Some(reservation) ==> pull_released(state, reservation) == state,
{
}

/// A thread is sent to an idle CPU only if it waits here, may run there, and can
/// be moved.
pub proof fn pulled_threads_may_move(system: &TaskSystem, cpu: CpuId, thread: ThreadId, target: CpuId)
    ensures
        system.sendable(cpu, thread, target) ==> {
            let record = system.record(thread)->0;
            &&& system.record(thread) is Some
            &&& record.placement.on_rq == TaskOnRunQueue::Queued
            &&& record.placement.task_cpu == Some(cpu) && record.placement.on_cpu is None
            &&& record.placement.affinity.has(target) && target != cpu
            &&& system.cpu(cpu).queue().linked() != Some(record.id)
        },
{
}

/// A fair thread that goes to sleep or moves takes along what it is owed; other
/// threads take along what they have.
pub proof fn threads_carry_what_they_are_owed(active: ActiveSchedulingState, queue: &RunQueue, granularity_ns: u64)
    ensures
        !(active.effective() is Fair) ==> slept(active, queue, granularity_ns) == active,
        active.effective() matches SchedulingEntity::Fair(fair) ==> slept(
            active,
            queue,
            granularity_ns,
        ).effective() == active.effective().asleep(queue.mode_time(fair.mode), granularity_ns),
        slept(active, queue, granularity_ns).policy == active.policy,
        captured(active, queue, granularity_ns).policy == active.policy,
        !(active.effective() is Fair) && !(active.base_entity is Fair) ==> captured(
            active,
            queue,
            granularity_ns,
        ) == active,
        active.effective() matches SchedulingEntity::Fair(fair) ==> captured(
            active,
            queue,
            granularity_ns,
        ).effective() == active.effective().in_transit(queue.mode_time(fair.mode), granularity_ns),
{
}

} // verus!
