//! What the operations of the scheduler come to.
use vstd::prelude::*;
use crate::cpu::handoff::PreparedMigrationDelivery;
use crate::cpu::inbox::IdlePullReservation;
use crate::cpu::local::CpuLocal;
use crate::error::{TaskError, ThreadState};
use crate::ids::{CpuId, ThreadId};
use crate::scheduler::entity::FairEntity;
use crate::scheduler::run_queue::{QueueMembershipClass, RunQueue};
use crate::scheduler::task::{PickedThread, QueuedThread, index_of};
use crate::system::creation::PendingThread;
use crate::system::drain::OwnerControlDrain;
use crate::system::pi_chain::top_key_changes;
use crate::system::root_domain::{
    RootDomain, RtLane, keeps_active, lanes, passed_over, resumed, rt_runnable, served_until,
};
use crate::system::sharing::{offline_quotas_are_kept, same_but_runtime};
use crate::system::switch::{PickStep, carried_on};
use crate::system::task_system::TaskSystem;
use crate::thread::pi::{PiMutexId, PiWaitEntry, PiWaitKey, PiWaitRegistration, has_key, key_index};
use crate::thread::placement::TaskOnRunQueue;
use crate::time::MonotonicInstant;

verus! {

/// Who is chosen runs: the thread that is named is the current one of its CPU,
/// is on its stack, and is running.
pub proof fn the_chosen_thread_runs(
    before: &TaskSystem,
    after: &TaskSystem,
    cpu: CpuId,
    outgoing: Option<ThreadId>,
    left: nat,
    carried: Option<PreparedMigrationDelivery>,
    now_ns: u64,
    next: ThreadId,
    delivery: Option<PreparedMigrationDelivery>,
)
    requires
        before.wf(),
        before.has_cpu(cpu),
        after.next_chosen(before, cpu, outgoing, left, carried, now_ns, Ok((next, delivery))),
    ensures
        after.has_cpu(cpu),
        after.cpu(cpu).current == Some(next),
        after.record(next) matches Some(record) && record.placement.on_cpu == Some(cpu)
            && record.placement.on_rq == TaskOnRunQueue::Queued,
        after.cpu(cpu).idle == Some(next) || (after.record(next)->0).lifecycle
            == ThreadState::Running,
    decreases left, 2int,
{
    let result = Ok::<(ThreadId, Option<PreparedMigrationDelivery>), TaskError>((next, delivery));
    let (selected, picked) = choose|selected: TaskSystem, picked: Option<PickedThread>|
        #[trigger] selected.selected_on(before, cpu, picked) && selected.wf()
            && after.chosen_from(&selected, cpu, picked, outgoing, left, carried, now_ns, result);
    chosen_from_runs(
        &selected,
        after,
        cpu,
        picked,
        outgoing,
        left,
        carried,
        now_ns,
        next,
        delivery,
    );
}

proof fn chosen_from_runs(
    selected: &TaskSystem,
    after: &TaskSystem,
    cpu: CpuId,
    selection: Option<PickedThread>,
    outgoing: Option<ThreadId>,
    left: nat,
    carried: Option<PreparedMigrationDelivery>,
    now_ns: u64,
    next: ThreadId,
    delivery: Option<PreparedMigrationDelivery>,
)
    requires
        selected.wf(),
        selected.has_cpu(cpu),
        after.chosen_from(
            selected,
            cpu,
            selection,
            outgoing,
            left,
            carried,
            now_ns,
            Ok((next, delivery)),
        ),
    ensures
        after.has_cpu(cpu),
        after.cpu(cpu).current == Some(next),
        after.record(next) matches Some(record) && record.placement.on_cpu == Some(cpu)
            && record.placement.on_rq == TaskOnRunQueue::Queued,
        after.cpu(cpu).idle == Some(next) || (after.record(next)->0).lifecycle
            == ThreadState::Running,
    decreases left, 1int,
{
    let result = Ok::<(ThreadId, Option<PreparedMigrationDelivery>), TaskError>((next, delivery));
    match selection {
        None => {
            idle_threads_run(selected, after, cpu, now_ns, carried, next, delivery);
        },
        Some(picked) => {
            match selected.pick_plan(cpu, picked, outgoing) {
                PickStep::Refused(_) => {},
                PickStep::Run => {
                    assert(selected.slots@[next.slot as int].wf_at(next.slot as int));
                    assert(after.cpus@.len() == selected.cpus@.len());
                },
                PickStep::Send { target, outgoing: leaves } => {
                    let sent = choose|sent: TaskSystem|
                        #[trigger] sent.picked_sent_off(selected, cpu, picked, target, leaves)
                            && sent.wf() && after.chosen_after(
                            &sent,
                            cpu,
                            picked,
                            target,
                            leaves,
                            outgoing,
                            left,
                            carried,
                            now_ns,
                            result,
                        );
                    assert(sent.cpus@.len() == selected.cpus@.len()) by {
                        reveal(TaskSystem::picked_sent_off);
                        reveal(TaskSystem::picked_parted);
                    }
                    let carries = carried_on(cpu, picked, target, leaves, carried);
                    if left <= 1 {
                        let asked = choose|asked: TaskSystem|
                            #[trigger] asked.cpu_becomes(
                                &sent,
                                cpu,
                                sent.cpu(cpu).with_remote(sent.cpu(cpu).remote.asked_to_work()),
                            ) && asked.wf() && after.idled(&asked, cpu, now_ns, carries, result);
                        idle_threads_run(&asked, after, cpu, now_ns, carries, next, delivery);
                    } else {
                        the_chosen_thread_runs(
                            &sent,
                            after,
                            cpu,
                            outgoing,
                            (left - 1) as nat,
                            carries,
                            now_ns,
                            next,
                            delivery,
                        );
                    }
                },
            }
        },
    }
}

proof fn idle_threads_run(before: &TaskSystem, after: &TaskSystem, cpu: CpuId, now_ns: u64, carried: Option<PreparedMigrationDelivery>, next: ThreadId, delivery: Option<PreparedMigrationDelivery>)
    requires
        before.wf(),
        before.has_cpu(cpu),
        after.idled(before, cpu, now_ns, carried, Ok((next, delivery))),
    ensures
        after.has_cpu(cpu),
        after.cpu(cpu).current == Some(next),
        after.cpu(cpu).idle == Some(next),
        delivery == carried,
        after.record(next) matches Some(record) && record.placement.on_cpu == Some(cpu)
            && record.placement.on_rq == TaskOnRunQueue::Queued,
{
    assert(before.slots@[next.slot as int].wf_at(next.slot as int));
}

/// A waiter that leaves a mutex is not among its waiters any more and waits for
/// nothing; the others stay, and so does the owner.
pub proof fn leaving_waiters_are_forgotten(
    before: &TaskSystem,
    after: &TaskSystem,
    lock: PiMutexId,
    waiter: ThreadId,
    generation: u64,
    now_ns: u64,
    by: CpuId,
    registration: PiWaitRegistration,
)
    requires
        before.wf(),
        before.has_mutex(lock),
        before.record(waiter) is Some,
        after.waiter_removed(before, lock, None, waiter, generation, now_ns, by, Ok(registration)),
    ensures
        registration.generation == generation,
        (before.record(waiter)->0).pi.blocked_on == Some(registration),
        !has_key(after.entries(lock), registration.key),
        after.entries(lock).len() + 1 == before.entries(lock).len(),
        forall|key: PiWaitKey| #[trigger]
            has_key(before.entries(lock), key) && key != registration.key ==> has_key(
                after.entries(lock),
                key,
            ),
{
    let entries = before.entries(lock);
    let at = key_index(entries, registration.key);
    assert(before.mutexes@[lock.value - 1].wf());
    assert(has_key(entries, registration.key));
    assert(0 <= at < entries.len() && entries[at].key == registration.key);
    reveal(TaskSystem::lent_through);
    reveal(TaskSystem::marks_moved);
    let (dropped, published, outcome) = choose|
        dropped: TaskSystem,
        published: TaskSystem,
        outcome: Result<(), TaskError>,
    |
        #[trigger] dropped.mutex_becomes(
            before,
            lock,
            before.mutex(lock).owner,
            entries.remove(at),
        ) && #[trigger] published.top_published(
            &dropped,
            None,
            before.mutex(lock).waiters.top(),
            dropped.mutex(lock).waiters.top(),
            None,
            now_ns,
            by,
            outcome,
        ) && match outcome {
            Ok(_) => after.only_thread(
                &published,
                TaskSystem::wait_over(published.record(waiter)->0, generation),
            ),
            Err(_) => false,
        };
    assert(published.mutexes@ == dropped.mutexes@);
    assert(after.entries(lock) == entries.remove(at));
    let left = entries.remove(at);
    assert forall|key: PiWaitKey| #[trigger]
        has_key(entries, key) && key != registration.key implies has_key(left, key) by {
        let i = choose|i: int| 0 <= i < entries.len() && (#[trigger] entries[i]).key == key;
        if i < at {
            assert(left[i].key == key);
        } else {
            assert(left[i - 1].key == key);
        }
    }
    if has_key(left, registration.key) {
        let i = choose|i: int| 0 <= i < left.len() && (#[trigger] left[i]).key == registration.key;
        if i < at {
            assert(left[i] == entries[i]);
        } else {
            assert(left[i] == entries[i + 1]);
        }
    }
}

/// Messages are worked off up to the limit; what is left is reported, and asked
/// for again. In the middle of a switch nothing is worked off.
pub proof fn inboxes_are_worked_off(before: &TaskSystem, after: &TaskSystem, cpu: CpuId, now_ns: u64, monotonic_now: MonotonicInstant, result: Result<OwnerControlDrain, TaskError>)
    requires
        after.inbox_drained(before, cpu, now_ns, monotonic_now, result),
    ensures
        ({
            let waiting = before.cpu(cpu).remote.inbox.messages@.len();
            &&& !before.has_cpu(cpu) ==> result == Err::<OwnerControlDrain, TaskError>(
                TaskError::InvalidCpu(cpu.index),
            )
            &&& before.has_cpu(cpu) && !before.online(cpu) ==> result == Err::<
                OwnerControlDrain,
                TaskError,
            >(TaskError::CpuOffline(cpu.index))
            &&& result matches Ok(drain) ==> drain.drained <= waiting && drain.drained
                <= before.cpu(cpu).batch_limit && (drain.pending <==> drain.drained < waiting)
            &&& result matches Ok(drain) ==> (before.cpu(cpu).switch_handoff is None
                ==> drain.drained == waiting || drain.drained == before.cpu(cpu).batch_limit)
            &&& before.cpu(cpu).switch_handoff is Some ==> (result matches Ok(drain)
                ==> drain.drained == 0)
        }),
{
}

/// A request of an idle CPU that is not valid any more is ignored; one to a CPU
/// with nothing to spare is ended, and the idle CPU is told.
pub proof fn pulls_are_answered(before: &TaskSystem, after: &TaskSystem, cpu: CpuId, target: CpuId, reservation: IdlePullReservation)
    requires
        before.has_cpu(target),
        after.pull_answered(before, cpu, target, reservation),
        !before.overloaded(cpu) || !before.cpu(target).remote.idle_pull.claimable(reservation),
    ensures
        !before.cpu(target).remote.idle_pull.claimable(reservation) ==> *after == *before,
        before.cpu(target).remote.idle_pull.claimable(reservation)
            && before.cpu(target).remote.idle_pull.reservation == Some(reservation) ==> after.cpu(
            target,
        ).remote.idle_pull.reservation is None,
        after.slots == before.slots,
{
    reveal(TaskSystem::pull_ended);
}

/// The bandwidth of a thread that is being made is reserved before it is there:
/// the total grows by just that, and its slot holds it.
pub proof fn bandwidth_is_reserved_first(before: &TaskSystem, after: &TaskSystem, pending: &PendingThread)
    requires
        after.reserved_for(before, pending),
        before.root_domain.admission.reserved_scaled + pending.reservation <= u64::MAX,
        before.free_slots@.len() > 0 ==> pending.id.slot < before.slots@.len(),
        before.free_slots@.len() == 0 ==> pending.id.slot == before.slots@.len(),
    ensures
        after.root_domain.admission.reserved_scaled == before.root_domain.admission.reserved_scaled
            + pending.reservation,
        after.slots@[pending.id.slot as int].pending_deadline_reservation == pending.reservation,
        after.slots@[pending.id.slot as int].record is None,
        after.slots@[pending.id.slot as int].generation == pending.id.generation,
        before.free_slots@.len() > 0 ==> after.slots@.len() == before.slots@.len()
            && after.free_slots@.len() + 1 == before.free_slots@.len(),
        before.free_slots@.len() == 0 ==> after.slots@.len() == before.slots@.len() + 1,
{
}

/// A thread that may run on more than one CPU is marked as one that can be
/// moved; a stopper never is. Its place and the others are kept.
pub proof fn movable_threads_are_marked(after: &RunQueue, before: &RunQueue, id: ThreadId, roams: bool)
    requires
        after.remarked(before, id, roams),
        before.member(id) is Some,
        0 <= index_of(before.list_of(before.member(id)->0), id) < before.list_of(
            before.member(id)->0,
        ).len(),
    ensures
        ({
            let class = before.member(id)->0;
            let at = index_of(before.list_of(class), id);
            &&& after.list_of(class)[at].migration_capable <==> roams && class
                != QueueMembershipClass::Stop
            &&& after.list_of(class)[at].id == before.list_of(class)[at].id
            &&& after.list_of(class)[at].active == before.list_of(class)[at].active
            &&& after.list_of(class).len() == before.list_of(class).len()
            &&& class == QueueMembershipClass::Deadline ==> (after.list_of(class)[at].pushable
                <==> roams && before.linked() != Some(id))
            &&& after.nr_running == before.nr_running && after.membership@ == before.membership@
        }),
{
    reveal(RunQueue::remarked);
}

/// A thread that leaves its run queue for another CPU takes along what it is
/// owed there: a fair thread its lag and how far its deadline lies ahead.
pub proof fn parting_threads_take_their_lag(after: &RunQueue, before: &RunQueue, id: ThreadId, current_fair: Option<FairEntity>, granularity_ns: u64, thread: QueuedThread)
    requires
        after.parted(before, id, current_fair, granularity_ns, thread),
    ensures
        before.member(id) != Some(QueueMembershipClass::DeadlineThrottled) ==> (thread.entity()
            is Fair ==> thread.entity()->Fair_0.carry is Migrating),
        after.nr_running <= before.nr_running,
{
    reveal(RunQueue::parted);
}

/// The real-time period goes on while somebody needs it: while a CPU that is
/// online has real-time threads, has used some of its quota or is throttled. It
/// then ends at the next edge; otherwise it stops and nobody owns it.
pub proof fn the_period_goes_on_while_needed(before: &RootDomain, after: &RootDomain, after_cpus: Seq<CpuLocal>, before_cpus: Seq<CpuLocal>, cpu: CpuId, now: MonotonicInstant, i: int)
    requires
        after.period_served(before, after_cpus, before_cpus, cpu, now),
        0 <= i < before_cpus.len(),
    ensures
        after.rt.deadline is Some ==> (after.rt.deadline->0).ns == before.rt.next_edge(now)
            && after.rt.owner == before.rt.owner,
        after.rt.deadline is None ==> after.rt.owner is None,
        after.admission == before.admission && after.online == before.online,
        ({
            let was = lanes(before_cpus)[i];
            let served = after_cpus[i].remote.run_queue.rt;
            let ready = rt_runnable(before_cpus)[i];
            &&& was.online && ready ==> after.rt.deadline is Some
            &&& was.online && was.rt.time_ns > 0 && (served.time_ns > 0 || served.throttled)
                ==> after.rt.deadline is Some
            &&& !was.online ==> served == was.rt
        }),
{
    reveal(resumed);
    let all = lanes(before_cpus);
    let runnable = rt_runnable(before_cpus);
    let overruns = before.rt.elapsed_periods(now) as u64;
    let period_ns = before.rt.period_ns;
    let n = before_cpus.len() as int;
    let end = served_until(all, runnable, overruns, period_ns, n);
    offline_quotas_are_kept(all, runnable, overruns, period_ns, n, i);
    offline_quotas_are_kept(all, runnable, overruns, period_ns, i, i);
    later_service_keeps_use(all, runnable, overruns, period_ns, i, n);
    let turn = served_until(all, runnable, overruns, period_ns, i);
    let then = served_until(all, runnable, overruns, period_ns, i + 1);
    assert(passed_over(turn, runnable, i) == (!all[i].online || (all[i].rt.time_ns == 0
        && !runnable[i])));
    assert(after_cpus[i].remote.run_queue.rt == end[i].rt);
    if all[i].online && (all[i].rt.time_ns > 0 || runnable[i]) && (then[i].rt.time_ns != 0
        || then[i].rt.throttled || runnable[i]) {
        assert(!passed_over(turn, runnable, i));
        assert(keeps_active(all, runnable, overruns, period_ns, n));
    }
}

proof fn later_service_keeps_use(all: Seq<RtLane>, runnable: Seq<bool>, overruns: u64, period_ns: u64, i: int, n: int)
    requires
        0 <= i < n <= all.len(),
        runnable.len() == all.len(),
    ensures
        same_but_runtime(
            served_until(all, runnable, overruns, period_ns, n)[i],
            served_until(all, runnable, overruns, period_ns, i + 1)[i],
        ),
    decreases n,
{
    if n > i + 1 {
        later_service_keeps_use(all, runnable, overruns, period_ns, i, n - 1);
        let before = served_until(all, runnable, overruns, period_ns, n - 1);
        offline_quotas_are_kept(all, runnable, overruns, period_ns, n - 1, i);
        crate::system::sharing::period_ends_serve_users(
            before,
            runnable,
            n - 1,
            i,
            overruns,
            period_ns,
        );
    }
}

/// A change at the head of a mutex is refused if the owner is gone or has
/// exited, if a waiter is gone, or if what the owner knows does not fit; nothing
/// changes then.
pub proof fn heads_change_only_in_order(before: &TaskSystem, after: &TaskSystem, owner: ThreadId, old_top: Option<PiWaitEntry>, new_top: Option<PiWaitEntry>, now_ns: u64, by: CpuId, result: Result<(), TaskError>)
    requires
        after.lock_top_replaced(before, owner, old_top, new_top, now_ns, by, result),
    ensures
        before.record(owner) is None ==> result == Err::<(), TaskError>(TaskError::StaleThreadId)
            && *after == *before,
        before.record(owner) matches Some(record) ==> (record.lifecycle == ThreadState::Exited
            ==> result is Err && *after == *before),
        old_top matches Some(entry) ==> (before.record(entry.donation.waiter) is None ==> result
            is Err && *after == *before),
        new_top matches Some(entry) ==> (before.record(entry.donation.waiter) is None ==> result
            is Err && *after == *before),
        top_key_changes(old_top, new_top) <==> match (old_top, new_top) {
            (Some(a), Some(b)) => a.key != b.key,
            (None, None) => false,
            _ => true,
        },
{
}

} // verus!
