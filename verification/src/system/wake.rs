//! Waking threads.
use vstd::prelude::*;
use crate::cpu::inbox::{InboxMessage, InboxOperation};
use crate::cpu::local::CpuLocal;
use crate::cpu::remote::CpuRemote;
use crate::cpu::run_queue::WakePreemptionDecision;
use crate::error::ThreadState;
use crate::ids::{CpuId, ThreadId};
use crate::scheduler::entity::{EnqueueReason, SchedulingEntity};
use crate::scheduler::policy::SchedulePolicy;
use crate::scheduler::run_queue::RunQueue;
use crate::scheduler::task::ActiveSchedulingState;
use crate::system::bandwidth::{
    can_detach, detach_deadline_bandwidth, detached, ledger_detached, may_detach,
};
use crate::system::ready::{
    can_ready, judged_at, link_ready_thread, link_throttled_deadline, may_ready_as, queue_readied,
    queue_throttled, record_readied, returned,
};
use crate::system::root_domain::RootDomain;
use crate::system::task_system::{TaskSystem, cpus_wf_after, with_queue, with_record};
use crate::thread::record::{DeadlineActivity, DeadlineReservation, ThreadRecord};
use crate::time::MonotonicInstant;

verus! {

/// What became of a wake-up.
#[derive(Clone, Copy, Debug, PartialEq, Eq, Structural)]
pub enum WakeResult {
    Notified,
    AlreadyPending,
    Exited,
    Unavailable,
}

/// Whether a wake-up gives a Deadline thread a new look at its budget. A
/// boosted thread runs on somebody else's.
pub open spec fn renews_budget(record: &ThreadRecord) -> bool {
    record.policy.active is Some && (record.policy.active->0).policy is Deadline
        && !record.boosted()
}

/// The record whose Deadline budget was looked at.
pub open spec fn renewed(record: ThreadRecord, now_ns: u64) -> ThreadRecord {
    if renews_budget(&record) {
        let active = record.policy.active->0;
        returned(record, active.with_effective(active.effective().activated(now_ns)))
    } else {
        record
    }
}

/// Whether a woken thread stays without budget.
pub open spec fn stays_throttled(record: &ThreadRecord, now_ns: u64) -> bool {
    renews_budget(record) && (renewed(*record, now_ns).policy.active->0).effective().is_throttled()
}

/// Whether a CPU can take a woken thread.
#[verifier::opaque]
pub open spec fn can_take(queue: &RunQueue, record: &ThreadRecord, owner: CpuId, now_ns: u64) -> bool {
    &&& record.policy.active is Some
    &&& renews_budget(record) ==> (record.policy.active->0).effective().can_activate(now_ns)
    &&& can_ready(queue, &renewed(*record, now_ns), owner)
    &&& record.placement.on_cpu is None
}

/// The run queue after it has taken a woken thread.
pub open spec fn queue_taken(after: &RunQueue, before: &RunQueue, record: ThreadRecord, placed: SchedulingEntity, now_ns: u64) -> bool {
    let woken = renewed(record, now_ns);
    if stays_throttled(&record, now_ns) {
        placed == (woken.policy.active->0).effective() && queue_throttled(after, before, &woken)
    } else {
        queue_readied(after, before, &woken, EnqueueReason::Wake, placed)
    }
}

/// The CPU after it has taken a woken thread.
pub open spec fn taken(after: CpuLocal, before: CpuLocal, record: ThreadRecord, placed: SchedulingEntity, owner: CpuId, now_ns: u64) -> bool {
    let pulled = with_queue(
        CpuLocal {
            remote: CpuRemote { idle_pull: before.remote.idle_pull.cancelled(), ..before.remote },
            ..before
        },
        after.queue(),
    );
    &&& after == pulled.with_remote(pulled.remote.showing_load())
    &&& queue_taken(&after.queue(), &before.queue(), record, placed, now_ns)
}

/// Whether a woken thread should preempt what its run queue runs.
pub open spec fn preempts_in(after: &RunQueue, record: &ThreadRecord, placed: SchedulingEntity, now_ns: u64) -> bool {
    !stays_throttled(record, now_ns) && after.preemption(
        record.id,
        (record.policy.active->0).policy,
        placed,
        judged_at(after, placed),
    ) == WakePreemptionDecision::WakeeSelected
}

/// Whether a woken thread should preempt what its CPU runs.
pub open spec fn preempts_there(after: CpuLocal, record: &ThreadRecord, placed: SchedulingEntity, now_ns: u64) -> bool {
    preempts_in(&after.queue(), record, placed, now_ns)
}

/// The entity with its Deadline budget looked at, if the thread is not boosted.
pub fn renew_budget(record: &ThreadRecord, active: ActiveSchedulingState, now_ns: u64) -> (result: ActiveSchedulingState)
    requires
        record.wf(),
        record.policy.active == Some(active),
        renews_budget(record) ==> active.effective().can_activate(now_ns),
    ensures
        Some(result) == renewed(*record, now_ns).policy.active,
        result.wf(),
        result.policy == active.policy,
{
    let mut active = active;
    let renews = match active.policy {
        SchedulePolicy::Deadline(_) => !record.is_pi_boosted(),
        _ => false,
    };
    if renews {
        let mut entity = active.entity();
        entity.activate_deadline(now_ns);
        active.set_entity(entity);
    }
    active
}

/// Tests `can_take` of a reservation that the record may come to hold.
pub fn may_take(queue: &RunQueue, record: &ThreadRecord, reservation: DeadlineReservation, owner: CpuId, now_ns: u64) -> (may: bool)
    requires
        queue.wf(),
        record.wf(),
    ensures
        may == can_take(
            queue,
            &(ThreadRecord { deadline: reservation, ..*record }),
            owner,
            now_ns,
        ),
{
    proof {
        reveal(can_take);
    }
    let active = match record.policy.active {
        Some(active) => active,
        None => {
            return false;
        },
    };
    let renews = match active.policy {
        SchedulePolicy::Deadline(_) => !record.is_pi_boosted(),
        _ => false,
    };
    if renews && !active.entity().may_activate(now_ns) {
        return false;
    }
    if record.placement.on_cpu.is_some() {
        return false;
    }
    let fresh = renew_budget(record, active, now_ns);
    may_ready_as(queue, record, fresh, reservation, owner)
}

/// Gives a woken thread to a run queue. Says whether it stays without budget,
/// and whether it should preempt what the run queue runs.
fn link_taken(queue: &mut RunQueue, record: &mut ThreadRecord, owner: CpuId, now_ns: u64) -> (result: (bool, bool, SchedulingEntity))
    requires
        old(queue).wf(),
        old(queue).dispatch_ok(),
        old(record).wf(),
        can_take(old(queue), old(record), owner, now_ns),
    ensures
        queue_taken(final(queue), old(queue), *old(record), result.2, now_ns),
        *final(record) == record_readied(renewed(*old(record), now_ns), owner, result.2),
        result.0 == stays_throttled(old(record), now_ns),
        result.1 == preempts_in(final(queue), old(record), result.2, now_ns),
        final(queue).deadline.bandwidth.wf(),
        final(queue).wf(),
        final(queue).dispatch_ok(),
        final(record).wf(),
{
    proof {
        reveal(can_take);
    }
    let active = record.policy.active.unwrap();
    let fresh = renew_budget(record, active, now_ns);
    record.policy.active = Some(fresh);
    let renews = match active.policy {
        SchedulePolicy::Deadline(_) => !record.is_pi_boosted(),
        _ => false,
    };
    let entity = fresh.entity();
    let throttled = renews && entity.is_deadline_throttled();
    if throttled {
        link_throttled_deadline(queue, record, owner);
        (true, false, entity)
    } else {
        let (preempts, placed) = link_ready_thread(queue, record, owner, EnqueueReason::Wake);
        (false, preempts, placed)
    }
}

/// Gives a woken thread to a CPU. Says whether it stays without budget, and
/// whether it should preempt what the CPU runs.
pub fn take_wakeup(local: &mut CpuLocal, record: &mut ThreadRecord, owner: CpuId, now_ns: u64) -> (result: (bool, bool, SchedulingEntity))
    requires
        old(local).wf(),
        old(record).wf(),
        can_take(&old(local).queue(), old(record), owner, now_ns),
    ensures
        taken(*final(local), *old(local), *old(record), result.2, owner, now_ns),
        *final(record) == record_readied(renewed(*old(record), now_ns), owner, result.2),
        result.0 == stays_throttled(old(record), now_ns),
        result.1 == preempts_there(*final(local), old(record), result.2, now_ns),
        final(local).wf(),
        final(record).wf(),
{
    local.remote.cancel_idle_pull_if_uncommitted();
    let ghost pulled = *local;
    let result = link_taken(&mut local.remote.run_queue.queue, record, owner, now_ns);
    assert(*local == with_queue(pulled, local.queue()));
    local.remote.publish_run_queue_load_summary();
    result
}

/// The message that asks a CPU to look at the timers of a reservation.
pub open spec fn deadline_refresh(thread: ThreadId, cpu: CpuId) -> InboxMessage {
    InboxMessage {
        operation: InboxOperation::DeadlineRefresh,
        thread: Some(thread),
        source: Some(cpu),
        target: Some(cpu),
        generation: 0,
        placement_demand: 0,
        reservation: None,
    }
}

pub(crate) fn deadline_refresh_message(thread: ThreadId, cpu: CpuId) -> (message: InboxMessage)
    ensures
        message == deadline_refresh(thread, cpu),
{
    InboxMessage {
        operation: InboxOperation::DeadlineRefresh,
        thread: Some(thread),
        source: Some(cpu),
        target: Some(cpu),
        generation: 0,
        placement_demand: 0,
        reservation: None,
    }
}

/// A CPU asked to reschedule for a woken thread. One that renewed its budget
/// is heard through the message about its timers.
pub open spec fn nudged(cpu: CpuLocal, renews: bool, preempts: bool, by: CpuId) -> CpuLocal {
    if !preempts {
        cpu
    } else if renews {
        cpu.with_remote(cpu.remote.asked_to_reschedule())
    } else {
        cpu.with_remote(cpu.remote.told_to_reschedule(by))
    }
}

/// A CPU told of work, if there is any.
pub open spec fn kicked_if(cpu: CpuLocal, kick: bool, by: CpuId) -> CpuLocal {
    if kick {
        cpu.with_remote(cpu.remote.kicked(by))
    } else {
        cpu
    }
}

/// Whether a CPU has something urgent to push away.
pub open spec fn push_pending(queue: &RunQueue) -> bool {
    queue.pushable() matches Some(class) && class != crate::scheduler::policy::SchedulerClass::Fair
}

pub fn has_push_pending(queue: &RunQueue) -> (pending: bool)
    ensures
        pending == push_pending(queue),
{
    proof {
        reveal(RunQueue::pushable);
    }
    queue.has_pushable_deadline() || queue.has_pushable_realtime()
}

/// The reservation of a waking thread follows it: where it stands on another
/// CPU, it leaves that CPU, which is told.
pub open spec fn source_left(after: Seq<CpuLocal>, before: Seq<CpuLocal>, record: &ThreadRecord, target: CpuId, by: CpuId) -> bool {
    match record.deadline.owner {
        Some(source) => if source == target {
            after == before
        } else {
            exists|queue: RunQueue|
                #[trigger] ledger_detached(&queue, &before[source.index as int].queue(), record) && {
                    let left = with_queue(before[source.index as int], queue);
                    let shown = left.with_remote(left.remote.showing_load());
                    after == before.update(
                        source.index as int,
                        shown.with_remote(shown.remote.asked_to_work().kicked(by)),
                    )
                }
        },
        None => after == before,
    }
}

/// Takes the reservation of a thread off a CPU, and shows the load.
fn lose_reservation(local: &mut CpuLocal, record: &mut ThreadRecord, owner: CpuId)
    requires
        old(local).wf(),
        old(record).wf(),
        can_detach(&old(local).queue(), old(record), owner),
    ensures
        ledger_detached(&final(local).queue(), &old(local).queue(), old(record)),
        ({
            let left = with_queue(*old(local), final(local).queue());
            *final(local) == left.with_remote(left.remote.showing_load())
        }),
        *final(record) == detached(*old(record)),
        final(local).wf(),
        final(record).wf(),
{
    detach_deadline_bandwidth(&mut local.remote.run_queue.queue, record, owner);
    assert(*local == with_queue(*old(local), local.queue()));
    local.remote.publish_run_queue_load_summary();
}

/// The record whose reservation does not stand on another CPU.
pub open spec fn following(record: ThreadRecord, target: CpuId) -> ThreadRecord {
    if record.deadline.owner == Some(target) {
        record
    } else {
        detached(record)
    }
}

/// Whether a woken thread adds to the real-time load.
pub open spec fn runs_realtime(ready: &ThreadRecord, now_ns: u64) -> bool {
    !stays_throttled(ready, now_ns) && (ready.policy.active->0).policy.rt() is Some
}

/// Whether the CPU of a woken thread has work to push away because of it.
pub open spec fn pushes_after(local: CpuLocal, ready: &ThreadRecord, placed: SchedulingEntity, now_ns: u64) -> bool {
    !stays_throttled(ready, now_ns) && !preempts_there(local, ready, placed, now_ns)
        && push_pending(&local.queue())
}

/// The CPU that a waking thread prefers.
pub open spec fn wake_preference(record: &ThreadRecord, preferred: Option<CpuId>) -> Option<CpuId> {
    if preferred is Some {
        preferred
    } else if record.placement.task_cpu is Some {
        record.placement.task_cpu
    } else {
        record.wake_cpu_hint
    }
}

impl TaskSystem {
    /// The CPU that a waking thread goes to.
    pub open spec fn wake_target(&self, record: &ThreadRecord, preferred: Option<CpuId>) -> Option<CpuId> {
        match record.policy.active {
            Some(active) => self.priority_choice(
                active.policy,
                active.effective(),
                &record.placement.affinity,
                wake_preference(record, preferred),
                None,
            ),
            None => None,
        }
    }

    /// Whether a CPU can take a waking thread, and its old CPU can let it go.
    pub open spec fn can_wake_on(&self, record: &ThreadRecord, target: CpuId, now_ns: u64) -> bool {
        &&& record.deadline.owner matches Some(source) ==> source != target ==> self.has_cpu(source)
            && can_detach(&self.cpu(source).queue(), record, source)
        &&& can_take(&self.cpu(target).queue(), &following(*record, target), target, now_ns)
    }

    fn may_wake_on(&self, record: &ThreadRecord, target: CpuId, now_ns: u64) -> (may: bool)
        requires
            self.wf(),
            self.has_cpu(target),
            record.wf(),
        ensures
            may == self.can_wake_on(record, target, now_ns),
    {
        assert(self.cpus@[target.index as int].wf());
        let mut reservation = record.deadline;
        if let Some(source) = record.deadline.owner {
            if source != target {
                if source.index as usize >= self.cpus.len() {
                    return false;
                }
                assert(self.cpus@[source.index as int].wf());
                let queue = &self.cpus[source.index as usize].remote.run_queue.queue;
                if !may_detach(queue, record, source) {
                    return false;
                }
                reservation.owner = None;
                reservation.activity = DeadlineActivity::Inactive;
                reservation.timers_stale = true;
            }
        }
        assert((ThreadRecord { deadline: reservation, ..*record }) == following(*record, target));
        let queue = &self.cpus[target.index as usize].remote.run_queue.queue;
        may_take(queue, record, reservation, target, now_ns)
    }

    /// The thread became ready for a CPU; its reservation left any other.
    #[verifier::opaque]
    pub open spec fn source_released(&self, before: &Self, record: ThreadRecord, target: CpuId, by: CpuId) -> bool {
        &&& self.slots@ == with_record(
            before.slots@,
            following(ThreadRecord { lifecycle: ThreadState::Ready, ..record }, target),
        )
        &&& source_left(self.cpus@, before.cpus@, &record, target, by)
        &&& self.same_rest(before)
    }

    /// A CPU took a thread that was woken.
    #[verifier::opaque]
    pub open spec fn wakeup_linked(&self, before: &Self, ready: ThreadRecord, target: CpuId, placed: SchedulingEntity, now_ns: u64, monotonic_now: MonotonicInstant) -> bool {
        &&& taken(self.cpu(target), before.cpu(target), ready, placed, target, now_ns)
        &&& self.relinked(
            before,
            record_readied(renewed(ready, now_ns), target, placed),
            before.cpus@.update(target.index as int, self.cpu(target)),
            before.root_domain.rt_activated_if(
                runs_realtime(&ready, now_ns),
                target,
                monotonic_now,
            ),
        )
    }

    /// Everything after a waking thread was made runnable on a CPU.
    #[verifier::opaque]
    pub open spec fn woken_on(&self, before: &Self, record: ThreadRecord, target: CpuId, by: CpuId, now_ns: u64, monotonic_now: MonotonicInstant) -> bool {
        let ready = following(ThreadRecord { lifecycle: ThreadState::Ready, ..record }, target);
        exists|left: TaskSystem, linked: TaskSystem, placed: SchedulingEntity|
            #[trigger] left.source_released(before, record, target, by) && #[trigger] linked.wakeup_linked(
                &left,
                ready,
                target,
                placed,
                now_ns,
                monotonic_now,
            ) && self.announced(
                &linked,
                ready.id,
                target,
                by,
                renews_budget(&ready),
                preempts_there(linked.cpu(target), &ready, placed, now_ns),
                pushes_after(linked.cpu(target), &ready, placed, now_ns),
                runs_realtime(&ready, now_ns) && before.root_domain.rt_starts(),
            )
    }

    /// The system with one record, the CPUs and the shared part replaced.
    pub open spec fn relinked(&self, before: &Self, record: ThreadRecord, cpus: Seq<CpuLocal>, root_domain: RootDomain) -> bool {
        &&& self.slots@ == with_record(before.slots@, record)
        &&& self.cpus@ == cpus
        &&& self.root_domain == root_domain
        &&& self.config == before.config
        &&& self.free_slots@ == before.free_slots@
        &&& self.mutexes@ == before.mutexes@
        &&& self.exited@ == before.exited@
        &&& self.task_work == before.task_work
    }

    /// What the CPU of a woken thread is told. A Deadline reservation needs its
    /// timers looked at; the rest is for whoever has to run.
    #[verifier::opaque]
    pub open spec fn announced(
        &self,
        before: &Self,
        thread: ThreadId,
        target: CpuId,
        by: CpuId,
        renews: bool,
        preempts: bool,
        pushes: bool,
        period_started: bool,
    ) -> bool {
        &&& self.slots@ == before.slots@
        &&& self.same_rest(before)
        &&& exists|held: CpuLocal|
            #[trigger] Self::maybe_messaged(
                held,
                nudged(before.cpu(target), renews, preempts, by),
                renews,
                deadline_refresh(thread, target),
                by,
            ) && self.cpus@ == before.cpus@.update(
                target.index as int,
                kicked_if(kicked_if(held, pushes, by), period_started, by),
            )
    }

    /// The CPU with a message and its announcement, where there is one.
    pub open spec fn maybe_messaged(after: CpuLocal, before: CpuLocal, sent: bool, message: InboxMessage, by: CpuId) -> bool {
        if sent {
            exists|held: CpuLocal|
                #[trigger] Self::messaged(held, before, message) && after == held.with_remote(
                    held.remote.kicked(by),
                )
        } else {
            after == before
        }
    }

    #[verifier::spinoff_prover]
    fn announce_wakeup(&mut self, thread: ThreadId, target: CpuId, by: CpuId, renews: bool, preempts: bool, pushes: bool, period_started: bool)
        requires
            old(self).wf(),
            old(self).has_cpu(target),
        ensures
            final(self).announced(
                old(self),
                thread,
                target,
                by,
                renews,
                preempts,
                pushes,
                period_started,
            ),
            final(self).cpus@.len() == old(self).cpus@.len(),
            final(self).wf(),
    {
        let ghost before = *self;
        let ghost asked = nudged(before.cpu(target), renews, preempts, by);
        proof {
            becoming_itself(&before, target);
        }
        if renews {
            if preempts {
                self.reschedule_cpu(target);
            }
            assert(self.cpu_becomes(&before, target, asked));
            let ghost told = *self;
            self.post_to_cpu(target, deadline_refresh_message(thread, target), by);
            proof {
                becoming_twice(&before, &told, self, target, asked, self.cpu(target));
            }
        } else if preempts {
            self.tell_cpu(target, by);
        }
        let ghost held = self.cpu(target);
        let ghost informed = *self;
        proof {
            becoming_itself(&informed, target);
        }
        assert(informed.cpu_becomes(&before, target, held));
        assert(Self::maybe_messaged(held, asked, renews, deadline_refresh(thread, target), by));
        if pushes {
            self.kick_cpu(target, by);
        }
        let ghost pushed = *self;
        proof {
            becoming_itself(&pushed, target);
        }
        let ghost first = kicked_if(held, pushes, by);
        assert(pushed.cpu_becomes(&informed, target, first));
        if period_started {
            self.kick_cpu(target, by);
        }
        let ghost last = kicked_if(first, period_started, by);
        proof {
            assert(self.cpu_becomes(&pushed, target, last));
            becoming_twice(&informed, &pushed, self, target, first, last);
            becoming_twice(&before, &informed, self, target, held, last);
            reveal(TaskSystem::announced);
        }
    }

    /// Takes the reservation of a waking thread off a CPU that it leaves.
    fn leave_source(&mut self, record: &mut ThreadRecord, target: CpuId, by: CpuId)
        requires
            old(self).wf(),
            old(record).wf(),
            old(record).deadline.owner matches Some(source) ==> source != target ==> old(self).has_cpu(source)
                && can_detach(&old(self).cpu(source).queue(), old(record), source),
        ensures
            source_left(final(self).cpus@, old(self).cpus@, old(record), target, by),
            *final(record) == following(*old(record), target),
            final(record).wf(),
            final(self).slots == old(self).slots,
            final(self).mutexes == old(self).mutexes,
            final(self).same_rest(old(self)),
            final(self).wf(),
    {
        let ghost before = *self;
        let ghost start = *record;
        let source = match record.deadline.owner {
            Some(source) => source,
            None => {
                return;
            },
        };
        if source == target {
            return;
        }
        let at: usize = source.index as usize;
        assert(before.cpus@[at as int].wf());
        lose_reservation(&mut self.cpus[at], record, source);
        let ghost queue = self.cpus@[at as int].queue();
        proof {
            assert(self.cpus@ =~= before.cpus@.update(at as int, self.cpus@[at as int]));
            cpus_wf_after(before.cpus@, self.cpus@, at as int);
        }
        self.work_cpu(source);
        self.kick_cpu(source, by);
        proof {
            assert(ledger_detached(&queue, &before.cpus@[at as int].queue(), &start));
            let left = with_queue(before.cpus@[at as int], queue);
            let shown = left.with_remote(left.remote.showing_load());
            assert(self.cpus@ =~= before.cpus@.update(
                at as int,
                shown.with_remote(shown.remote.asked_to_work().kicked(by)),
            ));
        }
    }

    /// Makes a thread ready for a CPU, and takes its reservation off any other.
    fn release_source(&mut self, thread: ThreadId, target: CpuId, by: CpuId)
        requires
            old(self).wf(),
            old(self).record(thread) is Some,
            (old(self).record(thread)->0).deadline.owner matches Some(source) ==> source != target
                ==> old(self).has_cpu(source) && can_detach(
                &old(self).cpu(source).queue(),
                &(old(self).record(thread)->0),
                source,
            ),
        ensures
            final(self).source_released(old(self), old(self).record(thread)->0, target, by),
            final(self).cpus@.len() == old(self).cpus@.len(),
            final(self).wf(),
    {
        proof {
            reveal(TaskSystem::source_released);
        }
        let ghost before = *self;
        let mut record = self.take_record(thread);
        self.leave_source(&mut record, target, by);
        record.lifecycle = ThreadState::Ready;
        self.put_record(record);
        assert(self.slots@ =~= with_record(before.slots@, record));
    }

    /// Gives a ready thread that was woken to a CPU. Says whether the thread
    /// should preempt what the CPU runs, whether the CPU has work to push away,
    /// and whether the shared real-time period started.
    fn link_wakeup(&mut self, thread: ThreadId, target: CpuId, now_ns: u64, monotonic_now: MonotonicInstant) -> (result: (bool, bool, bool, bool, Ghost<SchedulingEntity>))
        requires
            old(self).wf(),
            old(self).has_cpu(target),
            old(self).record(thread) is Some,
            can_take(
                &old(self).cpu(target).queue(),
                &(old(self).record(thread)->0),
                target,
                now_ns,
            ),
        ensures
            ({
                let ready = old(self).record(thread)->0;
                &&& final(self).wakeup_linked(
                    old(self),
                    ready,
                    target,
                    result.4@,
                    now_ns,
                    monotonic_now,
                )
                &&& result.0 == renews_budget(&ready)
                &&& result.1 == preempts_there(final(self).cpu(target), &ready, result.4@, now_ns)
                &&& result.2 == pushes_after(final(self).cpu(target), &ready, result.4@, now_ns)
                &&& result.3 == (runs_realtime(&ready, now_ns) && old(self).root_domain.rt_starts())
            }),
            final(self).cpus@.len() == old(self).cpus@.len(),
            final(self).wf(),
    {
        proof {
            reveal(can_take);
        }
        proof {
            reveal(TaskSystem::wakeup_linked);
        }
        let ghost before = *self;
        let at: usize = target.index as usize;
        assert(before.cpus@[at as int].wf());
        let mut record = self.take_record(thread);
        let ghost ready = record;
        let policy = record.policy.active.unwrap().policy;
        let renews = match policy {
            SchedulePolicy::Deadline(_) => !record.is_pi_boosted(),
            _ => false,
        };
        let (throttled, preempts, placed) = take_wakeup(
            &mut self.cpus[at],
            &mut record,
            target,
            now_ns,
        );
        proof {
            assert(self.cpus@ =~= before.cpus@.update(at as int, self.cpus@[at as int]));
            assert(self.cpus@[at as int].remote.owner == before.cpus@[at as int].remote.owner);
            cpus_wf_after(before.cpus@, self.cpus@, at as int);
        }
        let pushes = !throttled && !preempts && has_push_pending(
            &self.cpus[at].remote.run_queue.queue,
        );
        let realtime = !throttled && policy.rt_priority().is_some();
        let started = realtime && self.root_domain.activate_rt_period(target, monotonic_now);
        self.put_record(record);
        assert(self.slots@ =~= with_record(before.slots@, record));
        (renews, preempts, pushes, started, Ghost(placed))
    }

    /// Makes a waking thread runnable on a CPU and tells whoever has to know.
    fn activate_waking_thread(&mut self, thread: ThreadId, target: CpuId, by: CpuId, now_ns: u64, monotonic_now: MonotonicInstant)
        requires
            old(self).wf(),
            old(self).has_cpu(target),
            old(self).record(thread) is Some,
            old(self).can_wake_on(&(old(self).record(thread)->0), target, now_ns),
        ensures
            final(self).woken_on(
                old(self),
                old(self).record(thread)->0,
                target,
                by,
                now_ns,
                monotonic_now,
            ),
            final(self).cpus@.len() == old(self).cpus@.len(),
            final(self).wf(),
    {
        proof {
            reveal(TaskSystem::woken_on);
        }
        let ghost before = *self;
        let ghost start = before.record(thread)->0;
        let ghost ready = following(
            ThreadRecord { lifecycle: ThreadState::Ready, ..start },
            target,
        );
        self.release_source(thread, target, by);
        let ghost left = *self;
        proof {
            assert(left.record(thread) == Some(ready) && left.cpu(target).queue() == before.cpu(
                target,
            ).queue() && left.root_domain == before.root_domain && ready.id == thread) by {
                assert(before.slots@[thread.slot as int].wf_at(thread.slot as int));
                reveal(TaskSystem::source_released);
            }
            taking_ignores_lifecycle(
                &left.cpu(target).queue(),
                &following(start, target),
                &ready,
                target,
                now_ns,
            );
        }
        let (renews, preempts, pushes, started, placed) = self.link_wakeup(
            thread,
            target,
            now_ns,
            monotonic_now,
        );
        let ghost linked = *self;
        self.announce_wakeup(thread, target, by, renews, preempts, pushes, started);
        proof {
            assert(left.source_released(&before, start, target, by));
            assert(linked.wakeup_linked(&left, ready, target, placed@, now_ns, monotonic_now));
        }
    }

    /// What a wake-up of a thread comes to: the answer, and the CPU on which the
    /// thread becomes runnable, if it does.
    pub open spec fn wake_outcome(&self, thread: ThreadId, preferred: Option<CpuId>, now_ns: u64) -> (WakeResult, Option<CpuId>) {
        match self.record(thread) {
            None => (WakeResult::Exited, None),
            Some(record) => if record.lifecycle == ThreadState::Exited || record.exiting {
                (WakeResult::Exited, None)
            } else if record.wake_pending {
                (WakeResult::AlreadyPending, None)
            } else if record.lifecycle != ThreadState::Blocked && record.lifecycle
                != ThreadState::New {
                (WakeResult::Notified, None)
            } else if record.lifecycle == ThreadState::Blocked && record.placement.on_cpu is Some {
                (WakeResult::Notified, None)
            } else {
                match self.wake_target(&record, preferred) {
                    None => (WakeResult::Unavailable, None),
                    Some(target) => if record.lifecycle == ThreadState::New {
                        (WakeResult::Notified, None)
                    } else if self.can_wake_on(&record, target, now_ns) {
                        (WakeResult::Notified, Some(target))
                    } else {
                        (WakeResult::Unavailable, None)
                    },
                }
            },
        }
    }

    /// The record of a woken thread that does not become runnable at once: a
    /// thread that has not parked yet keeps the wake-up, one that is still
    /// switching out will be made runnable there.
    pub open spec fn wake_noted(record: ThreadRecord) -> ThreadRecord {
        match record.lifecycle {
            ThreadState::Blocked => ThreadRecord { lifecycle: ThreadState::Waking, ..record },
            ThreadState::New => record,
            _ => ThreadRecord { wake_pending: true, ..record },
        }
    }

    /// The system after a wake-up.
    pub open spec fn woken(&self, before: &Self, thread: ThreadId, preferred: Option<CpuId>, by: CpuId, now_ns: u64, monotonic_now: MonotonicInstant) -> bool {
        let outcome = before.wake_outcome(thread, preferred, now_ns);
        match outcome.1 {
            Some(target) => self.woken_on(
                before,
                before.record(thread)->0,
                target,
                by,
                now_ns,
                monotonic_now,
            ),
            None => if outcome.0 == WakeResult::Notified {
                self.only_thread(before, Self::wake_noted(before.record(thread)->0))
            } else {
                self.unchanged(before)
            },
        }
    }

    /// The CPU for a waking thread.
    fn select_wake_target(&self, record: &ThreadRecord, preferred: Option<CpuId>) -> (target: Option<CpuId>)
        requires
            self.wf(),
        ensures
            target == self.wake_target(record, preferred),
            target matches Some(target) ==> self.has_cpu(target),
    {
        let active = match record.policy.active {
            Some(active) => active,
            None => {
                return None;
            },
        };
        let preferred = match preferred {
            Some(_) => preferred,
            None => match record.placement.task_cpu {
                Some(cpu) => Some(cpu),
                None => record.wake_cpu_hint,
            },
        };
        self.select_priority_cpu(
            active.policy,
            active.entity(),
            &record.placement.affinity,
            preferred,
            None,
        )
    }

    /// Notes a wake-up in the record of a thread.
    fn note_wakeup(&mut self, thread: ThreadId)
        requires
            old(self).wf(),
            old(self).record(thread) is Some,
        ensures
            final(self).only_thread(old(self), Self::wake_noted(old(self).record(thread)->0)),
            final(self).wf(),
    {
        let ghost before = *self;
        let mut record = self.take_record(thread);
        match record.lifecycle {
            ThreadState::Blocked => {
                let _ = record.transition(ThreadState::Waking);
            },
            ThreadState::New => {},
            _ => {
                let _ = record.publish_wake();
            },
        }
        self.put_record(record);
        assert(self.slots@ =~= with_record(before.slots@, record));
    }

    /// What a wake-up comes to.
    fn judge_wakeup(&self, thread: ThreadId, preferred: Option<CpuId>, now_ns: u64) -> (outcome: (WakeResult, Option<CpuId>))
        requires
            self.wf(),
        ensures
            outcome == self.wake_outcome(thread, preferred, now_ns),
            outcome.1 matches Some(target) ==> self.has_cpu(target),
    {
        let record = match self.thread_record(thread) {
            Ok(record) => record,
            Err(_) => {
                return (WakeResult::Exited, None);
            },
        };
        if record.lifecycle == ThreadState::Exited || record.exiting {
            return (WakeResult::Exited, None);
        }
        if record.wake_pending {
            return (WakeResult::AlreadyPending, None);
        }
        if record.lifecycle != ThreadState::Blocked && record.lifecycle != ThreadState::New {
            return (WakeResult::Notified, None);
        }
        if record.lifecycle == ThreadState::Blocked && record.placement.on_cpu.is_some() {
            return (WakeResult::Notified, None);
        }
        let target = match self.select_wake_target(record, preferred) {
            Some(target) => target,
            None => {
                return (WakeResult::Unavailable, None);
            },
        };
        if record.lifecycle == ThreadState::New {
            return (WakeResult::Notified, None);
        }
        if self.may_wake_on(record, target, now_ns) {
            (WakeResult::Notified, Some(target))
        } else {
            (WakeResult::Unavailable, None)
        }
    }

    /// Wakes a thread. A blocked thread becomes runnable on the best CPU; one
    /// that is about to block keeps the wake-up, so that it will not.
    pub fn wake_thread_direct(&mut self, thread: ThreadId, preferred: Option<CpuId>, by: CpuId, now_ns: u64, monotonic_now: MonotonicInstant) -> (result: WakeResult)
        requires
            old(self).wf(),
        ensures
            result == old(self).wake_outcome(thread, preferred, now_ns).0,
            final(self).woken(old(self), thread, preferred, by, now_ns, monotonic_now),
            final(self).wf(),
    {
        let (result, target) = self.judge_wakeup(thread, preferred, now_ns);
        match target {
            Some(target) => {
                self.activate_waking_thread(thread, target, by, now_ns, monotonic_now);
            },
            None => {
                if result == WakeResult::Notified {
                    self.note_wakeup(thread);
                }
            },
        }
        result
    }

    /// Makes a thread runnable that was woken while it switched out. Says
    /// whether it did.
    pub fn finish_switch_tail_wake(&mut self, thread: ThreadId, by: CpuId, now_ns: u64, monotonic_now: MonotonicInstant) -> (activated: bool)
        requires
            old(self).wf(),
        ensures
            activated == old(self).tail_wake_target(thread, now_ns) is Some,
            match old(self).tail_wake_target(thread, now_ns) {
                Some(target) => final(self).woken_on(
                    old(self),
                    old(self).record(thread)->0,
                    target,
                    by,
                    now_ns,
                    monotonic_now,
                ),
                None => *final(self) == *old(self),
            },
            final(self).cpus@.len() == old(self).cpus@.len(),
            final(self).wf(),
    {
        let record = match self.thread_record(thread) {
            Ok(record) => record,
            Err(_) => {
                return false;
            },
        };
        if record.lifecycle != ThreadState::Waking || record.placement.on_cpu.is_some() {
            return false;
        }
        let target = match self.select_wake_target(record, None) {
            Some(target) => target,
            None => {
                return false;
            },
        };
        if !self.may_wake_on(record, target, now_ns) {
            return false;
        }
        self.activate_waking_thread(thread, target, by, now_ns, monotonic_now);
        true
    }

    /// The CPU on which a thread becomes runnable that was woken while it
    /// switched out.
    pub open spec fn tail_wake_target(&self, thread: ThreadId, now_ns: u64) -> Option<CpuId> {
        match self.record(thread) {
            Some(record) => if record.lifecycle == ThreadState::Waking && record.placement.on_cpu
                is None {
                match self.wake_target(&record, None) {
                    Some(target) => if self.can_wake_on(&record, target, now_ns) {
                        Some(target)
                    } else {
                        None
                    },
                    None => None,
                }
            } else {
                None
            },
            None => None,
        }
    }
}

/// A system that did not change is what it was.
pub(crate) proof fn becoming_itself(system: &TaskSystem, cpu: CpuId)
    requires
        system.has_cpu(cpu),
    ensures
        system.cpu_becomes(system, cpu, system.cpu(cpu)),
{
    assert(system.cpus@ =~= system.cpus@.update(cpu.index as int, system.cpu(cpu)));
}

/// A CPU that changes twice is what it became last.
pub(crate) proof fn becoming_twice(before: &TaskSystem, mid: &TaskSystem, after: &TaskSystem, cpu: CpuId, first: CpuLocal, last: CpuLocal)
    requires
        before.has_cpu(cpu),
        mid.cpu_becomes(before, cpu, first),
        after.cpu_becomes(mid, cpu, last),
    ensures
        after.cpu_becomes(before, cpu, last),
{
    assert(after.cpus@ =~= before.cpus@.update(cpu.index as int, last));
}

/// Whether a CPU can take a thread does not depend on the state it was in.
proof fn taking_ignores_lifecycle(queue: &RunQueue, from: &ThreadRecord, to: &ThreadRecord, target: CpuId, now_ns: u64)
    requires
        *to == (ThreadRecord { lifecycle: to.lifecycle, ..*from }),
    ensures
        can_take(queue, from, target, now_ns) == can_take(queue, to, target, now_ns),
{
    reveal(can_take);
    assert(renewed(*to, now_ns) == (ThreadRecord {
        lifecycle: to.lifecycle,
        ..renewed(*from, now_ns)
    }));
}

} // verus!
