//! Taking the running thread off its CPU.
use vstd::prelude::*;
use crate::cpu::dispatch::CurrentClassState;
use crate::cpu::handoff::PreparedMigrationDelivery;
use crate::cpu::local::CpuLocal;
use crate::error::{TaskError, ThreadState};
use crate::ids::{CpuId, ThreadId};
use crate::scheduler::entity::{EnqueueReason, SchedulingEntity};
use crate::scheduler::policy::SchedulePolicy;
use crate::scheduler::realtime::any_pushable;
use crate::scheduler::run_queue::{QueueMembershipClass, RunQueue, saturated_add};
use crate::scheduler::task::{ActiveSchedulingState, QueuedThread, index_of};
use crate::system::delivery::{
    can_enter, enter_queue, entered, enters_ahead, entry_noted, note_entry, record_entered,
    timers_due,
};
use crate::system::migration::{
    can_expect, capture_owner_fair_migration, captured, expect_on, expecting,
};
use crate::system::placement::PlacementRank;
use crate::system::ready::{may_ready_as, returned};
use crate::system::restate::{SchedulePosition, find_state, state_at};
use crate::system::task_system::{TaskSystem, cpus_wf_after, with_queue, with_record};
use crate::thread::placement::{TaskOnRunQueue, ThreadPlacementState};
use crate::thread::record::ThreadRecord;
use crate::time::MonotonicInstant;

verus! {

/// The queue after the running thread stopped being runnable.
#[verifier::opaque]
pub open spec fn lifted(after: &RunQueue, before: &RunQueue, record: &ThreadRecord) -> bool {
    if before.member(record.id) is Some {
        after.departed(before, record.id, true)
    } else {
        *after == (RunQueue { nr_running: (before.nr_running - 1) as usize, ..*before })
    }
}

/// Whether a thread runs here and can be taken off.
pub open spec fn can_lift(queue: &RunQueue, record: &ThreadRecord) -> bool {
    &&& state_at(queue, record, SchedulePosition::Running) matches Some(active)
    &&& active.wf()
    &&& queue.nr_running > 0
}

pub fn may_lift(queue: &RunQueue, record: &ThreadRecord) -> (may: bool)
    requires
        queue.wf(),
    ensures
        may == can_lift(queue, record),
{
    match find_state(queue, record, SchedulePosition::Running) {
        Some(active) => active.is_consistent() && queue.nr_running > 0,
        None => false,
    }
}

/// Takes the scheduling state of the running thread off its run queue.
pub fn lift_running(queue: &mut RunQueue, record: &ThreadRecord) -> (active: ActiveSchedulingState)
    requires
        old(queue).wf(),
        can_lift(old(queue), record),
    ensures
        lifted(final(queue), old(queue), record),
        Some(active) == state_at(old(queue), record, SchedulePosition::Running),
        active.wf(),
        final(queue).current == old(queue).current,
        final(queue).deadline.bandwidth == old(queue).deadline.bandwidth,
        final(queue).fair.virtual_time == old(queue).fair.virtual_time,
        final(queue).idle_fair.virtual_time == old(queue).idle_fair.virtual_time,
        final(queue).member(record.id) is None,
        final(queue).wf(),
{
    proof {
        reveal(lifted);
    }
    let active = find_state(queue, record, SchedulePosition::Running).unwrap();
    if queue.contains(record.id) {
        proof {
            queue.member_record(record.id);
        }
        let _ = queue.deactivate_task(record.id);
    } else {
        queue.deactivate_unlinked_current(record.id);
    }
    active
}

/// What becomes of the running thread.
#[derive(Clone, Copy, Debug, PartialEq, Eq, Structural)]
pub enum ScheduleOut {
    Refused(TaskError),
    /// It leaves for another CPU.
    Migrate { target: CpuId },
    /// Its Deadline budget is spent.
    Throttle,
    /// It is the idle thread.
    Idle,
    /// It waits for the CPU again, linked in its class.
    PutPrev,
    /// It waits for the CPU again.
    Requeue,
}

/// The record of a running thread that leaves for another CPU.
pub open spec fn sent_off(record: ThreadRecord, active: ActiveSchedulingState, target: CpuId) -> ThreadRecord {
    let ready = returned(
        ThreadRecord { lifecycle: ThreadState::Ready, ..record },
        active,
    );
    TaskSystem::handed_over(ready, target)
}

/// The record of a running thread whose Deadline budget is spent.
pub open spec fn starved(record: ThreadRecord, active: ActiveSchedulingState) -> ThreadRecord {
    let blocked = returned(
        ThreadRecord { lifecycle: ThreadState::Blocked, ..record },
        active,
    );
    timers_due(
        ThreadRecord {
            placement: ThreadPlacementState {
                on_rq: TaskOnRunQueue::Off,
                migration_request: None,
                ..blocked.placement
            },
            ..blocked
        },
    )
}

/// The record of a running thread that waits, linked in its class.
pub open spec fn put_back(record: ThreadRecord, policy: SchedulePolicy, entity: SchedulingEntity, owner: CpuId) -> ThreadRecord {
    ThreadRecord {
        wake_cpu_hint: Some(owner),
        ..timers_due(ThreadRecord { lifecycle: ThreadState::Ready, ..record }).published(
            policy,
            entity,
        )
    }
}

/// Sends the running thread off to another CPU.
fn send_off(local: &mut CpuLocal, record: &mut ThreadRecord, owner: CpuId, target: CpuId, granularity_ns: u64)
    requires
        old(local).wf(),
        old(record).wf(),
        can_lift(&old(local).queue(), old(record)),
        old(record).placement.can_begin_migration(owner, target),
    ensures
        exists|queue: RunQueue|
            #[trigger] lifted(&queue, &old(local).queue(), old(record)) && *final(local)
                == with_queue(*old(local), queue).vacated() && *final(record) == sent_off(
                *old(record),
                captured(
                    state_at(
                        &old(local).queue(),
                        old(record),
                        SchedulePosition::Running,
                    )->0,
                    &old(local).queue(),
                    granularity_ns,
                ),
                target,
            ),
        final(local).remote.owner == old(local).remote.owner,
        final(local).wf(),
        final(record).wf(),
{
    let active = lift_running(&mut local.remote.run_queue.queue, record);
    let ghost queue = local.queue();
    let moved = capture_owner_fair_migration(
        active,
        &local.remote.run_queue.queue,
        granularity_ns,
    );
    record.policy.active = Some(moved);
    record.lifecycle = ThreadState::Ready;
    record.placement.begin_migration(owner, target);
    record.wake_cpu_hint = Some(target);
    local.clear_current();
    proof {
        assert(lifted(&queue, &old(local).queue(), old(record)));
    }
}

/// Takes off a running thread whose Deadline budget is spent.
fn starve(local: &mut CpuLocal, record: &mut ThreadRecord, owner: CpuId)
    requires
        old(local).wf(),
        old(record).wf(),
        can_lift(&old(local).queue(), old(record)),
        old(record).placement.can_block_current(owner),
    ensures
        exists|queue: RunQueue|
            #[trigger] lifted(&queue, &old(local).queue(), old(record)) && *final(local)
                == with_queue(*old(local), queue).vacated() && *final(record) == starved(
                *old(record),
                state_at(&old(local).queue(), old(record), SchedulePosition::Running)->0,
            ),
        final(local).remote.owner == old(local).remote.owner,
        final(local).wf(),
        final(record).wf(),
{
    let active = lift_running(&mut local.remote.run_queue.queue, record);
    let ghost queue = local.queue();
    record.policy.active = Some(active);
    record.lifecycle = ThreadState::Blocked;
    record.placement.block_current(owner);
    match record.policy.base {
        SchedulePolicy::Deadline(_) => {
            record.deadline.timers_stale = true;
        },
        _ => {},
    }
    local.clear_current();
    proof {
        assert(lifted(&queue, &old(local).queue(), old(record)));
    }
}

/// The queue after its linked running thread was put back.
#[verifier::opaque]
pub open spec fn runner_put_back(after: &RunQueue, before: &RunQueue, id: ThreadId, reason: EnqueueReason) -> bool {
    let class = before.member(id)->0;
    let list = before.list_of(class);
    let at = index_of(list, id);
    &&& after.list_of(class) == if class == QueueMembershipClass::Deadline {
        list.update(
            at,
            QueuedThread {
                pushable: list[at].migration_capable,
                ..list[at]
            },
        )
    } else if reason == EnqueueReason::Yield {
        list.remove(at).push(list[at])
    } else {
        list
    }
    &&& after.only_list_changed(before, class)
    &&& after.membership@ == before.membership@
    &&& after.fixed_placement_demand == saturated_add(
        before.fixed_placement_demand,
        list[at].active.policy.fixed_load(),
    )
    &&& after.current == before.current
    &&& after.balance_scan_epoch == before.balance_scan_epoch
    &&& after.next_sequence == before.next_sequence
    &&& after.nr_running == before.nr_running
    &&& after.same_ledger(before)
    &&& after.same_times(before)
    &&& forall|p: u8|
        1 <= p <= 99 ==> #[trigger] after.rt_pushable(p) == if class
            == QueueMembershipClass::Realtime(p) {
            any_pushable(after.list_of(class), None)
        } else {
            before.rt_pushable(p)
        }
}

/// Puts the linked running thread of a run queue back where it was.
fn put_back_in(queue: &mut RunQueue, id: ThreadId, reason: EnqueueReason) -> (active: ActiveSchedulingState)
    requires
        old(queue).wf(),
        old(queue).dispatch_ok(),
        old(queue).linked() == Some(id),
    ensures
        runner_put_back(final(queue), old(queue), id, reason),
        active == old(queue).record(id).active,
        active.wf(),
        final(queue).deadline.bandwidth == old(queue).deadline.bandwidth,
        final(queue).dispatch_ok(),
        final(queue).wf(),
{
    proof {
        queue.member_record(id);
    }
    let active = queue.queued_record(id).unwrap().active;
    let _ = queue.put_prev_task(id, reason);
    proof {
        reveal(runner_put_back);
    }
    active
}

/// Notes that a thread that ran waits again.
fn note_put_back(record: &mut ThreadRecord, active: ActiveSchedulingState, owner: CpuId)
    requires
        old(record).wf(),
        old(record).placement.can_put_prev(owner),
        active.wf(),
    ensures
        *final(record) == put_back(*old(record), active.policy, active.effective(), owner),
        final(record).wf(),
{
    record.lifecycle = ThreadState::Ready;
    match record.policy.base {
        SchedulePolicy::Deadline(_) => {
            record.deadline.timers_stale = true;
        },
        _ => {},
    }
    record.placement.put_prev(owner);
    record.publish_effective_schedule(active.policy, active.entity());
    record.wake_cpu_hint = Some(owner);
}

/// Puts a linked running thread back among those that wait.
fn put_prev(local: &mut CpuLocal, record: &mut ThreadRecord, owner: CpuId, reason: EnqueueReason) -> (queue: Ghost<RunQueue>)
    requires
        old(local).wf(),
        old(record).wf(),
        old(local).queue().linked() == Some(old(record).id),
        old(record).placement.can_put_prev(owner),
    ensures
        ({
            let entry = old(local).queue().record(old(record).id);
            &&& runner_put_back(&queue@, &old(local).queue(), old(record).id, reason)
            &&& *final(local) == with_queue(*old(local), queue@).vacated()
            &&& *final(record) == put_back(
                *old(record),
                entry.active.policy,
                entry.active.effective(),
                owner,
            )
        }),
        final(local).remote.owner == old(local).remote.owner,
        final(local).wf(),
        final(record).wf(),
{
    let active = put_back_in(&mut local.remote.run_queue.queue, record.id, reason);
    let ghost queue = local.queue();
    assert(*local == with_queue(*old(local), queue));
    note_put_back(record, active, owner);
    local.clear_current();
    Ghost(queue)
}

/// Puts a linked running thread back and takes note of it. Says whether a
/// real-time thread waits.
fn put_prev_noted(local: &mut CpuLocal, record: &mut ThreadRecord, owner: CpuId, reason: EnqueueReason) -> (result: (bool, Ghost<RunQueue>))
    requires
        old(local).wf(),
        old(record).wf(),
        old(local).queue().linked() == Some(old(record).id),
        old(record).placement.can_put_prev(owner),
    ensures
        ({
            let entry = old(local).queue().record(old(record).id);
            &&& runner_put_back(&result.1@, &old(local).queue(), old(record).id, reason)
            &&& *final(local) == entry_noted(
                with_queue(*old(local), result.1@).vacated(),
                owner,
                reason,
                false,
            )
            &&& *final(record) == put_back(
                *old(record),
                entry.active.policy,
                entry.active.effective(),
                owner,
            )
            &&& result.0 == result.1@.has_rt_thread()
        }),
        final(local).remote.owner == old(local).remote.owner,
        final(local).wf(),
        final(record).wf(),
{
    let queue = put_prev(local, record, owner, reason);
    let realtime = local.remote.run_queue.queue.has_rt();
    note_entry(local, owner, reason, false);
    (realtime, queue)
}

/// The record of a running thread that is about to wait again.
pub open spec fn waiting_again(record: ThreadRecord, active: ActiveSchedulingState) -> ThreadRecord {
    returned(ThreadRecord { lifecycle: ThreadState::Ready, ..record }, active)
}

/// The CPU without the dispatch of its running thread.
pub open spec fn undispatched(local: CpuLocal) -> CpuLocal {
    with_queue(local, RunQueue { current: None, ..local.queue() })
}

/// Whether a running thread that no list holds can wait again.
#[verifier::opaque]
pub open spec fn can_requeue(local: CpuLocal, record: &ThreadRecord, owner: CpuId, reason: EnqueueReason, now_ns: u64) -> bool {
    &&& local.queue().current matches Some(current)
    &&& current.thread == record.id
    &&& current.schedule matches CurrentClassState::Owned(active)
    &&& active.wf()
    &&& reason != EnqueueReason::Wake
    &&& can_enter(
        &undispatched(local).queue(),
        &waiting_again(*record, active),
        owner,
        reason,
        now_ns,
    )
}

/// The CPU after its running thread was queued again.
#[verifier::opaque]
pub open spec fn requeued(after: CpuLocal, before: CpuLocal, waiting: ThreadRecord, owner: CpuId, placed: SchedulingEntity, reason: EnqueueReason, now_ns: u64) -> bool {
    exists|local: CpuLocal|
        #[trigger] entered(local, undispatched(before), waiting, placed, reason, now_ns) && after
            == entry_noted(
            local.vacated(),
            owner,
            reason,
            enters_ahead(local, &waiting, placed, reason, now_ns),
        )
}

/// Queues the running thread again.
fn requeue(local: &mut CpuLocal, record: &mut ThreadRecord, owner: CpuId, reason: EnqueueReason, now_ns: u64) -> (placed: SchedulingEntity)
    requires
        old(local).wf(),
        old(record).wf(),
        can_requeue(*old(local), old(record), owner, reason, now_ns),
    ensures
        ({
            let waiting = waiting_again(
                *old(record),
                (old(local).queue().current->0).schedule->Owned_0,
            );
            &&& requeued(*final(local), *old(local), waiting, owner, placed, reason, now_ns)
            &&& *final(record) == record_entered(waiting, owner, placed, reason, now_ns)
        }),
        final(local).remote.owner == old(local).remote.owner,
        final(local).wf(),
        final(record).wf(),
{
    proof {
        reveal(can_requeue);
    }
    proof {
        reveal(requeued);
    }
    let current = local.take_dispatch().unwrap();
    if let CurrentClassState::Owned(active) = current.schedule {
        record.policy.active = Some(active);
    }
    record.lifecycle = ThreadState::Ready;
    assert(*local == undispatched(*old(local)));
    let (preempts, placed) = enter_queue(local, record, owner, reason, now_ns);
    local.clear_current();
    note_entry(local, owner, reason, preempts);
    placed
}

fn may_requeue(local: &CpuLocal, record: &ThreadRecord, owner: CpuId, reason: EnqueueReason, now_ns: u64) -> (may: bool)
    requires
        local.wf(),
        record.wf(),
    ensures
        may == can_requeue(*local, record, owner, reason, now_ns),
{
    proof {
        reveal(can_requeue);
    }
    let queue = &local.remote.run_queue.queue;
    let current = match queue.current {
        Some(current) => current,
        None => {
            return false;
        },
    };
    let active = match current.schedule {
        CurrentClassState::Owned(active) => active,
        _ => {
            return false;
        },
    };
    if current.thread != record.id || !active.is_consistent() || reason == EnqueueReason::Wake {
        return false;
    }
    let deadline = match active.policy {
        SchedulePolicy::Deadline(_) => true,
        _ => false,
    };
    if active.entity().is_deadline_throttled() && (!deadline || record.placement.on_cpu.is_some()) {
        return false;
    }
    may_ready_as(queue, record, active, record.deadline, owner)
}

/// Whether the running thread has spent its Deadline budget and nothing lets it
/// run on.
pub open spec fn starves(queue: &RunQueue, record: &ThreadRecord) -> bool {
    &&& state_at(queue, record, SchedulePosition::Running) matches Some(active)
    &&& active.effective().is_throttled()
    &&& !(queue.current->0).pi_critical_rescue
}

impl TaskSystem {
    /// The CPU to which a thread that may not stay leaves.
    pub open spec fn leave_target(&self, record: &ThreadRecord, cpu: CpuId) -> Option<CpuId> {
        let affinity = &record.placement.affinity;
        match record.placement.migration_request {
            Some(target) => if self.may_choose(target, affinity, Some(cpu)) {
                Some(target)
            } else {
                self.best_cpu(affinity, None, Some(cpu), PlacementRank::Runnable)
            },
            None => self.best_cpu(affinity, None, Some(cpu), PlacementRank::Runnable),
        }
    }

    pub(crate) fn find_leave_target(&self, record: &ThreadRecord, cpu: CpuId) -> (target: Option<CpuId>)
        requires
            self.wf(),
        ensures
            target == self.leave_target(record, cpu),
            target matches Some(target) ==> self.has_cpu(target) && target != cpu,
    {
        if let Some(target) = record.placement.migration_request {
            if target != cpu && record.placement.affinity.contains(target) && (
            target.index as usize) < self.cpus.len()
                && self.cpus[target.index as usize].remote.accepts_placement() {
                return Some(target);
            }
        }
        self.select_allowed_active_cpu(&record.placement.affinity, Some(cpu))
    }

    /// Whether a thread should not be on a CPU.
    pub open spec fn must_leave(record: &ThreadRecord, cpu: CpuId) -> bool {
        record.placement.migration_request is Some || !record.placement.affinity.has(cpu)
    }

    /// What becomes of the running thread of a CPU.
    pub open spec fn schedule_out_step(&self, cpu: CpuId, thread: ThreadId, reason: EnqueueReason, now_ns: u64) -> ScheduleOut {
        let local = self.cpu(cpu);
        let queue = local.queue();
        match self.record(thread) {
            None => if self.online(cpu) {
                ScheduleOut::Refused(TaskError::StaleThreadId)
            } else {
                ScheduleOut::Refused(TaskError::CpuOffline(cpu.index))
            },
            Some(record) => if !self.online(cpu) {
                ScheduleOut::Refused(TaskError::CpuOffline(cpu.index))
            } else if record.lifecycle != ThreadState::Running
                || record.placement.executing_on() != Some(cpu) {
                ScheduleOut::Refused(TaskError::InvalidConfiguration)
            } else if Self::must_leave(&record, cpu) {
                match self.leave_target(&record, cpu) {
                    Some(target) => if can_lift(&queue, &record) && can_expect(
                        self.cpu(target),
                        (state_at(&queue, &record, SchedulePosition::Running)->0).policy.load(),
                    ) {
                        ScheduleOut::Migrate { target }
                    } else {
                        ScheduleOut::Refused(TaskError::InvalidConfiguration)
                    },
                    None => ScheduleOut::Refused(TaskError::InvalidConfiguration),
                }
            } else if starves(&queue, &record) {
                if can_lift(&queue, &record) {
                    ScheduleOut::Throttle
                } else {
                    ScheduleOut::Refused(TaskError::InvalidConfiguration)
                }
            } else if local.idle == Some(thread) {
                ScheduleOut::Idle
            } else if state_at(&queue, &record, SchedulePosition::Running) is None {
                ScheduleOut::Refused(TaskError::InvalidConfiguration)
            } else if queue.linked() == Some(thread) {
                ScheduleOut::PutPrev
            } else if can_requeue(local, &record, cpu, reason, now_ns) {
                ScheduleOut::Requeue
            } else {
                ScheduleOut::Refused(TaskError::InvalidConfiguration)
            },
        }
    }

    fn plan_schedule_out(&self, cpu: CpuId, thread: ThreadId, reason: EnqueueReason, now_ns: u64) -> (step: ScheduleOut)
        requires
            self.wf(),
            self.has_cpu(cpu),
        ensures
            step == self.schedule_out_step(cpu, thread, reason, now_ns),
            step matches ScheduleOut::Migrate { target } ==> self.has_cpu(target) && target != cpu,
    {
        if let Err(error) = self.ensure_owner_cpu_online(cpu) {
            return ScheduleOut::Refused(error);
        }
        let record = match self.thread_record(thread) {
            Ok(record) => record,
            Err(error) => {
                return ScheduleOut::Refused(error);
            },
        };
        assert(self.cpus@[cpu.index as int].wf());
        let local = &self.cpus[cpu.index as usize];
        let queue = &local.remote.run_queue.queue;
        let here = match record.placement.execution_cpu() {
            Some(executing) => executing == cpu,
            None => false,
        };
        if record.lifecycle != ThreadState::Running || !here {
            return ScheduleOut::Refused(TaskError::InvalidConfiguration);
        }
        let state = find_state(queue, record, SchedulePosition::Running);
        if record.placement.migration_request.is_some() || !record.placement.affinity.contains(
            cpu,
        ) {
            let target = match self.find_leave_target(record, cpu) {
                Some(target) => target,
                None => {
                    return ScheduleOut::Refused(TaskError::InvalidConfiguration);
                },
            };
            if !may_lift(queue, record) {
                return ScheduleOut::Refused(TaskError::InvalidConfiguration);
            }
            let demand: u64 = state.unwrap().policy.placement_demand();
            let incoming: u64 =
                self.cpus[target.index as usize].remote.load.incoming_migration_demand;
            return if incoming <= u64::MAX - demand {
                ScheduleOut::Migrate { target }
            } else {
                ScheduleOut::Refused(TaskError::InvalidConfiguration)
            };
        }
        let starving = match state {
            Some(active) => active.entity().is_deadline_throttled()
                && !queue.current.unwrap().pi_critical_rescue,
            None => false,
        };
        if starving {
            return if may_lift(queue, record) {
                ScheduleOut::Throttle
            } else {
                ScheduleOut::Refused(TaskError::InvalidConfiguration)
            };
        }
        let idle = match local.idle {
            Some(idle) => idle == thread,
            None => false,
        };
        if idle {
            return ScheduleOut::Idle;
        }
        if state.is_none() {
            return ScheduleOut::Refused(TaskError::InvalidConfiguration);
        }
        if queue.is_linked_current(thread) {
            return ScheduleOut::PutPrev;
        }
        if may_requeue(local, record, cpu, reason, now_ns) {
            ScheduleOut::Requeue
        } else {
            ScheduleOut::Refused(TaskError::InvalidConfiguration)
        }
    }

    /// The system after the running thread of a CPU was sent off to another.
    pub open spec fn runner_sent_off(&self, before: &Self, cpu: CpuId, thread: ThreadId, target: CpuId) -> bool {
        let record = before.record(thread)->0;
        let queue = before.cpu(cpu).queue();
        let active = state_at(&queue, &record, SchedulePosition::Running)->0;
        exists|freed: RunQueue|
            #[trigger] lifted(&freed, &queue, &record) && self.relinked(
                before,
                sent_off(
                    record,
                    captured(active, &queue, before.config.timing_granularity_ns),
                    target,
                ),
                before.cpus@.update(
                    target.index as int,
                    expecting(before.cpu(target), active.policy.load()),
                ).update(cpu.index as int, with_queue(before.cpu(cpu), freed).vacated()),
                before.root_domain,
            )
    }

    fn send_runner_off(&mut self, cpu: CpuId, thread: ThreadId, target: CpuId) -> (migration: PreparedMigrationDelivery)
        requires
            old(self).wf(),
            old(self).has_cpu(cpu),
            old(self).has_cpu(target),
            target != cpu,
            old(self).record(thread) is Some,
            can_lift(&old(self).cpu(cpu).queue(), &(old(self).record(thread)->0)),
            can_expect(
                old(self).cpu(target),
                (state_at(
                    &old(self).cpu(cpu).queue(),
                    &(old(self).record(thread)->0),
                    SchedulePosition::Running,
                )->0).policy.load(),
            ),
            (old(self).record(thread)->0).placement.executing_on() == Some(cpu),
        ensures
            final(self).runner_sent_off(old(self), cpu, thread, target),
            migration == (PreparedMigrationDelivery {
                thread,
                source: cpu,
                target,
                placement_demand: (state_at(
                    &old(self).cpu(cpu).queue(),
                    &(old(self).record(thread)->0),
                    SchedulePosition::Running,
                )->0).policy.load(),
            }),
            final(self).wf(),
    {
        let ghost before = *self;
        let at: usize = cpu.index as usize;
        let to: usize = target.index as usize;
        assert(before.cpus@[at as int].wf());
        assert(before.cpus@[to as int].wf());
        let granularity_ns: u64 = self.config.timing_granularity_ns;
        let mut record = self.take_record(thread);
        let ghost start = record;
        let active = find_state(
            &self.cpus[at].remote.run_queue.queue,
            &record,
            SchedulePosition::Running,
        ).unwrap();
        let demand: u64 = active.policy.placement_demand();
        expect_on(&mut self.cpus[to], demand);
        let ghost expects = self.cpus@;
        proof {
            assert(expects =~= before.cpus@.update(
                to as int,
                expecting(before.cpu(target), demand),
            ));
            cpus_wf_after(before.cpus@, expects, to as int);
            assert(expects[at as int] == before.cpus@[at as int]);
        }
        send_off(&mut self.cpus[at], &mut record, cpu, target, granularity_ns);
        proof {
            assert(self.cpus@ =~= expects.update(at as int, self.cpus@[at as int]));
            cpus_wf_after(expects, self.cpus@, at as int);
        }
        self.put_record(record);
        proof {
            assert(self.slots@ =~= with_record(before.slots@, record));
        }
        PreparedMigrationDelivery { thread, source: cpu, target, placement_demand: demand }
    }

    /// The system after the running thread of a CPU was taken off it.
    pub open spec fn scheduled_out(&self, before: &Self, cpu: CpuId, thread: ThreadId, reason: EnqueueReason, now_ns: u64, monotonic_now: MonotonicInstant, step: ScheduleOut) -> bool {
        let record = before.record(thread)->0;
        let local = before.cpu(cpu);
        let active = state_at(&local.queue(), &record, SchedulePosition::Running)->0;
        match step {
            ScheduleOut::Refused(_) => *self == *before,
            ScheduleOut::Migrate { target } => self.runner_sent_off(before, cpu, thread, target),
            ScheduleOut::Throttle => exists|freed: RunQueue|
                #[trigger] lifted(&freed, &local.queue(), &record) && self.relinked(
                    before,
                    starved(record, active),
                    before.cpus@.update(cpu.index as int, with_queue(local, freed).vacated()),
                    before.root_domain,
                ),
            ScheduleOut::Idle => self.relinked(
                before,
                ThreadRecord { lifecycle: ThreadState::Ready, ..record },
                before.cpus@.update(cpu.index as int, local.vacated()),
                before.root_domain,
            ),
            ScheduleOut::PutPrev => exists|queue: RunQueue|
                #[trigger] runner_put_back(&queue, &local.queue(), thread, reason) && self.relinked(
                    before,
                    put_back(record, active.policy, active.effective(), cpu),
                    before.cpus@.update(
                        cpu.index as int,
                        entry_noted(with_queue(local, queue).vacated(), cpu, reason, false),
                    ),
                    before.root_domain.rt_activated_if(queue.has_rt_thread(), cpu, monotonic_now),
                ),
            ScheduleOut::Requeue => exists|placed: SchedulingEntity|
                #[trigger] requeued(
                    self.cpu(cpu),
                    local,
                    waiting_again(record, active),
                    cpu,
                    placed,
                    reason,
                    now_ns,
                ) && self.relinked(
                    before,
                    record_entered(waiting_again(record, active), cpu, placed, reason, now_ns),
                    before.cpus@.update(cpu.index as int, self.cpu(cpu)),
                    before.root_domain.rt_activated_if(
                        self.cpu(cpu).queue().has_rt_thread(),
                        cpu,
                        monotonic_now,
                    ),
                ),
        }
    }

    fn starve_runner(&mut self, cpu: CpuId, thread: ThreadId)
        requires
            old(self).wf(),
            old(self).has_cpu(cpu),
            old(self).record(thread) is Some,
            can_lift(&old(self).cpu(cpu).queue(), &(old(self).record(thread)->0)),
            (old(self).record(thread)->0).placement.executing_on() == Some(cpu),
        ensures
            exists|freed: RunQueue|
                #[trigger] lifted(
                    &freed,
                    &old(self).cpu(cpu).queue(),
                    &(old(self).record(thread)->0),
                ) && final(self).relinked(
                    old(self),
                    starved(
                        old(self).record(thread)->0,
                        state_at(
                            &old(self).cpu(cpu).queue(),
                            &(old(self).record(thread)->0),
                            SchedulePosition::Running,
                        )->0,
                    ),
                    old(self).cpus@.update(
                        cpu.index as int,
                        with_queue(old(self).cpu(cpu), freed).vacated(),
                    ),
                    old(self).root_domain,
                ),
            final(self).wf(),
    {
        let ghost before = *self;
        let at: usize = cpu.index as usize;
        assert(before.cpus@[at as int].wf());
        let mut record = self.take_record(thread);
        starve(&mut self.cpus[at], &mut record, cpu);
        proof {
            assert(self.cpus@ =~= before.cpus@.update(at as int, self.cpus@[at as int]));
            cpus_wf_after(before.cpus@, self.cpus@, at as int);
        }
        self.put_record(record);
        assert(self.slots@ =~= with_record(before.slots@, record));
    }

    fn stop_idling(&mut self, cpu: CpuId, thread: ThreadId)
        requires
            old(self).wf(),
            old(self).has_cpu(cpu),
            old(self).record(thread) is Some,
        ensures
            final(self).relinked(
                old(self),
                (ThreadRecord { lifecycle: ThreadState::Ready, ..(old(self).record(thread)->0) }),
                old(self).cpus@.update(cpu.index as int, old(self).cpu(cpu).vacated()),
                old(self).root_domain,
            ),
            final(self).wf(),
    {
        let ghost before = *self;
        let at: usize = cpu.index as usize;
        assert(before.cpus@[at as int].wf());
        let mut record = self.take_record(thread);
        record.lifecycle = ThreadState::Ready;
        self.cpus[at].clear_current();
        proof {
            assert(self.cpus@ =~= before.cpus@.update(at as int, self.cpus@[at as int]));
            cpus_wf_after(before.cpus@, self.cpus@, at as int);
        }
        self.put_record(record);
        assert(self.slots@ =~= with_record(before.slots@, record));
    }

    fn put_runner_back(&mut self, cpu: CpuId, thread: ThreadId, reason: EnqueueReason, monotonic_now: MonotonicInstant)
        requires
            old(self).wf(),
            old(self).has_cpu(cpu),
            old(self).record(thread) is Some,
            old(self).cpu(cpu).queue().linked() == Some(thread),
            (old(self).record(thread)->0).placement.can_put_prev(cpu),
        ensures
            ({
                let local = old(self).cpu(cpu);
                let active = local.queue().record(thread).active;
                exists|queue: RunQueue|
                    #[trigger] runner_put_back(&queue, &local.queue(), thread, reason) && final(self).relinked(
                        old(self),
                        put_back(
                            old(self).record(thread)->0,
                            active.policy,
                            active.effective(),
                            cpu,
                        ),
                        old(self).cpus@.update(
                            cpu.index as int,
                            entry_noted(with_queue(local, queue).vacated(), cpu, reason, false),
                        ),
                        old(self).root_domain.rt_activated_if(
                            queue.has_rt_thread(),
                            cpu,
                            monotonic_now,
                        ),
                    )
            }),
            final(self).wf(),
    {
        let ghost before = *self;
        let at: usize = cpu.index as usize;
        assert(before.cpus@[at as int].wf());
        let mut record = self.take_record(thread);
        let (realtime, Ghost(queue)) = put_prev_noted(
            &mut self.cpus[at],
            &mut record,
            cpu,
            reason,
        );
        if realtime {
            let _ = self.root_domain.activate_rt_period(cpu, monotonic_now);
        }
        proof {
            assert(self.cpus@ =~= before.cpus@.update(at as int, self.cpus@[at as int]));
            cpus_wf_after(before.cpus@, self.cpus@, at as int);
            assert(runner_put_back(&queue, &before.cpu(cpu).queue(), thread, reason));
        }
        self.put_record(record);
        assert(self.slots@ =~= with_record(before.slots@, record));
    }

    fn requeue_runner(&mut self, cpu: CpuId, thread: ThreadId, reason: EnqueueReason, now_ns: u64, monotonic_now: MonotonicInstant)
        requires
            old(self).wf(),
            old(self).has_cpu(cpu),
            old(self).record(thread) is Some,
            can_requeue(
                old(self).cpu(cpu),
                &(old(self).record(thread)->0),
                cpu,
                reason,
                now_ns,
            ),
        ensures
            ({
                let local = old(self).cpu(cpu);
                let waiting = waiting_again(
                    old(self).record(thread)->0,
                    (local.queue().current->0).schedule->Owned_0,
                );
                exists|placed: SchedulingEntity|
                    #[trigger] requeued(
                        final(self).cpu(cpu),
                        local,
                        waiting,
                        cpu,
                        placed,
                        reason,
                        now_ns,
                    ) && final(self).relinked(
                        old(self),
                        record_entered(waiting, cpu, placed, reason, now_ns),
                        old(self).cpus@.update(cpu.index as int, final(self).cpu(cpu)),
                        old(self).root_domain.rt_activated_if(
                            final(self).cpu(cpu).queue().has_rt_thread(),
                            cpu,
                            monotonic_now,
                        ),
                    )
            }),
            final(self).wf(),
    {
        let ghost before = *self;
        let at: usize = cpu.index as usize;
        assert(before.cpus@[at as int].wf());
        let mut record = self.take_record(thread);
        let placed = requeue(&mut self.cpus[at], &mut record, cpu, reason, now_ns);
        proof {
            assert(self.cpus@ =~= before.cpus@.update(at as int, self.cpus@[at as int]));
            cpus_wf_after(before.cpus@, self.cpus@, at as int);
        }
        if self.cpus[at].remote.run_queue.queue.has_rt() {
            let _ = self.root_domain.activate_rt_period(cpu, monotonic_now);
        }
        self.put_record(record);
        assert(self.slots@ =~= with_record(before.slots@, record));
    }

    /// Takes the running thread off its CPU: it is sent to another CPU, parked
    /// without budget, or waits again. The message about a thread that was sent
    /// off is delivered when its stack is free.
    pub fn schedule_out_owner_running(&mut self, cpu: CpuId, thread: ThreadId, reason: EnqueueReason, now_ns: u64, monotonic_now: MonotonicInstant) -> (result: Result<
        Option<PreparedMigrationDelivery>,
        TaskError,
    >)
        requires
            old(self).wf(),
            old(self).has_cpu(cpu),
        ensures
            ({
                let step = old(self).schedule_out_step(cpu, thread, reason, now_ns);
                let queue = old(self).cpu(cpu).queue();
                let active = state_at(
                    &queue,
                    &(old(self).record(thread)->0),
                    SchedulePosition::Running,
                )->0;
                &&& final(self).scheduled_out(
                    old(self),
                    cpu,
                    thread,
                    reason,
                    now_ns,
                    monotonic_now,
                    step,
                )
                &&& result == match step {
                    ScheduleOut::Refused(error) => Err::<
                        Option<PreparedMigrationDelivery>,
                        TaskError,
                    >(error),
                    ScheduleOut::Migrate { target } => Ok(
                        Some(
                            PreparedMigrationDelivery {
                                thread,
                                source: cpu,
                                target,
                                placement_demand: active.policy.load(),
                            },
                        ),
                    ),
                    _ => Ok(None),
                }
            }),
            final(self).wf(),
    {
        let step = self.plan_schedule_out(cpu, thread, reason, now_ns);
        assert(self.record(thread) is Some ==> self.slots@[thread.slot as int].wf_at(
            thread.slot as int,
        ));
        match step {
            ScheduleOut::Refused(error) => {
                return Err(error);
            },
            ScheduleOut::Migrate { target } => {
                return Ok(Some(self.send_runner_off(cpu, thread, target)));
            },
            ScheduleOut::Throttle => {
                self.starve_runner(cpu, thread);
            },
            ScheduleOut::Idle => {
                self.stop_idling(cpu, thread);
            },
            ScheduleOut::PutPrev => {
                self.put_runner_back(cpu, thread, reason, monotonic_now);
            },
            ScheduleOut::Requeue => {
                self.requeue_runner(cpu, thread, reason, now_ns, monotonic_now);
            },
        }
        Ok(None)
    }
}

} // verus!
