//! Answers to an idle CPU that asks for a thread.
use vstd::prelude::*;
use crate::cpu::inbox::{IdlePullReservation, IdlePullState};
use crate::cpu::local::CpuLocal;
use crate::cpu::remote::CpuRemote;
use crate::error::TaskError;
use crate::ids::{CpuId, ThreadId};
use crate::scheduler::balance::none_movable;
use crate::scheduler::realtime::RT_PRIORITY_LEVELS;
use crate::scheduler::run_queue::{QueueMembershipClass, RunQueue};
use crate::scheduler::task::QueuedThread;
use crate::system::affinity::AffinityStep;
use crate::system::task_system::{TaskSystem, cpus_wf_after, with_queue};
use crate::thread::placement::TaskOnRunQueue;

verus! {

/// Whether a queued thread may leave its CPU.
pub fn may_leave(thread: &QueuedThread) -> (may: bool)
    ensures
        may == thread.migration_capable,
{
    thread.migration_capable
}

/// The run queue after a new scan offered its first thread.
#[verifier::opaque]
pub open spec fn offered(after: &RunQueue, before: &RunQueue, candidate: Option<ThreadId>) -> bool {
    if before.balance_scan_epoch == u64::MAX {
        *after == *before && candidate is None
    } else {
        let epoch = (before.balance_scan_epoch + 1) as u64;
        let scanned = RunQueue { balance_scan_epoch: epoch, ..*before };
        match candidate {
            Some(id) => exists|class: QueueMembershipClass, at: int|
                #[trigger] scanned.is_next_candidate(may_leave, epoch, class, at) && {
                    let list = scanned.list_of(class);
                    &&& class.valid()
                    &&& id == list[at].id
                    &&& after.list_of(class) == list.update(
                        at,
                        QueuedThread { balance_scan_epoch: epoch, ..list[at] },
                    )
                    &&& after.only_list_changed(&scanned, class)
                    &&& after.membership@ == scanned.membership@
                    &&& after.same_ledger(&scanned)
                    &&& after.same_times(&scanned)
                    &&& after.same_counters(&scanned)
                    &&& after.same_rt_pushable(&scanned)
                },
            None => {
                &&& *after == scanned
                &&& none_movable(may_leave, scanned.linked(), epoch, scanned.deadline.entries@)
                &&& forall|q: int|
                    0 <= q < RT_PRIORITY_LEVELS ==> none_movable(
                        may_leave,
                        scanned.linked(),
                        epoch,
                        #[trigger] scanned.rt.levels@[q]@,
                    )
                &&& none_movable(may_leave, scanned.linked(), epoch, scanned.fair.entries@)
            },
        }
    }
}

/// Offers the first thread that may leave.
fn offer(queue: &mut RunQueue) -> (candidate: Option<ThreadId>)
    requires
        old(queue).wf(),
    ensures
        offered(final(queue), old(queue), candidate),
        final(queue).current == old(queue).current,
        final(queue).same_ledger(old(queue)),
        final(queue).membership@ == old(queue).membership@,
        final(queue).wf(),
{
    proof {
        reveal(offered);
    }
    if queue.balance_scan_epoch == u64::MAX {
        return None;
    }
    let epoch: u64 = queue.begin_balance_scan();
    match queue.next_balance_candidate(epoch, may_leave) {
        Some(snapshot) => Some(snapshot.id),
        None => None,
    }
}

/// A CPU with another state of its request for a thread.
pub open spec fn with_pull(cpu: CpuLocal, idle_pull: IdlePullState) -> CpuLocal {
    cpu.with_remote(CpuRemote { idle_pull, ..cpu.remote })
}

/// A request for a thread that was answered.
pub open spec fn pull_released(state: IdlePullState, reservation: IdlePullReservation) -> IdlePullState {
    if state.reservation == Some(reservation) {
        IdlePullState { reservation: None, committed: false, ..state }
    } else {
        state
    }
}

impl TaskSystem {
    /// Whether a thread that waits on a CPU can be sent to another.
    pub open spec fn sendable(&self, cpu: CpuId, thread: ThreadId, target: CpuId) -> bool {
        match self.record(thread) {
            None => false,
            Some(record) => record.placement.on_rq == TaskOnRunQueue::Queued
                && record.placement.task_cpu == Some(cpu) && record.placement.affinity.has(target)
                && self.affinity_step_to(cpu, &record, target) == Ok::<AffinityStep, TaskError>(
                AffinityStep::Transfer { target },
            ),
        }
    }

    fn may_send(&self, cpu: CpuId, thread: ThreadId, target: CpuId) -> (may: bool)
        requires
            self.wf(),
            self.has_cpu(cpu),
            self.has_cpu(target),
        ensures
            may == self.sendable(cpu, thread, target),
    {
        let record = match self.thread_record(thread) {
            Ok(record) => record,
            Err(_) => {
                return false;
            },
        };
        let here = match record.placement.queued_cpu() {
            Some(owner) => owner == cpu,
            None => false,
        };
        if !here || !record.placement.affinity.contains(target) {
            return false;
        }
        match self.plan_queued_affinity(cpu, record, target) {
            Ok(AffinityStep::Transfer { target: _ }) => true,
            _ => false,
        }
    }

    /// The system after a CPU offered its first thread.
    pub open spec fn offered_on(&self, before: &Self, cpu: CpuId, candidate: Option<ThreadId>) -> bool {
        &&& offered(&self.cpu(cpu).queue(), &before.cpu(cpu).queue(), candidate)
        &&& self.cpu_becomes(
            before,
            cpu,
            with_queue(before.cpu(cpu), self.cpu(cpu).queue()),
        )
    }

    fn offer_on(&mut self, cpu: CpuId) -> (candidate: Option<ThreadId>)
        requires
            old(self).wf(),
            old(self).has_cpu(cpu),
        ensures
            final(self).offered_on(old(self), cpu, candidate),
            final(self).wf(),
    {
        let ghost before = *self;
        let at: usize = cpu.index as usize;
        assert(before.cpus@[at as int].wf());
        let candidate = offer(&mut self.cpus[at].remote.run_queue.queue);
        proof {
            assert(self.cpus@ =~= before.cpus@.update(at as int, self.cpus@[at as int]));
            cpus_wf_after(before.cpus@, self.cpus@, at as int);
        }
        candidate
    }

    /// The system after a CPU tried to send its first thread to another.
    #[verifier::opaque]
    pub open spec fn balanced_to(&self, before: &Self, cpu: CpuId, target: CpuId, migrated: bool) -> bool {
        exists|scanned: TaskSystem, candidate: Option<ThreadId>|
            #[trigger] scanned.offered_on(before, cpu, candidate) && scanned.wf() && match candidate {
                Some(thread) => if scanned.sendable(cpu, thread, target) {
                    migrated && self.transferred(&scanned, cpu, thread, target)
                } else {
                    !migrated && *self == scanned
                },
                None => !migrated && *self == scanned,
            }
    }

    /// Sends the first thread of a CPU that may leave it to another CPU. Says
    /// whether one went.
    pub(crate) fn transfer_owner_balance_candidate(&mut self, cpu: CpuId, target: CpuId) -> (migrated: bool)
        requires
            old(self).wf(),
            old(self).has_cpu(cpu),
            old(self).has_cpu(target),
        ensures
            final(self).balanced_to(old(self), cpu, target, migrated),
            final(self).cpus@.len() == old(self).cpus@.len(),
            final(self).wf(),
    {
        proof {
            reveal(TaskSystem::balanced_to);
        }
        let ghost before = *self;
        let candidate = self.offer_on(cpu);
        let ghost scanned = *self;
        assert(scanned.offered_on(&before, cpu, candidate));
        match candidate {
            Some(thread) => {
                if self.may_send(cpu, thread, target) {
                    self.transfer_waiting(cpu, thread, target);
                    true
                } else {
                    false
                }
            },
            None => false,
        }
    }

    fn set_pull(&mut self, target: CpuId, idle_pull: IdlePullState)
        requires
            old(self).wf(),
            old(self).has_cpu(target),
        ensures
            final(self).cpu_becomes(old(self), target, with_pull(old(self).cpu(target), idle_pull)),
            final(self).wf(),
    {
        let ghost before = *self;
        let at: usize = target.index as usize;
        assert(before.cpus@[at as int].wf());
        self.cpus[at].remote.idle_pull = idle_pull;
        proof {
            assert(self.cpus@ =~= before.cpus@.update(at as int, self.cpus@[at as int]));
            cpus_wf_after(before.cpus@, self.cpus@, at as int);
        }
    }

    /// The system with the request of an idle CPU ended.
    #[verifier::opaque]
    pub open spec fn pull_ended(&self, before: &Self, target: CpuId, reservation: IdlePullReservation) -> bool {
        self.cpu_becomes(
            before,
            target,
            with_pull(
                before.cpu(target),
                pull_released(before.cpu(target).remote.idle_pull, reservation),
            ),
        )
    }

    fn end_pull(&mut self, target: CpuId, reservation: IdlePullReservation)
        requires
            old(self).wf(),
            old(self).has_cpu(target),
        ensures
            final(self).pull_ended(old(self), target, reservation),
            final(self).cpus@.len() == old(self).cpus@.len(),
            final(self).wf(),
    {
        proof {
            reveal(TaskSystem::pull_ended);
        }
        let mut state = self.cpus[target.index as usize].remote.idle_pull;
        state.release(reservation);
        self.set_pull(target, state);
    }

    /// Whether a CPU shows more work than it can do.
    pub open spec fn overloaded(&self, cpu: CpuId) -> bool {
        match self.cpu(cpu).remote.load.summary() {
            Some(summary) => summary.overloaded,
            None => false,
        }
    }

    /// The system with a CPU kicked.
    pub open spec fn kicked_on(&self, before: &Self, cpu: CpuId, by: CpuId) -> bool {
        self.cpu_becomes(
            before,
            cpu,
            before.cpu(cpu).with_remote(before.cpu(cpu).remote.kicked(by)),
        )
    }

    /// The system after a CPU answered an idle one. A withdrawn request is not
    /// answered; one that cannot be met wakes the idle CPU up.
    pub open spec fn pull_answered(&self, before: &Self, cpu: CpuId, target: CpuId, reservation: IdlePullReservation) -> bool {
        let state = before.cpu(target).remote.idle_pull;
        if !state.claimable(reservation) {
            *self == *before
        } else if !before.overloaded(cpu) {
            exists|ended: TaskSystem|
                #[trigger] ended.pull_ended(before, target, reservation) && self.kicked_on(
                    &ended,
                    target,
                    cpu,
                )
        } else {
            exists|fixed: TaskSystem, moved: TaskSystem, ended: TaskSystem, migrated: bool| {
                &&& #[trigger] fixed.cpu_becomes(
                    before,
                    target,
                    with_pull(before.cpu(target), IdlePullState { committed: true, ..state }),
                )
                &&& fixed.wf()
                &&& #[trigger] moved.balanced_to(&fixed, cpu, target, migrated)
                &&& #[trigger] ended.pull_ended(&moved, target, reservation)
                &&& if migrated {
                    *self == ended
                } else {
                    self.kicked_on(&ended, target, cpu)
                }
            }
        }
    }

    /// Answers an idle CPU that asks for a thread.
    pub(crate) fn answer_pull(&mut self, cpu: CpuId, target: CpuId, reservation: IdlePullReservation)
        requires
            old(self).wf(),
            old(self).has_cpu(cpu),
            old(self).has_cpu(target),
        ensures
            final(self).pull_answered(old(self), cpu, target, reservation),
            final(self).cpus@.len() == old(self).cpus@.len(),
            final(self).wf(),
    {
        let ghost before = *self;
        let mut state = self.cpus[target.index as usize].remote.idle_pull;
        if !state.claim(reservation) {
            return;
        }
        let overloaded = match self.cpus[cpu.index as usize].remote.try_load_summary() {
            Some(summary) => summary.is_overloaded(),
            None => false,
        };
        if !overloaded {
            self.end_pull(target, reservation);
            let ghost ended = *self;
            assert(ended.pull_ended(&before, target, reservation));
            self.kick_cpu(target, cpu);
            return;
        }
        let _ = state.commit(reservation);
        self.set_pull(target, state);
        let ghost fixed = *self;
        let migrated = self.transfer_owner_balance_candidate(cpu, target);
        let ghost moved = *self;
        assert(moved.balanced_to(&fixed, cpu, target, migrated));
        self.end_pull(target, reservation);
        let ghost ended = *self;
        assert(ended.pull_ended(&moved, target, reservation));
        if !migrated {
            self.kick_cpu(target, cpu);
        }
    }
}

} // verus!
