//! The exit of the running thread.
use vstd::prelude::*;
use crate::cpu::doorbell::{SchedulerDoorbell, SchedulerRequestClaim};
use crate::cpu::local::CpuLocal;
use crate::error::{TaskError, ThreadState};
use crate::ids::{CpuId, ThreadId};
use crate::scheduler::run_queue::RunQueue;
use crate::scheduler::task::ActiveSchedulingState;
use crate::system::bandwidth::{
    can_detach, detach_deadline_bandwidth, detached, ledger_detached, may_detach,
};
use crate::system::park::{ScheduleDecision, SwitchReason, claimed};
use crate::system::restate::{SchedulePosition, state_at};
use crate::system::switch_out::{can_lift, lift_running, lifted, may_lift};
use crate::system::switch_tail::SwitchInCompletion;
use crate::system::task_system::{TaskSystem, cpus_wf_after, with_queue, with_record};
use crate::thread::placement::{TaskOnRunQueue, ThreadPlacementState};
use crate::thread::record::{DeadlineReservation, ThreadPolicyState, ThreadRecord};
use crate::time::MonotonicInstant;

verus! {

/// The leave of a thread to exit. No message about the thread is heard any
/// more.
#[derive(Clone, Copy, Debug, PartialEq, Eq, Structural)]
pub struct CurrentExitPermit {
    pub thread: ThreadId,
}

impl CurrentExitPermit {
    pub fn thread(&self) -> (thread: ThreadId)
        ensures
            thread == self.thread,
    {
        self.thread
    }
}

/// The bandwidth that admission holds for a thread.
pub open spec fn held_reservation(record: &ThreadRecord) -> u64 {
    match record.policy.pending {
        Some(pending) => if pending.reservation_scaled > record.deadline.reservation_scaled {
            pending.reservation_scaled
        } else {
            record.deadline.reservation_scaled
        },
        None => record.deadline.reservation_scaled,
    }
}

fn find_held_reservation(record: &ThreadRecord) -> (held: u64)
    ensures
        held == held_reservation(record),
{
    match record.policy.pending {
        Some(pending) => if pending.reservation_scaled > record.deadline.reservation_scaled {
            pending.reservation_scaled
        } else {
            record.deadline.reservation_scaled
        },
        None => record.deadline.reservation_scaled,
    }
}

/// The record of a thread that exited.
pub open spec fn gone(record: ThreadRecord, active: ActiveSchedulingState) -> ThreadRecord {
    let free = detached(record);
    ThreadRecord {
        lifecycle: ThreadState::Exited,
        policy: ThreadPolicyState { active: Some(active), pending: None, ..free.policy },
        deadline: DeadlineReservation { reservation_scaled: 0, ..free.deadline },
        placement: ThreadPlacementState {
            on_rq: TaskOnRunQueue::Off,
            migration_request: None,
            ..free.placement
        },
        ..free
    }
}

/// The CPU and the record after the running thread exited.
#[verifier::opaque]
pub open spec fn left_for_good(after: CpuLocal, settled: ThreadRecord, before: CpuLocal, record: ThreadRecord) -> bool {
    let active = state_at(&before.queue(), &record, SchedulePosition::Running)->0;
    exists|freed: RunQueue, rid: RunQueue|
        #[trigger] lifted(&freed, &before.queue(), &record) && #[trigger] ledger_detached(
            &rid,
            &freed,
            &record,
        ) && after == with_queue(before, rid).vacated() && settled == gone(record, active)
}

/// Lets the running thread of a CPU exit.
fn leave_for_good(local: &mut CpuLocal, record: &mut ThreadRecord, owner: CpuId)
    requires
        old(local).wf(),
        old(record).wf(),
        can_lift(&old(local).queue(), old(record)),
        can_detach(&old(local).queue(), old(record), owner),
        old(record).placement.can_block_current(owner),
    ensures
        left_for_good(*final(local), *final(record), *old(local), *old(record)),
        final(record).id == old(record).id,
        final(local).remote.owner == old(local).remote.owner,
        final(local).wf(),
        final(record).wf(),
{
    let active = lift_running(&mut local.remote.run_queue.queue, record);
    let ghost freed = local.queue();
    detach_deadline_bandwidth(&mut local.remote.run_queue.queue, record, owner);
    let ghost rid = local.queue();
    record.lifecycle = ThreadState::Exited;
    record.policy.active = Some(active);
    record.policy.pending = None;
    record.deadline.reservation_scaled = 0;
    record.placement.block_current(owner);
    local.clear_current();
    proof {
        reveal(left_for_good);
        assert(lifted(&freed, &old(local).queue(), old(record)));
        assert(ledger_detached(&rid, &freed, old(record)));
        assert(*local == with_queue(*old(local), rid).vacated());
    }
}

/// A CPU whose owner serves what was asked of it.
pub open spec fn request_claimed(cpu: CpuLocal) -> CpuLocal {
    cpu.with_remote(
        cpu.remote.with_doorbell(
            SchedulerDoorbell { preempt: false, owner_work: false, ..cpu.remote.doorbell },
        ),
    )
}

impl TaskSystem {
    /// Why the running thread of a CPU may not exit.
    pub open spec fn exit_error(&self, cpu: CpuId, needs_context: bool) -> Option<TaskError> {
        match self.cpu(cpu).current {
            None => Some(TaskError::NoRunnableThread),
            Some(thread) => if self.cpu(cpu).idle == Some(thread) {
                Some(TaskError::InvalidConfiguration)
            } else {
                match self.record(thread) {
                    None => Some(TaskError::NoRunnableThread),
                    Some(record) => if record.exiting {
                        Some(TaskError::ThreadBusy)
                    } else if !self.online(cpu) {
                        Some(TaskError::CpuOffline(cpu.index))
                    } else if record.lifecycle != ThreadState::Running {
                        Some(
                            TaskError::InvalidTransition {
                                from: record.lifecycle,
                                to: ThreadState::Exited,
                            },
                        )
                    } else if record.pi.blocked_on is Some || record.pi.donors.entries@.len() > 0 {
                        Some(TaskError::InvalidPiState)
                    } else if record.placement.executing_on() != Some(cpu) {
                        Some(TaskError::ThreadBusy)
                    } else if needs_context && !record.has_context {
                        Some(TaskError::InvalidRuntimeHandle)
                    } else {
                        None
                    },
                }
            },
        }
    }

    fn check_exit(&self, cpu: CpuId, needs_context: bool) -> (result: Result<ThreadId, TaskError>)
        requires
            self.wf(),
            self.has_cpu(cpu),
        ensures
            match result {
                Ok(thread) => self.exit_error(cpu, needs_context) is None && self.cpu(cpu).current
                    == Some(thread) && self.record(thread) is Some,
                Err(error) => self.exit_error(cpu, needs_context) == Some(error),
            },
    {
        let local = &self.cpus[cpu.index as usize];
        let thread = match local.current {
            Some(thread) => thread,
            None => {
                return Err(TaskError::NoRunnableThread);
            },
        };
        if let Some(idle) = local.idle {
            if idle == thread {
                return Err(TaskError::InvalidConfiguration);
            }
        }
        let record = match self.thread_record(thread) {
            Ok(record) => record,
            Err(_) => {
                return Err(TaskError::NoRunnableThread);
            },
        };
        if record.exiting {
            return Err(TaskError::ThreadBusy);
        }
        if !local.is_online() {
            return Err(TaskError::CpuOffline(cpu.index));
        }
        if record.lifecycle != ThreadState::Running {
            return Err(
                TaskError::InvalidTransition { from: record.lifecycle, to: ThreadState::Exited },
            );
        }
        if record.has_live_pi_edges() {
            return Err(TaskError::InvalidPiState);
        }
        let here = match record.placement.execution_cpu() {
            Some(executing) => executing == cpu,
            None => false,
        };
        if !here {
            return Err(TaskError::ThreadBusy);
        }
        if needs_context && !record.has_context {
            return Err(TaskError::InvalidRuntimeHandle);
        }
        Ok(thread)
    }

    /// The system in which a thread is marked as one that exits, or is not.
    pub open spec fn exit_marked(&self, before: &Self, thread: ThreadId, exiting: bool) -> bool {
        self.relinked(
            before,
            ThreadRecord { exiting, ..before.record(thread)->0 },
            before.cpus@,
            before.root_domain,
        )
    }

    fn mark_exit(&mut self, thread: ThreadId, exiting: bool)
        requires
            old(self).wf(),
            old(self).record(thread) is Some,
        ensures
            final(self).exit_marked(old(self), thread, exiting),
            final(self).wf(),
    {
        let ghost before = *self;
        let mut record = self.take_record(thread);
        record.exiting = exiting;
        self.put_record(record);
        assert(self.slots@ =~= with_record(before.slots@, record));
    }

    /// The system with the switch of a CPU ended and its inbox worked off, and
    /// the first error on the way.
    pub open spec fn owner_settled(&self, before: &Self, cpu: CpuId, now_ns: u64, monotonic_now: MonotonicInstant, result: Result<(), TaskError>) -> bool {
        exists|switched: TaskSystem, outcome: Result<SwitchInCompletion, TaskError>|
            #[trigger] switched.switch_completed(before, cpu, now_ns, monotonic_now, outcome)
                && switched.wf() && match outcome {
                Err(error) => result == Err::<(), TaskError>(error) && *self == switched,
                Ok(_) => self.owner_work_drained(
                    &switched,
                    cpu,
                    now_ns,
                    monotonic_now,
                    result,
                ),
            }
    }

    fn settle_owner(&mut self, cpu: CpuId, now_ns: u64, monotonic_now: MonotonicInstant) -> (result: Result<(), TaskError>)
        requires
            old(self).wf(),
        ensures
            final(self).owner_settled(old(self), cpu, now_ns, monotonic_now, result),
            result is Ok ==> old(self).has_cpu(cpu),
            final(self).cpus@.len() == old(self).cpus@.len(),
            final(self).wf(),
    {
        let ghost before = *self;
        let outcome = self.complete_context_switch(cpu, now_ns, monotonic_now);
        let ghost switched = *self;
        assert(switched.switch_completed(&before, cpu, now_ns, monotonic_now, outcome));
        match outcome {
            Ok(_) => {},
            Err(error) => {
                return Err(error);
            },
        }
        self.drain_owner_work(cpu, now_ns, monotonic_now)
    }

    /// The system after the running thread of a CPU asked for leave to exit.
    pub open spec fn exit_prepared(&self, before: &Self, cpu: CpuId, needs_context: bool, now_ns: u64, monotonic_now: MonotonicInstant, result: Result<CurrentExitPermit, TaskError>) -> bool {
        exists|settled: TaskSystem, outcome: Result<(), TaskError>|
            #[trigger] settled.owner_settled(before, cpu, now_ns, monotonic_now, outcome)
                && settled.wf() && match outcome {
                Err(error) => result == Err::<CurrentExitPermit, TaskError>(error) && *self
                    == settled,
                Ok(_) => match settled.exit_error(cpu, needs_context) {
                    Some(error) => result == Err::<CurrentExitPermit, TaskError>(error) && *self
                        == settled,
                    None => {
                        let thread = settled.cpu(cpu).current->0;
                        result == Ok::<CurrentExitPermit, TaskError>(
                            CurrentExitPermit { thread },
                        ) && self.exit_marked(&settled, thread, true)
                    },
                },
            }
    }

    fn prepare_exit(&mut self, cpu: CpuId, needs_context: bool, now_ns: u64, monotonic_now: MonotonicInstant) -> (result: Result<CurrentExitPermit, TaskError>)
        requires
            old(self).wf(),
        ensures
            final(self).exit_prepared(
                old(self),
                cpu,
                needs_context,
                now_ns,
                monotonic_now,
                result,
            ),
            result is Ok ==> old(self).has_cpu(cpu),
            final(self).cpus@.len() == old(self).cpus@.len(),
            final(self).wf(),
    {
        let ghost before = *self;
        let outcome = self.settle_owner(cpu, now_ns, monotonic_now);
        let ghost settled = *self;
        assert(settled.owner_settled(&before, cpu, now_ns, monotonic_now, outcome));
        match outcome {
            Ok(_) => {},
            Err(error) => {
                return Err(error);
            },
        }
        match self.check_exit(cpu, needs_context) {
            Err(error) => Err(error),
            Ok(thread) => {
                self.mark_exit(thread, true);
                Ok(CurrentExitPermit { thread })
            },
        }
    }

    /// Gives the running thread of a CPU leave to exit. It needs a context of
    /// its own.
    pub fn prepare_current_exit(&mut self, cpu: CpuId, now_ns: u64, monotonic_now: MonotonicInstant) -> (result: Result<CurrentExitPermit, TaskError>)
        requires
            old(self).wf(),
        ensures
            final(self).exit_prepared(old(self), cpu, true, now_ns, monotonic_now, result),
            final(self).cpus@.len() == old(self).cpus@.len(),
            final(self).wf(),
    {
        self.prepare_exit(cpu, true, now_ns, monotonic_now)
    }

    /// Why a permit cannot be used on a CPU.
    pub open spec fn permit_error(&self, cpu: CpuId, permit: CurrentExitPermit) -> Option<TaskError> {
        if !self.online(cpu) {
            Some(TaskError::CpuOffline(cpu.index))
        } else {
            match self.cpu(cpu).current {
                None => Some(TaskError::NoRunnableThread),
                Some(thread) => if thread != permit.thread {
                    Some(TaskError::StaleThreadId)
                } else {
                    match self.record(thread) {
                        None => Some(TaskError::StaleThreadId),
                        Some(record) => if record.pi.blocked_on is Some
                            || record.pi.donors.entries@.len() > 0 {
                            Some(TaskError::InvalidPiState)
                        } else {
                            None
                        },
                    }
                },
            }
        }
    }

    fn check_permit(&self, cpu: CpuId, permit: CurrentExitPermit) -> (error: Option<TaskError>)
        requires
            self.wf(),
            self.has_cpu(cpu),
        ensures
            error == self.permit_error(cpu, permit),
    {
        let local = &self.cpus[cpu.index as usize];
        if !local.is_online() {
            return Some(TaskError::CpuOffline(cpu.index));
        }
        let thread = match local.current {
            Some(thread) => thread,
            None => {
                return Some(TaskError::NoRunnableThread);
            },
        };
        if thread != permit.thread {
            return Some(TaskError::StaleThreadId);
        }
        match self.thread_record(thread) {
            Err(_) => Some(TaskError::StaleThreadId),
            Ok(record) => if record.has_live_pi_edges() {
                Some(TaskError::InvalidPiState)
            } else {
                None
            },
        }
    }

    /// Whether a CPU can let its running thread exit.
    pub open spec fn can_leave(&self, cpu: CpuId, thread: ThreadId) -> bool {
        match self.record(thread) {
            None => false,
            Some(record) => record.lifecycle == ThreadState::Running
                && record.placement.executing_on() == Some(cpu) && can_lift(
                &self.cpu(cpu).queue(),
                &record,
            ) && can_detach(&self.cpu(cpu).queue(), &record, cpu),
        }
    }

    fn may_leave_for_good(&self, cpu: CpuId, thread: ThreadId) -> (may: bool)
        requires
            self.wf(),
            self.has_cpu(cpu),
        ensures
            may == self.can_leave(cpu, thread),
    {
        let record = match self.thread_record(thread) {
            Ok(record) => record,
            Err(_) => {
                return false;
            },
        };
        assert(self.cpus@[cpu.index as int].wf());
        let queue = &self.cpus[cpu.index as usize].remote.run_queue.queue;
        let here = match record.placement.execution_cpu() {
            Some(executing) => executing == cpu,
            None => false,
        };
        record.lifecycle == ThreadState::Running && here && may_lift(queue, record) && may_detach(
            queue,
            record,
            cpu,
        )
    }

    /// The system after the running thread of a CPU exited: it waits to be
    /// reclaimed, and its reservation is given back.
    #[verifier::opaque]
    pub open spec fn exited_on(&self, before: &Self, cpu: CpuId, thread: ThreadId) -> bool {
        let record = before.record(thread)->0;
        exists|local: CpuLocal, settled: ThreadRecord, left: TaskSystem, queued: TaskSystem|
            #[trigger] left_for_good(local, settled, before.cpu(cpu), record)
                && #[trigger] left.relinked(
                before,
                settled,
                before.cpus@.update(cpu.index as int, local),
                before.root_domain,
            ) && #[trigger] queued.awaits_reclaim(&left, thread) && self.admission_exchanged(
                &queued,
                held_reservation(&record),
                0,
            )
    }

    /// The system with a thread that waits to be reclaimed.
    pub open spec fn awaits_reclaim(&self, before: &Self, thread: ThreadId) -> bool {
        &&& self.exited@ == before.exited@.push(thread)
        &&& *self == (TaskSystem { exited: self.exited, ..*before })
    }

    fn exit_runner(&mut self, cpu: CpuId, thread: ThreadId)
        requires
            old(self).wf(),
            old(self).has_cpu(cpu),
            old(self).can_leave(cpu, thread),
        ensures
            final(self).exited_on(old(self), cpu, thread),
            final(self).cpus@.len() == old(self).cpus@.len(),
            final(self).wf(),
    {
        let ghost before = *self;
        let at: usize = cpu.index as usize;
        assert(before.cpus@[at as int].wf());
        let mut record = self.take_record(thread);
        let ghost start = record;
        let held: u64 = find_held_reservation(&record);
        leave_for_good(&mut self.cpus[at], &mut record, cpu);
        let ghost local = self.cpus@[at as int];
        let ghost settled = record;
        proof {
            assert(self.cpus@ =~= before.cpus@.update(at as int, self.cpus@[at as int]));
            cpus_wf_after(before.cpus@, self.cpus@, at as int);
        }
        self.put_record(record);
        let ghost left = *self;
        proof {
            assert(self.slots@ =~= with_record(before.slots@, settled));
            assert(left_for_good(local, settled, before.cpu(cpu), start));
            assert(left.relinked(
                &before,
                settled,
                before.cpus@.update(cpu.index as int, local),
                before.root_domain,
            ));
        }
        self.exited.push(thread);
        let ghost queued = *self;
        assert(queued.awaits_reclaim(&left, thread));
        self.exchange_admission(held, 0);
        proof {
            reveal(TaskSystem::exited_on);
        }
    }

    /// The system after a permit to exit was used. A permit that cannot be used
    /// is void, and messages about the thread are heard again.
    pub open spec fn exit_committed(&self, before: &Self, cpu: CpuId, permit: CurrentExitPermit, now_ns: u64, result: Result<ScheduleDecision, TaskError>) -> bool {
        match before.permit_error(cpu, permit) {
            Some(error) => result == Err::<ScheduleDecision, TaskError>(error)
                && self.permit_voided(before, permit),
            None => exists|claiming: TaskSystem, charged: TaskSystem|
                #[trigger] claiming.cpu_becomes(before, cpu, request_claimed(before.cpu(cpu)))
                    && #[trigger] charged.dispatch_committed(&claiming, cpu, now_ns)
                    && charged.wf() && if !charged.can_leave(cpu, permit.thread) {
                    result == Err::<ScheduleDecision, TaskError>(TaskError::InvalidConfiguration)
                        && self.permit_voided(&charged, permit)
                } else {
                    exists|left: TaskSystem|
                        #[trigger] left.exited_on(&charged, cpu, permit.thread) && left.wf()
                            && self.switched_away(
                            &left,
                            cpu,
                            permit.thread,
                            SwitchReason::Exited,
                            claimed(before.cpu(cpu)),
                            now_ns,
                            result,
                        )
                },
        }
    }

    /// The system with a permit to exit void.
    pub open spec fn permit_voided(&self, before: &Self, permit: CurrentExitPermit) -> bool {
        if before.record(permit.thread) is Some {
            self.exit_marked(before, permit.thread, false)
        } else {
            *self == *before
        }
    }

    fn void_permit(&mut self, permit: CurrentExitPermit)
        requires
            old(self).wf(),
        ensures
            final(self).permit_voided(old(self), permit),
            final(self).cpus@.len() == old(self).cpus@.len(),
            final(self).wf(),
    {
        if self.thread_record(permit.thread).is_ok() {
            self.mark_exit(permit.thread, false);
        }
    }

    fn claim_on(&mut self, cpu: CpuId) -> (claim: SchedulerRequestClaim)
        requires
            old(self).wf(),
            old(self).has_cpu(cpu),
        ensures
            claim == claimed(old(self).cpu(cpu)),
            final(self).cpu_becomes(old(self), cpu, request_claimed(old(self).cpu(cpu))),
            final(self).wf(),
    {
        let ghost before = *self;
        let at: usize = cpu.index as usize;
        assert(before.cpus@[at as int].wf());
        let claim = self.cpus[at].claim_scheduler_request();
        proof {
            assert(self.cpus@ =~= before.cpus@.update(at as int, self.cpus@[at as int]));
            cpus_wf_after(before.cpus@, self.cpus@, at as int);
        }
        claim
    }

    fn commit_current_exit_after_owner_drain(&mut self, cpu: CpuId, permit: CurrentExitPermit, now_ns: u64) -> (result: Result<ScheduleDecision, TaskError>)
        requires
            old(self).wf(),
            old(self).has_cpu(cpu),
        ensures
            final(self).exit_committed(old(self), cpu, permit, now_ns, result),
            final(self).wf(),
    {
        let ghost before = *self;
        if let Some(error) = self.check_permit(cpu, permit) {
            self.void_permit(permit);
            return Err(error);
        }
        let claim = self.claim_on(cpu);
        let ghost claiming = *self;
        self.commit_owner_current_dispatch(cpu, now_ns);
        let ghost charged = *self;
        assert(charged.dispatch_committed(&claiming, cpu, now_ns));
        if !self.may_leave_for_good(cpu, permit.thread) {
            self.void_permit(permit);
            return Err(TaskError::InvalidConfiguration);
        }
        self.exit_runner(cpu, permit.thread);
        let ghost left = *self;
        assert(left.exited_on(&charged, cpu, permit.thread));
        self.switch_away(cpu, permit.thread, SwitchReason::Exited, claim, now_ns)
    }

    /// Lets a thread that has leave to exit do so, and chooses the next one.
    pub fn commit_prepared_current_exit(&mut self, cpu: CpuId, permit: CurrentExitPermit, now_ns: u64, monotonic_now: MonotonicInstant) -> (result: Result<ScheduleDecision, TaskError>)
        requires
            old(self).wf(),
        ensures
            exists|settled: TaskSystem, outcome: Result<(), TaskError>|
                #[trigger] settled.owner_settled(
                    old(self),
                    cpu,
                    now_ns,
                    monotonic_now,
                    outcome,
                ) && match outcome {
                    Err(error) => result == Err::<ScheduleDecision, TaskError>(error)
                        && final(self).permit_voided(&settled, permit),
                    Ok(_) => final(self).exit_committed(&settled, cpu, permit, now_ns, result),
                },
            final(self).wf(),
    {
        let outcome = self.settle_owner(cpu, now_ns, monotonic_now);
        let ghost settled = *self;
        proof {
            assert(settled.owner_settled(old(self), cpu, now_ns, monotonic_now, outcome));
        }
        match outcome {
            Ok(_) => {},
            Err(error) => {
                self.void_permit(permit);
                return Err(error);
            },
        }
        self.commit_current_exit_after_owner_drain(cpu, permit, now_ns)
    }

    /// Lets the running thread of a CPU exit, and chooses the next one.
    pub fn exit_current(&mut self, cpu: CpuId, now_ns: u64, monotonic_now: MonotonicInstant) -> (result: Result<ScheduleDecision, TaskError>)
        requires
            old(self).wf(),
        ensures
            exists|prepared: TaskSystem, permit: Result<CurrentExitPermit, TaskError>|
                #[trigger] prepared.exit_prepared(
                    old(self),
                    cpu,
                    false,
                    now_ns,
                    monotonic_now,
                    permit,
                ) && match permit {
                    Err(error) => result == Err::<ScheduleDecision, TaskError>(error)
                        && *final(self) == prepared,
                    Ok(permit) => final(self).exit_committed(
                        &prepared,
                        cpu,
                        permit,
                        now_ns,
                        result,
                    ),
                },
            final(self).wf(),
    {
        let permit = self.prepare_exit(cpu, false, now_ns, monotonic_now);
        let ghost prepared = *self;
        proof {
            assert(prepared.exit_prepared(old(self), cpu, false, now_ns, monotonic_now, permit));
        }
        match permit {
            Err(error) => Err(error),
            Ok(permit) => self.commit_current_exit_after_owner_drain(cpu, permit, now_ns),
        }
    }
}

} // verus!
