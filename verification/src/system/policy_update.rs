//! Delivery of a change of policy to the CPU that answers for the thread.
use vstd::prelude::*;
use crate::cpu::inbox::{InboxMessage, InboxOperation};
use crate::cpu::local::CpuLocal;
use crate::error::TaskError;
use crate::ids::{CpuId, ThreadId};
use crate::scheduler::policy::SchedulePolicy;
use crate::scheduler::run_queue::RunQueue;
use crate::scheduler::task::ActiveSchedulingState;
use crate::system::bandwidth::{
    assign_inactive_deadline_bandwidth, assigned, can_assign, can_detach, detach_deadline_bandwidth,
    detached, ledger_assigned, ledger_detached, may_assign, may_detach,
};
use crate::system::pi_waiters::PiWaiterRefresh;
use crate::system::policy::{
    apply_policy_on, policy_applied_on, policy_committed, reconfigure, reconfigured_state,
};
use crate::system::restate::{
    SchedulePosition, can_restate, find_state, position_of, schedule_position, state_at,
};
use crate::system::task_system::{TaskSystem, cpus_wf_after, with_queue, with_record};
use crate::thread::record::{DeadlineReservation, PendingPolicyUpdate, ThreadRecord};

verus! {

/// The first look at a change of policy.
#[derive(Clone, Copy, Debug, PartialEq, Eq, Structural)]
pub enum PolicyGate {
    /// The thread left; only its reservation is still to be taken off.
    Cleanup,
    /// A later change is not known here yet.
    Ignore,
    /// The reservation is lent; the change has to wait.
    Retry,
    /// The change can be looked at.
    Settle,
}

pub open spec fn policy_gate(record: &ThreadRecord, cpu: CpuId, generation: u64) -> PolicyGate {
    if record.deadline.cleanup_pending && record.deadline.owner == Some(cpu)
        && record.placement.queued_on() is None && record.placement.executing_on() is None
        && record.placement.on_cpu is None {
        PolicyGate::Cleanup
    } else if generation > record.policy.update_generation {
        PolicyGate::Ignore
    } else if record.pi.deadline_cbs_borrower is Some {
        PolicyGate::Retry
    } else {
        PolicyGate::Settle
    }
}

fn choose_policy_gate(record: &ThreadRecord, cpu: CpuId, generation: u64) -> (gate: PolicyGate)
    ensures
        gate == policy_gate(record, cpu, generation),
{
    let here = match record.deadline.owner {
        Some(owner) => owner == cpu,
        None => false,
    };
    if record.deadline.cleanup_pending && here && record.placement.queued_cpu().is_none()
        && record.placement.execution_cpu().is_none() && record.placement.on_cpu.is_none() {
        PolicyGate::Cleanup
    } else if generation > record.policy.update_generation {
        PolicyGate::Ignore
    } else if record.pi.deadline_cbs_borrower.is_some() {
        PolicyGate::Retry
    } else {
        PolicyGate::Settle
    }
}

/// The message by which a CPU puts off a change of policy.
pub open spec fn policy_retry(thread: ThreadId, cpu: CpuId, generation: u64) -> InboxMessage {
    InboxMessage {
        operation: InboxOperation::PolicyUpdate,
        thread: Some(thread),
        source: Some(cpu),
        target: Some(cpu),
        generation,
        placement_demand: 0,
        reservation: None,
    }
}

/// What is done about a change of policy.
#[derive(Clone, Copy, Debug)]
pub enum PolicyStep {
    Refused(TaskError),
    Apply { pending: PendingPolicyUpdate, next: ActiveSchedulingState },
}

/// Whether a change can be applied: it is the last one asked for.
pub open spec fn generation_error(record: &ThreadRecord, generation: u64) -> Option<TaskError> {
    match record.policy.pending {
        None => Some(TaskError::InvalidConfiguration),
        Some(pending) => if generation != pending.generation || generation
            != record.policy.update_generation || record.policy.dispatch_generation == u64::MAX {
            Some(TaskError::InvalidConfiguration)
        } else {
            None
        },
    }
}

/// Checks that a change is the last one asked for.
pub fn validate_owner_policy_generation(record: &ThreadRecord, generation: u64) -> (result: Result<PendingPolicyUpdate, TaskError>)
    ensures
        match result {
            Ok(pending) => generation_error(record, generation) is None && record.policy.pending
                == Some(pending),
            Err(error) => generation_error(record, generation) == Some(error),
        },
{
    match record.policy.pending {
        None => Err(TaskError::InvalidConfiguration),
        Some(pending) => {
            if generation != pending.generation || generation != record.policy.update_generation
                || record.policy.dispatch_generation == u64::MAX {
                Err(TaskError::InvalidConfiguration)
            } else {
                Ok(pending)
            }
        },
    }
}

/// The record with its reservation off the run queue and nothing left to clean.
pub open spec fn cleaned(record: ThreadRecord, clean: bool) -> ThreadRecord {
    let left = detached(record);
    if clean {
        ThreadRecord {
            deadline: DeadlineReservation { cleanup_pending: false, ..left.deadline },
            ..left
        }
    } else {
        left
    }
}

impl TaskSystem {
    /// The system with the reservation of a thread off the run queue of a CPU.
    pub open spec fn detached_on(&self, before: &Self, cpu: CpuId, thread: ThreadId, clean: bool) -> bool {
        let record = before.record(thread)->0;
        exists|queue: RunQueue|
            #[trigger] ledger_detached(&queue, &before.cpu(cpu).queue(), &record)
                && self.relinked(
                before,
                cleaned(record, clean),
                before.cpus@.update(cpu.index as int, with_queue(before.cpu(cpu), queue)),
                before.root_domain,
            )
    }

    pub(crate) fn detach_on(&mut self, cpu: CpuId, thread: ThreadId, clean: bool)
        requires
            old(self).wf(),
            old(self).has_cpu(cpu),
            old(self).record(thread) is Some,
            can_detach(&old(self).cpu(cpu).queue(), &(old(self).record(thread)->0), cpu),
        ensures
            final(self).detached_on(old(self), cpu, thread, clean),
            final(self).wf(),
    {
        let ghost before = *self;
        let at: usize = cpu.index as usize;
        assert(before.cpus@[at as int].wf());
        let mut record = self.take_record(thread);
        let ghost start = record;
        detach_deadline_bandwidth(&mut self.cpus[at].remote.run_queue.queue, &mut record, cpu);
        if clean {
            record.deadline.cleanup_pending = false;
        }
        let ghost queue = self.cpus@[at as int].queue();
        proof {
            assert(ledger_detached(&queue, &before.cpu(cpu).queue(), &start));
            assert(self.cpus@ =~= before.cpus@.update(at as int, self.cpus@[at as int]));
            assert(self.cpus@[at as int] == with_queue(before.cpu(cpu), queue));
            cpus_wf_after(before.cpus@, self.cpus@, at as int);
        }
        self.put_record(record);
        assert(self.slots@ =~= with_record(before.slots@, record));
    }

    /// The system with the reservation of a resting thread on the run queue of
    /// a CPU.
    pub open spec fn assigned_on(&self, before: &Self, cpu: CpuId, thread: ThreadId) -> bool {
        let record = before.record(thread)->0;
        exists|queue: RunQueue|
            #[trigger] ledger_assigned(&queue, &before.cpu(cpu).queue(), &record)
                && self.relinked(
                before,
                assigned(record, cpu),
                before.cpus@.update(cpu.index as int, with_queue(before.cpu(cpu), queue)),
                before.root_domain,
            )
    }

    fn assign_on(&mut self, cpu: CpuId, thread: ThreadId)
        requires
            old(self).wf(),
            old(self).has_cpu(cpu),
            old(self).record(thread) is Some,
            can_assign(&old(self).cpu(cpu).queue(), &(old(self).record(thread)->0)),
        ensures
            final(self).assigned_on(old(self), cpu, thread),
            final(self).wf(),
    {
        let ghost before = *self;
        let at: usize = cpu.index as usize;
        assert(before.cpus@[at as int].wf());
        let mut record = self.take_record(thread);
        let ghost start = record;
        assign_inactive_deadline_bandwidth(
            &mut self.cpus[at].remote.run_queue.queue,
            &mut record,
            cpu,
        );
        let ghost queue = self.cpus@[at as int].queue();
        proof {
            assert(ledger_assigned(&queue, &before.cpu(cpu).queue(), &start));
            assert(self.cpus@ =~= before.cpus@.update(at as int, self.cpus@[at as int]));
            assert(self.cpus@[at as int] == with_queue(before.cpu(cpu), queue));
            cpus_wf_after(before.cpus@, self.cpus@, at as int);
        }
        self.put_record(record);
        assert(self.slots@ =~= with_record(before.slots@, record));
    }

    /// The system with a thread made ready for a change of policy: what runs is
    /// charged, and the reservation of a resting thread is taken off.
    #[verifier::opaque]
    pub open spec fn policy_settled(&self, before: &Self, cpu: CpuId, thread: ThreadId, now_ns: u64) -> bool {
        let record = before.record(thread)->0;
        match position_of(&record, cpu) {
            SchedulePosition::Running => self.dispatch_committed(before, cpu, now_ns),
            SchedulePosition::Queued => exists|reschedule: bool|
                #[trigger] self.charged_on(before, cpu, now_ns, reschedule),
            SchedulePosition::Resting => if can_detach(&before.cpu(cpu).queue(), &record, cpu) {
                self.detached_on(before, cpu, thread, false)
            } else {
                *self == *before
            },
        }
    }

    fn settle_for_policy(&mut self, cpu: CpuId, thread: ThreadId, now_ns: u64)
        requires
            old(self).wf(),
            old(self).has_cpu(cpu),
            old(self).record(thread) is Some,
        ensures
            final(self).policy_settled(old(self), cpu, thread, now_ns),
            final(self).record(thread) is Some,
            final(self).cpus@.len() == old(self).cpus@.len(),
            final(self).wf(),
    {
        proof {
            reveal(TaskSystem::policy_settled);
        }
        let ghost before = *self;
        assert(before.cpus@[cpu.index as int].wf());
        let (position, detach) = match self.thread_record(thread) {
            Ok(record) => (
                schedule_position(record, cpu),
                may_detach(&self.cpus[cpu.index as usize].remote.run_queue.queue, record, cpu),
            ),
            Err(_) => {
                return;
            },
        };
        match position {
            SchedulePosition::Running => {
                self.commit_owner_current_dispatch(cpu, now_ns);
                assert(self.record(thread) is Some);
            },
            SchedulePosition::Queued => {
                let reschedule = self.charge_cpu(cpu, now_ns);
                assert(self.charged_on(&before, cpu, now_ns, reschedule));
            },
            SchedulePosition::Resting => {
                if detach {
                    self.detach_on(cpu, thread, false);
                }
            },
        }
    }

    /// What is done about a change of policy, once the thread is settled.
    pub open spec fn policy_step(&self, cpu: CpuId, thread: ThreadId, generation: u64, now_ns: u64, step: PolicyStep) -> bool {
        let record = self.record(thread)->0;
        let queue = self.cpu(cpu).queue();
        let position = position_of(&record, cpu);
        match generation_error(&record, generation) {
            Some(error) => step == PolicyStep::Refused(error),
            None => match state_at(&queue, &record, position) {
                None => step == PolicyStep::Refused(TaskError::NotReady),
                Some(state) => {
                    let pending = record.policy.pending->0;
                    let boosted = record.pi.donor is Some;
                    if !state.wf() || (boosted && state.inherited is None) || !can_detach(
                        &queue,
                        &record,
                        cpu,
                    ) {
                        step == PolicyStep::Refused(TaskError::InvalidConfiguration)
                    } else {
                        exists|next: ActiveSchedulingState|
                            #[trigger] reconfigured_state(
                                next,
                                state,
                                boosted,
                                pending.policy,
                                &queue,
                                position,
                                self.config.fair_slice_ns,
                                now_ns,
                            ) && step == if can_restate(
                                &queue,
                                &policy_committed(record, pending),
                                position,
                                next,
                            ) {
                                PolicyStep::Apply { pending, next }
                            } else {
                                PolicyStep::Refused(TaskError::InvalidConfiguration)
                            }
                    }
                },
            },
        }
    }

    fn plan_policy(&self, cpu: CpuId, thread: ThreadId, generation: u64, now_ns: u64) -> (step: PolicyStep)
        requires
            self.wf(),
            self.has_cpu(cpu),
            self.record(thread) is Some,
        ensures
            self.policy_step(cpu, thread, generation, now_ns, step),
            step matches PolicyStep::Apply { next, .. } ==> next.wf(),
    {
        let record = match self.thread_record(thread) {
            Ok(record) => record,
            Err(error) => {
                return PolicyStep::Refused(error);
            },
        };
        assert(self.cpus@[cpu.index as int].wf());
        let queue = &self.cpus[cpu.index as usize].remote.run_queue.queue;
        let pending = match validate_owner_policy_generation(record, generation) {
            Ok(pending) => pending,
            Err(error) => {
                return PolicyStep::Refused(error);
            },
        };
        let position = schedule_position(record, cpu);
        let state = match find_state(queue, record, position) {
            Some(state) => state,
            None => {
                return PolicyStep::Refused(TaskError::NotReady);
            },
        };
        let boosted = record.pi.donor.is_some();
        if !state.is_consistent() || (boosted && state.inherited.is_none()) || !may_detach(
            queue,
            record,
            cpu,
        ) {
            return PolicyStep::Refused(TaskError::InvalidConfiguration);
        }
        let next = reconfigure(
            state,
            boosted,
            pending.policy,
            queue,
            position,
            self.config.fair_slice_ns,
            now_ns,
        );
        if may_restate_committed(queue, record, pending, position, next) {
            PolicyStep::Apply { pending, next }
        } else {
            PolicyStep::Refused(TaskError::InvalidConfiguration)
        }
    }

    /// The system with a change of policy applied on a CPU.
    #[verifier::opaque]
    pub open spec fn policy_applied(&self, before: &Self, cpu: CpuId, thread: ThreadId, pending: PendingPolicyUpdate, next: ActiveSchedulingState) -> bool {
        let record = before.record(thread)->0;
        exists|local: CpuLocal, settled: ThreadRecord|
            #[trigger] policy_applied_on(
                local,
                settled,
                before.cpu(cpu),
                record,
                pending,
                cpu,
                position_of(&record, cpu),
                next,
            ) && self.relinked(
                before,
                settled,
                before.cpus@.update(cpu.index as int, local),
                before.root_domain,
            )
    }

    fn apply_policy(&mut self, cpu: CpuId, thread: ThreadId, pending: PendingPolicyUpdate, next: ActiveSchedulingState)
        requires
            old(self).wf(),
            old(self).has_cpu(cpu),
            old(self).record(thread) is Some,
            (old(self).record(thread)->0).policy.pending == Some(pending),
            (old(self).record(thread)->0).policy.dispatch_generation < u64::MAX,
            can_restate(
                &old(self).cpu(cpu).queue(),
                &policy_committed(old(self).record(thread)->0, pending),
                position_of(&(old(self).record(thread)->0), cpu),
                next,
            ),
            can_detach(&old(self).cpu(cpu).queue(), &(old(self).record(thread)->0), cpu),
        ensures
            final(self).policy_applied(old(self), cpu, thread, pending, next),
            final(self).record(thread) is Some,
            final(self).cpus@.len() == old(self).cpus@.len(),
            final(self).wf(),
    {
        let ghost before = *self;
        let at: usize = cpu.index as usize;
        proof {
            reveal(TaskSystem::policy_applied);
        }
        assert(before.cpus@[at as int].wf());
        let mut record = self.take_record(thread);
        let ghost start = record;
        let position = schedule_position(&record, cpu);
        apply_policy_on(&mut self.cpus[at], &mut record, pending, cpu, position, next);
        proof {
            assert(self.cpus@ =~= before.cpus@.update(at as int, self.cpus@[at as int]));
            cpus_wf_after(before.cpus@, self.cpus@, at as int);
            assert(policy_applied_on(
                self.cpus@[at as int],
                record,
                before.cpu(cpu),
                start,
                pending,
                cpu,
                position,
                next,
            ));
            assert(record.id == thread) by {
                applying_keeps_identity(
                    self.cpus@[at as int],
                    record,
                    before.cpu(cpu),
                    start,
                    pending,
                    cpu,
                    position,
                    next,
                );
            }
        }
        self.put_record(record);
        assert(self.slots@ =~= with_record(before.slots@, record));
    }

    /// The system with one reservation admitted in place of another. An
    /// exchange that admission refuses changes nothing.
    pub open spec fn admission_exchanged(&self, before: &Self, held: u64, committed: u64) -> bool {
        let admission = before.root_domain.admission;
        let refused = held == committed || held > admission.reserved_scaled || (committed > held
            && admission.reserved_scaled - held + committed > admission.capacity());
        &&& if refused {
            self.root_domain == before.root_domain && self.cpus@ == before.cpus@
        } else {
            &&& self.root_domain == before.root_domain.holding(committed - held)
            &&& self.root_domain.exchanged_on(self.cpus@, before.cpus@, held, committed)
        }
        &&& self.slots == before.slots
        &&& self.config == before.config
        &&& self.free_slots == before.free_slots
        &&& self.mutexes == before.mutexes
        &&& self.exited == before.exited
        &&& self.task_work == before.task_work
    }

    pub(crate) fn exchange_admission(&mut self, held: u64, committed: u64)
        requires
            old(self).wf(),
        ensures
            final(self).admission_exchanged(old(self), held, committed),
            final(self).wf(),
    {
        let ghost before = *self;
        let _ = self.root_domain.replace_deadline_utilization(&mut self.cpus, held, committed);
        proof {
            assert(self.cpus@.len() == before.cpus@.len());
            assert forall|i: int| 0 <= i < self.cpus@.len() implies (
            #[trigger] self.cpus@[i]).remote.owner == (CpuId { index: i as u32 }) by {
                assert(before.cpus@[i].remote.owner == (CpuId { index: i as u32 }));
            }
        }
    }

    /// The system after the place of a thread among the waiters followed its
    /// policy.
    #[verifier::opaque]
    pub open spec fn waiter_propagated(&self, before: &Self, thread: ThreadId, now_ns: u64, by: CpuId, result: Result<(), TaskError>) -> bool {
        exists|refreshed: TaskSystem, outcome: Result<PiWaiterRefresh, TaskError>|
            #[trigger] refreshed.waiter_refreshed(before, thread, now_ns, by, outcome)
                && match outcome {
                Err(error) => result == Err::<(), TaskError>(error) && *self == refreshed,
                Ok(refresh) => if !refresh.changed || refresh.owner is None {
                    result == Ok::<(), TaskError>(()) && *self == refreshed
                } else if refresh.owner == Some(thread) {
                    result == Err::<(), TaskError>(TaskError::PiCycle) && *self == refreshed
                } else {
                    self.chain_cleaned(&refreshed, refresh.owner->0, thread, now_ns, by, result)
                },
            }
    }

    /// Lets the place of a thread among the waiters follow its policy, and what
    /// the owners along the chain inherit with it.
    pub fn propagate_pi_waiter_key_after_policy_change(&mut self, thread: ThreadId, now_ns: u64, by: CpuId) -> (result: Result<(), TaskError>)
        requires
            old(self).wf(),
            old(self).record(thread) is Some,
        ensures
            final(self).waiter_propagated(old(self), thread, now_ns, by, result),
            final(self).cpus@.len() == old(self).cpus@.len(),
            forall|other: ThreadId|
                (#[trigger] final(self).record(other)) is Some == old(self).record(other) is Some,
            final(self).wf(),
    {
        proof {
            reveal(TaskSystem::waiter_propagated);
        }
        let outcome = self.refresh_blocked_waiter_key(thread, now_ns, by);
        let ghost refreshed = *self;
        proof {
            assert(refreshed.waiter_refreshed(old(self), thread, now_ns, by, outcome));
        }
        let refresh = match outcome {
            Ok(refresh) => refresh,
            Err(error) => {
                return Err(error);
            },
        };
        if !refresh.changed {
            return Ok(());
        }
        match refresh.owner {
            None => Ok(()),
            Some(owner) => {
                if owner == thread {
                    Err(TaskError::PiCycle)
                } else {
                    self.recompute_pi_cleanup_chain(owner, thread, now_ns, by)
                }
            },
        }
    }
}

impl TaskSystem {
    /// The end of a change of policy: the reservation of a resting thread finds
    /// its place again; a runnable one is scheduled anew.
    #[verifier::opaque]
    pub open spec fn policy_finished(&self, before: &Self, cpu: CpuId, thread: ThreadId, position: SchedulePosition, result: Result<(), TaskError>) -> bool {
        if position != SchedulePosition::Resting {
            result == Ok::<(), TaskError>(()) && self.cpu_becomes(
                before,
                cpu,
                before.cpu(cpu).with_remote(before.cpu(cpu).remote.asked_to_reschedule()),
            )
        } else if can_assign(&before.cpu(cpu).queue(), &(before.record(thread)->0)) {
            result == Ok::<(), TaskError>(()) && self.assigned_on(before, cpu, thread)
        } else {
            result == Err::<(), TaskError>(TaskError::InvalidConfiguration) && *self == *before
        }
    }

    fn finish_policy(&mut self, cpu: CpuId, thread: ThreadId, position: SchedulePosition) -> (result: Result<(), TaskError>)
        requires
            old(self).wf(),
            old(self).has_cpu(cpu),
            old(self).record(thread) is Some,
        ensures
            final(self).policy_finished(old(self), cpu, thread, position, result),
            final(self).cpus@.len() == old(self).cpus@.len(),
            final(self).wf(),
    {
        proof {
            reveal(TaskSystem::policy_finished);
        }
        match position {
            SchedulePosition::Resting => {},
            _ => {
                self.reschedule_cpu(cpu);
                return Ok(());
            },
        }
        assert(self.cpus@[cpu.index as int].wf());
        let may = match self.thread_record(thread) {
            Ok(record) => may_assign(
                &self.cpus[cpu.index as usize].remote.run_queue.queue,
                record,
                cpu,
            ),
            Err(_) => false,
        };
        if !may {
            return Err(TaskError::InvalidConfiguration);
        }
        self.assign_on(cpu, thread);
        Ok(())
    }

    /// The system after a change of policy was applied to a settled thread.
    #[verifier::opaque]
    pub open spec fn policy_carried_out(
        &self,
        before: &Self,
        cpu: CpuId,
        thread: ThreadId,
        pending: PendingPolicyUpdate,
        next: ActiveSchedulingState,
        now_ns: u64,
        result: Result<(), TaskError>,
    ) -> bool {
        let record = before.record(thread)->0;
        exists|applied: TaskSystem, admitted: TaskSystem, spread: TaskSystem, outcome: Result<(), TaskError>| {
            &&& #[trigger] applied.policy_applied(before, cpu, thread, pending, next)
            &&& #[trigger] admitted.admission_exchanged(
                &applied,
                record.deadline.reservation_scaled,
                pending.reservation_scaled,
            )
            &&& #[trigger] spread.waiter_propagated(&admitted, thread, now_ns, cpu, outcome)
            &&& match outcome {
                Err(error) => result == outcome && *self == spread,
                Ok(_) => self.policy_finished(
                    &spread,
                    cpu,
                    thread,
                    position_of(&record, cpu),
                    result,
                ),
            }
        }
    }

    fn carry_out_policy(&mut self, cpu: CpuId, thread: ThreadId, pending: PendingPolicyUpdate, next: ActiveSchedulingState, now_ns: u64) -> (result: Result<(), TaskError>)
        requires
            old(self).wf(),
            old(self).has_cpu(cpu),
            old(self).record(thread) is Some,
            (old(self).record(thread)->0).policy.pending == Some(pending),
            (old(self).record(thread)->0).policy.dispatch_generation < u64::MAX,
            can_restate(
                &old(self).cpu(cpu).queue(),
                &policy_committed(old(self).record(thread)->0, pending),
                position_of(&(old(self).record(thread)->0), cpu),
                next,
            ),
            can_detach(&old(self).cpu(cpu).queue(), &(old(self).record(thread)->0), cpu),
        ensures
            final(self).policy_carried_out(
                old(self),
                cpu,
                thread,
                pending,
                next,
                now_ns,
                result,
            ),
            final(self).cpus@.len() == old(self).cpus@.len(),
            final(self).wf(),
    {
        proof {
            reveal(TaskSystem::policy_carried_out);
        }
        let ghost before = *self;
        let (position, held) = match self.thread_record(thread) {
            Ok(record) => (schedule_position(record, cpu), record.deadline.reservation_scaled),
            Err(error) => {
                return Err(error);
            },
        };
        self.apply_policy(cpu, thread, pending, next);
        let ghost applied = *self;
        self.exchange_admission(held, pending.reservation_scaled);
        let ghost admitted = *self;
        assert(admitted.record(thread) is Some);
        let outcome = self.propagate_pi_waiter_key_after_policy_change(thread, now_ns, cpu);
        let ghost spread = *self;
        proof {
            assert(applied.policy_applied(&before, cpu, thread, pending, next));
            assert(admitted.admission_exchanged(&applied, held, pending.reservation_scaled));
            assert(spread.waiter_propagated(&admitted, thread, now_ns, cpu, outcome));
            assert(spread.record(thread) is Some);
        }
        if outcome.is_err() {
            return outcome;
        }
        self.finish_policy(cpu, thread, position)
    }

    /// The system after a CPU looked at a change of policy.
    pub open spec fn policy_delivered(&self, before: &Self, cpu: CpuId, thread: ThreadId, generation: u64, now_ns: u64, result: Result<(), TaskError>) -> bool {
        let record = before.record(thread)->0;
        match policy_gate(&record, cpu, generation) {
            PolicyGate::Ignore => result == Ok::<(), TaskError>(()) && *self == *before,
            PolicyGate::Cleanup => if can_detach(&before.cpu(cpu).queue(), &record, cpu) {
                result == Ok::<(), TaskError>(()) && self.detached_on(before, cpu, thread, true)
            } else {
                result == Err::<(), TaskError>(TaskError::InvalidConfiguration) && *self == *before
            },
            PolicyGate::Retry => result == Ok::<(), TaskError>(()) && self.policy_put_off(
                before,
                cpu,
                policy_retry(thread, cpu, record.policy.update_generation),
            ),
            PolicyGate::Settle => exists|settled: TaskSystem, step: PolicyStep|
                #[trigger] settled.policy_settled(before, cpu, thread, now_ns) && settled.wf()
                    && #[trigger] settled.policy_step(cpu, thread, generation, now_ns, step)
                    && match step {
                    PolicyStep::Refused(error) => result == Err::<(), TaskError>(error) && *self
                        == settled,
                    PolicyStep::Apply { pending, next } => self.policy_carried_out(
                        &settled,
                        cpu,
                        thread,
                        pending,
                        next,
                        now_ns,
                        result,
                    ),
                },
        }
    }

    /// The system with a message left for a CPU by itself.
    pub open spec fn policy_put_off(&self, before: &Self, cpu: CpuId, message: InboxMessage) -> bool {
        exists|posted: TaskSystem, held: CpuLocal| {
            &&& #[trigger] Self::messaged(held, before.cpu(cpu), message)
            &&& #[trigger] posted.cpu_becomes(
                before,
                cpu,
                held.with_remote(held.remote.kicked(cpu)),
            )
            &&& self.cpu_becomes(
                &posted,
                cpu,
                posted.cpu(cpu).with_remote(posted.cpu(cpu).remote.asked_to_work()),
            )
        }
    }

    fn put_off_policy(&mut self, cpu: CpuId, message: InboxMessage)
        requires
            old(self).wf(),
            old(self).has_cpu(cpu),
        ensures
            final(self).policy_put_off(old(self), cpu, message),
            final(self).wf(),
    {
        let ghost before = *self;
        self.post_to_cpu(cpu, message, cpu);
        let ghost posted = *self;
        let ghost held = choose|held: CpuLocal|
            #[trigger] Self::messaged(held, before.cpu(cpu), message) && posted.cpu_becomes(
                &before,
                cpu,
                held.with_remote(held.remote.kicked(cpu)),
            );
        self.work_cpu(cpu);
        proof {
            assert(Self::messaged(held, before.cpu(cpu), message));
            assert(posted.cpu_becomes(&before, cpu, held.with_remote(held.remote.kicked(cpu))));
        }
    }

    /// Applies a change of policy to a thread that a CPU answers for.
    pub(crate) fn deliver_policy_update(&mut self, cpu: CpuId, thread: ThreadId, generation: u64, now_ns: u64) -> (result: Result<(), TaskError>)
        requires
            old(self).wf(),
            old(self).has_cpu(cpu),
            old(self).record(thread) is Some,
        ensures
            final(self).policy_delivered(old(self), cpu, thread, generation, now_ns, result),
            final(self).cpus@.len() == old(self).cpus@.len(),
            final(self).wf(),
    {
        let ghost before = *self;
        assert(self.cpus@[cpu.index as int].wf());
        let (gate, latest, detach) = match self.thread_record(thread) {
            Ok(record) => (
                choose_policy_gate(record, cpu, generation),
                record.policy.update_generation,
                may_detach(&self.cpus[cpu.index as usize].remote.run_queue.queue, record, cpu),
            ),
            Err(error) => {
                return Err(error);
            },
        };
        match gate {
            PolicyGate::Ignore => Ok(()),
            PolicyGate::Cleanup => {
                if !detach {
                    return Err(TaskError::InvalidConfiguration);
                }
                self.detach_on(cpu, thread, true);
                Ok(())
            },
            PolicyGate::Retry => {
                let message = InboxMessage {
                    operation: InboxOperation::PolicyUpdate,
                    thread: Some(thread),
                    source: Some(cpu),
                    target: Some(cpu),
                    generation: latest,
                    placement_demand: 0,
                    reservation: None,
                };
                self.put_off_policy(cpu, message);
                Ok(())
            },
            PolicyGate::Settle => {
                self.settle_for_policy(cpu, thread, now_ns);
                let ghost settled = *self;
                let step = self.plan_policy(cpu, thread, generation, now_ns);
                assert(settled.policy_settled(&before, cpu, thread, now_ns));
                assert(settled.policy_step(cpu, thread, generation, now_ns, step));
                match step {
                    PolicyStep::Refused(error) => Err(error),
                    PolicyStep::Apply { pending, next } => self.carry_out_policy(
                        cpu,
                        thread,
                        pending,
                        next,
                        now_ns,
                    ),
                }
            },
        }
    }
}

/// A change of policy leaves the thread's name as it is.
proof fn applying_keeps_identity(
    after: CpuLocal,
    settled: ThreadRecord,
    before: CpuLocal,
    record: ThreadRecord,
    pending: PendingPolicyUpdate,
    owner: CpuId,
    position: SchedulePosition,
    next: ActiveSchedulingState,
)
    requires
        policy_applied_on(after, settled, before, record, pending, owner, position, next),
    ensures
        settled.id == record.id,
{
    reveal(policy_applied_on);
    reveal(crate::system::policy::reservation_moved);
}

/// Tests whether a thread under a new policy can be given a scheduling state.
fn may_restate_committed(queue: &RunQueue, record: &ThreadRecord, pending: PendingPolicyUpdate, position: SchedulePosition, next: ActiveSchedulingState) -> (may: bool)
    requires
        queue.wf(),
        next.wf(),
        record.policy.dispatch_generation < u64::MAX,
    ensures
        may == can_restate(queue, &policy_committed(*record, pending), position, next),
{
    proof {
        reveal(can_restate);
    }
    if find_state(queue, record, position).is_none() {
        return false;
    }
    match position {
        SchedulePosition::Resting => true,
        _ => {
            let stops = match next.policy {
                SchedulePolicy::KernelStop => true,
                _ => false,
            };
            !stops && queue.may_enqueue(record.queued_thread(next)) && queue.nr_running
                < usize::MAX - 1
        },
    }
}

} // verus!
