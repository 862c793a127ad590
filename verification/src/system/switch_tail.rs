//! The end of a context switch, on the stack of the thread that came in.
use vstd::prelude::*;
use crate::cpu::handoff::{PreparedMigrationDelivery, SwitchHandoff, SwitchHandoffPhase};
use crate::cpu::inbox::{InboxMessage, InboxOperation};
use crate::cpu::local::CpuLocal;
use crate::error::{TaskError, ThreadState};
use crate::ids::{CpuId, ThreadId};
use crate::scheduler::deadline::DeadlineRunQueueBandwidth;
use crate::scheduler::run_queue::RunQueue;
use crate::system::affinity::shown;
use crate::system::bandwidth::{
    can_detach, detach_deadline_bandwidth, detached, ledger_detached, may_detach,
};
use crate::system::migration::migration_of;
use crate::system::task_system::{TaskSystem, cpus_wf_after, with_queue, with_record};
use crate::thread::placement::ThreadPlacementState;
use crate::thread::record::{DeadlineActivity, ThreadRecord};
use crate::time::MonotonicInstant;

verus! {

/// The thread that came in by a switch, if one ended.
#[derive(Clone, Copy, Debug, PartialEq, Eq, Structural)]
pub struct SwitchInCompletion {
    pub incoming: Option<ThreadId>,
}

/// Where the thread that a switch left behind goes, and whether it exited; or
/// why the switch cannot end.
pub open spec fn handoff_state(record: &ThreadRecord, owner: CpuId, bandwidth: DeadlineRunQueueBandwidth, handoff: SwitchHandoff) -> Result<(Option<CpuId>, bool), TaskError> {
    let exited = record.lifecycle == ThreadState::Exited;
    if record.placement.on_cpu != Some(owner) {
        Err(TaskError::InvalidConfiguration)
    } else {
        match handoff.target_cpu() {
            None => Ok((None, exited)),
            Some(reserved) => if record.placement.migrating_to() != Some(reserved)
                || record.lifecycle != ThreadState::Ready {
                Err(TaskError::InvalidConfiguration)
            } else {
                match record.deadline.owner {
                    None => Ok((Some(reserved), exited)),
                    Some(assigned) => if assigned != owner {
                        Err(
                            TaskError::CpuOwnerMismatch {
                                expected: assigned.index,
                                actual: owner.index,
                            },
                        )
                    } else if bandwidth.this_bw_scaled < record.deadline.reservation_scaled || (
                    record.deadline.activity != DeadlineActivity::Inactive
                        && bandwidth.running_bw_scaled < record.deadline.reservation_scaled) {
                        Err(TaskError::InvalidConfiguration)
                    } else {
                        Ok((Some(reserved), exited))
                    },
                }
            },
        }
    }
}

/// Checks that the thread that a switch left behind stands as the switch left
/// it.
pub fn validate_switch_handoff_state(record: &ThreadRecord, owner: CpuId, bandwidth: DeadlineRunQueueBandwidth, handoff: SwitchHandoff) -> (result: Result<(Option<CpuId>, bool), TaskError>)
    ensures
        result == handoff_state(record, owner, bandwidth, handoff),
{
    let exited = record.lifecycle == ThreadState::Exited;
    let here = match record.placement.on_cpu {
        Some(cpu) => cpu == owner,
        None => false,
    };
    if !here {
        return Err(TaskError::InvalidConfiguration);
    }
    let reserved = match handoff.migration_target() {
        Some(reserved) => reserved,
        None => {
            return Ok((None, exited));
        },
    };
    let agreed = match record.placement.committed_migration_target() {
        Some(target) => target == reserved,
        None => false,
    };
    if !agreed || record.lifecycle != ThreadState::Ready {
        return Err(TaskError::InvalidConfiguration);
    }
    if let Some(assigned) = record.deadline.owner {
        if assigned != owner {
            return Err(
                TaskError::CpuOwnerMismatch { expected: assigned.index, actual: owner.index },
            );
        }
        if bandwidth.this_bw_scaled < record.deadline.reservation_scaled || (
        record.deadline.activity != DeadlineActivity::Inactive && bandwidth.running_bw_scaled
            < record.deadline.reservation_scaled) {
            return Err(TaskError::InvalidConfiguration);
        }
    }
    Ok((Some(reserved), exited))
}

/// The record of a thread whose stack a CPU has left.
pub open spec fn stack_left(record: ThreadRecord, target: Option<CpuId>) -> ThreadRecord {
    let left = if target is Some {
        detached(record)
    } else {
        record
    };
    ThreadRecord {
        placement: ThreadPlacementState { on_cpu: None, ..left.placement },
        wake_cpu_hint: if target is Some {
            target
        } else {
            left.wake_cpu_hint
        },
        ..left
    }.affinity_settled()
}

/// The run queue without the reservation of a thread that leaves for another
/// CPU.
pub open spec fn tail_detached(after: &RunQueue, before: &RunQueue, record: &ThreadRecord, target: Option<CpuId>) -> bool {
    if target is Some {
        ledger_detached(after, before, record)
    } else {
        *after == *before
    }
}

/// A CPU that owes nothing to the thread that it left behind.
pub open spec fn handoff_taken(cpu: CpuLocal) -> CpuLocal {
    CpuLocal { switch_handoff: None, ..cpu }
}

/// Lets a CPU leave the stack of a thread.
fn leave_stack(local: &mut CpuLocal, record: &mut ThreadRecord, owner: CpuId, target: Option<CpuId>)
    requires
        old(local).wf(),
        old(record).wf(),
        old(record).placement.on_cpu == Some(owner),
        target is Some ==> can_detach(&old(local).queue(), old(record), owner),
    ensures
        exists|queue: RunQueue|
            #[trigger] tail_detached(&queue, &old(local).queue(), old(record), target)
                && *final(local) == handoff_taken(with_queue(*old(local), queue)),
        *final(record) == stack_left(*old(record), target),
        final(local).remote.owner == old(local).remote.owner,
        final(local).wf(),
        final(record).wf(),
{
    if target.is_some() {
        detach_deadline_bandwidth(&mut local.remote.run_queue.queue, record, owner);
        record.wake_cpu_hint = target;
    }
    let ghost queue = local.queue();
    record.placement.finish_task(owner);
    let _ = record.complete_affinity_if_satisfied();
    let _ = local.take_switch_handoff();
    proof {
        assert(tail_detached(&queue, &old(local).queue(), old(record), target));
        assert(*local == handoff_taken(with_queue(*old(local), queue)));
    }
}

impl TaskSystem {
    /// Why the switch that a CPU is in cannot end.
    pub open spec fn tail_error(&self, cpu: CpuId, handoff: SwitchHandoff) -> Option<TaskError> {
        match self.record(handoff.previous) {
            None => Some(TaskError::InvalidConfiguration),
            Some(record) => match handoff_state(
                &record,
                cpu,
                self.cpu(cpu).queue().deadline.bandwidth,
                handoff,
            ) {
                Err(error) => Some(error),
                Ok((target, _)) => if target is Some && (!self.has_cpu(target->0) || !can_detach(
                    &self.cpu(cpu).queue(),
                    &record,
                    cpu,
                )) {
                    Some(TaskError::InvalidConfiguration)
                } else {
                    None
                },
            },
        }
    }

    fn check_tail(&self, cpu: CpuId, handoff: SwitchHandoff) -> (error: Option<TaskError>)
        requires
            self.wf(),
            self.has_cpu(cpu),
        ensures
            error == self.tail_error(cpu, handoff),
    {
        let record = match self.thread_record(handoff.previous) {
            Ok(record) => record,
            Err(_) => {
                return Some(TaskError::InvalidConfiguration);
            },
        };
        assert(self.cpus@[cpu.index as int].wf());
        let queue = &self.cpus[cpu.index as usize].remote.run_queue.queue;
        match validate_switch_handoff_state(record, cpu, queue.deadline.bandwidth, handoff) {
            Err(error) => Some(error),
            Ok((target, _)) => match target {
                None => None,
                Some(target) => if target.index as usize >= self.cpus.len() || !may_detach(
                    queue,
                    record,
                    cpu,
                ) {
                    Some(TaskError::InvalidConfiguration)
                } else {
                    None
                },
            },
        }
    }

    /// The system with the stack of the thread that a switch left behind left.
    #[verifier::opaque]
    pub open spec fn previous_left(&self, before: &Self, cpu: CpuId, handoff: SwitchHandoff) -> bool {
        let record = before.record(handoff.previous)->0;
        let target = handoff.target_cpu();
        exists|queue: RunQueue|
            #[trigger] tail_detached(&queue, &before.cpu(cpu).queue(), &record, target)
                && self.relinked(
                before,
                stack_left(record, target),
                before.cpus@.update(
                    cpu.index as int,
                    handoff_taken(with_queue(before.cpu(cpu), queue)),
                ),
                before.root_domain,
            )
    }

    fn leave_previous(&mut self, cpu: CpuId, handoff: SwitchHandoff)
        requires
            old(self).wf(),
            old(self).has_cpu(cpu),
            old(self).tail_error(cpu, handoff) is None,
        ensures
            final(self).previous_left(old(self), cpu, handoff),
            final(self).cpus@.len() == old(self).cpus@.len(),
            final(self).wf(),
    {
        proof {
            reveal(TaskSystem::previous_left);
        }
        let ghost before = *self;
        let at: usize = cpu.index as usize;
        assert(before.cpus@[at as int].wf());
        let target = handoff.migration_target();
        let mut record = self.take_record(handoff.previous);
        leave_stack(&mut self.cpus[at], &mut record, cpu, target);
        proof {
            assert(self.cpus@ =~= before.cpus@.update(at as int, self.cpus@[at as int]));
            cpus_wf_after(before.cpus@, self.cpus@, at as int);
        }
        self.put_record(record);
        assert(self.slots@ =~= with_record(before.slots@, record));
    }

    /// The system with a thread on its way to the CPU that expects it.
    #[verifier::opaque]
    pub open spec fn migration_committed(&self, before: &Self, migration: Option<PreparedMigrationDelivery>) -> bool {
        match migration {
            None => *self == *before,
            Some(migration) => exists|held: CpuLocal|
                #[trigger] Self::messaged(
                    held,
                    before.cpu(migration.target),
                    migration_of(
                        migration.thread,
                        migration.source,
                        migration.target,
                        migration.placement_demand,
                    ),
                ) && self.cpu_becomes(
                    before,
                    migration.target,
                    held.with_remote(held.remote.kicked(migration.source)),
                ),
        }
    }

    fn commit_migration(&mut self, migration: Option<PreparedMigrationDelivery>)
        requires
            old(self).wf(),
            migration matches Some(migration) ==> old(self).has_cpu(migration.target),
        ensures
            final(self).migration_committed(old(self), migration),
            final(self).cpus@.len() == old(self).cpus@.len(),
            final(self).wf(),
    {
        proof {
            reveal(TaskSystem::migration_committed);
        }
        if let Some(migration) = migration {
            let message = InboxMessage {
                operation: InboxOperation::Migration,
                thread: Some(migration.thread),
                source: Some(migration.source),
                target: Some(migration.target),
                generation: 0,
                placement_demand: migration.placement_demand,
                reservation: None,
            };
            self.post_to_cpu(migration.target, message, migration.source);
        }
    }

    /// The system after a thread that was woken while its stack was in use is
    /// made runnable.
    pub open spec fn tail_woken(&self, before: &Self, thread: ThreadId, by: CpuId, now_ns: u64, monotonic_now: MonotonicInstant) -> bool {
        match before.tail_wake_target(thread, now_ns) {
            Some(target) => self.woken_on(
                before,
                before.record(thread)->0,
                target,
                by,
                now_ns,
                monotonic_now,
            ),
            None => *self == *before,
        }
    }

    /// The system with the load of a CPU shown.
    pub open spec fn load_shown(&self, before: &Self, cpu: CpuId) -> bool {
        self.cpu_becomes(before, cpu, shown(before.cpu(cpu)))
    }

    pub(crate) fn show_load(&mut self, cpu: CpuId)
        requires
            old(self).wf(),
            old(self).has_cpu(cpu),
        ensures
            final(self).load_shown(old(self), cpu),
            final(self).wf(),
    {
        let ghost before = *self;
        let at: usize = cpu.index as usize;
        assert(before.cpus@[at as int].wf());
        self.cpus[at].remote.publish_run_queue_load_summary();
        proof {
            assert(self.cpus@ =~= before.cpus@.update(at as int, self.cpus@[at as int]));
            cpus_wf_after(before.cpus@, self.cpus@, at as int);
        }
    }

    /// The system after a switch ended: the thread left behind is free to go
    /// on elsewhere.
    #[verifier::opaque]
    pub open spec fn switch_ended(&self, before: &Self, cpu: CpuId, handoff: SwitchHandoff, now_ns: u64, monotonic_now: MonotonicInstant) -> bool {
        let exited = (before.record(handoff.previous)->0).lifecycle == ThreadState::Exited;
        exists|left: TaskSystem, sent: TaskSystem, woken: TaskSystem, seen: TaskSystem| {
            &&& #[trigger] left.previous_left(before, cpu, handoff)
            &&& #[trigger] sent.migration_committed(&left, handoff.migration)
            &&& sent.wf()
            &&& #[trigger] woken.tail_woken(&sent, handoff.previous, cpu, now_ns, monotonic_now)
            &&& #[trigger] seen.load_shown(&woken, cpu)
            &&& *self == if exited {
                seen.work_published()
            } else {
                seen
            }
        }
    }

    fn end_switch(&mut self, cpu: CpuId, handoff: SwitchHandoff, now_ns: u64, monotonic_now: MonotonicInstant)
        requires
            old(self).wf(),
            old(self).has_cpu(cpu),
            old(self).tail_error(cpu, handoff) is None,
        ensures
            final(self).switch_ended(old(self), cpu, handoff, now_ns, monotonic_now),
            final(self).cpus@.len() == old(self).cpus@.len(),
            final(self).wf(),
    {
        let exited = match self.thread_record(handoff.previous) {
            Ok(record) => record.lifecycle == ThreadState::Exited,
            Err(_) => false,
        };
        self.leave_previous(cpu, handoff);
        let ghost left = *self;
        self.commit_migration(handoff.migration);
        let ghost sent = *self;
        let _ = self.finish_switch_tail_wake(handoff.previous, cpu, now_ns, monotonic_now);
        let ghost woken = *self;
        self.show_load(cpu);
        let ghost seen = *self;
        if exited {
            self.publish_task_work();
        }
        proof {
            reveal(TaskSystem::switch_ended);
            assert(left.previous_left(old(self), cpu, handoff));
            assert(sent.migration_committed(&left, handoff.migration));
            assert(woken.tail_woken(&sent, handoff.previous, cpu, now_ns, monotonic_now));
            assert(seen.load_shown(&woken, cpu));
        }
    }

    /// The system with the part of the platform in a switch done.
    pub open spec fn platform_done(&self, before: &Self, cpu: CpuId, handoff: SwitchHandoff) -> bool {
        self.cpu_becomes(
            before,
            cpu,
            CpuLocal {
                switch_handoff: Some(
                    SwitchHandoff { phase: SwitchHandoffPhase::RuntimeTailFinished, ..handoff },
                ),
                ..before.cpu(cpu)
            },
        )
    }

    fn note_platform_done(&mut self, cpu: CpuId, handoff: SwitchHandoff)
        requires
            old(self).wf(),
            old(self).has_cpu(cpu),
            old(self).cpu(cpu).switch_handoff == Some(handoff),
        ensures
            final(self).platform_done(old(self), cpu, handoff),
            final(self).wf(),
    {
        let ghost before = *self;
        let at: usize = cpu.index as usize;
        assert(before.cpus@[at as int].wf());
        let _ = self.cpus[at].finish_switch_runtime_tail(
            handoff.previous,
            handoff.migration_target(),
        );
        proof {
            assert(self.cpus@ =~= before.cpus@.update(at as int, self.cpus@[at as int]));
            cpus_wf_after(before.cpus@, self.cpus@, at as int);
        }
    }

    /// The system after the incoming thread of a CPU ended the switch.
    pub open spec fn switch_completed(&self, before: &Self, cpu: CpuId, now_ns: u64, monotonic_now: MonotonicInstant, result: Result<SwitchInCompletion, TaskError>) -> bool {
        if !before.has_cpu(cpu) {
            result == Err::<SwitchInCompletion, TaskError>(TaskError::InvalidCpu(cpu.index))
                && *self == *before
        } else {
            match before.cpu(cpu).switch_handoff {
                None => result == Ok::<SwitchInCompletion, TaskError>(
                    SwitchInCompletion { incoming: None },
                ) && *self == *before,
                Some(handoff) => match before.tail_error(cpu, handoff) {
                    Some(error) => result == Err::<SwitchInCompletion, TaskError>(error) && *self
                        == *before,
                    None => exists|done: TaskSystem|
                        #[trigger] done.platform_done(before, cpu, handoff) && done.wf()
                            && match before.cpu(
                            cpu,
                        ).current {
                            None => result == Err::<SwitchInCompletion, TaskError>(
                                TaskError::NoRunnableThread,
                            ) && *self == done,
                            Some(incoming) => if incoming == handoff.previous {
                                result == Err::<SwitchInCompletion, TaskError>(
                                    TaskError::InvalidConfiguration,
                                ) && *self == done
                            } else {
                                result == Ok::<SwitchInCompletion, TaskError>(
                                    SwitchInCompletion { incoming: Some(incoming) },
                                ) && self.switch_ended(
                                    &done,
                                    cpu,
                                    handoff,
                                    now_ns,
                                    monotonic_now,
                                )
                            },
                        },
                },
            }
        }
    }

    /// Ends the switch that a CPU is in. The thread that it left behind is
    /// handed to the CPU that it goes to, made runnable if it was woken in the
    /// meantime, or left to the task worker if it exited.
    pub fn complete_context_switch(&mut self, cpu: CpuId, now_ns: u64, monotonic_now: MonotonicInstant) -> (result: Result<SwitchInCompletion, TaskError>)
        requires
            old(self).wf(),
        ensures
            final(self).switch_completed(old(self), cpu, now_ns, monotonic_now, result),
            final(self).cpus@.len() == old(self).cpus@.len(),
            final(self).wf(),
    {
        let ghost before = *self;
        if cpu.index as usize >= self.cpus.len() {
            return Err(TaskError::InvalidCpu(cpu.index));
        }
        let at: usize = cpu.index as usize;
        let handoff = match self.cpus[at].switch_handoff {
            Some(handoff) => handoff,
            None => {
                return Ok(SwitchInCompletion { incoming: None });
            },
        };
        if let Some(error) = self.check_tail(cpu, handoff) {
            return Err(error);
        }
        self.note_platform_done(cpu, handoff);
        let ghost done = *self;
        assert(done.platform_done(&before, cpu, handoff));
        let incoming = match self.cpus[at].current {
            Some(incoming) => incoming,
            None => {
                return Err(TaskError::NoRunnableThread);
            },
        };
        if incoming == handoff.previous {
            return Err(TaskError::InvalidConfiguration);
        }
        assert(done.tail_error(cpu, handoff) is None);
        self.end_switch(cpu, handoff, now_ns, monotonic_now);
        Ok(SwitchInCompletion { incoming: Some(incoming) })
    }
}

} // verus!
