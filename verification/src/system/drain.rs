//! Work that other CPUs leave for the owner of a CPU.
use vstd::prelude::*;
use crate::cpu::inbox::{IdlePullReservation, InboxMessage, InboxOperation};
use crate::cpu::local::CpuLocal;
use crate::error::{TaskError, ThreadState};
use crate::ids::{CpuId, ThreadId};
use crate::cpu::load::RemoteLoadState;
use crate::cpu::remote::CpuRemote;
use crate::scheduler::entity::EnqueueReason;
use crate::scheduler::run_queue::RunQueue;
use crate::system::bandwidth::{
    activate_deadline_bandwidth, can_contend, contending, ledger_contends, may_contend,
};
use crate::system::task_system::{TaskSystem, cpus_wf_after, with_queue, with_record};
use crate::thread::record::{DeadlineReservation, ThreadRecord};
use crate::time::MonotonicInstant;

verus! {

/// How much of its inbox a CPU worked off.
#[derive(Clone, Copy, Debug, PartialEq, Eq, Structural)]
pub struct OwnerControlDrain {
    pub drained: usize,
    pub pending: bool,
}

/// What a message asks of the owner of a CPU.
#[derive(Clone, Copy, Debug, PartialEq, Eq, Structural)]
pub enum DeliveryStep {
    Refused(TaskError),
    /// The message came too late.
    Skip,
    Balance { target: CpuId, reservation: IdlePullReservation },
    /// Looks at the timers of a reservation; one of a waiting thread contends.
    Refresh { thread: ThreadId, contends: bool },
    Affinity { thread: ThreadId },
    /// Takes a thread in; it moves on if it may not stay.
    Arrival { thread: ThreadId, moves: bool },
    Policy { thread: ThreadId },
}

pub open spec fn owner_mismatch(expected: CpuId, actual: CpuId) -> DeliveryStep {
    DeliveryStep::Refused(
        TaskError::CpuOwnerMismatch { expected: expected.index, actual: actual.index },
    )
}

/// Whether a thread on its way has its goal here and has left its old CPU.
pub open spec fn arrives(record: &ThreadRecord, cpu: CpuId) -> bool {
    &&& record.lifecycle == ThreadState::Ready
    &&& record.placement.migrating_to() == Some(cpu)
    &&& record.placement.on_cpu is None
}

impl TaskSystem {
    /// What a message about a thread asks of the owner of a CPU.
    pub open spec fn thread_delivery(&self, cpu: CpuId, message: InboxMessage, record: ThreadRecord, source: CpuId, target: CpuId) -> DeliveryStep {
        let thread = record.id;
        match message.operation {
            InboxOperation::DeadlineRefresh => if source != cpu || target != cpu {
                owner_mismatch(source, cpu)
            } else if message.generation > record.pi.deadline_cbs_generation {
                DeliveryStep::Skip
            } else {
                DeliveryStep::Refresh { thread, contends: record.placement.queued_on() == Some(cpu) }
            },
            InboxOperation::AffinityUpdate => if source != cpu {
                owner_mismatch(source, cpu)
            } else {
                DeliveryStep::Affinity { thread }
            },
            InboxOperation::Migration => if target != cpu {
                owner_mismatch(target, cpu)
            } else if !arrives(&record, cpu) {
                DeliveryStep::Refused(TaskError::InvalidConfiguration)
            } else {
                DeliveryStep::Arrival {
                    thread,
                    moves: !record.placement.affinity.has(cpu)
                        || record.placement.migration_request is Some,
                }
            },
            InboxOperation::PolicyUpdate => if source != cpu || target != cpu {
                owner_mismatch(source, cpu)
            } else {
                DeliveryStep::Policy { thread }
            },
            _ => DeliveryStep::Refused(TaskError::InvalidConfiguration),
        }
    }

    /// What a message asks of the owner of a CPU.
    pub open spec fn delivery_step(&self, cpu: CpuId, message: InboxMessage) -> DeliveryStep {
        match message.operation {
            InboxOperation::BalanceRequest => match (message.source, message.target) {
                (Some(source), Some(target)) => if source != cpu {
                    owner_mismatch(source, cpu)
                } else if message.reservation is None {
                    DeliveryStep::Refused(TaskError::InvalidConfiguration)
                } else if !self.has_cpu(target) {
                    DeliveryStep::Refused(TaskError::InvalidCpu(target.index))
                } else {
                    DeliveryStep::Balance { target, reservation: message.reservation->0 }
                },
                _ => DeliveryStep::Refused(TaskError::InvalidConfiguration),
            },
            InboxOperation::Reclaim => DeliveryStep::Refused(TaskError::InvalidConfiguration),
            _ => match message.thread {
                None => DeliveryStep::Skip,
                Some(thread) => match self.record(thread) {
                    None => DeliveryStep::Skip,
                    Some(record) => if record.exiting || record.lifecycle == ThreadState::Exited {
                        DeliveryStep::Skip
                    } else {
                        match (message.source, message.target) {
                            (Some(source), Some(target)) => self.thread_delivery(
                                cpu,
                                message,
                                record,
                                source,
                                target,
                            ),
                            _ => DeliveryStep::Refused(TaskError::InvalidConfiguration),
                        }
                    },
                },
            },
        }
    }

    fn plan_thread_delivery(&self, cpu: CpuId, message: InboxMessage, record: &ThreadRecord, source: CpuId, target: CpuId) -> (step: DeliveryStep)
        requires
            record.wf(),
        ensures
            step == self.thread_delivery(cpu, message, *record, source, target),
    {
        let thread = record.id;
        let from_other = DeliveryStep::Refused(
            TaskError::CpuOwnerMismatch { expected: source.index, actual: cpu.index },
        );
        match message.operation {
            InboxOperation::DeadlineRefresh => {
                if source != cpu || target != cpu {
                    from_other
                } else if message.generation > record.pi.deadline_cbs_generation {
                    DeliveryStep::Skip
                } else {
                    let contends = match record.placement.queued_cpu() {
                        Some(owner) => owner == cpu,
                        None => false,
                    };
                    DeliveryStep::Refresh { thread, contends }
                }
            },
            InboxOperation::AffinityUpdate => {
                if source != cpu {
                    from_other
                } else {
                    DeliveryStep::Affinity { thread }
                }
            },
            InboxOperation::Migration => {
                if target != cpu {
                    return DeliveryStep::Refused(
                        TaskError::CpuOwnerMismatch { expected: target.index, actual: cpu.index },
                    );
                }
                let goal = match record.placement.committed_migration_target() {
                    Some(goal) => goal == cpu,
                    None => false,
                };
                if record.lifecycle != ThreadState::Ready || !goal
                    || record.placement.on_cpu.is_some() {
                    return DeliveryStep::Refused(TaskError::InvalidConfiguration);
                }
                DeliveryStep::Arrival {
                    thread,
                    moves: !record.placement.affinity.contains(cpu)
                        || record.placement.migration_request.is_some(),
                }
            },
            InboxOperation::PolicyUpdate => {
                if source != cpu || target != cpu {
                    from_other
                } else {
                    DeliveryStep::Policy { thread }
                }
            },
            _ => DeliveryStep::Refused(TaskError::InvalidConfiguration),
        }
    }

    fn plan_delivery(&self, cpu: CpuId, message: InboxMessage) -> (step: DeliveryStep)
        requires
            self.wf(),
        ensures
            step == self.delivery_step(cpu, message),
    {
        match message.operation {
            InboxOperation::BalanceRequest => {
                return match (message.source, message.target, message.reservation) {
                    (Some(source), Some(target), reservation) => {
                        if source != cpu {
                            DeliveryStep::Refused(
                                TaskError::CpuOwnerMismatch {
                                    expected: source.index,
                                    actual: cpu.index,
                                },
                            )
                        } else {
                            match reservation {
                                None => DeliveryStep::Refused(TaskError::InvalidConfiguration),
                                Some(reservation) => if target.index as usize >= self.cpus.len() {
                                    DeliveryStep::Refused(TaskError::InvalidCpu(target.index))
                                } else {
                                    DeliveryStep::Balance { target, reservation }
                                },
                            }
                        }
                    },
                    _ => DeliveryStep::Refused(TaskError::InvalidConfiguration),
                };
            },
            InboxOperation::Reclaim => {
                return DeliveryStep::Refused(TaskError::InvalidConfiguration);
            },
            _ => {},
        }
        let thread = match message.thread {
            Some(thread) => thread,
            None => {
                return DeliveryStep::Skip;
            },
        };
        let record = match self.thread_record(thread) {
            Ok(record) => record,
            Err(_) => {
                return DeliveryStep::Skip;
            },
        };
        if record.exiting || record.lifecycle == ThreadState::Exited {
            return DeliveryStep::Skip;
        }
        match (message.source, message.target) {
            (Some(source), Some(target)) => self.plan_thread_delivery(
                cpu,
                message,
                record,
                source,
                target,
            ),
            _ => DeliveryStep::Refused(TaskError::InvalidConfiguration),
        }
    }
}

/// The record of a reservation whose timers have to be looked at.
pub open spec fn timers_outdated(record: ThreadRecord) -> ThreadRecord {
    ThreadRecord {
        deadline: DeadlineReservation { timers_stale: true, ..record.deadline },
        ..record
    }
}

/// The load that a sequence of messages brings.
pub open spec fn arriving_demand(messages: Seq<InboxMessage>) -> int
    decreases messages.len(),
{
    if messages.len() == 0 {
        0
    } else {
        arriving_demand(messages.drop_last()) + if messages.last().operation
            == InboxOperation::Migration {
            messages.last().placement_demand as int
        } else {
            0
        }
    }
}

/// The load of a part of a sequence of messages is no more than that of all.
proof fn demand_grows(messages: Seq<InboxMessage>, n: int)
    requires
        0 <= n <= messages.len(),
    ensures
        0 <= arriving_demand(messages.take(n)) <= arriving_demand(messages),
    decreases messages.len(),
{
    if n == messages.len() {
        assert(messages.take(n) =~= messages);
        if n > 0 {
            demand_grows(messages.drop_last(), n - 1);
            assert(messages.drop_last().take(n - 1) =~= messages.drop_last());
        }
    } else {
        demand_grows(messages.drop_last(), n);
        assert(messages.drop_last().take(n) =~= messages.take(n));
    }
}

/// Adds up the load that messages bring, if it can be counted.
fn count_arriving_demand(messages: &Vec<InboxMessage>) -> (demand: Option<u64>)
    ensures
        match demand {
            Some(demand) => demand == arriving_demand(messages@),
            None => arriving_demand(messages@) > u64::MAX,
        },
{
    let mut demand: u64 = 0;
    let mut i: usize = 0;
    while i < messages.len()
        invariant
            i <= messages.len(),
            demand == arriving_demand(messages@.take(i as int)),
        decreases messages.len() - i,
    {
        let message = messages[i];
        proof {
            assert(messages@.take(i + 1).drop_last() =~= messages@.take(i as int));
            demand_grows(messages@, i + 1);
        }
        if message.operation == InboxOperation::Migration {
            if demand > u64::MAX - message.placement_demand {
                return None;
            }
            demand = demand + message.placement_demand;
        }
        i = i + 1;
    }
    assert(messages@.take(i as int) =~= messages@);
    Some(demand)
}

/// Lets the reservation of a thread contend on a CPU.
fn contend_on(local: &mut CpuLocal, record: &mut ThreadRecord, owner: CpuId)
    requires
        old(local).wf(),
        old(record).wf(),
        can_contend(&old(local).queue(), old(record), owner),
    ensures
        ledger_contends(&final(local).queue(), &old(local).queue(), old(record)),
        *final(local) == with_queue(*old(local), final(local).queue()),
        *final(record) == contending(*old(record), owner),
        final(local).wf(),
        final(record).wf(),
{
    activate_deadline_bandwidth(&mut local.remote.run_queue.queue, record, owner);
}

impl TaskSystem {
    /// The system after the owner of a CPU looked at a reservation.
    pub open spec fn reservation_refreshed(&self, before: &Self, cpu: CpuId, thread: ThreadId, contends: bool) -> bool {
        let record = before.record(thread)->0;
        if contends && can_contend(&before.cpu(cpu).queue(), &record, cpu) {
            exists|queue: RunQueue|
                #[trigger] ledger_contends(&queue, &before.cpu(cpu).queue(), &record)
                    && self.relinked(
                    before,
                    timers_outdated(contending(record, cpu)),
                    before.cpus@.update(cpu.index as int, with_queue(before.cpu(cpu), queue)),
                    before.root_domain,
                )
        } else {
            self.relinked(before, timers_outdated(record), before.cpus@, before.root_domain)
        }
    }

    fn refresh_reservation(&mut self, cpu: CpuId, thread: ThreadId, contends: bool)
        requires
            old(self).wf(),
            old(self).has_cpu(cpu),
            old(self).record(thread) is Some,
        ensures
            final(self).reservation_refreshed(old(self), cpu, thread, contends),
            final(self).wf(),
    {
        let ghost before = *self;
        let at: usize = cpu.index as usize;
        assert(before.cpus@[at as int].wf());
        let mut record = self.take_record(thread);
        let ghost start = record;
        record.deadline.timers_stale = true;
        if contends && may_contend(&self.cpus[at].remote.run_queue.queue, &record, cpu) {
            contend_on(&mut self.cpus[at], &mut record, cpu);
            let ghost queue = self.cpus@[at as int].queue();
            proof {
                assert(ledger_contends(&queue, &before.cpu(cpu).queue(), &start));
                assert(self.cpus@ =~= before.cpus@.update(
                    at as int,
                    with_queue(before.cpu(cpu), queue),
                ));
                cpus_wf_after(before.cpus@, self.cpus@, at as int);
            }
        }
        self.put_record(record);
        assert(self.slots@ =~= with_record(before.slots@, record));
    }

    /// The system after a change of affinity was heard.
    pub open spec fn affinity_heard(&self, before: &Self, cpu: CpuId, thread: ThreadId, result: Result<(), TaskError>) -> bool {
        match before.affinity_step(cpu, thread) {
            Ok(step) => result == Ok::<(), TaskError>(()) && self.reconciled(
                before,
                cpu,
                thread,
                step,
            ),
            Err(error) => result == Err::<(), TaskError>(error) && *self == *before,
        }
    }

    /// The system after a thread arrived.
    pub open spec fn arrived(&self, before: &Self, cpu: CpuId, thread: ThreadId, moves: bool, now_ns: u64, monotonic_now: MonotonicInstant, result: Result<(), TaskError>) -> bool {
        match before.enqueue_error(cpu, thread, EnqueueReason::Migrated, now_ns) {
            Some(error) => result == Err::<(), TaskError>(error) && *self == *before,
            None => exists|entered: TaskSystem|
                #[trigger] entered.enqueued_on(
                    before,
                    cpu,
                    thread,
                    EnqueueReason::Migrated,
                    now_ns,
                    monotonic_now,
                ) && entered.wf() && if moves {
                    self.affinity_heard(&entered, cpu, thread, result)
                } else {
                    result == Ok::<(), TaskError>(()) && *self == entered
                },
        }
    }

    fn take_arrival(&mut self, cpu: CpuId, thread: ThreadId, moves: bool, now_ns: u64, monotonic_now: MonotonicInstant) -> (result: Result<(), TaskError>)
        requires
            old(self).wf(),
            old(self).has_cpu(cpu),
        ensures
            final(self).arrived(old(self), cpu, thread, moves, now_ns, monotonic_now, result),
            final(self).cpus@.len() == old(self).cpus@.len(),
            final(self).wf(),
    {
        let ghost before = *self;
        let result = self.enqueue_owner_thread(
            cpu,
            thread,
            EnqueueReason::Migrated,
            now_ns,
            monotonic_now,
        );
        if result.is_err() {
            return result;
        }
        let ghost entered = *self;
        assert(entered.enqueued_on(
            &before,
            cpu,
            thread,
            EnqueueReason::Migrated,
            now_ns,
            monotonic_now,
        ));
        if moves {
            self.reconcile_owner_affinity_update(cpu, thread)
        } else {
            Ok(())
        }
    }

    /// The system after the owner of a CPU did what a message asks.
    #[verifier::opaque]
    pub open spec fn message_delivered(&self, before: &Self, cpu: CpuId, message: InboxMessage, now_ns: u64, monotonic_now: MonotonicInstant, result: Result<(), TaskError>) -> bool {
        match before.delivery_step(cpu, message) {
            DeliveryStep::Refused(error) => result == Err::<(), TaskError>(error) && *self
                == *before,
            DeliveryStep::Skip => result == Ok::<(), TaskError>(()) && *self == *before,
            DeliveryStep::Balance { target, reservation } => result == Ok::<(), TaskError>(())
                && self.pull_answered(before, cpu, target, reservation),
            DeliveryStep::Refresh { thread, contends } => result == Ok::<(), TaskError>(())
                && self.reservation_refreshed(before, cpu, thread, contends),
            DeliveryStep::Affinity { thread } => self.affinity_heard(before, cpu, thread, result),
            DeliveryStep::Arrival { thread, moves } => self.arrived(
                before,
                cpu,
                thread,
                moves,
                now_ns,
                monotonic_now,
                result,
            ),
            DeliveryStep::Policy { thread } => self.policy_delivered(
                before,
                cpu,
                thread,
                message.generation,
                now_ns,
                result,
            ),
        }
    }

    fn deliver_message(&mut self, cpu: CpuId, message: InboxMessage, now_ns: u64, monotonic_now: MonotonicInstant) -> (result: Result<(), TaskError>)
        requires
            old(self).wf(),
            old(self).has_cpu(cpu),
        ensures
            final(self).message_delivered(
                old(self),
                cpu,
                message,
                now_ns,
                monotonic_now,
                result,
            ),
            final(self).cpus@.len() == old(self).cpus@.len(),
            final(self).wf(),
    {
        proof {
            reveal(TaskSystem::message_delivered);
        }
        match self.plan_delivery(cpu, message) {
            DeliveryStep::Refused(error) => Err(error),
            DeliveryStep::Skip => Ok(()),
            DeliveryStep::Balance { target, reservation } => {
                self.answer_pull(cpu, target, reservation);
                Ok(())
            },
            DeliveryStep::Refresh { thread, contends } => {
                assert(self.slots@[thread.slot as int].wf_at(thread.slot as int));
                self.refresh_reservation(cpu, thread, contends);
                Ok(())
            },
            DeliveryStep::Affinity { thread } => self.reconcile_owner_affinity_update(cpu, thread),
            DeliveryStep::Arrival { thread, moves } => self.take_arrival(
                cpu,
                thread,
                moves,
                now_ns,
                monotonic_now,
            ),
            DeliveryStep::Policy { thread } => {
                assert(self.record(thread) is Some);
                self.deliver_policy_update(cpu, thread, message.generation, now_ns)
            },
        }
    }

    /// The system after the owner of a CPU did what messages ask, in their
    /// order, up to the first that it refused.
    pub open spec fn batch_delivered(&self, before: &Self, cpu: CpuId, messages: Seq<InboxMessage>, now_ns: u64, monotonic_now: MonotonicInstant, result: Result<(), TaskError>) -> bool
        decreases messages.len(),
    {
        if messages.len() == 0 {
            result == Ok::<(), TaskError>(()) && *self == *before
        } else {
            exists|next: TaskSystem, outcome: Result<(), TaskError>|
                #[trigger] next.message_delivered(
                    before,
                    cpu,
                    messages[0],
                    now_ns,
                    monotonic_now,
                    outcome,
                ) && next.wf() && match outcome {
                    Err(error) => result == outcome && *self == next,
                    Ok(_) => self.batch_delivered(
                        &next,
                        cpu,
                        messages.skip(1),
                        now_ns,
                        monotonic_now,
                        result,
                    ),
                }
        }
    }

    fn deliver_batch(&mut self, cpu: CpuId, messages: &Vec<InboxMessage>, from: usize, now_ns: u64, monotonic_now: MonotonicInstant) -> (result: Result<(), TaskError>)
        requires
            old(self).wf(),
            old(self).has_cpu(cpu),
            from <= messages@.len(),
        ensures
            final(self).batch_delivered(
                old(self),
                cpu,
                messages@.skip(from as int),
                now_ns,
                monotonic_now,
                result,
            ),
            final(self).cpus@.len() == old(self).cpus@.len(),
            final(self).wf(),
        decreases messages.len() - from,
    {
        let ghost before = *self;
        if from == messages.len() {
            return Ok(());
        }
        let outcome = self.deliver_message(cpu, messages[from], now_ns, monotonic_now);
        let ghost next = *self;
        proof {
            assert(next.message_delivered(
                &before,
                cpu,
                messages@.skip(from as int)[0],
                now_ns,
                monotonic_now,
                outcome,
            ));
            assert(messages@.skip(from as int).skip(1) =~= messages@.skip(from + 1));
        }
        if outcome.is_err() {
            return outcome;
        }
        self.deliver_batch(cpu, messages, from + 1, now_ns, monotonic_now)
    }

    /// The number of messages that a CPU takes at once.
    pub open spec fn batch_size(&self, cpu: CpuId) -> nat {
        let waiting = self.cpu(cpu).remote.inbox.messages@.len();
        if waiting < self.cpu(cpu).batch_limit {
            waiting
        } else {
            self.cpu(cpu).batch_limit as nat
        }
    }

    /// The messages that a CPU takes at once.
    pub open spec fn next_batch(&self, cpu: CpuId) -> Seq<InboxMessage> {
        self.cpu(cpu).remote.inbox.messages@.take(self.batch_size(cpu) as int)
    }

    /// The system with the next messages of a CPU taken, and the load that they
    /// bring no longer expected.
    pub open spec fn batch_taken(&self, before: &Self, cpu: CpuId) -> bool {
        let remote = before.cpu(cpu).remote;
        &&& self.cpu(cpu).remote.inbox.messages@ == remote.inbox.messages@.skip(
            before.batch_size(cpu) as int,
        )
        &&& self.cpu_becomes(
            before,
            cpu,
            before.cpu(cpu).with_remote(
                CpuRemote {
                    inbox: self.cpu(cpu).remote.inbox,
                    load: RemoteLoadState {
                        incoming_migration_demand: (remote.load.incoming_migration_demand
                            - arriving_demand(before.next_batch(cpu))) as u64,
                        ..remote.load
                    },
                    ..remote
                },
            ),
        )
    }

    /// Takes the next messages of a CPU. They stay where they are if the load
    /// that they bring was never announced.
    fn take_batch(&mut self, cpu: CpuId) -> (batch: Result<Vec<InboxMessage>, TaskError>)
        requires
            old(self).wf(),
            old(self).has_cpu(cpu),
        ensures
            match batch {
                Ok(messages) => messages@ == old(self).next_batch(cpu) && arriving_demand(
                    messages@,
                ) <= old(self).cpu(cpu).remote.load.incoming_migration_demand
                    && final(self).batch_taken(old(self), cpu),
                Err(error) => error == TaskError::InvalidConfiguration && arriving_demand(
                    old(self).next_batch(cpu),
                ) > old(self).cpu(cpu).remote.load.incoming_migration_demand && *final(self)
                    == *old(self),
            },
            final(self).wf(),
    {
        let ghost before = *self;
        let at: usize = cpu.index as usize;
        assert(before.cpus@[at as int].wf());
        let limit: usize = self.cpus[at].batch_limit;
        let messages = self.cpus[at].remote.inbox.peek(limit);
        let expected: u64 = self.cpus[at].remote.load.incoming_migration_demand;
        let demand: u64 = match count_arriving_demand(&messages) {
            Some(demand) => demand,
            None => {
                return Err(TaskError::InvalidConfiguration);
            },
        };
        if demand > expected {
            return Err(TaskError::InvalidConfiguration);
        }
        let batch = self.cpus[at].remote.inbox.drain(limit);
        self.cpus[at].remote.load.release_incoming_migration_demand(demand);
        proof {
            assert(self.cpus@ =~= before.cpus@.update(at as int, self.cpus@[at as int]));
            cpus_wf_after(before.cpus@, self.cpus@, at as int);
        }
        Ok(batch)
    }

    /// The system after the owner of a CPU worked off some of its inbox.
    pub open spec fn inbox_drained(&self, before: &Self, cpu: CpuId, now_ns: u64, monotonic_now: MonotonicInstant, result: Result<OwnerControlDrain, TaskError>) -> bool {
        let waiting = before.cpu(cpu).remote.inbox.messages@.len();
        let working = before.cpu(cpu).with_remote(before.cpu(cpu).remote.asked_to_work());
        if !before.has_cpu(cpu) {
            result == Err::<OwnerControlDrain, TaskError>(TaskError::InvalidCpu(cpu.index)) && *self
                == *before
        } else if !before.online(cpu) {
            result == Err::<OwnerControlDrain, TaskError>(TaskError::CpuOffline(cpu.index)) && *self
                == *before
        } else if before.cpu(cpu).switch_handoff is Some && waiting > 0 {
            result == Ok::<OwnerControlDrain, TaskError>(
                OwnerControlDrain { drained: 0, pending: true },
            ) && self.cpu_becomes(before, cpu, working)
        } else if arriving_demand(before.next_batch(cpu)) > before.cpu(
            cpu,
        ).remote.load.incoming_migration_demand {
            result == Err::<OwnerControlDrain, TaskError>(TaskError::InvalidConfiguration) && *self
                == *before
        } else {
            exists|taken: TaskSystem, done: TaskSystem, outcome: Result<(), TaskError>| {
                &&& #[trigger] taken.batch_taken(before, cpu)
                &&& taken.wf()
                &&& #[trigger] done.batch_delivered(
                    &taken,
                    cpu,
                    before.next_batch(cpu),
                    now_ns,
                    monotonic_now,
                    outcome,
                )
                &&& match outcome {
                    Err(error) => result == Err::<OwnerControlDrain, TaskError>(error) && *self
                        == done,
                    Ok(_) => result == Ok::<OwnerControlDrain, TaskError>(
                        OwnerControlDrain {
                            drained: before.batch_size(cpu) as usize,
                            pending: waiting > before.batch_size(cpu),
                        },
                    ) && if waiting > before.batch_size(cpu) {
                        self.cpu_becomes(
                            &done,
                            cpu,
                            done.cpu(cpu).with_remote(done.cpu(cpu).remote.asked_to_work()),
                        )
                    } else {
                        *self == done
                    },
                }
            }
        }
    }

    /// Does what other CPUs ask of the owner of a CPU, at most a batch at once.
    /// Nothing is done while a switch is still under way.
    pub fn drain_policy_updates(&mut self, cpu: CpuId, now_ns: u64, monotonic_now: MonotonicInstant) -> (result: Result<OwnerControlDrain, TaskError>)
        requires
            old(self).wf(),
        ensures
            final(self).inbox_drained(old(self), cpu, now_ns, monotonic_now, result),
            final(self).cpus@.len() == old(self).cpus@.len(),
            final(self).wf(),
    {
        let ghost before = *self;
        match self.ensure_owner_cpu_online(cpu) {
            Ok(_) => {},
            Err(error) => {
                return Err(error);
            },
        }
        let at: usize = cpu.index as usize;
        let waiting: usize = self.cpus[at].remote.inbox.messages.len();
        if self.cpus[at].switch_handoff.is_some() && waiting > 0 {
            self.work_cpu(cpu);
            return Ok(OwnerControlDrain { drained: 0, pending: true });
        }
        let messages = match self.take_batch(cpu) {
            Ok(messages) => messages,
            Err(error) => {
                return Err(error);
            },
        };
        let ghost taken = *self;
        assert(taken.batch_taken(&before, cpu));
        assert(messages@.skip(0) =~= messages@);
        let outcome = self.deliver_batch(cpu, &messages, 0, now_ns, monotonic_now);
        let ghost done = *self;
        assert(done.batch_delivered(
            &taken,
            cpu,
            before.next_batch(cpu),
            now_ns,
            monotonic_now,
            outcome,
        ));
        match outcome {
            Ok(_) => {},
            Err(error) => {
                return Err(error);
            },
        }
        let pending = waiting > messages.len();
        if pending {
            self.work_cpu(cpu);
        }
        Ok(OwnerControlDrain { drained: messages.len(), pending })
    }

    /// The system after the owner of a CPU looked for work.
    pub open spec fn owner_work_drained(&self, before: &Self, cpu: CpuId, now_ns: u64, monotonic_now: MonotonicInstant, result: Result<(), TaskError>) -> bool {
        if before.cpu(cpu).remote.inbox.messages@.len() == 0 {
            result == Ok::<(), TaskError>(()) && *self == *before
        } else {
            exists|done: TaskSystem, outcome: Result<OwnerControlDrain, TaskError>|
                #[trigger] done.inbox_drained(before, cpu, now_ns, monotonic_now, outcome)
                    && match outcome {
                    Err(error) => result == Err::<(), TaskError>(error) && *self == done,
                    Ok(_) => result == Ok::<(), TaskError>(()) && if done.cpu(
                        cpu,
                    ).remote.inbox.messages@.len() > 0 && done.cpu(cpu).remote.hears() {
                        self.cpu_becomes(
                            &done,
                            cpu,
                            done.cpu(cpu).with_remote(done.cpu(cpu).remote.deferred_work()),
                        )
                    } else {
                        *self == done
                    },
                }
        }
    }

    fn defer_cpu(&mut self, cpu: CpuId)
        requires
            old(self).wf(),
            old(self).has_cpu(cpu),
            old(self).cpu(cpu).remote.hears(),
        ensures
            final(self).cpu_becomes(
                old(self),
                cpu,
                old(self).cpu(cpu).with_remote(old(self).cpu(cpu).remote.deferred_work()),
            ),
            final(self).wf(),
    {
        let ghost before = *self;
        let at: usize = cpu.index as usize;
        assert(before.cpus@[at as int].wf());
        self.cpus[at].remote.defer_scheduler_work();
        proof {
            assert(self.cpus@ =~= before.cpus@.update(at as int, self.cpus@[at as int]));
            cpus_wf_after(before.cpus@, self.cpus@, at as int);
        }
    }

    /// Works off some of the inbox of a CPU. What is left is put off.
    pub fn drain_owner_work(&mut self, cpu: CpuId, now_ns: u64, monotonic_now: MonotonicInstant) -> (result: Result<(), TaskError>)
        requires
            old(self).wf(),
            old(self).has_cpu(cpu),
        ensures
            final(self).owner_work_drained(old(self), cpu, now_ns, monotonic_now, result),
            final(self).cpus@.len() == old(self).cpus@.len(),
            final(self).wf(),
    {
        let ghost before = *self;
        let at: usize = cpu.index as usize;
        if !self.cpus[at].remote.inbox.has_pending() {
            return Ok(());
        }
        let outcome = self.drain_policy_updates(cpu, now_ns, monotonic_now);
        let ghost done = *self;
        assert(done.inbox_drained(&before, cpu, now_ns, monotonic_now, outcome));
        match outcome {
            Ok(_) => {},
            Err(error) => {
                return Err(error);
            },
        }
        if self.cpus[at].remote.inbox.has_pending() && self.cpus[at].remote.is_hearing() {
            self.defer_cpu(cpu);
        }
        Ok(())
    }
}

} // verus!
