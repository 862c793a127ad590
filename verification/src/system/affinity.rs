//! Threads whose affinity changed.
use vstd::prelude::*;
use crate::cpu::inbox::{InboxMessage, InboxOperation};
use crate::cpu::local::CpuLocal;
use crate::error::TaskError;
use crate::ids::{CpuId, ThreadId};
use crate::scheduler::run_queue::RunQueue;
use crate::scheduler::task::QueuedThread;
use crate::system::bandwidth::{
    can_detach, detach_deadline_bandwidth, detached, ledger_detached, may_detach,
};
use crate::system::migration::{
    affinity_retry, can_expect, capture_owner_fair_migration, captured,
};
use crate::system::placement::PlacementRank;
use crate::system::ready::{current_fair, returned, running_fair};
use crate::system::task_system::{TaskSystem, cpus_wf_after, with_queue, with_record};
use crate::thread::placement::{TaskOnRunQueue, ThreadPlacementState};
use crate::thread::record::ThreadRecord;

verus! {

/// What the owner of a CPU does about a thread whose affinity changed.
#[derive(Clone, Copy, Debug, PartialEq, Eq, Structural)]
pub enum AffinityStep {
    /// Another CPU has the thread and is asked to look.
    Forward { owner: CpuId, target: CpuId },
    /// The thread waits here and stays.
    Refresh,
    /// The thread waits here and is sent away.
    Transfer { target: CpuId },
    /// The thread runs here; it leaves at the next switch if it has to.
    Request { target: CpuId },
    /// The thread is on its way here and moves on if it has to.
    PassOn { target: CpuId },
    /// No run queue has the thread.
    Settle { target: CpuId },
}

/// The CPU that answers for a thread.
pub open spec fn physical_owner(record: &ThreadRecord) -> Option<CpuId> {
    let placement = record.placement;
    if placement.on_rq == TaskOnRunQueue::Queued {
        placement.task_cpu
    } else if placement.on_cpu is Some {
        placement.on_cpu
    } else if placement.on_rq == TaskOnRunQueue::Migrating {
        placement.task_cpu
    } else {
        record.deadline.owner
    }
}

/// Whether a thread may be on more than one CPU.
pub open spec fn roams(record: &ThreadRecord) -> bool {
    record.placement.affinity.size() > 1
}

/// The run queue of a thread that leaves for another CPU, with what it leaves
/// behind: first the thread, then its reservation.
#[verifier::opaque]
pub open spec fn sent_away(after: &RunQueue, before: &RunQueue, record: &ThreadRecord, granularity_ns: u64, thread: QueuedThread) -> bool {
    exists|marked: RunQueue, parted: RunQueue|
        #[trigger] marked.remarked(before, record.id, roams(record)) && #[trigger] parted.parted(
            &marked,
            record.id,
            running_fair(&marked),
            granularity_ns,
            thread,
        ) && ledger_detached(after, &parted, record)
}

/// The record of a thread that leaves a run queue for another CPU.
pub open spec fn departing(record: ThreadRecord, thread: QueuedThread, queue: &RunQueue, target: CpuId, granularity_ns: u64) -> ThreadRecord {
    let left = returned(
        detached(record),
        captured(thread.active, queue, granularity_ns),
    );
    TaskSystem::handed_over(left, target)
}

/// The record that wants to be on a CPU.
pub open spec fn wanting(record: ThreadRecord, target: CpuId) -> ThreadRecord {
    let placement = record.placement;
    ThreadRecord {
        placement: ThreadPlacementState {
            migration_request: if placement.on_rq == TaskOnRunQueue::Off || placement.task_cpu
                == Some(target) {
                None
            } else {
                Some(target)
            },
            ..placement
        },
        wake_cpu_hint: Some(target),
        ..record
    }
}

/// The record whose thread stays on the run queue that it waits on.
pub open spec fn staying(record: ThreadRecord, target: CpuId) -> ThreadRecord {
    ThreadRecord {
        placement: ThreadPlacementState { migration_request: None, ..record.placement },
        wake_cpu_hint: Some(target),
        ..record
    }.affinity_settled()
}

/// Takes a waiting thread off a run queue for another CPU.
fn send_away(queue: &mut RunQueue, record: &mut ThreadRecord, owner: CpuId, target: CpuId, granularity_ns: u64) -> (thread: QueuedThread)
    requires
        old(queue).wf(),
        old(queue).dispatch_ok(),
        old(record).wf(),
        old(queue).member(old(record).id) is Some,
        old(queue).linked() != Some(old(record).id),
        old(queue).nr_running > 0,
        can_detach(old(queue), old(record), owner),
        old(record).placement.can_begin_migration(owner, target),
    ensures
        sent_away(
            final(queue),
            old(queue),
            old(record),
            granularity_ns,
            thread,
        ),
        *final(record) == departing(*old(record), thread, final(queue), target, granularity_ns),
        final(queue).wf(),
        final(queue).dispatch_ok(),
        final(record).wf(),
{
    let ghost before = *queue;
    let id = record.id;
    let capable = record.placement.affinity.is_migration_capable();
    let _ = queue.update_migration_capability(id, capable);
    let ghost marked = *queue;
    proof {
        reveal(RunQueue::remarked);
        assert(marked.nr_running == before.nr_running);
    }
    let fair = current_fair(queue);
    let thread = queue.detach_for_transfer(id, fair, granularity_ns).unwrap();
    let ghost parted = *queue;
    proof {
        reveal(RunQueue::parted);
        reveal(sent_away);
    }
    detach_deadline_bandwidth(queue, record, owner);
    record.policy.active = Some(
        capture_owner_fair_migration(thread.active, queue, granularity_ns),
    );
    record.placement.begin_migration(owner, target);
    record.wake_cpu_hint = Some(target);
    proof {
        assert(marked.remarked(&before, id, roams(old(record))));
        assert(parted.parted(&marked, id, running_fair(&marked), granularity_ns, thread));
    }
    thread
}

/// Takes a waiting thread off the run queue of a CPU for another CPU, and shows
/// the load.
fn send_away_from(local: &mut CpuLocal, record: &mut ThreadRecord, owner: CpuId, target: CpuId, granularity_ns: u64) -> (thread: QueuedThread)
    requires
        old(local).wf(),
        old(record).wf(),
        old(local).queue().member(old(record).id) is Some,
        old(local).queue().linked() != Some(old(record).id),
        old(local).queue().nr_running > 0,
        can_detach(&old(local).queue(), old(record), owner),
        old(record).placement.can_begin_migration(owner, target),
    ensures
        sent_away(
            &final(local).queue(),
            &old(local).queue(),
            old(record),
            granularity_ns,
            thread,
        ),
        *final(local) == shown(with_queue(*old(local), final(local).queue())),
        *final(record) == departing(
            *old(record),
            thread,
            &final(local).queue(),
            target,
            granularity_ns,
        ),
        final(local).wf(),
        final(record).wf(),
{
    let thread = send_away(
        &mut local.remote.run_queue.queue,
        record,
        owner,
        target,
        granularity_ns,
    );
    assert(*local == with_queue(*old(local), local.queue()));
    local.remote.publish_run_queue_load_summary();
    thread
}

/// Asks a CPU to reschedule, if it has to, and shows its load.
fn ask_and_show(local: &mut CpuLocal, asks: bool)
    requires
        old(local).wf(),
    ensures
        *final(local) == shown(
            if asks {
                old(local).with_remote(old(local).remote.asked_to_reschedule())
            } else {
                *old(local)
            },
        ),
        final(local).wf(),
{
    if asks {
        local.request_reschedule();
    }
    local.remote.publish_run_queue_load_summary();
}

impl TaskSystem {
    /// The CPU on which a thread should be, seen from a CPU.
    pub open spec fn affinity_target(&self, record: &ThreadRecord, cpu: CpuId) -> Option<CpuId> {
        if record.placement.affinity.has(cpu) {
            Some(cpu)
        } else {
            self.best_cpu(&record.placement.affinity, None, Some(cpu), PlacementRank::Runnable)
        }
    }

    /// What to do about a thread whose affinity changed.
    pub open spec fn affinity_step(&self, cpu: CpuId, thread: ThreadId) -> Result<AffinityStep, TaskError> {
        match self.record(thread) {
            None => Err(TaskError::StaleThreadId),
            Some(record) => match self.affinity_target(&record, cpu) {
                None => Err(TaskError::InvalidConfiguration),
                Some(target) => self.affinity_step_to(cpu, &record, target),
            },
        }
    }

    pub open spec fn affinity_step_to(&self, cpu: CpuId, record: &ThreadRecord, target: CpuId) -> Result<AffinityStep, TaskError> {
        let placement = record.placement;
        let queue = self.cpu(cpu).queue();
        match physical_owner(record) {
            Some(owner) => if owner != cpu {
                if self.has_cpu(owner) {
                    Ok(AffinityStep::Forward { owner, target })
                } else {
                    Err(TaskError::InvalidCpu(owner.index))
                }
            } else if placement.on_rq == TaskOnRunQueue::Queued {
                if placement.on_cpu == Some(cpu) {
                    if self.cpu(cpu).current == Some(record.id) {
                        Ok(AffinityStep::Request { target })
                    } else {
                        Err(TaskError::InvalidConfiguration)
                    }
                } else if placement.on_cpu is Some {
                    Err(TaskError::InvalidConfiguration)
                } else if queue.member(record.id) is None {
                    Err(TaskError::InvalidConfiguration)
                } else if target == cpu {
                    Ok(AffinityStep::Refresh)
                } else if queue.linked() == Some(record.id) || queue.nr_running == 0 || !can_detach(
                    &queue,
                    record,
                    cpu,
                ) || !can_expect(self.cpu(target), queue.record(record.id).active.policy.load()) {
                    Err(TaskError::NotReady)
                } else {
                    Ok(AffinityStep::Transfer { target })
                }
            } else if placement.on_cpu is Some {
                Err(TaskError::InvalidConfiguration)
            } else if placement.on_rq == TaskOnRunQueue::Migrating {
                Ok(AffinityStep::PassOn { target })
            } else if target != cpu {
                Err(TaskError::InvalidConfiguration)
            } else {
                Ok(AffinityStep::Settle { target })
            },
            None => Ok(AffinityStep::Settle { target }),
        }
    }

    fn plan_affinity_step(&self, cpu: CpuId, thread: ThreadId) -> (step: Result<AffinityStep, TaskError>)
        requires
            self.wf(),
            self.has_cpu(cpu),
        ensures
            step == self.affinity_step(cpu, thread),
            step matches Ok(AffinityStep::Transfer { target }) ==> self.has_cpu(target),
    {
        let record = match self.thread_record(thread) {
            Ok(record) => record,
            Err(error) => {
                return Err(error);
            },
        };
        let target = if record.placement.affinity.contains(cpu) {
            cpu
        } else {
            match self.select_allowed_active_cpu(&record.placement.affinity, Some(cpu)) {
                Some(target) => target,
                None => {
                    return Err(TaskError::InvalidConfiguration);
                },
            }
        };
        let on_rq = record.placement.on_rq;
        let on_cpu = record.placement.on_cpu;
        let owner = if on_rq == TaskOnRunQueue::Queued {
            record.placement.task_cpu
        } else if on_cpu.is_some() {
            on_cpu
        } else if on_rq == TaskOnRunQueue::Migrating {
            record.placement.task_cpu
        } else {
            record.deadline.owner
        };
        let owner = match owner {
            Some(owner) => owner,
            None => {
                return Ok(AffinityStep::Settle { target });
            },
        };
        if owner != cpu {
            return if (owner.index as usize) < self.cpus.len() {
                Ok(AffinityStep::Forward { owner, target })
            } else {
                Err(TaskError::InvalidCpu(owner.index))
            };
        }
        match on_rq {
            TaskOnRunQueue::Queued => self.plan_queued_affinity(cpu, record, target),
            TaskOnRunQueue::Migrating => if on_cpu.is_some() {
                Err(TaskError::InvalidConfiguration)
            } else {
                Ok(AffinityStep::PassOn { target })
            },
            TaskOnRunQueue::Off => if on_cpu.is_some() || target != cpu {
                Err(TaskError::InvalidConfiguration)
            } else {
                Ok(AffinityStep::Settle { target })
            },
        }
    }

    pub(crate) fn plan_queued_affinity(&self, cpu: CpuId, record: &ThreadRecord, target: CpuId) -> (step: Result<AffinityStep, TaskError>)
        requires
            self.wf(),
            self.has_cpu(cpu),
            target == cpu || self.has_cpu(target),
            record.wf(),
            record.placement.on_rq == TaskOnRunQueue::Queued,
            record.placement.task_cpu == Some(cpu),
        ensures
            step == self.affinity_step_to(cpu, record, target),
    {
        assert(self.cpus@[cpu.index as int].wf());
        let local = &self.cpus[cpu.index as usize];
        let queue = &local.remote.run_queue.queue;
        if let Some(on_cpu) = record.placement.on_cpu {
            let current = match local.current {
                Some(current) => current == record.id,
                None => false,
            };
            return if on_cpu == cpu && current {
                Ok(AffinityStep::Request { target })
            } else {
                Err(TaskError::InvalidConfiguration)
            };
        }
        if !queue.contains(record.id) {
            return Err(TaskError::InvalidConfiguration);
        }
        if target == cpu {
            return Ok(AffinityStep::Refresh);
        }
        if queue.is_linked_current(record.id) || queue.nr_running == 0 || !may_detach(
            queue,
            record,
            cpu,
        ) {
            return Err(TaskError::NotReady);
        }
        proof {
            queue.member_record(record.id);
        }
        let demand: u64 = queue.queued_record(record.id).unwrap().active.policy.placement_demand();
        let incoming: u64 = self.cpus[target.index as usize].remote.load.incoming_migration_demand;
        if incoming > u64::MAX - demand {
            return Err(TaskError::NotReady);
        }
        Ok(AffinityStep::Transfer { target })
    }

    /// The system after a waiting thread was sent to another CPU.
    pub open spec fn transferred(&self, before: &Self, cpu: CpuId, thread: ThreadId, target: CpuId) -> bool {
        let record = before.record(thread)->0;
        exists|parted: TaskSystem, queue: RunQueue, entry: QueuedThread|
            #[trigger] sent_away(
                &queue,
                &before.cpu(cpu).queue(),
                &record,
                before.config.timing_granularity_ns,
                entry,
            ) && #[trigger] parted.relinked(
                before,
                departing(record, entry, &queue, target, before.config.timing_granularity_ns),
                before.cpus@.update(cpu.index as int, shown(with_queue(before.cpu(cpu), queue))),
                before.root_domain,
            ) && self.migration_sent(
                &parted,
                thread,
                cpu,
                target,
                before.cpu(cpu).queue().record(thread).active.policy.load(),
            )
    }

    /// Takes a waiting thread off the run queue of a CPU for another one.
    fn part_with(&mut self, cpu: CpuId, thread: ThreadId, target: CpuId) -> (left: (Ghost<RunQueue>, Ghost<QueuedThread>))
        requires
            old(self).wf(),
            old(self).has_cpu(cpu),
            old(self).record(thread) is Some,
            old(self).affinity_step_to(cpu, &(old(self).record(thread)->0), target) == Ok::<
                AffinityStep,
                TaskError,
            >(AffinityStep::Transfer { target }),
        ensures
            ({
                let record = old(self).record(thread)->0;
                &&& sent_away(
                    &left.0@,
                    &old(self).cpu(cpu).queue(),
                    &record,
                    old(self).config.timing_granularity_ns,
                    left.1@,
                )
                &&& final(self).relinked(
                    old(self),
                    departing(
                        record,
                        left.1@,
                        &left.0@,
                        target,
                        old(self).config.timing_granularity_ns,
                    ),
                    old(self).cpus@.update(
                        cpu.index as int,
                        shown(with_queue(old(self).cpu(cpu), left.0@)),
                    ),
                    old(self).root_domain,
                )
            }),
            final(self).wf(),
    {
        let ghost before = *self;
        let at: usize = cpu.index as usize;
        assert(before.cpus@[at as int].wf());
        let granularity_ns: u64 = self.config.timing_granularity_ns;
        let mut record = self.take_record(thread);
        let entry = send_away_from(&mut self.cpus[at], &mut record, cpu, target, granularity_ns);
        let ghost queue = self.cpus@[at as int].queue();
        proof {
            assert(self.cpus@ =~= before.cpus@.update(at as int, self.cpus@[at as int]));
            cpus_wf_after(before.cpus@, self.cpus@, at as int);
        }
        self.put_record(record);
        assert(self.slots@ =~= with_record(before.slots@, record));
        (Ghost(queue), Ghost(entry))
    }
}

impl TaskSystem {
    /// Another CPU was asked to look at the affinity of a thread.
    pub open spec fn retry_sent(&self, before: &Self, thread: ThreadId, owner: CpuId, target: CpuId, by: CpuId) -> bool {
        exists|held: CpuLocal|
            #[trigger] Self::messaged(
                held,
                before.cpu(owner),
                affinity_retry(thread, owner, target),
            ) && self.cpu_becomes(before, owner, held.with_remote(held.remote.kicked(by)))
    }

    /// The system after a step about a thread whose affinity changed.
    pub open spec fn reconciled(&self, before: &Self, cpu: CpuId, thread: ThreadId, step: AffinityStep) -> bool {
        let record = before.record(thread)->0;
        match step {
            AffinityStep::Forward { owner, target } => exists|noted: TaskSystem|
                #[trigger] noted.only_thread(before, bound_for(record, target))
                    && self.retry_sent(&noted, thread, owner, target, cpu),
            AffinityStep::Refresh => exists|queue: RunQueue|
                #[trigger] queue.remarked(&before.cpu(cpu).queue(), thread, roams(&record))
                    && self.relinked(
                    before,
                    staying(record, cpu),
                    before.cpus@.update(
                        cpu.index as int,
                        shown(with_queue(before.cpu(cpu), queue)),
                    ),
                    before.root_domain,
                ),
            AffinityStep::Transfer { target } => self.transferred(before, cpu, thread, target),
            AffinityStep::Request { target } => self.relinked(
                before,
                wanting(record, target).affinity_settled(),
                before.cpus@.update(
                    cpu.index as int,
                    shown(
                        if target != cpu {
                            before.cpu(cpu).with_remote(
                                before.cpu(cpu).remote.asked_to_reschedule(),
                            )
                        } else {
                            before.cpu(cpu)
                        },
                    ),
                ),
                before.root_domain,
            ),
            AffinityStep::PassOn { target } => self.only_thread(before, wanting(record, target)),
            AffinityStep::Settle { target } => self.only_thread(
                before,
                bound_for(record, target).affinity_settled(),
            ),
        }
    }

    fn forward_affinity(&mut self, cpu: CpuId, thread: ThreadId, owner: CpuId, target: CpuId)
        requires
            old(self).wf(),
            old(self).has_cpu(owner),
            old(self).record(thread) is Some,
        ensures
            final(self).reconciled(
                old(self),
                cpu,
                thread,
                AffinityStep::Forward { owner, target },
            ),
            final(self).wf(),
    {
        let ghost before = *self;
        let mut record = self.take_record(thread);
        record.wake_cpu_hint = Some(target);
        self.put_record(record);
        assert(self.slots@ =~= with_record(before.slots@, record));
        let ghost noted = *self;
        let message = InboxMessage {
            operation: InboxOperation::AffinityUpdate,
            thread: Some(thread),
            source: Some(owner),
            target: Some(target),
            generation: 0,
            placement_demand: 0,
            reservation: None,
        };
        self.post_to_cpu(owner, message, cpu);
        proof {
            assert(noted.only_thread(&before, bound_for(before.record(thread)->0, target)));
            assert(message == affinity_retry(thread, owner, target));
        }
    }

    fn refresh_affinity(&mut self, cpu: CpuId, thread: ThreadId)
        requires
            old(self).wf(),
            old(self).has_cpu(cpu),
            old(self).record(thread) is Some,
            old(self).cpu(cpu).queue().member(thread) is Some,
            (old(self).record(thread)->0).placement.on_rq == TaskOnRunQueue::Queued,
        ensures
            final(self).reconciled(old(self), cpu, thread, AffinityStep::Refresh),
            final(self).wf(),
    {
        let ghost before = *self;
        let at: usize = cpu.index as usize;
        assert(before.cpus@[at as int].wf());
        let mut record = self.take_record(thread);
        let capable = record.placement.affinity.is_migration_capable();
        let _ = self.cpus[at].remote.run_queue.queue.update_migration_capability(thread, capable);
        let ghost queue = self.cpus@[at as int].queue();
        proof {
            reveal(RunQueue::remarked);
        }
        self.cpus[at].remote.publish_run_queue_load_summary();
        proof {
            assert(queue.remarked(
                &before.cpu(cpu).queue(),
                thread,
                roams(&(before.record(thread)->0)),
            ));
            assert(self.cpus@ =~= before.cpus@.update(at as int, self.cpus@[at as int]));
            cpus_wf_after(before.cpus@, self.cpus@, at as int);
        }
        record.placement.request_migration(None);
        record.wake_cpu_hint = Some(cpu);
        let _ = record.complete_affinity_if_satisfied();
        self.put_record(record);
        assert(self.slots@ =~= with_record(before.slots@, record));
    }

    fn request_move(&mut self, cpu: CpuId, thread: ThreadId, target: CpuId)
        requires
            old(self).wf(),
            old(self).has_cpu(cpu),
            old(self).record(thread) is Some,
            (old(self).record(thread)->0).placement.on_rq == TaskOnRunQueue::Queued,
        ensures
            final(self).reconciled(old(self), cpu, thread, AffinityStep::Request { target }),
            final(self).wf(),
    {
        let ghost before = *self;
        let at: usize = cpu.index as usize;
        assert(before.cpus@[at as int].wf());
        let mut record = self.take_record(thread);
        record.placement.request_migration(Some(target));
        record.wake_cpu_hint = Some(target);
        let _ = record.complete_affinity_if_satisfied();
        ask_and_show(&mut self.cpus[at], target != cpu);
        proof {
            assert(self.cpus@ =~= before.cpus@.update(at as int, self.cpus@[at as int]));
            cpus_wf_after(before.cpus@, self.cpus@, at as int);
        }
        self.put_record(record);
        assert(self.slots@ =~= with_record(before.slots@, record));
    }

    fn note_affinity(&mut self, cpu: CpuId, thread: ThreadId, step: AffinityStep)
        requires
            old(self).wf(),
            old(self).record(thread) is Some,
            step is PassOn || step is Settle,
            step is PassOn ==> (old(self).record(thread)->0).placement.on_rq
                == TaskOnRunQueue::Migrating,
        ensures
            final(self).reconciled(old(self), cpu, thread, step),
            final(self).wf(),
    {
        let ghost before = *self;
        let mut record = self.take_record(thread);
        match step {
            AffinityStep::PassOn { target } => {
                record.placement.request_migration(Some(target));
                record.wake_cpu_hint = Some(target);
            },
            AffinityStep::Settle { target } => {
                record.wake_cpu_hint = Some(target);
                let _ = record.complete_affinity_if_satisfied();
            },
            _ => {},
        }
        self.put_record(record);
        assert(self.slots@ =~= with_record(before.slots@, record));
    }

    /// Looks at a thread whose affinity changed, for the owner of a CPU: a
    /// thread that may not stay is sent or asked to leave.
    pub fn reconcile_owner_affinity_update(&mut self, cpu: CpuId, thread: ThreadId) -> (result: Result<(), TaskError>)
        requires
            old(self).wf(),
            old(self).has_cpu(cpu),
        ensures
            result == match old(self).affinity_step(cpu, thread) {
                Ok(_) => Ok::<(), TaskError>(()),
                Err(error) => Err(error),
            },
            match old(self).affinity_step(cpu, thread) {
                Ok(step) => final(self).reconciled(old(self), cpu, thread, step),
                Err(_) => *final(self) == *old(self),
            },
            final(self).cpus@.len() == old(self).cpus@.len(),
            final(self).wf(),
    {
        let step = match self.plan_affinity_step(cpu, thread) {
            Ok(step) => step,
            Err(error) => {
                return Err(error);
            },
        };
        assert(self.slots@[thread.slot as int].wf_at(thread.slot as int));
        match step {
            AffinityStep::Forward { owner, target } => {
                self.forward_affinity(cpu, thread, owner, target);
            },
            AffinityStep::Refresh => {
                self.refresh_affinity(cpu, thread);
            },
            AffinityStep::Transfer { target } => {
                self.transfer_waiting(cpu, thread, target);
            },
            AffinityStep::Request { target } => {
                self.request_move(cpu, thread, target);
            },
            _ => {
                self.note_affinity(cpu, thread, step);
            },
        }
        Ok(())
    }

    pub(crate) fn transfer_waiting(&mut self, cpu: CpuId, thread: ThreadId, target: CpuId)
        requires
            old(self).wf(),
            old(self).has_cpu(cpu),
            old(self).has_cpu(target),
            old(self).record(thread) is Some,
            old(self).affinity_step_to(cpu, &(old(self).record(thread)->0), target) == Ok::<
                AffinityStep,
                TaskError,
            >(AffinityStep::Transfer { target }),
        ensures
            final(self).transferred(old(self), cpu, thread, target),
            final(self).wf(),
    {
        let ghost before = *self;
        let at: usize = cpu.index as usize;
        assert(before.cpus@[at as int].wf());
        assert(before.slots@[thread.slot as int].wf_at(thread.slot as int));
        proof {
            before.cpu(cpu).queue().member_record(thread);
        }
        let demand: u64 = match self.cpus[at].remote.run_queue.queue.queued_record(thread) {
            Some(entry) => entry.active.policy.placement_demand(),
            None => 0,
        };
        let (Ghost(queue), Ghost(entry)) = self.part_with(cpu, thread, target);
        let ghost parted = *self;
        self.send_migration(thread, cpu, target, demand);
        proof {
            assert(parted.relinked(
                &before,
                departing(
                    before.record(thread)->0,
                    entry,
                    &queue,
                    target,
                    before.config.timing_granularity_ns,
                ),
                before.cpus@.update(cpu.index as int, shown(with_queue(before.cpu(cpu), queue))),
                before.root_domain,
            ));
        }
    }
}

/// The record of a thread that will be woken on a CPU.
pub open spec fn bound_for(record: ThreadRecord, target: CpuId) -> ThreadRecord {
    ThreadRecord { wake_cpu_hint: Some(target), ..record }
}

/// A CPU that shows its present load.
pub open spec fn shown(cpu: CpuLocal) -> CpuLocal {
    cpu.with_remote(cpu.remote.showing_load())
}

} // verus!
