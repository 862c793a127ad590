//! Threads that move from one CPU to another.
use vstd::prelude::*;
use crate::cpu::inbox::{InboxMessage, InboxOperation};
use crate::cpu::load::RemoteLoadState;
use crate::cpu::local::CpuLocal;
use crate::cpu::remote::CpuRemote;
use crate::error::{TaskError, ThreadState};
use crate::ids::{CpuId, ThreadId};
use crate::scheduler::entity::{EnqueueReason, SchedulingEntity};
use crate::scheduler::policy::{FairMode, SchedulePolicy};
use crate::scheduler::run_queue::RunQueue;
use crate::scheduler::task::ActiveSchedulingState;
use crate::system::placement::PlacementRank;
use crate::system::task_system::{TaskSystem, cpus_wf_after, with_record};
use crate::thread::placement::{TaskOnRunQueue, ThreadPlacementState};
use crate::thread::record::ThreadRecord;
use crate::time::MonotonicInstant;

verus! {

/// The message that brings a thread to the CPU that it moves to.
pub open spec fn migration_of(thread: ThreadId, source: CpuId, target: CpuId, demand: u64) -> InboxMessage {
    InboxMessage {
        operation: InboxOperation::Migration,
        thread: Some(thread),
        source: Some(source),
        target: Some(target),
        generation: 0,
        placement_demand: demand,
        reservation: None,
    }
}

/// The message that asks a CPU to look at the affinity of a thread.
pub open spec fn affinity_retry(thread: ThreadId, owner: CpuId, target: CpuId) -> InboxMessage {
    InboxMessage {
        operation: InboxOperation::AffinityUpdate,
        thread: Some(thread),
        source: Some(owner),
        target: Some(target),
        generation: 0,
        placement_demand: 0,
        reservation: None,
    }
}

/// The CPU that expects a thread of some demand.
pub open spec fn expecting(cpu: CpuLocal, demand: u64) -> CpuLocal {
    cpu.with_remote(
        CpuRemote {
            load: RemoteLoadState {
                incoming_migration_demand: (cpu.remote.load.incoming_migration_demand
                    + demand) as u64,
                ..cpu.remote.load
            },
            ..cpu.remote
        },
    )
}

/// Counts a thread that is on its way to a CPU.
pub(crate) fn expect_on(cpu: &mut CpuLocal, demand: u64)
    requires
        can_expect(*old(cpu), demand),
    ensures
        *final(cpu) == expecting(*old(cpu), demand),
        old(cpu).wf() ==> final(cpu).wf(),
{
    cpu.remote.load.reserve_incoming_migration(demand);
}

pub open spec fn can_expect(cpu: CpuLocal, demand: u64) -> bool {
    cpu.remote.load.incoming_migration_demand + demand <= u64::MAX
}

/// The scheduling state of a thread that leaves a run queue, with the fair lag
/// that it takes along.
pub open spec fn captured(active: ActiveSchedulingState, queue: &RunQueue, granularity_ns: u64) -> ActiveSchedulingState {
    let moved = match active.effective() {
        SchedulingEntity::Fair(fair) => active.with_effective(
            active.effective().in_transit(queue.mode_time(fair.mode), granularity_ns),
        ),
        _ => active,
    };
    match (moved.inherited, moved.base_entity) {
        (Some(_), SchedulingEntity::Fair(fair)) => ActiveSchedulingState {
            base_entity: moved.base_entity.in_transit(queue.mode_time(fair.mode), granularity_ns),
            ..moved
        },
        _ => moved,
    }
}

/// Remembers the fair lag of a thread that leaves a run queue.
pub fn capture_owner_fair_migration(active: ActiveSchedulingState, queue: &RunQueue, granularity_ns: u64) -> (moved: ActiveSchedulingState)
    requires
        active.wf(),
    ensures
        moved == captured(active, queue, granularity_ns),
        moved.wf(),
{
    let mut moved = active;
    if let SchedulingEntity::Fair(fair) = active.entity() {
        let mut entity = active.entity();
        let virtual_time: u64 = queue.virtual_time_for_mode(fair.mode);
        entity.capture_fair_migration(virtual_time, granularity_ns);
        moved.set_entity(entity);
    }
    if moved.uses_inherited_entity() {
        if let SchedulingEntity::Fair(fair) = moved.base_entity() {
            let mut base = moved.base_entity();
            let virtual_time: u64 = queue.virtual_time_for_mode(fair.mode);
            base.capture_fair_migration(virtual_time, granularity_ns);
            moved.replace_base_entity(base);
        }
    }
    moved
}

impl TaskSystem {
    /// A CPU was sent a thread.
    pub open spec fn migration_sent(&self, before: &Self, thread: ThreadId, source: CpuId, target: CpuId, demand: u64) -> bool {
        exists|held: CpuLocal|
            #[trigger] Self::messaged(
                held,
                expecting(before.cpu(target), demand),
                migration_of(thread, source, target, demand),
            ) && self.cpu_becomes(before, target, held.with_remote(held.remote.kicked(source)))
    }

    pub(crate) fn send_migration(&mut self, thread: ThreadId, source: CpuId, target: CpuId, demand: u64)
        requires
            old(self).wf(),
            old(self).has_cpu(target),
            can_expect(old(self).cpu(target), demand),
        ensures
            final(self).migration_sent(old(self), thread, source, target, demand),
            final(self).wf(),
    {
        let ghost before = *self;
        let at: usize = target.index as usize;
        assert(before.cpus@[at as int].wf());
        expect_on(&mut self.cpus[at], demand);
        let ghost expects = self.cpus@[at as int];
        proof {
            assert(self.cpus@ =~= before.cpus@.update(at as int, self.cpus@[at as int]));
            cpus_wf_after(before.cpus@, self.cpus@, at as int);
            assert(expects == expecting(before.cpu(target), demand));
        }
        let message = InboxMessage {
            operation: InboxOperation::Migration,
            thread: Some(thread),
            source: Some(source),
            target: Some(target),
            generation: 0,
            placement_demand: demand,
            reservation: None,
        };
        let ghost mid = *self;
        self.post_to_cpu(target, message, source);
        proof {
            let held = choose|held: CpuLocal|
                #[trigger] Self::messaged(held, mid.cpu(target), message) && self.cpu_becomes(
                    &mid,
                    target,
                    held.with_remote(held.remote.kicked(source)),
                );
            assert(Self::messaged(
                held,
                expecting(before.cpu(target), demand),
                migration_of(thread, source, target, demand),
            ));
            assert(self.cpus@ =~= before.cpus@.update(
                at as int,
                held.with_remote(held.remote.kicked(source)),
            ));
        }
    }

    /// The CPU for a thread that is made runnable from a CPU. Ordinary fair work
    /// goes to the CPU that has least to do; any other thread stays unless its
    /// affinity sends it away.
    pub open spec fn placement_target(&self, record: &ThreadRecord, active: ActiveSchedulingState, owner: CpuId) -> Option<CpuId> {
        let affinity = &record.placement.affinity;
        match active.policy {
            SchedulePolicy::Fair { mode, .. } => if mode == FairMode::Idle {
                if affinity.has(owner) {
                    Some(owner)
                } else {
                    self.best_cpu(affinity, None, None, PlacementRank::Allowed)
                }
            } else {
                self.best_cpu(affinity, Some(owner), None, PlacementRank::Demand)
            },
            SchedulePolicy::KernelStop => if affinity.has(owner) {
                Some(owner)
            } else {
                self.best_cpu(affinity, None, None, PlacementRank::Allowed)
            },
            _ => if affinity.has(owner) {
                Some(owner)
            } else {
                self.priority_choice(
                    active.policy,
                    active.effective(),
                    affinity,
                    Some(owner),
                    None,
                )
            },
        }
    }

    /// Where a ready thread goes, or why it goes nowhere.
    pub open spec fn placement_plan(&self, cpu: CpuId, thread: ThreadId, now_ns: u64) -> Result<CpuId, TaskError> {
        if !self.has_cpu(cpu) {
            Err(TaskError::InvalidCpu(cpu.index))
        } else if !self.online(cpu) {
            Err(TaskError::CpuOffline(cpu.index))
        } else {
            match self.record(thread) {
                None => Err(TaskError::StaleThreadId),
                Some(record) => if record.lifecycle != ThreadState::Ready {
                    Err(TaskError::NotReady)
                } else if record.placement.on_rq != TaskOnRunQueue::Off || record.placement.on_cpu
                    is Some {
                    Err(TaskError::AlreadyQueued)
                } else {
                    match record.policy.active {
                        None => Err(TaskError::InvalidConfiguration),
                        Some(active) => match self.placement_target(&record, active, cpu) {
                            None => Err(TaskError::InvalidConfiguration),
                            Some(target) => if target == cpu {
                                match self.enqueue_error(cpu, thread, EnqueueReason::Wake, now_ns) {
                                    Some(error) => Err(error),
                                    None => Ok(cpu),
                                }
                            } else if can_expect(self.cpu(target), active.policy.load()) {
                                Ok(target)
                            } else {
                                Err(TaskError::InvalidConfiguration)
                            },
                        },
                    }
                },
            }
        }
    }

    /// The record of a thread that is on its way to a CPU.
    pub open spec fn handed_over(record: ThreadRecord, target: CpuId) -> ThreadRecord {
        ThreadRecord {
            placement: ThreadPlacementState {
                task_cpu: Some(target),
                on_rq: TaskOnRunQueue::Migrating,
                migration_request: None,
                ..record.placement
            },
            wake_cpu_hint: Some(target),
            ..record
        }
    }

    fn choose_placement(&self, record: &ThreadRecord, active: ActiveSchedulingState, owner: CpuId) -> (target: Option<CpuId>)
        requires
            self.wf(),
        ensures
            target == self.placement_target(record, active, owner),
            target matches Some(cpu) ==> cpu == owner || self.has_cpu(cpu),
    {
        let affinity = &record.placement.affinity;
        let fixed = match active.policy {
            SchedulePolicy::Fair { mode, .. } => match mode {
                FairMode::Idle => true,
                FairMode::Normal | FairMode::Batch => {
                    return self.find_cpu(affinity, Some(owner), None, PlacementRank::Demand);
                },
            },
            SchedulePolicy::KernelStop => true,
            _ => false,
        };
        if affinity.contains(owner) {
            Some(owner)
        } else if fixed {
            self.find_cpu(affinity, None, None, PlacementRank::Allowed)
        } else {
            self.select_priority_cpu(
                active.policy,
                active.entity(),
                affinity,
                Some(owner),
                None,
            )
        }
    }

    fn plan_placement(&self, cpu: CpuId, thread: ThreadId, now_ns: u64) -> (plan: Result<CpuId, TaskError>)
        requires
            self.wf(),
        ensures
            plan == self.placement_plan(cpu, thread, now_ns),
            plan matches Ok(target) ==> self.has_cpu(target),
    {
        if let Err(error) = self.ensure_owner_cpu_online(cpu) {
            return Err(error);
        }
        let record = match self.thread_record(thread) {
            Ok(record) => record,
            Err(error) => {
                return Err(error);
            },
        };
        if record.lifecycle != ThreadState::Ready {
            return Err(TaskError::NotReady);
        }
        if record.placement.on_rq != TaskOnRunQueue::Off || record.placement.on_cpu.is_some() {
            return Err(TaskError::AlreadyQueued);
        }
        let active = match record.policy.active {
            Some(active) => active,
            None => {
                return Err(TaskError::InvalidConfiguration);
            },
        };
        let target = match self.choose_placement(record, active, cpu) {
            Some(target) => target,
            None => {
                return Err(TaskError::InvalidConfiguration);
            },
        };
        if target == cpu {
            return match self.check_enqueue(cpu, thread, EnqueueReason::Wake, now_ns) {
                Some(error) => Err(error),
                None => Ok(cpu),
            };
        }
        let incoming: u64 = self.cpus[target.index as usize].remote.load.incoming_migration_demand;
        if incoming <= u64::MAX - active.policy.placement_demand() {
            Ok(target)
        } else {
            Err(TaskError::InvalidConfiguration)
        }
    }

    /// Changes the record of a thread that is sent to a CPU.
    fn hand_over(&mut self, thread: ThreadId, target: CpuId)
        requires
            old(self).wf(),
            old(self).record(thread) is Some,
            (old(self).record(thread)->0).placement.can_begin_remote_wakeup(),
        ensures
            final(self).only_thread(old(self), Self::handed_over(old(self).record(thread)->0, target)),
            final(self).wf(),
    {
        let ghost before = *self;
        let mut record = self.take_record(thread);
        record.placement.begin_remote_wakeup(target);
        record.wake_cpu_hint = Some(target);
        self.put_record(record);
        assert(self.slots@ =~= with_record(before.slots@, record));
    }

    /// The system after a ready thread was put on the CPU that suits it best: on
    /// the run queue of this one, or in the inbox of another.
    pub open spec fn placed_ready(&self, before: &Self, cpu: CpuId, thread: ThreadId, now_ns: u64, monotonic_now: MonotonicInstant, result: Result<(), TaskError>) -> bool {
        match before.placement_plan(cpu, thread, now_ns) {
            Err(error) => result == Err::<(), TaskError>(error) && *self == *before,
            Ok(target) => result == Ok::<(), TaskError>(()) && if target == cpu {
                self.enqueued_on(before, cpu, thread, EnqueueReason::Wake, now_ns, monotonic_now)
            } else {
                exists|parted: TaskSystem|
                    #[trigger] parted.only_thread(
                        before,
                        Self::handed_over(before.record(thread)->0, target),
                    ) && self.migration_sent(
                        &parted,
                        thread,
                        cpu,
                        target,
                        ((before.record(thread)->0).policy.active->0).policy.load(),
                    )
            },
        }
    }

    /// Puts a ready thread on the CPU that suits it best: on the run queue of
    /// this one, or in the inbox of another.
    pub fn place_ready(&mut self, cpu: CpuId, thread: ThreadId, now_ns: u64, monotonic_now: MonotonicInstant) -> (result: Result<(), TaskError>)
        requires
            old(self).wf(),
        ensures
            final(self).placed_ready(old(self), cpu, thread, now_ns, monotonic_now, result),
            final(self).wf(),
    {
        let target = match self.plan_placement(cpu, thread, now_ns) {
            Ok(target) => target,
            Err(error) => {
                return Err(error);
            },
        };
        if target == cpu {
            return self.enqueue_owner_thread(
                cpu,
                thread,
                EnqueueReason::Wake,
                now_ns,
                monotonic_now,
            );
        }
        let demand: u64 = match self.thread_record(thread) {
            Ok(record) => match record.policy.active {
                Some(active) => active.policy.placement_demand(),
                None => 0,
            },
            Err(_) => 0,
        };
        self.hand_over(thread, target);
        self.send_migration(thread, cpu, target, demand);
        Ok(())
    }
}

} // verus!
