//! Creation of threads.
use vstd::prelude::*;
use crate::cpu::dispatch::{CurrentClassState, CurrentDispatch, CurrentDispatchState};
use crate::cpu::doorbell::SchedulerDoorbell;
use crate::cpu::local::CpuLocal;
use crate::cpu::remote::CpuRemote;
use crate::error::{TaskError, ThreadState};
use crate::ids::{CpuId, CpuSet, ThreadId};
use crate::scheduler::entity::SchedulingEntity;
use crate::scheduler::policy::{FairMode, SchedulePolicy};
use crate::scheduler::run_queue::RunQueue;
use crate::system::root_domain::{all_wf, indexed};
use crate::system::task_system::{
    TaskSystem, ThreadSlot, cpus_wf_after, put_undoes_take, with_queue, with_record,
};
use crate::thread::placement::{TaskOnRunQueue, ThreadPlacementState};
use crate::thread::record::{ThreadPolicyState, ThreadRecord, may_become};

verus! {

/// What a thread is created from.
#[derive(Debug)]
pub struct ThreadSpec {
    pub policy: SchedulePolicy,
    pub affinity: Option<CpuSet>,
    pub has_context: bool,
}

impl ThreadSpec {
    /// A thread that may run anywhere and has no context of its own yet.
    pub fn new(policy: SchedulePolicy) -> (spec: Self)
        ensures
            spec == (ThreadSpec { policy, affinity: None, has_context: false }),
    {
        ThreadSpec { policy, affinity: None, has_context: false }
    }

    /// The CPUs on which the thread may run.
    pub open spec fn allowed(&self, cpu_count: nat) -> Seq<bool> {
        match self.affinity {
            Some(affinity) => affinity.bits@,
            None => Seq::new(cpu_count, |i: int| true),
        }
    }
}

/// A thread whose slot and bandwidth are reserved, but that nobody can see.
#[derive(Debug)]
pub struct PendingThread {
    pub id: ThreadId,
    pub policy: SchedulePolicy,
    pub affinity: CpuSet,
    pub reservation: u64,
    pub has_context: bool,
}

/// The run queue with room for a slot.
pub open spec fn queue_prepared(after: &RunQueue, before: &RunQueue, slot: int) -> bool {
    &&& after.membership@.len() == if before.membership@.len() > slot {
        before.membership@.len()
    } else {
        (slot + 1) as nat
    }
    &&& forall|i: int|
        0 <= i < after.membership@.len() ==> #[trigger] after.membership@[i] == if i
            < before.membership@.len() {
            before.membership@[i]
        } else {
            None
        }
    &&& after.same_lists(before)
    &&& after.same_ledger(before)
    &&& after.same_times(before)
    &&& after.same_counters(before)
    &&& after.rt == before.rt
}

/// The CPUs with room for a slot.
pub open spec fn cpus_prepared(after: Seq<CpuLocal>, before: Seq<CpuLocal>, slot: int) -> bool {
    &&& after.len() == before.len()
    &&& forall|i: int|
        0 <= i < before.len() ==> #[trigger] after[i] == with_queue(before[i], after[i].queue())
            && queue_prepared(&after[i].queue(), &before[i].queue(), slot)
}

fn prepare_slot(cpus: &mut Vec<CpuLocal>, slot: u32)
    requires
        all_wf(old(cpus)@),
        indexed(old(cpus)@),
    ensures
        cpus_prepared(final(cpus)@, old(cpus)@, slot as int),
        all_wf(final(cpus)@),
        indexed(final(cpus)@),
{
    let ghost before = cpus@;
    let mut i: usize = 0;
    while i < cpus.len()
        invariant
            i <= cpus.len(),
            cpus@.len() == before.len(),
            all_wf(before),
            all_wf(cpus@),
            forall|j: int| i <= j < before.len() ==> #[trigger] cpus@[j] == before[j],
            forall|j: int|
                0 <= j < i ==> #[trigger] cpus@[j] == with_queue(before[j], cpus@[j].queue())
                    && queue_prepared(&cpus@[j].queue(), &before[j].queue(), slot as int),
        decreases cpus.len() - i,
    {
        let ghost listed = cpus@;
        assert(listed[i as int] == before[i as int]);
        assert(before[i as int].wf());
        cpus[i].remote.run_queue.queue.prepare_thread_slot(slot as usize);
        proof {
            assert forall|j: int| 0 <= j < cpus@.len() implies (#[trigger] cpus@[j]).wf() by {
                assert(listed[j].wf());
            }
        }
        i = i + 1;
    }
    proof {
        assert forall|j: int| 0 <= j < cpus@.len() implies (#[trigger] cpus@[j]).remote.owner == (
        CpuId { index: j as u32 }) by {
            assert(before[j].remote.owner == (CpuId { index: j as u32 }));
        }
    }
}

impl TaskSystem {
    /// Why a thread cannot be created, if it cannot.
    pub open spec fn creation_error(&self, spec: &ThreadSpec) -> Option<TaskError> {
        let allowed = spec.allowed(self.config.cpu_count as nat);
        let covers = forall|cpu: CpuId|
            self.root_domain.online.has(cpu) ==> #[trigger] covers_cpu(allowed, cpu);
        if !spec.policy.valid() {
            Some(TaskError::InvalidPolicy)
        } else if allowed.len() != self.config.cpu_count || crate::ids::members(allowed) == 0 {
            Some(TaskError::InvalidAffinity)
        } else if spec.policy is Deadline && !covers {
            Some(TaskError::DeadlineAffinity)
        } else if self.root_domain.admission.reserved_scaled + wanted(spec.policy)
            > self.root_domain.admission.capacity() && wanted(spec.policy) != 0 {
            Some(TaskError::DeadlineAdmission)
        } else if self.free_slots@.len() == 0 && self.slots@.len() >= self.config.thread_capacity {
            Some(TaskError::ThreadCapacity)
        } else {
            None
        }
    }

    /// A reservation too small to count is looked at only once the thread is
    /// published, and refused there if the system is overcommitted already.
    pub open spec fn rejects_late(&self, spec: &ThreadSpec) -> bool {
        spec.policy is Deadline && wanted(spec.policy) == 0
            && self.root_domain.admission.reserved_scaled > self.root_domain.admission.capacity()
    }

    /// The identity that the next thread gets.
    pub open spec fn next_identity(&self) -> ThreadId {
        if self.free_slots@.len() > 0 {
            let slot = self.free_slots@.last();
            ThreadId { slot, generation: self.slots@[slot as int].generation }
        } else {
            ThreadId { slot: self.slots@.len() as u32, generation: 1 }
        }
    }

    /// The registry after a slot was reserved.
    pub open spec fn slot_reserved(&self, before: &Self, id: ThreadId, reservation: u64) -> bool {
        let slot = ThreadSlot {
            generation: id.generation,
            record: None,
            pending_deadline_reservation: reservation,
        };
        if before.free_slots@.len() > 0 {
            &&& self.free_slots@ == before.free_slots@.drop_last()
            &&& self.slots@ == before.slots@.update(id.slot as int, slot)
        } else {
            &&& self.free_slots@ == before.free_slots@
            &&& self.slots@ == before.slots@.push(slot)
        }
    }

    /// Everything after the reservation of a thread.
    pub open spec fn reserved_for(&self, before: &Self, pending: &PendingThread) -> bool {
        &&& self.slot_reserved(before, pending.id, pending.reservation)
        &&& exists|extra: Seq<CpuLocal>|
            #[trigger] cpus_prepared(self.cpus@, extra, pending.id.slot as int)
                && if pending.reservation == 0 {
                extra == before.cpus@ && self.root_domain == before.root_domain
            } else {
                &&& self.root_domain == before.root_domain.holding(pending.reservation as int)
                &&& self.root_domain.exchanged_on(extra, before.cpus@, 0, pending.reservation)
            }
        &&& self.config == before.config
        &&& self.mutexes@ == before.mutexes@
        &&& self.exited@ == before.exited@
        &&& self.task_work == before.task_work
    }

    /// Reserves a slot and bandwidth for a thread. The caller binds the
    /// thread's context, if it has one, before it commits.
    pub fn reserve_thread(&mut self, spec: ThreadSpec) -> (result: Result<PendingThread, TaskError>)
        requires
            old(self).wf(),
        ensures
            result is Err <==> old(self).creation_error(&spec) is Some,
            result matches Err(error) ==> Some(error) == old(self).creation_error(&spec)
                && *final(self) == *old(self),
            result matches Ok(pending) ==> {
                &&& pending.id == old(self).next_identity()
                &&& pending.policy == spec.policy
                &&& pending.affinity.bits@ == spec.allowed(old(self).config.cpu_count as nat)
                &&& pending.reservation == wanted(spec.policy)
                &&& pending.has_context == spec.has_context
                &&& final(self).reserved_for(old(self), &pending)
                &&& final(self).slots@[pending.id.slot as int].record is None
                &&& !final(self).free_slots@.contains(pending.id.slot)
            },
            final(self).wf(),
    {
        let policy = spec.policy;
        let has_context = spec.has_context;
        let ghost allowed = spec.allowed(self.config.cpu_count as nat);
        let affinity = match spec.affinity {
            Some(affinity) => affinity,
            None => CpuSet::all(self.config.cpu_count),
        };
        assert(affinity.bits@ == allowed);
        match policy.validate() {
            Ok(_) => {},
            Err(error) => {
                return Err(error);
            },
        }
        if affinity.bits.len() != self.config.cpu_count || affinity.count() == 0 {
            return Err(TaskError::InvalidAffinity);
        }
        proof {
            assert(affinity.includes(&self.root_domain.online) <==> forall|cpu: CpuId|
                self.root_domain.online.has(cpu) ==> #[trigger] covers_cpu(allowed, cpu)) by {
                if affinity.includes(&self.root_domain.online) {
                    assert forall|cpu: CpuId| self.root_domain.online.has(cpu) implies
                        #[trigger] covers_cpu(allowed, cpu) by {
                        assert(affinity.has(cpu));
                    }
                }
                if forall|cpu: CpuId|
                    self.root_domain.online.has(cpu) ==> #[trigger] covers_cpu(allowed, cpu) {
                    assert forall|cpu: CpuId| self.root_domain.online.has(cpu) implies
                        #[trigger] affinity.has(cpu) by {
                        assert(covers_cpu(allowed, cpu));
                    }
                }
            }
        }
        let reservation: u64 = match self.root_domain.deadline_reservation_for(policy, &affinity) {
            Ok(reservation) => reservation,
            Err(error) => {
                return Err(error);
            },
        };
        if reservation != 0 {
            let capacity: u64 = self.root_domain.admission.capacity_scaled();
            let reserved: u64 = self.root_domain.admission.reserved_scaled();
            if reserved > capacity || reservation > capacity - reserved {
                return Err(TaskError::DeadlineAdmission);
            }
        }
        if self.free_slots.len() == 0 && self.slots.len() >= self.config.thread_capacity {
            return Err(TaskError::ThreadCapacity);
        }
        let ghost before = *self;
        let _ = self.root_domain.reserve_deadline(&mut self.cpus, policy, &affinity);
        let ghost extra = self.cpus@;
        proof {
            assert forall|j: int| 0 <= j < extra.len() implies (#[trigger] extra[j]).remote.owner == (
            CpuId { index: j as u32 }) by {
                assert(before.cpus@[j].remote.owner == (CpuId { index: j as u32 }));
                if reservation != 0 {
                    assert(extra[j] == extra[j]);
                }
            }
        }
        let id = if self.free_slots.len() > 0 {
            let last: usize = self.free_slots.len() - 1;
            let slot: u32 = self.free_slots[last];
            assert(before.free_slots@[last as int] == slot);
            assert(slot < self.slots@.len());
            let _ = self.free_slots.pop();
            let generation: u32 = self.slots[slot as usize].generation;
            self.slots[slot as usize].pending_deadline_reservation = reservation;
            proof {
                assert(before.slots@[slot as int].record is None);
                assert(self.slots@ =~= before.slots@.update(
                    slot as int,
                    ThreadSlot {
                        generation,
                        record: None,
                        pending_deadline_reservation: reservation,
                    },
                ));
                assert forall|i: int| 0 <= i < self.slots@.len() implies (
                #[trigger] self.slots@[i]).wf_at(i) by {
                    assert(before.slots@[i].wf_at(i));
                }
                assert forall|i: int| 0 <= i < self.free_slots@.len() implies (
                #[trigger] self.free_slots@[i]) < self.slots@.len()
                    && self.slots@[self.free_slots@[i] as int].record is None by {
                    assert(before.free_slots@[i] < before.slots@.len());
                }
                assert(!self.free_slots@.contains(slot));
            }
            ThreadId::from_parts(slot, generation)
        } else {
            let slot: u32 = self.slots.len() as u32;
            self.slots.push(
                ThreadSlot {
                    generation: 1,
                    record: None,
                    pending_deadline_reservation: reservation,
                },
            );
            proof {
                assert forall|i: int| 0 <= i < self.slots@.len() implies (
                #[trigger] self.slots@[i]).wf_at(i) by {
                    if i < before.slots@.len() {
                        assert(before.slots@[i].wf_at(i));
                    }
                }
            }
            ThreadId::from_parts(slot, 1)
        };
        prepare_slot(&mut self.cpus, id.slot);
        proof {
            assert(cpus_prepared(self.cpus@, extra, id.slot as int));
        }
        Ok(PendingThread { id, policy, affinity, reservation, has_context })
    }

    /// Whether a reserved thread still fits the topology.
    pub open spec fn commit_error(&self, pending: &PendingThread, status: u32) -> Option<TaskError> {
        if pending.has_context && status != 0 {
            Some(TaskError::RuntimeFailure(status))
        } else if pending.policy is Deadline && !pending.affinity.includes(
            &self.root_domain.online,
        ) {
            Some(TaskError::DeadlineAffinity)
        } else if pending.policy is Deadline && self.root_domain.admission.reserved_scaled
            > self.root_domain.admission.capacity() {
            Some(TaskError::DeadlineAdmission)
        } else {
            None
        }
    }

    /// The registry after a reserved slot was given up: its generation is used
    /// up, and the slot is free unless that was the last one.
    pub open spec fn slot_abandoned(&self, before: &Self, id: ThreadId) -> bool {
        let retired = id.generation == u32::MAX;
        &&& self.slots@ == before.slots@.update(
            id.slot as int,
            ThreadSlot {
                generation: if retired {
                    u32::MAX
                } else {
                    (id.generation + 1) as u32
                },
                record: None,
                pending_deadline_reservation: 0,
            },
        )
        &&& self.free_slots@ == if retired {
            before.free_slots@
        } else {
            before.free_slots@.push(id.slot)
        }
    }

    /// Publishes a reserved thread, or gives its reservation back. `status` is
    /// what binding its context came to; zero is success.
    pub fn commit_thread(&mut self, pending: PendingThread, status: u32) -> (result: Result<ThreadId, TaskError>)
        requires
            old(self).wf(),
            pending.policy.valid(),
            pending.id.slot < old(self).slots@.len(),
            old(self).slots@[pending.id.slot as int].generation == pending.id.generation,
            old(self).slots@[pending.id.slot as int].record is None,
            !old(self).free_slots@.contains(pending.id.slot),
            pending.reservation <= old(self).root_domain.admission.reserved_scaled,
        ensures
            result == match old(self).commit_error(&pending, status) {
                Some(error) => Err(error),
                None => Ok(pending.id),
            },
            result is Ok ==> {
                &&& final(self).record(pending.id) matches Some(record)
                &&& exists|entity: SchedulingEntity|
                    #[trigger] entity.initial(pending.policy, old(self).config.fair_slice_ns, 0)
                        && record.fresh(
                        pending.id,
                        pending.policy,
                        entity,
                        pending.reservation,
                        pending.has_context,
                    )
                &&& record.placement.affinity == pending.affinity
                &&& final(self).slots@ == old(self).slots@.update(
                    pending.id.slot as int,
                    ThreadSlot {
                        generation: pending.id.generation,
                        record: Some(record),
                        pending_deadline_reservation: 0,
                    },
                )
                &&& final(self).cpus@ == old(self).cpus@
                &&& final(self).same_rest(old(self))
            },
            result is Err ==> {
                &&& final(self).slot_abandoned(old(self), pending.id)
                &&& if pending.reservation == 0 {
                    final(self).root_domain == old(self).root_domain && final(self).cpus@ == old(self).cpus@
                } else {
                    &&& final(self).root_domain == old(self).root_domain.holding(
                        -pending.reservation,
                    )
                    &&& final(self).root_domain.exchanged_on(
                        final(self).cpus@,
                        old(self).cpus@,
                        pending.reservation,
                        0,
                    )
                }
                &&& final(self).config == old(self).config
                &&& final(self).mutexes@ == old(self).mutexes@
                &&& final(self).exited@ == old(self).exited@
                &&& final(self).task_work == old(self).task_work
            },
            final(self).wf(),
    {
        let is_deadline = match pending.policy {
            SchedulePolicy::Deadline(_) => true,
            _ => false,
        };
        let error = if pending.has_context && status != 0 {
            Some(TaskError::RuntimeFailure(status))
        } else if is_deadline && !pending.affinity.covers(&self.root_domain.online) {
            Some(TaskError::DeadlineAffinity)
        } else if is_deadline && self.root_domain.admission_overcommitted() {
            Some(TaskError::DeadlineAdmission)
        } else {
            None
        };
        let ghost before = *self;
        let slot: usize = pending.id.slot as usize;
        if let Some(error) = error {
            self.root_domain.release_deadline(&mut self.cpus, pending.reservation);
            let ghost released = self.cpus@;
            self.slots[slot].pending_deadline_reservation = 0;
            if pending.id.generation < u32::MAX {
                self.slots[slot].generation = pending.id.generation + 1;
                self.free_slots.push(pending.id.slot);
            }
            proof {
                assert(self.slots@ =~= before.slots@.update(
                    slot as int,
                    ThreadSlot {
                        generation: if pending.id.generation == u32::MAX {
                            u32::MAX
                        } else {
                            (pending.id.generation + 1) as u32
                        },
                        record: None,
                        pending_deadline_reservation: 0,
                    },
                ));
                assert forall|i: int| 0 <= i < self.slots@.len() implies (
                #[trigger] self.slots@[i]).wf_at(i) by {
                    assert(before.slots@[i].wf_at(i));
                }
                assert forall|i: int| 0 <= i < self.free_slots@.len() implies (
                #[trigger] self.free_slots@[i]) < self.slots@.len()
                    && self.slots@[self.free_slots@[i] as int].record is None by {
                    if i < before.free_slots@.len() {
                        assert(before.free_slots@[i] < before.slots@.len());
                    }
                }
                assert forall|i: int, j: int| 0 <= i < j < self.free_slots@.len() implies
                    #[trigger] self.free_slots@[i] != #[trigger] self.free_slots@[j] by {
                    assert(before.free_slots@.contains(before.free_slots@[i]));
                }
                assert forall|j: int| 0 <= j < released.len() implies (
                #[trigger] released[j]).remote.owner == (CpuId { index: j as u32 }) by {
                    assert(before.cpus@[j].remote.owner == (CpuId { index: j as u32 }));
                    if pending.reservation != 0 {
                        assert(released[j] == released[j]);
                    }
                }
            }
            return Err(error);
        }
        let entity = SchedulingEntity::new(pending.policy, self.config.fair_slice_ns, 0);
        let record = ThreadRecord::new(
            pending.id,
            pending.policy,
            entity,
            pending.affinity,
            pending.reservation,
            pending.has_context,
        );
        self.slots[slot].pending_deadline_reservation = 0;
        let ghost cleared = *self;
        proof {
            assert forall|i: int| 0 <= i < self.slots@.len() implies (
            #[trigger] self.slots@[i]).wf_at(i) by {
                assert(before.slots@[i].wf_at(i));
            }
        }
        self.put_record(record);
        proof {
            assert(entity.initial(pending.policy, before.config.fair_slice_ns, 0));
            assert(self.slots@ =~= before.slots@.update(
                slot as int,
                ThreadSlot {
                    generation: pending.id.generation,
                    record: Some(record),
                    pending_deadline_reservation: 0,
                },
            ));
        }
        Ok(pending.id)
    }

    /// `self` is `before` with one thread more.
    pub open spec fn created(&self, before: &Self, spec: &ThreadSpec, id: ThreadId) -> bool {
        let record = self.record(id)->0;
        &&& self.record(id) is Some
        &&& exists|entity: SchedulingEntity|
            #[trigger] entity.initial(spec.policy, before.config.fair_slice_ns, 0) && record.fresh(
                id,
                spec.policy,
                entity,
                wanted(spec.policy),
                false,
            )
        &&& record.placement.affinity.bits@ == spec.allowed(before.config.cpu_count as nat)
        &&& exists|mid: TaskSystem, pending: PendingThread|
            #[trigger] mid.reserved_for(before, &pending) && pending.id == id
                && pending.reservation == wanted(spec.policy) && self.slots@ == mid.slots@.update(
                id.slot as int,
                ThreadSlot {
                    generation: id.generation,
                    record: Some(record),
                    pending_deadline_reservation: 0,
                },
            ) && self.cpus@ == mid.cpus@ && self.same_rest(&mid)
    }

    /// Creates a thread without a context of its own.
    pub fn create_thread(&mut self, spec: ThreadSpec) -> (result: Result<ThreadId, TaskError>)
        requires
            old(self).wf(),
            !spec.has_context,
        ensures
            result == match old(self).creation_error(&spec) {
                Some(error) => Err(error),
                None => if old(self).rejects_late(&spec) {
                    Err(TaskError::DeadlineAdmission)
                } else {
                    Ok(old(self).next_identity())
                },
            },
            old(self).creation_error(&spec) is Some ==> *final(self) == *old(self),
            old(self).creation_error(&spec) is None && old(self).rejects_late(&spec)
                ==> exists|mid: TaskSystem, pending: PendingThread|
                #[trigger] mid.reserved_for(old(self), &pending) && pending.id == old(self).next_identity() && pending.reservation == 0 && final(self).slot_abandoned(
                    &mid,
                    pending.id,
                ) && final(self).cpus@ == mid.cpus@ && final(self).root_domain == mid.root_domain
                    && final(self).config == mid.config && final(self).mutexes@ == mid.mutexes@
                    && final(self).exited@ == mid.exited@ && final(self).task_work
                    == mid.task_work,
            result matches Ok(id) ==> final(self).created(old(self), &spec, id),
            final(self).wf(),
    {
        let ghost before = *self;
        let ghost allowed = spec.allowed(before.config.cpu_count as nat);
        let pending = match self.reserve_thread(spec) {
            Ok(pending) => pending,
            Err(error) => {
                return Err(error);
            },
        };
        let ghost reserved = *self;
        let ghost promised = pending;
        proof {
            if spec.policy is Deadline {
                assert(pending.affinity.includes(&self.root_domain.online)) by {
                    assert forall|cpu: CpuId| self.root_domain.online.has(cpu) implies
                        #[trigger] pending.affinity.has(cpu) by {
                        assert(covers_cpu(allowed, cpu));
                    }
                }
            }
            assert(self.reserved_for(&before, &promised));
            before.root_domain.admission.capacity_fits();
        }
        self.commit_thread(pending, 0)
    }
}

/// The dispatch with which a thread starts to run.
pub open spec fn dispatch_of(record: &ThreadRecord, schedule: CurrentClassState, policy: SchedulePolicy, now_ns: u64) -> CurrentDispatch {
    CurrentDispatch {
        thread: record.id,
        schedule,
        deadline_donor: record.pi.deadline_donor,
        deadline_cbs_generation: None,
        blocks_pi_waiter: record.pi.donors.entries@.len() > 0,
        rt_quota_exempt: record.exempt(policy),
        pi_critical_rescue: false,
        deadline_bandwidth_scaled: record.deadline.reservation_scaled,
        policy_generation: record.policy.dispatch_generation,
        deadline_overrun: false,
        accounted_until_ns: now_ns,
        charged_runtime_ns: 0,
    }
}

pub fn owner_dispatch(record: &ThreadRecord, schedule: CurrentClassState, policy: SchedulePolicy, now_ns: u64) -> (dispatch: CurrentDispatch)
    ensures
        dispatch == dispatch_of(record, schedule, policy, now_ns),
{
    let metadata = record.rq_task_metadata();
    CurrentDispatch::new(
        CurrentDispatchState {
            thread: record.id,
            schedule,
            deadline_donor: metadata.deadline_donor,
            blocks_pi_waiter: !record.pi.donors.is_empty(),
            rt_quota_exempt: record.is_pi_boosted_rt_owner_for(policy),
            pi_critical_rescue: false,
            deadline_bandwidth_scaled: metadata.deadline_bandwidth_scaled,
            policy_generation: metadata.policy_generation,
        },
        now_ns,
    )
}

/// Lets a new thread run on a CPU that runs none.
fn boot(local: &mut CpuLocal, record: &mut ThreadRecord, cpu: CpuId, now_ns: u64)
    requires
        old(local).wf(),
        old(record).wf(),
        old(record).lifecycle == ThreadState::New,
        old(record).policy.active is Some,
        old(record).placement.on_rq == TaskOnRunQueue::Off,
        old(record).placement.on_cpu is None,
        old(record).placement.migration_request is None,
    ensures
        *final(local) == TaskSystem::booting(*old(local), *old(record), now_ns),
        *final(record) == TaskSystem::booted(*old(record), cpu),
        final(local).wf(),
        final(record).wf(),
{
    let _ = record.transition(ThreadState::Ready);
    let _ = record.transition(ThreadState::Running);
    let active = record.policy.active.unwrap();
    record.policy.active = None;
    let dispatch = owner_dispatch(record, CurrentClassState::Owned(active), active.policy, now_ns);
    record.placement.activate(cpu);
    record.placement.set_next_task(cpu);
    record.wake_cpu_hint = Some(cpu);
    local.remote.run_queue.queue.count_unlinked_current();
    local.install_dispatch(dispatch);
    local.set_current_thread(record.id);
    local.remote.publish_run_queue_load_summary();
}

impl TaskSystem {
    /// Makes a new or woken thread ready to be placed.
    pub fn make_ready(&mut self, thread: ThreadId) -> (result: Result<(), TaskError>)
        requires
            old(self).wf(),
        ensures
            result == match old(self).record(thread) {
                None => Err(TaskError::StaleThreadId),
                Some(record) => if may_become(record.lifecycle, ThreadState::Ready) {
                    Ok::<(), TaskError>(())
                } else {
                    Err(
                        TaskError::InvalidTransition {
                            from: record.lifecycle,
                            to: ThreadState::Ready,
                        },
                    )
                },
            },
            result is Ok ==> final(self).only_thread(
                old(self),
                ThreadRecord {
                    lifecycle: ThreadState::Ready,
                    ..old(self).record(thread)->0
                },
            ),
            result is Err ==> final(self).unchanged(old(self)),
            final(self).wf(),
    {
        if !self.is_registered(thread) {
            return Err(TaskError::StaleThreadId);
        }
        let ghost before = *self;
        let mut record = self.take_record(thread);
        let result = record.transition(ThreadState::Ready);
        self.put_record(record);
        proof {
            put_undoes_take(before.slots@, thread);
            assert(self.slots@ =~= with_record(before.slots@, record));
        }
        result
    }

    /// The bootstrap thread once it runs.
    pub open spec fn booted(record: ThreadRecord, cpu: CpuId) -> ThreadRecord {
        ThreadRecord {
            lifecycle: ThreadState::Running,
            policy: ThreadPolicyState { active: None, ..record.policy },
            placement: ThreadPlacementState {
                task_cpu: Some(cpu),
                on_rq: TaskOnRunQueue::Queued,
                on_cpu: Some(cpu),
                ..record.placement
            },
            wake_cpu_hint: Some(cpu),
            ..record
        }
    }

    /// A CPU that runs its bootstrap thread.
    pub open spec fn booting(cpu: CpuLocal, record: ThreadRecord, now_ns: u64) -> CpuLocal {
        let active = record.policy.active->0;
        let queue = RunQueue {
            nr_running: if cpu.queue().nr_running < usize::MAX {
                (cpu.queue().nr_running + 1) as usize
            } else {
                usize::MAX
            },
            current: Some(
                dispatch_of(&record, CurrentClassState::Owned(active), active.policy, now_ns),
            ),
            ..cpu.queue()
        };
        let running = with_queue(cpu, queue).occupied(record.id);
        running.with_remote(running.remote.showing_load())
    }

    /// Creates the thread that a CPU has been running all along.
    pub fn install_bootstrap_thread(&mut self, cpu: CpuId, spec: ThreadSpec, now_ns: u64) -> (result: Result<ThreadId, TaskError>)
        requires
            old(self).wf(),
            !spec.has_context,
        ensures
            result == if !old(self).has_cpu(cpu) {
                Err(TaskError::InvalidCpu(cpu.index))
            } else if old(self).cpu(cpu).current is Some {
                Err(TaskError::InvalidConfiguration)
            } else {
                match old(self).creation_error(&spec) {
                    Some(error) => Err(error),
                    None => if old(self).rejects_late(&spec) {
                        Err(TaskError::DeadlineAdmission)
                    } else {
                        Ok(old(self).next_identity())
                    },
                }
            },
            result is Err && !(old(self).creation_error(&spec) is None && old(self).rejects_late(
                &spec,
            )) ==> *final(self) == *old(self),
            result matches Ok(id) ==> exists|mid: TaskSystem|
                #[trigger] mid.created(old(self), &spec, id) && final(self).only_thread_and_cpu(
                    &mid,
                    Self::booted(mid.record(id)->0, cpu),
                    Self::booting(mid.cpu(cpu), mid.record(id)->0, now_ns),
                ),
            final(self).wf(),
    {
        if cpu.index as usize >= self.cpus.len() {
            return Err(TaskError::InvalidCpu(cpu.index));
        }
        if self.cpus[cpu.index as usize].current.is_some() {
            return Err(TaskError::InvalidConfiguration);
        }
        let id = match self.create_thread(spec) {
            Ok(id) => id,
            Err(error) => {
                return Err(error);
            },
        };
        let ghost mid = *self;
        assert(mid.created(old(self), &spec, id));
        let mut record = self.take_record(id);
        let ghost fresh = record;
        let at: usize = cpu.index as usize;
        let ghost taken = *self;
        assert(taken.cpus@[at as int].wf());
        boot(&mut self.cpus[at], &mut record, cpu, now_ns);
        proof {
            assert(self.cpus@ =~= taken.cpus@.update(at as int, self.cpus@[at as int]));
            assert(taken.cpus@[at as int].remote.owner == (CpuId { index: at as u32 }));
            cpus_wf_after(taken.cpus@, self.cpus@, at as int);
        }
        self.put_record(record);
        proof {
            assert(self.slots@ =~= with_record(mid.slots@, TaskSystem::booted(fresh, cpu)));
        }
        Ok(id)
    }

    /// Creates the thread that a CPU runs when it has nothing else.
    pub fn register_idle_thread(&mut self, cpu: CpuId, spec: ThreadSpec) -> (result: Result<ThreadId, TaskError>)
        requires
            old(self).wf(),
            !spec.has_context,
        ensures
            result == if !old(self).has_cpu(cpu) {
                Err(TaskError::InvalidCpu(cpu.index))
            } else if !(spec.policy is Fair && spec.policy->mode == FairMode::Idle) || old(self).cpu(cpu).idle is Some {
                Err(TaskError::InvalidConfiguration)
            } else {
                match old(self).creation_error(&spec) {
                    Some(error) => Err(error),
                    None => Ok(old(self).next_identity()),
                }
            },
            result is Err ==> *final(self) == *old(self),
            result matches Ok(id) ==> exists|mid: TaskSystem|
                #[trigger] mid.created(old(self), &spec, id) && final(self).only_thread_and_cpu(
                    &mid,
                    ThreadRecord { lifecycle: ThreadState::Ready, ..mid.record(id)->0 },
                    CpuLocal {
                        idle: Some(id),
                        remote: CpuRemote {
                            idle_thread: Some(id),
                            doorbell: SchedulerDoorbell {
                                ready: true,
                                ..mid.cpu(cpu).remote.doorbell
                            },
                            ..mid.cpu(cpu).remote
                        },
                        ..mid.cpu(cpu)
                    },
                ),
            final(self).wf(),
    {
        if cpu.index as usize >= self.cpus.len() {
            return Err(TaskError::InvalidCpu(cpu.index));
        }
        let idles = match spec.policy {
            SchedulePolicy::Fair { mode, .. } => mode == FairMode::Idle,
            _ => false,
        };
        if !idles {
            return Err(TaskError::InvalidConfiguration);
        }
        if self.cpus[cpu.index as usize].idle().is_some() {
            return Err(TaskError::InvalidConfiguration);
        }
        let id = match self.create_thread(spec) {
            Ok(id) => id,
            Err(error) => {
                return Err(error);
            },
        };
        let ghost mid = *self;
        assert(mid.created(old(self), &spec, id));
        let _ = self.make_ready(id);
        let at: usize = cpu.index as usize;
        let ghost readied = *self;
        assert(readied.cpus@[at as int].wf());
        self.cpus[at].set_idle(id);
        proof {
            assert(self.cpus@ =~= readied.cpus@.update(at as int, self.cpus@[at as int]));
            assert(readied.cpus@[at as int].remote.owner == (CpuId { index: at as u32 }));
            cpus_wf_after(readied.cpus@, self.cpus@, at as int);
        }
        Ok(id)
    }
}

/// Whether a membership sequence holds a CPU.
pub open spec fn covers_cpu(bits: Seq<bool>, cpu: CpuId) -> bool {
    cpu.index < bits.len() && bits[cpu.index as int]
}

/// The bandwidth that a policy reserves.
pub open spec fn wanted(policy: SchedulePolicy) -> u64 {
    match policy {
        SchedulePolicy::Deadline(deadline) => deadline.utilization() as u64,
        _ => 0,
    }
}

} // verus!