//! The task system: every thread, every CPU, and what they share.
use vstd::prelude::*;
use crate::config::TaskSystemConfig;
use crate::cpu::inbox::InboxMessage;
use crate::cpu::local::CpuLocal;
use crate::cpu::remote::{CpuLifecycleState, CpuRemote};
use crate::cpu::run_queue::CpuRunQueueState;
use crate::error::TaskError;
use crate::ids::{CpuId, ThreadId};
use crate::scheduler::run_queue::RunQueue;
use crate::system::root_domain::{RootDomain, all_wf, indexed};
use crate::thread::pi::{PiMutexCore, PiMutexId, PiMutexRef};
use crate::thread::record::ThreadRecord;

verus! {

/// One slot of the thread registry. A slot without a record is free, or
/// reserved for a thread that is being created.
#[derive(Debug)]
pub struct ThreadSlot {
    pub generation: u32,
    pub record: Option<ThreadRecord>,
    pub pending_deadline_reservation: u64,
}

#[derive(Debug)]
pub struct TaskSystem {
    pub config: TaskSystemConfig,
    pub slots: Vec<ThreadSlot>,
    pub free_slots: Vec<u32>,
    pub cpus: Vec<CpuLocal>,
    pub root_domain: RootDomain,
    pub mutexes: Vec<PiMutexCore>,
    pub exited: Vec<ThreadId>,
    pub task_work: u64,
}

impl ThreadSlot {
    /// The record is that of this slot's present generation.
    pub open spec fn wf_at(&self, slot: int) -> bool {
        self.record matches Some(record) ==> record.wf() && record.id == (ThreadId {
            slot: slot as u32,
            generation: self.generation,
        })
    }
}

pub open spec fn slots_wf(slots: Seq<ThreadSlot>) -> bool {
    forall|i: int| 0 <= i < slots.len() ==> (#[trigger] slots[i]).wf_at(i)
}

pub open spec fn mutexes_wf(mutexes: Seq<PiMutexCore>) -> bool {
    forall|i: int|
        0 <= i < mutexes.len() ==> (#[trigger] mutexes[i]).wf() && mutexes[i].generation == i + 1
}

/// A free slot exists, holds no record, and is listed once.
pub open spec fn free_slots_wf(free: Seq<u32>, slots: Seq<ThreadSlot>) -> bool {
    &&& forall|i: int|
        0 <= i < free.len() ==> (#[trigger] free[i]) < slots.len() && slots[free[i] as int].record
            is None
    &&& forall|i: int, j: int|
        0 <= i < j < free.len() ==> #[trigger] free[i] != #[trigger] free[j]
}

/// The record of a thread, if its identity is not stale.
pub open spec fn record_in(slots: Seq<ThreadSlot>, thread: ThreadId) -> Option<ThreadRecord> {
    if thread.slot < slots.len() && slots[thread.slot as int].generation == thread.generation {
        slots[thread.slot as int].record
    } else {
        None
    }
}

/// The slots with another record of a thread.
pub open spec fn with_record(slots: Seq<ThreadSlot>, record: ThreadRecord) -> Seq<ThreadSlot> {
    slots.update(
        record.id.slot as int,
        ThreadSlot { record: Some(record), ..slots[record.id.slot as int] },
    )
}

/// The CPU with another run queue.
pub open spec fn with_queue(cpu: CpuLocal, queue: RunQueue) -> CpuLocal {
    CpuLocal {
        remote: CpuRemote {
            run_queue: CpuRunQueueState { queue, ..cpu.remote.run_queue },
            ..cpu.remote
        },
        ..cpu
    }
}

impl TaskSystem {
    pub open spec fn wf(&self) -> bool {
        &&& self.config.valid()
        &&& self.cpus@.len() == self.config.cpu_count
        &&& all_wf(self.cpus@)
        &&& indexed(self.cpus@)
        &&& self.root_domain.wf()
        &&& self.slots@.len() <= self.config.thread_capacity
        &&& slots_wf(self.slots@)
        &&& mutexes_wf(self.mutexes@)
        &&& free_slots_wf(self.free_slots@, self.slots@)
    }

    pub open spec fn record(&self, thread: ThreadId) -> Option<ThreadRecord> {
        record_in(self.slots@, thread)
    }

    pub open spec fn has_cpu(&self, cpu: CpuId) -> bool {
        cpu.index < self.cpus@.len()
    }

    pub open spec fn cpu(&self, cpu: CpuId) -> CpuLocal {
        self.cpus@[cpu.index as int]
    }

    pub open spec fn online(&self, cpu: CpuId) -> bool {
        self.has_cpu(cpu) && self.cpu(cpu).remote.lifecycle == CpuLifecycleState::Online
    }

    /// Nothing but threads and CPUs has changed.
    pub open spec fn same_rest(&self, before: &Self) -> bool {
        &&& self.config == before.config
        &&& self.free_slots@ == before.free_slots@
        &&& self.root_domain == before.root_domain
        &&& self.mutexes@ == before.mutexes@
        &&& self.exited@ == before.exited@
        &&& self.task_work == before.task_work
    }

    /// Nothing has changed.
    pub open spec fn unchanged(&self, before: &Self) -> bool {
        &&& self.slots@ == before.slots@
        &&& self.cpus@ == before.cpus@
        &&& self.same_rest(before)
    }

    /// Nothing has changed but the record of one thread.
    pub open spec fn only_thread(&self, before: &Self, record: ThreadRecord) -> bool {
        &&& self.slots@ == with_record(before.slots@, record)
        &&& self.cpus@ == before.cpus@
        &&& self.same_rest(before)
    }

    /// Nothing has changed but one thread and one CPU.
    pub open spec fn only_thread_and_cpu(&self, before: &Self, record: ThreadRecord, cpu: CpuLocal) -> bool {
        &&& self.slots@ == with_record(before.slots@, record)
        &&& self.cpus@ == before.cpus@.update(cpu.remote.owner.index as int, cpu)
        &&& self.same_rest(before)
    }


    /// A system of offline CPUs without threads.
    pub fn new(config: TaskSystemConfig) -> (system: Self)
        requires
            config.valid(),
        ensures
            system.config == config,
            system.slots@.len() == 0,
            system.free_slots@.len() == 0,
            system.mutexes@.len() == 0,
            system.exited@.len() == 0,
            system.task_work == 0,
            system.root_domain.blank(config),
            system.cpus@.len() == config.cpu_count,
            forall|i: int|
                0 <= i < config.cpu_count ==> (#[trigger] system.cpus@[i]).blank(
                    CpuId { index: i as u32 },
                    config,
                ),
            system.wf(),
    {
        let mut cpus: Vec<CpuLocal> = Vec::new();
        let mut i: usize = 0;
        while i < config.cpu_count
            invariant
                config.valid(),
                i <= config.cpu_count,
                cpus@.len() == i,
                all_wf(cpus@),
                indexed(cpus@),
                forall|j: int|
                    0 <= j < i ==> (#[trigger] cpus@[j]).blank(CpuId { index: j as u32 }, config),
            decreases config.cpu_count - i,
        {
            cpus.push(CpuLocal::create(CpuId::new(i as u32), config));
            i = i + 1;
        }
        TaskSystem {
            config,
            slots: Vec::new(),
            free_slots: Vec::new(),
            cpus,
            root_domain: RootDomain::new(config),
            mutexes: Vec::new(),
            exited: Vec::new(),
            task_work: 0,
        }
    }

    /// Whether a thread identity is not stale.
    pub fn is_registered(&self, thread: ThreadId) -> (registered: bool)
        ensures
            registered == (self.record(thread) is Some),
    {
        let slot: usize = thread.slot as usize;
        slot < self.slots.len() && self.slots[slot].generation == thread.generation
            && self.slots[slot].record.is_some()
    }

    /// Reads the record of a thread.
    pub fn thread_record(&self, thread: ThreadId) -> (result: Result<&ThreadRecord, TaskError>)
        requires
            self.wf(),
        ensures
            result is Ok <==> self.record(thread) is Some,
            result matches Ok(record) ==> Some(*record) == self.record(thread) && record.wf()
                && record.id == thread,
            result matches Err(error) ==> error == TaskError::StaleThreadId,
    {
        let slot: usize = thread.slot as usize;
        if slot >= self.slots.len() || self.slots[slot].generation != thread.generation {
            return Err(TaskError::StaleThreadId);
        }
        assert(self.slots@[slot as int].wf_at(slot as int));
        match &self.slots[slot].record {
            Some(record) => Ok(record),
            None => Err(TaskError::StaleThreadId),
        }
    }

    /// Takes the record of a thread out for a change.
    pub(crate) fn take_record(&mut self, thread: ThreadId) -> (record: ThreadRecord)
        requires
            old(self).wf(),
            old(self).record(thread) is Some,
        ensures
            Some(record) == old(self).record(thread),
            record.wf(),
            record.id == thread,
            final(self).slots@ == old(self).slots@.update(
                thread.slot as int,
                ThreadSlot { record: None, ..old(self).slots@[thread.slot as int] },
            ),
            final(self).cpus == old(self).cpus,
            final(self).mutexes == old(self).mutexes,
            final(self).same_rest(old(self)),
            !final(self).free_slots@.contains(thread.slot),
            final(self).wf(),
    {
        let slot: usize = thread.slot as usize;
        let ghost before = *self;
        assert(before.slots@[slot as int].wf_at(slot as int));
        let record = self.slots[slot].record.take();
        proof {
            assert(self.slots@ =~= before.slots@.update(
                slot as int,
                ThreadSlot { record: None, ..before.slots@[slot as int] },
            ));
            assert forall|i: int| 0 <= i < self.slots@.len() implies (
            #[trigger] self.slots@[i]).wf_at(i) by {
                assert(before.slots@[i].wf_at(i));
            }
        }
        record.unwrap()
    }

    /// Puts a changed record back.
    pub(crate) fn put_record(&mut self, record: ThreadRecord)
        requires
            old(self).wf(),
            record.wf(),
            record.id.slot < old(self).slots@.len(),
            old(self).slots@[record.id.slot as int].generation == record.id.generation,
            !old(self).free_slots@.contains(record.id.slot),
        ensures
            final(self).slots@ == with_record(old(self).slots@, record),
            final(self).record(record.id) == Some(record),
            final(self).cpus == old(self).cpus,
            final(self).mutexes == old(self).mutexes,
            final(self).same_rest(old(self)),
            final(self).wf(),
    {
        let ghost before = *self;
        let slot: usize = record.id.slot as usize;
        self.slots[slot].record = Some(record);
        proof {
            assert(self.slots@ =~= with_record(before.slots@, record));
            assert forall|i: int| 0 <= i < self.slots@.len() implies (
            #[trigger] self.slots@[i]).wf_at(i) by {
                assert(before.slots@[i].wf_at(i));
            }
            assert forall|i: int| 0 <= i < self.free_slots@.len() implies (
            #[trigger] self.free_slots@[i]) < self.slots@.len()
                && self.slots@[self.free_slots@[i] as int].record is None by {
                assert(before.free_slots@.contains(before.free_slots@[i]));
            }
        }
    }

    /// The CPU must exist and be online.
    pub fn ensure_owner_cpu_online(&self, cpu: CpuId) -> (result: Result<(), TaskError>)
        ensures
            result == if !self.has_cpu(cpu) {
                Err(TaskError::InvalidCpu(cpu.index))
            } else if !self.online(cpu) {
                Err(TaskError::CpuOffline(cpu.index))
            } else {
                Ok::<(), TaskError>(())
            },
    {
        if cpu.index as usize >= self.cpus.len() {
            return Err(TaskError::InvalidCpu(cpu.index));
        }
        if !self.cpus[cpu.index as usize].is_online() {
            return Err(TaskError::CpuOffline(cpu.index));
        }
        Ok(())
    }

    /// Registers a mutex, so that the scheduler can follow the chains of its
    /// waiters.
    pub fn register_pi_mutex(&mut self) -> (reference: PiMutexRef)
        requires
            old(self).wf(),
            old(self).mutexes@.len() < u64::MAX,
        ensures
            reference.id.value == old(self).mutexes@.len() + 1,
            final(self).mutexes@.len() == old(self).mutexes@.len() + 1,
            forall|i: int|
                0 <= i < old(self).mutexes@.len() ==> final(self).mutexes@[i]
                    == old(self).mutexes@[i],
            final(self).mutexes@.last().owner == 0,
            final(self).mutexes@.last().waiters.entries@.len() == 0,
            final(self).slots@ == old(self).slots@,
            final(self).cpus@ == old(self).cpus@,
            final(self).root_domain == old(self).root_domain,
            final(self).wf(),
    {
        let ghost before = *self;
        let mut core = PiMutexCore::new();
        let value: u64 = self.mutexes.len() as u64 + 1;
        core.generation = value;
        self.mutexes.push(core);
        proof {
            assert forall|i: int| 0 <= i < self.mutexes@.len() implies (
            #[trigger] self.mutexes@[i]).wf() && self.mutexes@[i].generation == i + 1 by {
                if i < before.mutexes@.len() {
                    assert(before.mutexes@[i].wf());
                }
            }
        }
        PiMutexRef { id: PiMutexId { value } }
    }

    /// Whether a mutex is registered.
    pub open spec fn has_mutex(&self, id: PiMutexId) -> bool {
        0 < id.value <= self.mutexes@.len()
    }

    pub open spec fn mutex(&self, id: PiMutexId) -> PiMutexCore {
        self.mutexes@[id.value - 1]
    }

    /// Every mutex names the owner that it named.
    pub open spec fn words_kept(&self, before: &Self) -> bool {
        &&& self.mutexes@.len() == before.mutexes@.len()
        &&& forall|i: int|
            0 <= i < self.mutexes@.len() ==> (#[trigger] self.mutexes@[i]).owner
                == before.mutexes@[i].owner
    }

    /// One CPU of the present ones changed.
    pub open spec fn cpu_becomes(&self, before: &Self, cpu: CpuId, local: CpuLocal) -> bool {
        &&& self.cpus@ == before.cpus@.update(cpu.index as int, local)
        &&& self.slots == before.slots
        &&& self.same_rest(before)
        &&& self.mutexes == before.mutexes
    }

    /// Announces work to a CPU.
    pub(crate) fn kick_cpu(&mut self, cpu: CpuId, by: CpuId)
        requires
            old(self).wf(),
            old(self).has_cpu(cpu),
        ensures
            final(self).cpu_becomes(
                old(self),
                cpu,
                old(self).cpu(cpu).with_remote(old(self).cpu(cpu).remote.kicked(by)),
            ),
            final(self).wf(),
    {
        let ghost before = *self;
        let at: usize = cpu.index as usize;
        assert(before.cpus@[at as int].wf());
        let _ = self.cpus[at].remote.kick_scheduler_work(by);
        proof {
            assert(self.cpus@ =~= before.cpus@.update(at as int, self.cpus@[at as int]));
            cpus_wf_after(before.cpus@, self.cpus@, at as int);
        }
    }

    /// Leaves work for a CPU.
    pub(crate) fn work_cpu(&mut self, cpu: CpuId)
        requires
            old(self).wf(),
            old(self).has_cpu(cpu),
        ensures
            final(self).cpu_becomes(
                old(self),
                cpu,
                old(self).cpu(cpu).with_remote(old(self).cpu(cpu).remote.asked_to_work()),
            ),
            final(self).wf(),
    {
        let ghost before = *self;
        let at: usize = cpu.index as usize;
        assert(before.cpus@[at as int].wf());
        self.cpus[at].request_scheduler_work();
        proof {
            assert(self.cpus@ =~= before.cpus@.update(at as int, self.cpus@[at as int]));
            cpus_wf_after(before.cpus@, self.cpus@, at as int);
        }
    }

    /// Asks a CPU to reschedule.
    pub(crate) fn reschedule_cpu(&mut self, cpu: CpuId)
        requires
            old(self).wf(),
            old(self).has_cpu(cpu),
        ensures
            final(self).cpu_becomes(
                old(self),
                cpu,
                old(self).cpu(cpu).with_remote(old(self).cpu(cpu).remote.asked_to_reschedule()),
            ),
            final(self).wf(),
    {
        let ghost before = *self;
        let at: usize = cpu.index as usize;
        assert(before.cpus@[at as int].wf());
        self.cpus[at].request_reschedule();
        proof {
            assert(self.cpus@ =~= before.cpus@.update(at as int, self.cpus@[at as int]));
            cpus_wf_after(before.cpus@, self.cpus@, at as int);
        }
    }

    /// Tells a CPU to reschedule.
    pub(crate) fn tell_cpu(&mut self, cpu: CpuId, by: CpuId)
        requires
            old(self).wf(),
            old(self).has_cpu(cpu),
        ensures
            final(self).cpu_becomes(
                old(self),
                cpu,
                old(self).cpu(cpu).with_remote(old(self).cpu(cpu).remote.told_to_reschedule(by)),
            ),
            final(self).wf(),
    {
        let ghost before = *self;
        let at: usize = cpu.index as usize;
        assert(before.cpus@[at as int].wf());
        self.cpus[at].remote.request_remote_reschedule(by);
        proof {
            assert(self.cpus@ =~= before.cpus@.update(at as int, self.cpus@[at as int]));
            cpus_wf_after(before.cpus@, self.cpus@, at as int);
        }
    }

    /// The CPU with one more message in its inbox.
    pub open spec fn messaged(after: CpuLocal, before: CpuLocal, message: InboxMessage) -> bool {
        &&& after.remote.inbox.messages@ == before.remote.inbox.messages@.push(message)
        &&& after == before.with_remote(CpuRemote { inbox: after.remote.inbox, ..before.remote })
    }

    /// Leaves a message for the owner of a CPU and announces it.
    pub(crate) fn post_to_cpu(&mut self, cpu: CpuId, message: InboxMessage, by: CpuId)
        requires
            old(self).wf(),
            old(self).has_cpu(cpu),
        ensures
            exists|held: CpuLocal|
                #[trigger] Self::messaged(held, old(self).cpu(cpu), message) && final(self).cpu_becomes(old(self), cpu, held.with_remote(held.remote.kicked(by))),
            final(self).wf(),
    {
        let ghost before = *self;
        let at: usize = cpu.index as usize;
        assert(before.cpus@[at as int].wf());
        self.cpus[at].remote.post(message);
        let ghost held = self.cpus@[at as int];
        assert(Self::messaged(held, before.cpu(cpu), message));
        let _ = self.cpus[at].remote.kick_scheduler_work(by);
        proof {
            assert(self.cpus@ =~= before.cpus@.update(at as int, self.cpus@[at as int]));
            cpus_wf_after(before.cpus@, self.cpus@, at as int);
        }
    }

    /// Takes note of work for the task worker.
    pub(crate) fn publish_task_work(&mut self)
        ensures
            *final(self) == (TaskSystem {
                task_work: if old(self).task_work == u64::MAX {
                    0
                } else {
                    (old(self).task_work + 1) as u64
                },
                ..*old(self)
            }),
            old(self).wf() ==> final(self).wf(),
    {
        self.task_work = if self.task_work == u64::MAX {
            0
        } else {
            self.task_work + 1
        };
    }
}

/// A change of one CPU that keeps it well-formed keeps all of them so.
pub proof fn cpus_wf_after(before: Seq<CpuLocal>, after: Seq<CpuLocal>, at: int)
    requires
        all_wf(before),
        indexed(before),
        0 <= at < before.len(),
        after == before.update(at, after[at]),
        after[at].wf(),
        after[at].remote.owner == before[at].remote.owner,
    ensures
        all_wf(after),
        indexed(after),
{
    assert forall|i: int| 0 <= i < after.len() implies (#[trigger] after[i]).wf() by {
        assert(before[i].wf());
    }
    assert forall|i: int| 0 <= i < after.len() implies (#[trigger] after[i]).remote.owner == (CpuId {
        index: i as u32,
    }) by {
        assert(before[i].remote.owner == (CpuId { index: i as u32 }));
    }
}

/// Putting a record back unchanged restores the registry.
pub proof fn put_undoes_take(slots: Seq<ThreadSlot>, thread: ThreadId)
    requires
        slots_wf(slots),
        record_in(slots, thread) is Some,
    ensures
        with_record(
            slots.update(
                thread.slot as int,
                ThreadSlot { record: None, ..slots[thread.slot as int] },
            ),
            record_in(slots, thread)->0,
        ) == slots,
{
    assert(slots[thread.slot as int].wf_at(thread.slot as int));
    assert(with_record(
        slots.update(
            thread.slot as int,
            ThreadSlot { record: None, ..slots[thread.slot as int] },
        ),
        record_in(slots, thread)->0,
    ) =~= slots);
}

} // verus!
