//! Reading out what the running thread was charged.
use vstd::prelude::*;
use crate::cpu::dispatch::CurrentDispatch;
use crate::cpu::local::CpuLocal;
use crate::ids::{CpuId, ThreadId};
use crate::scheduler::run_queue::RunQueue;
use crate::system::restate::with_current;
use crate::system::task_system::{TaskSystem, cpus_wf_after, with_queue, with_record};
use crate::thread::record::{DeadlineReservation, ThreadRecord};

verus! {

/// The running thread with what it was charged read out.
pub open spec fn read_out(current: CurrentDispatch) -> CurrentDispatch {
    CurrentDispatch { charged_runtime_ns: 0, deadline_overrun: false, ..current }
}

/// The thread whose reservation was overrun: the one that lends it, if any.
pub open spec fn overrun_thread(current: CurrentDispatch) -> Option<ThreadId> {
    if !current.deadline_overrun {
        None
    } else if current.deadline_donor is Some {
        current.deadline_donor
    } else {
        Some(current.thread)
    }
}

/// Reads out what a CPU's running thread was charged, and says whose
/// reservation was overrun.
fn read_out_dispatch(local: &mut CpuLocal) -> (overrun: Option<ThreadId>)
    requires
        old(local).wf(),
    ensures
        match old(local).queue().current {
            None => *final(local) == *old(local) && overrun is None,
            Some(current) => *final(local) == with_queue(
                *old(local),
                with_current(old(local).queue(), read_out(current)),
            ) && overrun == overrun_thread(current),
        },
        final(local).wf(),
{
    let mut current = match local.remote.run_queue.queue.current {
        Some(current) => current,
        None => {
            return None;
        },
    };
    let _ = current.take_charged_runtime_ns();
    let overrun = current.take_deadline_overrun();
    let ghost before = local.queue();
    local.remote.run_queue.queue.current = Some(current);
    proof {
        RunQueue::wf_when_lists_stay(&before, &local.queue());
    }
    if !overrun {
        None
    } else if current.deadline_donor.is_some() {
        current.deadline_donor
    } else {
        Some(current.thread)
    }
}

/// The record with one more overrun.
pub open spec fn overrun_recorded(record: ThreadRecord) -> ThreadRecord {
    ThreadRecord {
        deadline: DeadlineReservation {
            overrun_events: if record.deadline.overrun_events == u64::MAX {
                u64::MAX
            } else {
                (record.deadline.overrun_events + 1) as u64
            },
            ..record.deadline
        },
        ..record
    }
}

impl TaskSystem {
    /// The system with work published for the task worker.
    pub open spec fn work_published(self) -> TaskSystem {
        TaskSystem {
            task_work: if self.task_work == u64::MAX {
                0
            } else {
                (self.task_work + 1) as u64
            },
            ..self
        }
    }

    /// The system with an overrun put on record.
    pub open spec fn overrun_noted(&self, before: &Self, thread: Option<ThreadId>) -> bool {
        match thread {
            None => *self == *before,
            Some(thread) => match before.record(thread) {
                None => *self == *before,
                Some(record) => exists|mid: TaskSystem|
                    #[trigger] mid.relinked(
                        before,
                        overrun_recorded(record),
                        before.cpus@,
                        before.root_domain,
                    ) && *self == mid.work_published(),
            },
        }
    }

    /// The system with what a CPU runs charged and read out.
    pub open spec fn dispatch_committed(&self, before: &Self, cpu: CpuId, now_ns: u64) -> bool {
        exists|charged: TaskSystem, read: TaskSystem, reschedule: bool|
            #[trigger] charged.charged_on(before, cpu, now_ns, reschedule)
                && #[trigger] read.read_out_on(&charged, cpu) && self.overrun_noted(
                &read,
                charged.overrun_on(cpu),
            )
    }

    /// The thread whose reservation a CPU's running thread has overrun.
    pub open spec fn overrun_on(&self, cpu: CpuId) -> Option<ThreadId> {
        match self.cpu(cpu).queue().current {
            None => None,
            Some(current) => overrun_thread(current),
        }
    }

    /// The system with what a CPU's running thread was charged read out.
    pub open spec fn read_out_on(&self, before: &Self, cpu: CpuId) -> bool {
        match before.cpu(cpu).queue().current {
            None => *self == *before,
            Some(current) => self.cpu_becomes(
                before,
                cpu,
                with_queue(
                    before.cpu(cpu),
                    with_current(before.cpu(cpu).queue(), read_out(current)),
                ),
            ),
        }
    }

    fn read_out_cpu(&mut self, cpu: CpuId) -> (overrun: Option<ThreadId>)
        requires
            old(self).wf(),
            old(self).has_cpu(cpu),
        ensures
            final(self).read_out_on(old(self), cpu),
            overrun == old(self).overrun_on(cpu),
            final(self).cpu(cpu).current == old(self).cpu(cpu).current,
            final(self).wf(),
    {
        let ghost before = *self;
        let at: usize = cpu.index as usize;
        assert(before.cpus@[at as int].wf());
        if self.cpus[at].remote.run_queue.queue.current.is_none() {
            return None;
        }
        let overrun = read_out_dispatch(&mut self.cpus[at]);
        proof {
            assert(self.cpus@ =~= before.cpus@.update(at as int, self.cpus@[at as int]));
            cpus_wf_after(before.cpus@, self.cpus@, at as int);
        }
        overrun
    }

    fn note_overrun(&mut self, thread: Option<ThreadId>)
        requires
            old(self).wf(),
        ensures
            final(self).overrun_noted(old(self), thread),
            final(self).cpus == old(self).cpus,
            final(self).mutexes@.len() == old(self).mutexes@.len(),
            final(self).cpus@.len() == old(self).cpus@.len(),
            forall|other: ThreadId|
                (#[trigger] final(self).record(other)) is Some == old(self).record(other) is Some,
            final(self).wf(),
    {
        let ghost before = *self;
        let thread = match thread {
            Some(thread) => thread,
            None => {
                return;
            },
        };
        if self.thread_record(thread).is_err() {
            return;
        }
        let mut record = self.take_record(thread);
        if record.deadline.overrun_events < u64::MAX {
            record.deadline.overrun_events = record.deadline.overrun_events + 1;
        }
        self.put_record(record);
        proof {
            assert(self.slots@ =~= with_record(before.slots@, record));
            assert(self.relinked(
                &before,
                overrun_recorded(before.record(thread)->0),
                before.cpus@,
                before.root_domain,
            ));
        }
        self.publish_task_work();
    }

    /// Charges what a CPU runs up to `now_ns` and reads out what it was charged.
    /// An overrun is put on the record of the thread whose reservation it was.
    pub fn commit_owner_current_dispatch(&mut self, cpu: CpuId, now_ns: u64)
        requires
            old(self).wf(),
            old(self).has_cpu(cpu),
        ensures
            final(self).dispatch_committed(old(self), cpu, now_ns),
            final(self).cpu(cpu).current == old(self).cpu(cpu).current,
            final(self).mutexes@.len() == old(self).mutexes@.len(),
            final(self).cpus@.len() == old(self).cpus@.len(),
            forall|other: ThreadId|
                (#[trigger] final(self).record(other)) is Some == old(self).record(other) is Some,
            final(self).wf(),
    {
        let ghost before = *self;
        let _ = self.charge_cpu(cpu, now_ns);
        let ghost charged = *self;
        let overrun = self.read_out_cpu(cpu);
        let ghost read = *self;
        self.note_overrun(overrun);
        proof {
            assert(read.read_out_on(&charged, cpu));
        }
    }
}

} // verus!
