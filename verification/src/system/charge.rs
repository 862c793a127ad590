//! Charging what a CPU runs.
use vstd::prelude::*;
use crate::cpu::dispatch::DispatchCharge;
use crate::cpu::local::CpuLocal;
use crate::cpu::remote::CpuRemote;
use crate::cpu::run_queue::CpuRunQueueState;
use crate::ids::CpuId;
use crate::scheduler::run_queue::RunQueue;
use crate::system::task_system::{TaskSystem, cpus_wf_after};

verus! {

/// Whether a CPU runs something that can be charged.
pub open spec fn chargeable(queue: &RunQueue) -> bool {
    queue.current matches Some(current) && (current.is_idle() || queue.running_entity() is Some)
}

/// The CPU with its running thread charged up to `now_ns`, and whether the
/// scheduler is wanted.
#[verifier::opaque]
pub open spec fn charged(after: CpuLocal, before: CpuLocal, now_ns: u64, reschedule: bool) -> bool {
    if chargeable(&before.queue()) {
        &&& exists|charge: DispatchCharge|
            #[trigger] after.remote.run_queue.settled(
                &before.remote.run_queue,
                now_ns,
                before.remote.deadline_extra_bw_scaled,
                0,
                charge,
                reschedule,
            )
        &&& after == before.with_remote(
            CpuRemote { run_queue: after.remote.run_queue, ..before.remote },
        )
    } else {
        after == before && !reschedule
    }
}

/// Charging leaves every thread in its place.
pub open spec fn places_kept(after: &RunQueue, before: &RunQueue) -> bool {
    &&& after.membership@ == before.membership@
    &&& after.same_ledger(before)
    &&& after.nr_running == before.nr_running
    &&& after.linked() == before.linked()
    &&& after.current is Some == before.current is Some
    &&& before.current matches Some(current) ==> (after.current->0).thread == current.thread
        && (after.current->0).schedule is Linked == current.schedule is Linked
}

/// Charges what a CPU runs. Says whether the scheduler is wanted.
pub fn charge_running(local: &mut CpuLocal, now_ns: u64) -> (reschedule: bool)
    requires
        old(local).wf(),
    ensures
        charged(*final(local), *old(local), now_ns, reschedule),
        places_kept(&final(local).queue(), &old(local).queue()),
        *final(local) == old(local).with_remote(
            CpuRemote { run_queue: final(local).remote.run_queue, ..old(local).remote },
        ),
        final(local).wf(),
{
    proof {
        reveal(charged);
        reveal(CpuRunQueueState::settled);
    }
    let extra: u64 = local.remote.deadline_extra_bw_scaled;
    match local.remote.run_queue.settle_current(now_ns, extra, 0) {
        Ok((_, reschedule)) => reschedule,
        Err(_) => false,
    }
}

impl TaskSystem {
    /// The system with what one CPU runs charged.
    pub open spec fn charged_on(&self, before: &Self, cpu: CpuId, now_ns: u64, reschedule: bool) -> bool {
        &&& charged(self.cpu(cpu), before.cpu(cpu), now_ns, reschedule)
        &&& places_kept(&self.cpu(cpu).queue(), &before.cpu(cpu).queue())
        &&& self.cpu_becomes(before, cpu, self.cpu(cpu))
    }

    pub(crate) fn charge_cpu(&mut self, cpu: CpuId, now_ns: u64) -> (reschedule: bool)
        requires
            old(self).wf(),
            old(self).has_cpu(cpu),
        ensures
            final(self).charged_on(old(self), cpu, now_ns, reschedule),
            final(self).cpu(cpu).remote == (CpuRemote {
                run_queue: final(self).cpu(cpu).remote.run_queue,
                ..old(self).cpu(cpu).remote
            }),
            final(self).cpu(cpu).current == old(self).cpu(cpu).current,
            final(self).wf(),
    {
        let ghost before = *self;
        let at: usize = cpu.index as usize;
        assert(before.cpus@[at as int].wf());
        let reschedule = charge_running(&mut self.cpus[at], now_ns);
        proof {
            assert(self.cpus@ =~= before.cpus@.update(at as int, self.cpus@[at as int]));
            cpus_wf_after(before.cpus@, self.cpus@, at as int);
        }
        reschedule
    }
}

} // verus!
