//! Switching a CPU from one thread to another.
use vstd::prelude::*;
use crate::cpu::handoff::PreparedMigrationDelivery;
use crate::error::{TaskError, ThreadState};
use crate::ids::{CpuId, ThreadId};
use crate::scheduler::fair::MAX_ENTRIES;
use crate::scheduler::run_queue::RunQueue;
use crate::scheduler::task::PickedThread;
use crate::system::bandwidth::{can_detach, may_detach};
use crate::system::migration::{can_expect, captured, expect_on, expecting};
use crate::system::switch_in::{
    can_idle, idling, may_idle, pick, picked_away, picked_ok, picked_sent, picked_state,
    rt_eligibility, run_idle, run_picked, running_picked, send_picked, set_idling, set_running,
};
use crate::system::task_system::{TaskSystem, cpus_wf_after, with_queue, with_record};

verus! {

/// What becomes of a selected thread.
#[derive(Clone, Copy, Debug, PartialEq, Eq, Structural)]
pub enum PickStep {
    Refused(TaskError),
    Run,
    /// It may not stay. `outgoing` says that its stack is still in use here.
    Send { target: CpuId, outgoing: bool },
}

/// The message that is carried on after a thread was sent away: that of the
/// outgoing thread waits until its stack is free.
pub open spec fn carried_on(cpu: CpuId, picked: PickedThread, target: CpuId, leaves: bool, carried: Option<PreparedMigrationDelivery>) -> Option<PreparedMigrationDelivery> {
    if leaves {
        Some(
            PreparedMigrationDelivery {
                thread: picked.thread_id(),
                source: cpu,
                target,
                placement_demand: picked.thread_policy().load(),
            },
        )
    } else {
        carried
    }
}

impl TaskSystem {
    /// What becomes of a selected thread.
    pub open spec fn pick_plan(&self, cpu: CpuId, picked: PickedThread, outgoing: Option<ThreadId>) -> PickStep {
        let queue = self.cpu(cpu).queue();
        match self.record(picked.thread_id()) {
            None => PickStep::Refused(TaskError::InvalidConfiguration),
            Some(record) => {
                let leaves = outgoing == Some(record.id) && record.placement.on_cpu == Some(cpu);
                if record.placement.on_cpu is Some && !leaves {
                    PickStep::Refused(TaskError::InvalidConfiguration)
                } else if record.placement.queued_on() != Some(cpu) {
                    PickStep::Refused(TaskError::InvalidConfiguration)
                } else if Self::must_leave(&record, cpu) {
                    match self.leave_target(&record, cpu) {
                        Some(target) => if queue.nr_running > 0 && can_expect(
                            self.cpu(target),
                            picked.thread_policy().load(),
                        ) && (leaves || can_detach(&queue, &record, cpu)) {
                            PickStep::Send { target, outgoing: leaves }
                        } else {
                            PickStep::Refused(TaskError::InvalidConfiguration)
                        },
                        None => PickStep::Refused(TaskError::InvalidConfiguration),
                    }
                } else if record.lifecycle != ThreadState::Ready {
                    PickStep::Refused(TaskError::InvalidConfiguration)
                } else {
                    PickStep::Run
                }
            },
        }
    }

    fn plan_pick(&self, cpu: CpuId, picked: PickedThread, outgoing: Option<ThreadId>) -> (step: PickStep)
        requires
            self.wf(),
            self.has_cpu(cpu),
        ensures
            step == self.pick_plan(cpu, picked, outgoing),
            step matches PickStep::Send { target, .. } ==> self.has_cpu(target) && target != cpu,
    {
        let refused = PickStep::Refused(TaskError::InvalidConfiguration);
        let record = match self.thread_record(picked.id()) {
            Ok(record) => record,
            Err(_) => {
                return refused;
            },
        };
        assert(self.cpus@[cpu.index as int].wf());
        let queue = &self.cpus[cpu.index as usize].remote.run_queue.queue;
        let mut leaves = false;
        if let Some(on_cpu) = record.placement.on_cpu {
            let itself = match outgoing {
                Some(thread) => thread == record.id,
                None => false,
            };
            leaves = itself && on_cpu == cpu;
            if !leaves {
                return refused;
            }
        }
        let queued = match record.placement.queued_cpu() {
            Some(queued) => queued == cpu,
            None => false,
        };
        if !queued {
            return refused;
        }
        if record.placement.migration_request.is_some() || !record.placement.affinity.contains(
            cpu,
        ) {
            let target = match self.find_leave_target(record, cpu) {
                Some(target) => target,
                None => {
                    return refused;
                },
            };
            let demand: u64 = picked.policy().placement_demand();
            let incoming: u64 =
                self.cpus[target.index as usize].remote.load.incoming_migration_demand;
            if queue.nr_running == 0 || incoming > u64::MAX - demand {
                return refused;
            }
            if !leaves && !may_detach(queue, record, cpu) {
                return refused;
            }
            return PickStep::Send { target, outgoing: leaves };
        }
        if record.lifecycle != ThreadState::Ready {
            return refused;
        }
        PickStep::Run
    }

    /// A CPU selected a thread.
    pub open spec fn selected_on(&self, before: &Self, cpu: CpuId, picked: Option<PickedThread>) -> bool {
        &&& self.cpu_becomes(before, cpu, self.cpu(cpu))
        &&& self.cpu(cpu) == with_queue(before.cpu(cpu), self.cpu(cpu).queue())
        &&& self.cpu(cpu).queue().picks(
            &before.cpu(cpu).queue(),
            rt_eligibility(before.cpu(cpu)),
            picked,
        )
    }

    fn select_on(&mut self, cpu: CpuId) -> (picked: Option<PickedThread>)
        requires
            old(self).wf(),
            old(self).has_cpu(cpu),
        ensures
            final(self).selected_on(old(self), cpu, picked),
            picked matches Some(picked) ==> picked_ok(&final(self).cpu(cpu).queue(), picked),
            final(self).wf(),
    {
        let ghost before = *self;
        let at: usize = cpu.index as usize;
        assert(before.cpus@[at as int].wf());
        let picked = pick(&mut self.cpus[at]);
        proof {
            assert(self.cpus@ =~= before.cpus@.update(at as int, self.cpus@[at as int]));
            cpus_wf_after(before.cpus@, self.cpus@, at as int);
        }
        picked
    }

    /// A selection that will not run was returned, if there is room for it.
    pub open spec fn unpicked(&self, before: &Self, cpu: CpuId, picked: PickedThread) -> bool {
        let queue = before.cpu(cpu).queue();
        if queue.fair.entries@.len() < MAX_ENTRIES && queue.idle_fair.entries@.len()
            < MAX_ENTRIES {
            exists|back: RunQueue|
                #[trigger] back.rolled_back(&queue, picked) && self.cpu_becomes(
                    before,
                    cpu,
                    with_queue(before.cpu(cpu), back),
                )
        } else {
            *self == *before
        }
    }

    fn unpick(&mut self, cpu: CpuId, picked: PickedThread)
        requires
            old(self).wf(),
            old(self).has_cpu(cpu),
            picked_ok(&old(self).cpu(cpu).queue(), picked),
        ensures
            final(self).unpicked(old(self), cpu, picked),
            final(self).wf(),
    {
        let ghost before = *self;
        let at: usize = cpu.index as usize;
        assert(before.cpus@[at as int].wf());
        let queue = &self.cpus[at].remote.run_queue.queue;
        if queue.fair.entries.len() >= MAX_ENTRIES || queue.idle_fair.entries.len()
            >= MAX_ENTRIES {
            return;
        }
        self.cpus[at].remote.run_queue.queue.rollback_pick(picked);
        proof {
            assert(self.cpus@ =~= before.cpus@.update(at as int, self.cpus@[at as int]));
            cpus_wf_after(before.cpus@, self.cpus@, at as int);
        }
    }

    /// A CPU runs what it selected.
    pub open spec fn picked_runs(&self, before: &Self, cpu: CpuId, picked: PickedThread, now_ns: u64) -> bool {
        let record = before.record(picked.thread_id())->0;
        &&& running_picked(self.cpu(cpu), before.cpu(cpu), &record, cpu, picked, now_ns)
        &&& self.relinked(
            before,
            set_running(record, cpu),
            before.cpus@.update(cpu.index as int, self.cpu(cpu)),
            before.root_domain,
        )
    }

    fn run_on(&mut self, cpu: CpuId, picked: PickedThread, now_ns: u64)
        requires
            old(self).wf(),
            old(self).has_cpu(cpu),
            picked_ok(&old(self).cpu(cpu).queue(), picked),
            old(self).record(picked.thread_id()) matches Some(record)
                && record.placement.can_set_next(cpu),
        ensures
            final(self).picked_runs(old(self), cpu, picked, now_ns),
            final(self).wf(),
    {
        let ghost before = *self;
        let at: usize = cpu.index as usize;
        assert(before.cpus@[at as int].wf());
        let mut record = self.take_record(picked.id());
        run_picked(&mut self.cpus[at], &mut record, cpu, picked, now_ns);
        proof {
            assert(self.cpus@ =~= before.cpus@.update(at as int, self.cpus@[at as int]));
            cpus_wf_after(before.cpus@, self.cpus@, at as int);
        }
        self.put_record(record);
        assert(self.slots@ =~= with_record(before.slots@, record));
    }

    /// A selected thread left the run queue of a CPU.
    #[verifier::opaque]
    pub open spec fn picked_parted(&self, before: &Self, cpu: CpuId, picked: PickedThread, target: CpuId, outgoing: bool) -> bool {
        let record = before.record(picked.thread_id())->0;
        let queue = before.cpu(cpu).queue();
        exists|left: RunQueue|
            #[trigger] picked_sent(&left, &queue, &record, picked, outgoing) && self.relinked(
                before,
                picked_away(
                    record,
                    captured(
                        picked_state(&queue, picked),
                        &left,
                        before.config.timing_granularity_ns,
                    ),
                    target,
                    outgoing,
                ),
                before.cpus@.update(cpu.index as int, with_queue(before.cpu(cpu), left)),
                before.root_domain,
            )
    }

    fn part_picked(&mut self, cpu: CpuId, picked: PickedThread, target: CpuId, outgoing: bool)
        requires
            old(self).wf(),
            old(self).has_cpu(cpu),
            picked_ok(&old(self).cpu(cpu).queue(), picked),
            old(self).cpu(cpu).queue().nr_running > 0,
            old(self).record(picked.thread_id()) matches Some(record)
                && record.placement.can_begin_migration(cpu, target) && (outgoing || can_detach(
                &old(self).cpu(cpu).queue(),
                &record,
                cpu,
            )),
        ensures
            final(self).picked_parted(old(self), cpu, picked, target, outgoing),
            final(self).cpus@.len() == old(self).cpus@.len(),
            final(self).wf(),
    {
        proof {
            reveal(TaskSystem::picked_parted);
        }
        let ghost before = *self;
        let at: usize = cpu.index as usize;
        assert(before.cpus@[at as int].wf());
        let granularity_ns: u64 = self.config.timing_granularity_ns;
        let mut record = self.take_record(picked.id());
        let Ghost(left) = send_picked(
            &mut self.cpus[at],
            &mut record,
            cpu,
            picked,
            target,
            outgoing,
            granularity_ns,
        );
        proof {
            assert(self.cpus@ =~= before.cpus@.update(at as int, self.cpus@[at as int]));
            cpus_wf_after(before.cpus@, self.cpus@, at as int);
        }
        self.put_record(record);
        assert(self.slots@ =~= with_record(before.slots@, record));
    }

    /// The system after a selected thread was sent to another CPU. The message
    /// about the outgoing thread waits until its stack is free.
    #[verifier::opaque]
    pub open spec fn picked_sent_off(&self, before: &Self, cpu: CpuId, picked: PickedThread, target: CpuId, outgoing: bool) -> bool {
        exists|parted: TaskSystem|
            #[trigger] parted.picked_parted(before, cpu, picked, target, outgoing) && if outgoing {
                self.cpu_becomes(
                    &parted,
                    target,
                    expecting(parted.cpu(target), picked.thread_policy().load()),
                )
            } else {
                self.migration_sent(
                    &parted,
                    picked.thread_id(),
                    cpu,
                    target,
                    picked.thread_policy().load(),
                )
            }
    }

    fn expect_on(&mut self, target: CpuId, demand: u64)
        requires
            old(self).wf(),
            old(self).has_cpu(target),
            can_expect(old(self).cpu(target), demand),
        ensures
            final(self).cpu_becomes(old(self), target, expecting(old(self).cpu(target), demand)),
            final(self).wf(),
    {
        let ghost before = *self;
        let at: usize = target.index as usize;
        assert(before.cpus@[at as int].wf());
        expect_on(&mut self.cpus[at], demand);
        proof {
            assert(self.cpus@ =~= before.cpus@.update(at as int, self.cpus@[at as int]));
            cpus_wf_after(before.cpus@, self.cpus@, at as int);
        }
    }

    fn send_picked_off(&mut self, cpu: CpuId, picked: PickedThread, target: CpuId, outgoing: bool)
        requires
            old(self).wf(),
            old(self).has_cpu(cpu),
            old(self).has_cpu(target),
            cpu != target,
            picked_ok(&old(self).cpu(cpu).queue(), picked),
            old(self).cpu(cpu).queue().nr_running > 0,
            can_expect(old(self).cpu(target), picked.thread_policy().load()),
            old(self).record(picked.thread_id()) matches Some(record)
                && record.placement.can_begin_migration(cpu, target) && (outgoing || can_detach(
                &old(self).cpu(cpu).queue(),
                &record,
                cpu,
            )),
        ensures
            final(self).picked_sent_off(old(self), cpu, picked, target, outgoing),
            final(self).cpus@.len() == old(self).cpus@.len(),
            final(self).wf(),
    {
        proof {
            reveal(TaskSystem::picked_sent_off);
        }
        let ghost before = *self;
        let demand: u64 = picked.policy().placement_demand();
        self.part_picked(cpu, picked, target, outgoing);
        let ghost parted = *self;
        assert(parted.picked_parted(&before, cpu, picked, target, outgoing));
        assert(parted.cpu(target) == before.cpu(target)) by {
            reveal(TaskSystem::picked_parted);
        }
        if outgoing {
            self.expect_on(target, demand);
        } else {
            self.send_migration(picked.id(), cpu, target, demand);
        }
    }

    /// What a CPU does that has nothing to run.
    pub open spec fn idled(&self, before: &Self, cpu: CpuId, now_ns: u64, carried: Option<PreparedMigrationDelivery>, result: Result<(ThreadId, Option<PreparedMigrationDelivery>), TaskError>) -> bool {
        match before.cpu(cpu).idle {
            None => result == Err::<(ThreadId, Option<PreparedMigrationDelivery>), TaskError>(
                TaskError::NoRunnableThread,
            ) && *self == *before,
            Some(idle) => if before.record(idle) matches Some(record) && can_idle(&record, cpu) {
                result == Ok::<(ThreadId, Option<PreparedMigrationDelivery>), TaskError>(
                    (idle, carried),
                ) && self.relinked(
                    before,
                    set_idling(before.record(idle)->0, cpu),
                    before.cpus@.update(
                        cpu.index as int,
                        idling(before.cpu(cpu), &(before.record(idle)->0), cpu, now_ns),
                    ),
                    before.root_domain,
                )
            } else {
                result == Err::<(ThreadId, Option<PreparedMigrationDelivery>), TaskError>(
                    TaskError::InvalidConfiguration,
                ) && *self == *before
            },
        }
    }

    fn idle_on(&mut self, cpu: CpuId, now_ns: u64, carried: Option<PreparedMigrationDelivery>) -> (result: Result<
        (ThreadId, Option<PreparedMigrationDelivery>),
        TaskError,
    >)
        requires
            old(self).wf(),
            old(self).has_cpu(cpu),
        ensures
            final(self).idled(old(self), cpu, now_ns, carried, result),
            final(self).wf(),
    {
        let ghost before = *self;
        let at: usize = cpu.index as usize;
        assert(before.cpus@[at as int].wf());
        let idle = match self.cpus[at].idle {
            Some(idle) => idle,
            None => {
                return Err(TaskError::NoRunnableThread);
            },
        };
        let may = match self.thread_record(idle) {
            Ok(record) => may_idle(record, cpu),
            Err(_) => false,
        };
        if !may {
            return Err(TaskError::InvalidConfiguration);
        }
        let mut record = self.take_record(idle);
        run_idle(&mut self.cpus[at], &mut record, cpu, now_ns);
        proof {
            assert(self.cpus@ =~= before.cpus@.update(at as int, self.cpus@[at as int]));
            cpus_wf_after(before.cpus@, self.cpus@, at as int);
        }
        self.put_record(record);
        assert(self.slots@ =~= with_record(before.slots@, record));
        Ok((idle, carried))
    }

    /// The system after a CPU chose its next thread, sending away at most
    /// `left` threads that may not stay.
    pub open spec fn next_chosen(
        &self,
        before: &Self,
        cpu: CpuId,
        outgoing: Option<ThreadId>,
        left: nat,
        carried: Option<PreparedMigrationDelivery>,
        now_ns: u64,
        result: Result<(ThreadId, Option<PreparedMigrationDelivery>), TaskError>,
    ) -> bool
        decreases left, 2int,
    {
        exists|selected: TaskSystem, picked: Option<PickedThread>|
            #[trigger] selected.selected_on(before, cpu, picked) && selected.wf()
                && self.chosen_from(
                &selected,
                cpu,
                picked,
                outgoing,
                left,
                carried,
                now_ns,
                result,
            )
    }

    /// The system after a CPU chose its next thread, starting from a selection.
    pub open spec fn chosen_from(
        &self,
        selected: &Self,
        cpu: CpuId,
        picked: Option<PickedThread>,
        outgoing: Option<ThreadId>,
        left: nat,
        carried: Option<PreparedMigrationDelivery>,
        now_ns: u64,
        result: Result<(ThreadId, Option<PreparedMigrationDelivery>), TaskError>,
    ) -> bool
        decreases left, 1int,
    {
        match picked {
            None => self.idled(selected, cpu, now_ns, carried, result),
            Some(picked) => match selected.pick_plan(cpu, picked, outgoing) {
                PickStep::Refused(error) => result == Err::<
                    (ThreadId, Option<PreparedMigrationDelivery>),
                    TaskError,
                >(error) && self.unpicked(selected, cpu, picked),
                PickStep::Run => result == Ok::<
                    (ThreadId, Option<PreparedMigrationDelivery>),
                    TaskError,
                >((picked.thread_id(), carried)) && self.picked_runs(selected, cpu, picked, now_ns),
                PickStep::Send { target, outgoing: leaves } => exists|sent: TaskSystem|
                    #[trigger] sent.picked_sent_off(selected, cpu, picked, target, leaves)
                        && sent.wf() && self.chosen_after(
                        &sent,
                        cpu,
                        picked,
                        target,
                        leaves,
                        outgoing,
                        left,
                        carried,
                        now_ns,
                        result,
                    ),
            },
        }
    }

    /// The system after a CPU chose its next thread, having sent one away.
    pub open spec fn chosen_after(
        &self,
        sent: &Self,
        cpu: CpuId,
        picked: PickedThread,
        target: CpuId,
        leaves: bool,
        outgoing: Option<ThreadId>,
        left: nat,
        carried: Option<PreparedMigrationDelivery>,
        now_ns: u64,
        result: Result<(ThreadId, Option<PreparedMigrationDelivery>), TaskError>,
    ) -> bool
        decreases left, 0int,
    {
        let carries = carried_on(cpu, picked, target, leaves, carried);
        if left <= 1 {
            exists|asked: TaskSystem|
                #[trigger] asked.cpu_becomes(
                    sent,
                    cpu,
                    sent.cpu(cpu).with_remote(sent.cpu(cpu).remote.asked_to_work()),
                ) && asked.wf() && self.idled(&asked, cpu, now_ns, carries, result)
        } else {
            self.next_chosen(sent, cpu, outgoing, (left - 1) as nat, carries, now_ns, result)
        }
    }

    /// Chooses what a CPU runs next. Threads that may not stay here are sent
    /// away first; a CPU without anything to run idles.
    pub fn pick_owner_next(&mut self, cpu: CpuId, outgoing: Option<ThreadId>, left: usize, carried: Option<PreparedMigrationDelivery>, now_ns: u64) -> (result: Result<
        (ThreadId, Option<PreparedMigrationDelivery>),
        TaskError,
    >)
        requires
            old(self).wf(),
            old(self).has_cpu(cpu),
        ensures
            final(self).next_chosen(
                old(self),
                cpu,
                outgoing,
                left as nat,
                carried,
                now_ns,
                result,
            ),
            final(self).wf(),
            final(self).cpus@.len() == old(self).cpus@.len(),
        decreases left,
    {
        let ghost before = *self;
        let selection = self.select_on(cpu);
        let ghost selected = *self;
        assert(selected.selected_on(&before, cpu, selection));
        let picked = match selection {
            Some(picked) => picked,
            None => {
                return self.idle_on(cpu, now_ns, carried);
            },
        };
        let step = self.plan_pick(cpu, picked, outgoing);
        assert(self.record(picked.thread_id()) is Some ==> self.slots@[picked.thread_id().slot as int].wf_at(
            picked.thread_id().slot as int,
        ));
        let (target, leaves) = match step {
            PickStep::Refused(error) => {
                self.unpick(cpu, picked);
                return Err(error);
            },
            PickStep::Run => {
                self.run_on(cpu, picked, now_ns);
                return Ok((picked.id(), carried));
            },
            PickStep::Send { target, outgoing: leaves } => (target, leaves),
        };
        self.send_picked_off(cpu, picked, target, leaves);
        let ghost sent = *self;
        assert(sent.picked_sent_off(&selected, cpu, picked, target, leaves));
        let carries = if leaves {
            Some(
                PreparedMigrationDelivery {
                    thread: picked.id(),
                    source: cpu,
                    target,
                    placement_demand: picked.policy().placement_demand(),
                },
            )
        } else {
            carried
        };
        if left <= 1 {
            self.work_cpu(cpu);
            let ghost asked = *self;
            assert(asked.cpu_becomes(
                &sent,
                cpu,
                sent.cpu(cpu).with_remote(sent.cpu(cpu).remote.asked_to_work()),
            ));
            return self.idle_on(cpu, now_ns, carries);
        }
        self.pick_owner_next(cpu, outgoing, left - 1, carries, now_ns)
    }
}

} // verus!
