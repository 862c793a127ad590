//! Going to sleep: a thread announces that it parks, and blocks unless a
//! wake-up came first.
use vstd::prelude::*;
use crate::cpu::doorbell::SchedulerRequestClaim;
use crate::cpu::handoff::{PreparedMigrationDelivery, SwitchHandoff, SwitchHandoffPhase};
use crate::cpu::local::CpuLocal;
use crate::error::{TaskError, ThreadState};
use crate::ids::{CpuId, ThreadId};
use crate::scheduler::entity::SchedulingEntity;
use crate::scheduler::run_queue::RunQueue;
use crate::scheduler::task::ActiveSchedulingState;
use crate::system::bandwidth::{ledger_rests, mark_deadline_non_contending, resting};
use crate::system::ready::returned;
use crate::system::restate::{SchedulePosition, state_at};
use crate::system::switch_out::{can_lift, lift_running, lifted, may_lift};
use crate::system::switch_tail::SwitchInCompletion;
use crate::system::task_system::{TaskSystem, cpus_wf_after, with_queue, with_record};
use crate::thread::placement::{TaskOnRunQueue, ThreadPlacementState};
use crate::thread::record::{DeadlineActivity, ThreadRecord, may_become};
use crate::time::MonotonicInstant;

verus! {

/// Why a CPU switches.
#[derive(Clone, Copy, Debug, PartialEq, Eq, Structural)]
pub enum SwitchReason {
    Blocked,
    Exited,
}

/// From which thread to which a CPU switches.
#[derive(Clone, Copy, Debug, PartialEq, Eq, Structural)]
pub struct ScheduleDecision {
    pub previous: Option<ThreadId>,
    pub next: ThreadId,
    pub switch_reason: SwitchReason,
    pub timestamp_ns: u64,
}

/// The announcement of a park. It can be made good or withdrawn once.
#[derive(Clone, Copy, Debug, PartialEq, Eq, Structural)]
pub struct ParkTicket {
    pub thread: ThreadId,
    pub generation: u64,
    pub resolved: bool,
}

/// The outcome of an announcement.
#[derive(Clone, Copy, Debug, PartialEq, Eq, Structural)]
pub enum ParkPrepare {
    /// A wake-up came first.
    Notified,
    Prepared(ParkTicket),
}

/// The outcome of a park.
#[derive(Clone, Copy, Debug, PartialEq, Eq, Structural)]
pub enum ParkCommit {
    /// A wake-up came first; the thread runs on.
    Notified,
    Blocked(ScheduleDecision),
}

/// The scheduling state of a thread that goes to sleep remembers its lag.
pub open spec fn slept(active: ActiveSchedulingState, queue: &RunQueue, granularity_ns: u64) -> ActiveSchedulingState {
    match active.effective() {
        SchedulingEntity::Fair(fair) => active.with_effective(
            active.effective().asleep(queue.mode_time(fair.mode), granularity_ns),
        ),
        _ => active,
    }
}

fn go_to_sleep(active: ActiveSchedulingState, queue: &RunQueue, granularity_ns: u64) -> (after: ActiveSchedulingState)
    requires
        active.wf(),
    ensures
        after == slept(active, queue, granularity_ns),
        after.wf(),
{
    let mut after = active;
    if let SchedulingEntity::Fair(fair) = active.entity() {
        let mut entity = active.entity();
        let virtual_time: u64 = queue.virtual_time_for_mode(fair.mode);
        entity.capture_fair_sleep_lag(virtual_time, granularity_ns);
        after.set_entity(entity);
    }
    after
}

/// The record of a thread that sleeps.
pub open spec fn asleep(record: ThreadRecord, active: ActiveSchedulingState, base: SchedulingEntity, owner: CpuId, now_ns: u64) -> ThreadRecord {
    let quiet = resting(record, base, owner, now_ns);
    let blocked = returned(ThreadRecord { lifecycle: ThreadState::Blocked, ..quiet }, active);
    ThreadRecord {
        placement: ThreadPlacementState {
            on_rq: TaskOnRunQueue::Off,
            migration_request: None,
            ..blocked.placement
        },
        ..blocked
    }
}

/// A CPU whose park is over.
pub open spec fn park_over(cpu: CpuLocal, resumes: bool) -> CpuLocal {
    cpu.with_remote(cpu.remote.with_doorbell(cpu.remote.doorbell.park_finished(resumes)))
}

/// Whether the reservation of a thread is part of what its CPU counts.
pub open spec fn counted(queue: &RunQueue, record: &ThreadRecord, owner: CpuId) -> bool {
    record.deadline.owner == Some(owner) && record.deadline.activity
        == DeadlineActivity::Contending ==> record.deadline.reservation_scaled
        <= queue.deadline.bandwidth.running_bw_scaled
}

/// The CPU and the record after the running thread went to sleep.
#[verifier::opaque]
pub open spec fn fell_asleep(after: CpuLocal, settled: ThreadRecord, before: CpuLocal, record: ThreadRecord, owner: CpuId, now_ns: u64, granularity_ns: u64) -> bool {
    let active = state_at(&before.queue(), &record, SchedulePosition::Running)->0;
    exists|freed: RunQueue, rested: RunQueue|
        #[trigger] lifted(&freed, &before.queue(), &record) && #[trigger] ledger_rests(
            &rested,
            &freed,
            &record,
            active.base_entity,
            owner,
            now_ns,
        ) && after == park_over(with_queue(before, rested), false).vacated() && settled == asleep(
            record,
            slept(active, &before.queue(), granularity_ns),
            active.base_entity,
            owner,
            now_ns,
        )
}

/// Puts the running thread of a CPU to sleep.
fn fall_asleep(local: &mut CpuLocal, record: &mut ThreadRecord, owner: CpuId, now_ns: u64, granularity_ns: u64)
    requires
        old(local).wf(),
        old(record).wf(),
        can_lift(&old(local).queue(), old(record)),
        counted(&old(local).queue(), old(record), owner),
        old(record).placement.can_block_current(owner),
    ensures
        fell_asleep(
            *final(local),
            *final(record),
            *old(local),
            *old(record),
            owner,
            now_ns,
            granularity_ns,
        ),
        final(record).id == old(record).id,
        final(local).remote.owner == old(local).remote.owner,
        final(local).wf(),
        final(record).wf(),
{
    let active = lift_running(&mut local.remote.run_queue.queue, record);
    let ghost freed = local.queue();
    let quiet = go_to_sleep(active, &local.remote.run_queue.queue, granularity_ns);
    assert(quiet == slept(active, &old(local).queue(), granularity_ns));
    mark_deadline_non_contending(
        &mut local.remote.run_queue.queue,
        record,
        active.base_entity,
        owner,
        now_ns,
    );
    let ghost rested = local.queue();
    record.policy.active = Some(quiet);
    record.lifecycle = ThreadState::Blocked;
    record.placement.block_current(owner);
    local.remote.doorbell.finish_park_preemption(false);
    local.clear_current();
    proof {
        reveal(fell_asleep);
        assert(lifted(&freed, &old(local).queue(), old(record)));
        assert(ledger_rests(&rested, &freed, old(record), active.base_entity, owner, now_ns));
        assert(*local == park_over(with_queue(*old(local), rested), false).vacated());
    }
}

/// What becomes of a thread that is about to block.
#[derive(Clone, Copy, Debug, PartialEq, Eq, Structural)]
pub enum ParkStep {
    Refused(TaskError),
    /// A wake-up came first.
    Resume,
    Sleep,
}

/// A CPU whose owner serves what was asked of it while a thread parks. A
/// preemption is put off until it is known whether the thread blocks.
pub open spec fn park_begun(cpu: CpuLocal) -> CpuLocal {
    let doorbell = cpu.remote.doorbell;
    cpu.with_remote(
        cpu.remote.with_doorbell(
            crate::cpu::doorbell::SchedulerDoorbell {
                preempt: false,
                owner_work: false,
                park_preempt_deferred: doorbell.park_preempt_deferred || doorbell.preempt,
                ..doorbell
            },
        ),
    )
}

/// The claim on what was asked of a CPU.
pub open spec fn claimed(cpu: CpuLocal) -> SchedulerRequestClaim {
    SchedulerRequestClaim {
        generation: cpu.remote.doorbell.generation,
        preempt: cpu.remote.doorbell.preempt,
    }
}

/// Begins a park on a CPU: what was asked of it is claimed, and preemption is put
/// off.
fn begin_park_on(local: &mut CpuLocal) -> (claim: SchedulerRequestClaim)
    ensures
        claim == claimed(*old(local)),
        *final(local) == park_begun(*old(local)),
        old(local).wf() ==> final(local).wf(),
{
    let claim = local.claim_scheduler_request();
    local.remote.doorbell.defer_park_preemption(claim.preempt);
    claim
}

/// The decision to switch between two threads.
pub open spec fn switch_plan(previous: ThreadId, next: ThreadId, switch_reason: SwitchReason, timestamp_ns: u64) -> ScheduleDecision {
    ScheduleDecision { previous: Some(previous), next, switch_reason, timestamp_ns }
}

pub fn owner_switch_plan(previous: ThreadId, next: ThreadId, switch_reason: SwitchReason, timestamp_ns: u64) -> (decision: ScheduleDecision)
    ensures
        decision == switch_plan(previous, next, switch_reason, timestamp_ns),
{
    ScheduleDecision { previous: Some(previous), next, switch_reason, timestamp_ns }
}

impl TaskSystem {
    pub open spec fn park_step(&self, cpu: CpuId, thread: ThreadId) -> ParkStep {
        let queue = self.cpu(cpu).queue();
        match self.record(thread) {
            None => ParkStep::Refused(TaskError::StaleThreadId),
            Some(record) => if record.wake_pending {
                ParkStep::Resume
            } else if record.lifecycle != ThreadState::Parking || record.placement.executing_on()
                != Some(cpu) || !can_lift(&queue, &record) || !counted(&queue, &record, cpu) {
                ParkStep::Refused(TaskError::InvalidConfiguration)
            } else {
                ParkStep::Sleep
            },
        }
    }

    fn plan_park(&self, cpu: CpuId, thread: ThreadId) -> (step: ParkStep)
        requires
            self.wf(),
            self.has_cpu(cpu),
        ensures
            step == self.park_step(cpu, thread),
    {
        let record = match self.thread_record(thread) {
            Ok(record) => record,
            Err(error) => {
                return ParkStep::Refused(error);
            },
        };
        if record.wake_pending {
            return ParkStep::Resume;
        }
        assert(self.cpus@[cpu.index as int].wf());
        let queue = &self.cpus[cpu.index as usize].remote.run_queue.queue;
        let here = match record.placement.execution_cpu() {
            Some(executing) => executing == cpu,
            None => false,
        };
        let contends = match record.deadline.owner {
            Some(owner) => owner == cpu && record.deadline.activity == DeadlineActivity::Contending,
            None => false,
        };
        let counts = !contends || record.deadline.reservation_scaled
            <= queue.deadline.bandwidth.running_bw_scaled;
        if record.lifecycle != ThreadState::Parking || !here || !may_lift(queue, record)
            || !counts {
            return ParkStep::Refused(TaskError::InvalidConfiguration);
        }
        ParkStep::Sleep
    }

    /// The system with the running thread of a CPU asleep.
    pub open spec fn asleep_on(&self, before: &Self, cpu: CpuId, thread: ThreadId, now_ns: u64) -> bool {
        exists|local: CpuLocal, settled: ThreadRecord|
            #[trigger] fell_asleep(
                local,
                settled,
                before.cpu(cpu),
                before.record(thread)->0,
                cpu,
                now_ns,
                before.config.timing_granularity_ns,
            ) && self.relinked(
                before,
                settled,
                before.cpus@.update(cpu.index as int, local),
                before.root_domain,
            )
    }

    fn put_to_sleep(&mut self, cpu: CpuId, thread: ThreadId, now_ns: u64)
        requires
            old(self).wf(),
            old(self).has_cpu(cpu),
            old(self).park_step(cpu, thread) == ParkStep::Sleep,
        ensures
            final(self).asleep_on(old(self), cpu, thread, now_ns),
            final(self).wf(),
    {
        let ghost before = *self;
        let at: usize = cpu.index as usize;
        assert(before.cpus@[at as int].wf());
        let granularity_ns: u64 = self.config.timing_granularity_ns;
        let mut record = self.take_record(thread);
        fall_asleep(&mut self.cpus[at], &mut record, cpu, now_ns, granularity_ns);
        proof {
            assert(self.cpus@ =~= before.cpus@.update(at as int, self.cpus@[at as int]));
            cpus_wf_after(before.cpus@, self.cpus@, at as int);
        }
        self.put_record(record);
        assert(self.slots@ =~= with_record(before.slots@, record));
    }

    /// The system after a thread that was about to park runs on, for a wake-up
    /// that it takes or of its own accord.
    pub open spec fn resumed_on(&self, before: &Self, cpu: CpuId, thread: ThreadId, woken: bool, result: Result<(), TaskError>) -> bool {
        let record = before.record(thread)->0;
        let wake_pending = record.wake_pending && !woken;
        if may_become(record.lifecycle, ThreadState::Running) {
            result == Ok::<(), TaskError>(()) && self.relinked(
                before,
                ThreadRecord { wake_pending, lifecycle: ThreadState::Running, ..record },
                before.cpus@.update(cpu.index as int, park_over(before.cpu(cpu), true)),
                before.root_domain,
            )
        } else {
            result == Err::<(), TaskError>(
                TaskError::InvalidTransition { from: record.lifecycle, to: ThreadState::Running },
            ) && self.relinked(
                before,
                ThreadRecord { wake_pending, ..record },
                before.cpus@,
                before.root_domain,
            )
        }
    }

    fn resume_parked(&mut self, cpu: CpuId, thread: ThreadId, woken: bool) -> (result: Result<(), TaskError>)
        requires
            old(self).wf(),
            old(self).has_cpu(cpu),
            old(self).record(thread) is Some,
        ensures
            final(self).resumed_on(old(self), cpu, thread, woken, result),
            final(self).wf(),
    {
        let ghost before = *self;
        let at: usize = cpu.index as usize;
        assert(before.cpus@[at as int].wf());
        let mut record = self.take_record(thread);
        if woken {
            let _ = record.take_park_notification();
        }
        let result = record.transition(ThreadState::Running);
        if result.is_ok() {
            self.cpus[at].remote.doorbell.finish_park_preemption(true);
            proof {
                assert(self.cpus@ =~= before.cpus@.update(at as int, self.cpus@[at as int]));
                cpus_wf_after(before.cpus@, self.cpus@, at as int);
            }
        }
        self.put_record(record);
        assert(self.slots@ =~= with_record(before.slots@, record));
        result
    }

    /// The system with what was asked of a CPU acknowledged.
    pub open spec fn acknowledged_on(&self, before: &Self, cpu: CpuId, claim: SchedulerRequestClaim) -> bool {
        self.cpu_becomes(
            before,
            cpu,
            before.cpu(cpu).with_remote(before.cpu(cpu).remote.acknowledged(claim)),
        )
    }

    pub(crate) fn acknowledge_on(&mut self, cpu: CpuId, claim: SchedulerRequestClaim)
        requires
            old(self).wf(),
            old(self).has_cpu(cpu),
        ensures
            final(self).acknowledged_on(old(self), cpu, claim),
            final(self).wf(),
    {
        let ghost before = *self;
        let at: usize = cpu.index as usize;
        assert(before.cpus@[at as int].wf());
        self.cpus[at].acknowledge_scheduler_request(claim);
        proof {
            assert(self.cpus@ =~= before.cpus@.update(at as int, self.cpus@[at as int]));
            cpus_wf_after(before.cpus@, self.cpus@, at as int);
        }
    }

    /// The system with the thread that a switch leaves behind noted.
    pub open spec fn handoff_staged(&self, before: &Self, cpu: CpuId, previous: ThreadId, next: ThreadId) -> bool {
        if previous == next {
            *self == *before
        } else {
            self.cpu_becomes(
                before,
                cpu,
                CpuLocal {
                    switch_handoff: Some(
                        SwitchHandoff {
                            phase: SwitchHandoffPhase::Prepared,
                            previous,
                            migration: None,
                        },
                    ),
                    ..before.cpu(cpu)
                },
            )
        }
    }

    /// Notes the thread that a switch leaves behind, unless one is noted still.
    fn stage_handoff(&mut self, cpu: CpuId, previous: ThreadId, next: ThreadId) -> (staged: bool)
        requires
            old(self).wf(),
            old(self).has_cpu(cpu),
        ensures
            staged == (previous == next || old(self).cpu(cpu).switch_handoff is None),
            staged ==> final(self).handoff_staged(old(self), cpu, previous, next),
            !staged ==> *final(self) == *old(self),
            final(self).wf(),
    {
        let ghost before = *self;
        if previous == next {
            return true;
        }
        let at: usize = cpu.index as usize;
        assert(before.cpus@[at as int].wf());
        if self.cpus[at].switch_handoff.is_some() {
            return false;
        }
        let _ = self.cpus[at].stage_switch_handoff(previous, None);
        proof {
            assert(self.cpus@ =~= before.cpus@.update(at as int, self.cpus@[at as int]));
            cpus_wf_after(before.cpus@, self.cpus@, at as int);
        }
        true
    }

    /// The system after a CPU without a running thread chose the next one.
    #[verifier::opaque]
    pub open spec fn switched_away(&self, before: &Self, cpu: CpuId, previous: ThreadId, reason: SwitchReason, claim: SchedulerRequestClaim, now_ns: u64, result: Result<ScheduleDecision, TaskError>) -> bool {
        exists|chosen: TaskSystem, outcome: Result<(ThreadId, Option<PreparedMigrationDelivery>), TaskError>|
            #[trigger] chosen.next_chosen(
                before,
                cpu,
                Some(previous),
                before.cpu(cpu).batch_limit as nat,
                None,
                now_ns,
                outcome,
            ) && match outcome {
                Err(error) => result == Err::<ScheduleDecision, TaskError>(error) && *self
                    == chosen,
                Ok((next, carried)) => if carried is Some || (next != previous && chosen.cpu(
                    cpu,
                ).switch_handoff is Some) {
                    result == Err::<ScheduleDecision, TaskError>(TaskError::InvalidConfiguration)
                        && *self == chosen
                } else {
                    result == Ok::<ScheduleDecision, TaskError>(
                        switch_plan(previous, next, reason, now_ns),
                    ) && exists|staged: TaskSystem|
                        #[trigger] staged.handoff_staged(&chosen, cpu, previous, next)
                            && self.acknowledged_on(&staged, cpu, claim)
                },
            }
    }

    /// Chooses the next thread for a CPU whose running thread is gone.
    pub(crate) fn switch_away(&mut self, cpu: CpuId, previous: ThreadId, reason: SwitchReason, claim: SchedulerRequestClaim, now_ns: u64) -> (result: Result<ScheduleDecision, TaskError>)
        requires
            old(self).wf(),
            old(self).has_cpu(cpu),
        ensures
            final(self).switched_away(
                old(self),
                cpu,
                previous,
                reason,
                claim,
                now_ns,
                result,
            ),
            final(self).cpus@.len() == old(self).cpus@.len(),
            final(self).wf(),
    {
        proof {
            reveal(TaskSystem::switched_away);
        }
        let left: usize = self.cpus[cpu.index as usize].batch_limit;
        let outcome = self.pick_owner_next(cpu, Some(previous), left, None, now_ns);
        let ghost chosen = *self;
        proof {
            assert(chosen.next_chosen(
                old(self),
                cpu,
                Some(previous),
                left as nat,
                None,
                now_ns,
                outcome,
            ));
        }
        let (next, carried) = match outcome {
            Ok((next, carried)) => (next, carried),
            Err(error) => {
                return Err(error);
            },
        };
        if carried.is_some() || !self.stage_handoff(cpu, previous, next) {
            return Err(TaskError::InvalidConfiguration);
        }
        let ghost staged = *self;
        assert(staged.handoff_staged(&chosen, cpu, previous, next));
        self.acknowledge_on(cpu, claim);
        Ok(owner_switch_plan(previous, next, reason, now_ns))
    }

    /// The system after a CPU, with its running thread charged, let the thread
    /// block. A wake-up that came first keeps it running.
    pub open spec fn park_closed(&self, before: &Self, cpu: CpuId, thread: ThreadId, claim: SchedulerRequestClaim, now_ns: u64, result: Result<ParkCommit, TaskError>) -> bool {
        match before.park_step(cpu, thread) {
            ParkStep::Refused(error) => result == Err::<ParkCommit, TaskError>(error) && *self
                == *before,
            ParkStep::Resume => exists|resumed: TaskSystem, outcome: Result<(), TaskError>|
                #[trigger] resumed.resumed_on(before, cpu, thread, true, outcome) && match outcome {
                    Err(error) => result == Err::<ParkCommit, TaskError>(error) && *self == resumed,
                    Ok(_) => result == Ok::<ParkCommit, TaskError>(ParkCommit::Notified)
                        && exists|seen: TaskSystem|
                        #[trigger] seen.load_shown(&resumed, cpu) && self.acknowledged_on(
                            &seen,
                            cpu,
                            claim,
                        ),
                },
            ParkStep::Sleep => exists|quiet: TaskSystem, outcome: Result<ScheduleDecision, TaskError>|
                #[trigger] quiet.asleep_on(before, cpu, thread, now_ns) && quiet.wf()
                    && #[trigger] self.switched_away(
                    &quiet,
                    cpu,
                    thread,
                    SwitchReason::Blocked,
                    claim,
                    now_ns,
                    outcome,
                ) && result == match outcome {
                    Err(error) => Err::<ParkCommit, TaskError>(error),
                    Ok(decision) => Ok(ParkCommit::Blocked(decision)),
                },
        }
    }

    /// Lets the running thread of a CPU block, unless a wake-up came first.
    pub fn close_park(&mut self, cpu: CpuId, thread: ThreadId, claim: SchedulerRequestClaim, now_ns: u64) -> (result: Result<ParkCommit, TaskError>)
        requires
            old(self).wf(),
            old(self).has_cpu(cpu),
        ensures
            final(self).park_closed(old(self), cpu, thread, claim, now_ns, result),
            final(self).cpus@.len() == old(self).cpus@.len(),
            final(self).wf(),
    {
        let ghost before = *self;
        match self.plan_park(cpu, thread) {
            ParkStep::Refused(error) => Err(error),
            ParkStep::Resume => {
                let outcome = self.resume_parked(cpu, thread, true);
                let ghost resumed = *self;
                assert(resumed.resumed_on(&before, cpu, thread, true, outcome));
                match outcome {
                    Ok(_) => {},
                    Err(error) => {
                        return Err(error);
                    },
                }
                self.show_load(cpu);
                let ghost seen = *self;
                assert(seen.load_shown(&resumed, cpu));
                self.acknowledge_on(cpu, claim);
                Ok(ParkCommit::Notified)
            },
            ParkStep::Sleep => {
                self.put_to_sleep(cpu, thread, now_ns);
                let ghost quiet = *self;
                assert(quiet.asleep_on(&before, cpu, thread, now_ns));
                let outcome = self.switch_away(cpu, thread, SwitchReason::Blocked, claim, now_ns);
                proof {
                    assert(self.switched_away(
                        &quiet,
                        cpu,
                        thread,
                        SwitchReason::Blocked,
                        claim,
                        now_ns,
                        outcome,
                    ));
                }
                match outcome {
                    Ok(decision) => Ok(ParkCommit::Blocked(decision)),
                    Err(error) => Err(error),
                }
            },
        }
    }

    /// The system in which the owner of a CPU serves what was asked, with its
    /// running thread charged.
    pub open spec fn park_opened(&self, before: &Self, cpu: CpuId, now_ns: u64) -> bool {
        exists|begun: TaskSystem|
            #[trigger] begun.cpu_becomes(before, cpu, park_begun(before.cpu(cpu)))
                && self.dispatch_committed(&begun, cpu, now_ns)
    }

    fn open_park(&mut self, cpu: CpuId, now_ns: u64) -> (claim: SchedulerRequestClaim)
        requires
            old(self).wf(),
            old(self).has_cpu(cpu),
        ensures
            claim == claimed(old(self).cpu(cpu)),
            final(self).park_opened(old(self), cpu, now_ns),
            final(self).cpus@.len() == old(self).cpus@.len(),
            final(self).wf(),
    {
        let ghost before = *self;
        let at: usize = cpu.index as usize;
        assert(before.cpus@[at as int].wf());
        let claim = begin_park_on(&mut self.cpus[at]);
        proof {
            assert(self.cpus@ =~= before.cpus@.update(at as int, park_begun(before.cpu(cpu))));
            cpus_wf_after(before.cpus@, self.cpus@, at as int);
        }
        let ghost begun = *self;
        assert(begun.cpu_becomes(&before, cpu, park_begun(before.cpu(cpu))));
        self.commit_owner_current_dispatch(cpu, now_ns);
        claim
    }

    /// Why a ticket is not that of the running thread of a CPU.
    pub open spec fn ticket_error(&self, cpu: CpuId, ticket: ParkTicket) -> Option<TaskError> {
        if !self.has_cpu(cpu) {
            Some(TaskError::InvalidCpu(cpu.index))
        } else if !self.online(cpu) {
            Some(TaskError::CpuOffline(cpu.index))
        } else if self.cpu(cpu).current != Some(ticket.thread) {
            Some(TaskError::StaleThreadId)
        } else {
            match self.record(ticket.thread) {
                None => Some(TaskError::NoRunnableThread),
                Some(record) => if record.park_generation != ticket.generation {
                    Some(TaskError::StaleThreadId)
                } else {
                    None
                },
            }
        }
    }

    fn check_ticket(&self, cpu: CpuId, ticket: ParkTicket) -> (error: Option<TaskError>)
        requires
            self.wf(),
        ensures
            error == self.ticket_error(cpu, ticket),
    {
        match self.ensure_owner_cpu_online(cpu) {
            Ok(_) => {},
            Err(error) => {
                return Some(error);
            },
        }
        let current = match self.cpus[cpu.index as usize].current {
            Some(current) => current == ticket.thread,
            None => false,
        };
        if !current {
            return Some(TaskError::StaleThreadId);
        }
        match self.thread_record(ticket.thread) {
            Err(_) => Some(TaskError::NoRunnableThread),
            Ok(record) => if record.park_generation != ticket.generation {
                Some(TaskError::StaleThreadId)
            } else {
                None
            },
        }
    }

    /// The system after a park was made good, once the owner has done what
    /// other CPUs asked of it.
    pub open spec fn park_made_good(&self, before: &Self, cpu: CpuId, ticket: ParkTicket, now_ns: u64, result: Result<ParkCommit, TaskError>) -> bool {
        match before.ticket_error(cpu, ticket) {
            Some(error) => result == Err::<ParkCommit, TaskError>(error) && *self == *before,
            None => if (before.record(ticket.thread)->0).wake_pending {
                exists|outcome: Result<(), TaskError>|
                    #[trigger] self.resumed_on(before, cpu, ticket.thread, true, outcome) && result
                        == match outcome {
                        Err(error) => Err::<ParkCommit, TaskError>(error),
                        Ok(_) => Ok(ParkCommit::Notified),
                    }
            } else {
                exists|opened: TaskSystem|
                    #[trigger] opened.park_opened(before, cpu, now_ns) && opened.wf()
                        && self.park_closed(
                        &opened,
                        cpu,
                        ticket.thread,
                        claimed(before.cpu(cpu)),
                        now_ns,
                        result,
                    )
            },
        }
    }

    fn make_park_good(&mut self, cpu: CpuId, ticket: ParkTicket, now_ns: u64) -> (result: Result<ParkCommit, TaskError>)
        requires
            old(self).wf(),
        ensures
            final(self).park_made_good(old(self), cpu, ticket, now_ns, result),
            final(self).cpus@.len() == old(self).cpus@.len(),
            final(self).wf(),
    {
        let ghost before = *self;
        if let Some(error) = self.check_ticket(cpu, ticket) {
            return Err(error);
        }
        let notified = match self.thread_record(ticket.thread) {
            Ok(record) => record.wake_pending,
            Err(_) => false,
        };
        if notified {
            let outcome = self.resume_parked(cpu, ticket.thread, true);
            assert(self.resumed_on(&before, cpu, ticket.thread, true, outcome));
            return match outcome {
                Ok(_) => Ok(ParkCommit::Notified),
                Err(error) => Err(error),
            };
        }
        let claim = self.open_park(cpu, now_ns);
        let ghost opened = *self;
        assert(opened.park_opened(&before, cpu, now_ns));
        self.close_park(cpu, ticket.thread, claim, now_ns)
    }

    /// The system after a park was made good.
    pub open spec fn park_committed(&self, before: &Self, cpu: CpuId, ticket: ParkTicket, now_ns: u64, monotonic_now: MonotonicInstant, result: Result<ParkCommit, TaskError>) -> bool {
        if !before.has_cpu(cpu) {
            result == Err::<ParkCommit, TaskError>(TaskError::InvalidCpu(cpu.index)) && *self
                == *before
        } else if ticket.resolved {
            result == Err::<ParkCommit, TaskError>(TaskError::StaleThreadId) && *self == *before
        } else {
            exists|drained: TaskSystem, outcome: Result<(), TaskError>|
                #[trigger] drained.owner_work_drained(before, cpu, now_ns, monotonic_now, outcome)
                    && drained.wf() && match outcome {
                    Err(error) => result == Err::<ParkCommit, TaskError>(error) && *self == drained,
                    Ok(_) => self.park_made_good(&drained, cpu, ticket, now_ns, result),
                }
        }
    }

    /// Lets the thread that announced a park block. It runs on if a wake-up
    /// came since. The ticket is spent if either happened.
    pub fn commit_park(&mut self, cpu: CpuId, ticket: &mut ParkTicket, now_ns: u64, monotonic_now: MonotonicInstant) -> (result: Result<ParkCommit, TaskError>)
        requires
            old(self).wf(),
        ensures
            final(self).park_committed(
                old(self),
                cpu,
                *old(ticket),
                now_ns,
                monotonic_now,
                result,
            ),
            *final(ticket) == (ParkTicket {
                resolved: old(ticket).resolved || result is Ok,
                ..*old(ticket)
            }),
            final(self).cpus@.len() == old(self).cpus@.len(),
            final(self).wf(),
    {
        let ghost before = *self;
        if cpu.index as usize >= self.cpus.len() {
            return Err(TaskError::InvalidCpu(cpu.index));
        }
        if ticket.resolved {
            return Err(TaskError::StaleThreadId);
        }
        let outcome = self.drain_owner_work(cpu, now_ns, monotonic_now);
        let ghost drained = *self;
        assert(drained.owner_work_drained(&before, cpu, now_ns, monotonic_now, outcome));
        match outcome {
            Ok(_) => {},
            Err(error) => {
                return Err(error);
            },
        }
        let result = self.make_park_good(cpu, *ticket, now_ns);
        if result.is_ok() {
            ticket.resolved = true;
        }
        result
    }

    /// The system after a park was withdrawn.
    pub open spec fn park_withdrawn(&self, before: &Self, cpu: CpuId, ticket: ParkTicket, result: Result<(), TaskError>) -> bool {
        if !before.has_cpu(cpu) {
            result == Err::<(), TaskError>(TaskError::InvalidCpu(cpu.index)) && *self == *before
        } else if ticket.resolved {
            result == Err::<(), TaskError>(TaskError::StaleThreadId) && *self == *before
        } else {
            match before.ticket_error(cpu, ticket) {
                Some(error) => result == Err::<(), TaskError>(error) && *self == *before,
                None => self.resumed_on(before, cpu, ticket.thread, false, result),
            }
        }
    }

    /// Withdraws a park: the thread runs on.
    pub fn cancel_park(&mut self, cpu: CpuId, ticket: &mut ParkTicket) -> (result: Result<(), TaskError>)
        requires
            old(self).wf(),
        ensures
            final(self).park_withdrawn(old(self), cpu, *old(ticket), result),
            *final(ticket) == (ParkTicket {
                resolved: old(ticket).resolved || result is Ok,
                ..*old(ticket)
            }),
            final(self).cpus@.len() == old(self).cpus@.len(),
            final(self).wf(),
    {
        if cpu.index as usize >= self.cpus.len() {
            return Err(TaskError::InvalidCpu(cpu.index));
        }
        if ticket.resolved {
            return Err(TaskError::StaleThreadId);
        }
        if let Some(error) = self.check_ticket(cpu, *ticket) {
            return Err(error);
        }
        let result = self.resume_parked(cpu, ticket.thread, false);
        if result.is_ok() {
            ticket.resolved = true;
        }
        result
    }

    /// The system after a thread announced a park.
    pub open spec fn park_announced(&self, before: &Self, thread: ThreadId, result: Result<ParkPrepare, TaskError>) -> bool {
        let record = before.record(thread)->0;
        let generation = (record.park_generation + 1) as u64;
        if record.wake_pending {
            result == Ok::<ParkPrepare, TaskError>(ParkPrepare::Notified) && self.relinked(
                before,
                ThreadRecord { wake_pending: false, ..record },
                before.cpus@,
                before.root_domain,
            )
        } else if record.park_generation == u64::MAX {
            result == Err::<ParkPrepare, TaskError>(TaskError::InvalidConfiguration)
                && self.relinked(before, record, before.cpus@, before.root_domain)
        } else if !may_become(record.lifecycle, ThreadState::Parking) {
            result == Err::<ParkPrepare, TaskError>(
                TaskError::InvalidTransition { from: record.lifecycle, to: ThreadState::Parking },
            ) && self.relinked(
                before,
                ThreadRecord { park_generation: generation, ..record },
                before.cpus@,
                before.root_domain,
            )
        } else {
            result == Ok::<ParkPrepare, TaskError>(
                ParkPrepare::Prepared(ParkTicket { thread, generation, resolved: false }),
            ) && self.relinked(
                before,
                ThreadRecord {
                    park_generation: generation,
                    lifecycle: ThreadState::Parking,
                    ..record
                },
                before.cpus@,
                before.root_domain,
            )
        }
    }

    fn announce_park(&mut self, thread: ThreadId) -> (result: Result<ParkPrepare, TaskError>)
        requires
            old(self).wf(),
            old(self).record(thread) is Some,
        ensures
            final(self).park_announced(old(self), thread, result),
            final(self).wf(),
    {
        let ghost before = *self;
        let mut record = self.take_record(thread);
        let result = if record.take_park_notification() {
            Ok(ParkPrepare::Notified)
        } else {
            match record.next_park_generation() {
                Err(error) => Err(error),
                Ok(generation) => match record.transition(ThreadState::Parking) {
                    Err(error) => Err(error),
                    Ok(_) => Ok(
                        ParkPrepare::Prepared(ParkTicket { thread, generation, resolved: false }),
                    ),
                },
            }
        };
        self.put_record(record);
        assert(self.slots@ =~= with_record(before.slots@, record));
        result
    }

    /// The system after the running thread of a CPU announced a park.
    pub open spec fn park_prepared(&self, before: &Self, cpu: CpuId, now_ns: u64, monotonic_now: MonotonicInstant, result: Result<ParkPrepare, TaskError>) -> bool {
        exists|switched: TaskSystem, outcome: Result<SwitchInCompletion, TaskError>|
            #[trigger] switched.switch_completed(before, cpu, now_ns, monotonic_now, outcome)
                && switched.wf() && match outcome {
                Err(error) => result == Err::<ParkPrepare, TaskError>(error) && *self == switched,
                Ok(_) => if !switched.online(cpu) {
                    result == Err::<ParkPrepare, TaskError>(TaskError::CpuOffline(cpu.index))
                        && *self == switched
                } else {
                    match switched.cpu(cpu).current {
                        None => result == Err::<ParkPrepare, TaskError>(TaskError::NoRunnableThread)
                            && *self == switched,
                        Some(thread) => if switched.record(thread) is None {
                            result == Err::<ParkPrepare, TaskError>(TaskError::NoRunnableThread)
                                && *self == switched
                        } else {
                            self.park_announced(&switched, thread, result)
                        },
                    }
                },
            }
    }

    /// Announces that the running thread of a CPU parks. A pending wake-up is
    /// taken instead.
    pub fn prepare_park(&mut self, cpu: CpuId, now_ns: u64, monotonic_now: MonotonicInstant) -> (result: Result<ParkPrepare, TaskError>)
        requires
            old(self).wf(),
        ensures
            final(self).park_prepared(old(self), cpu, now_ns, monotonic_now, result),
            final(self).cpus@.len() == old(self).cpus@.len(),
            final(self).wf(),
    {
        let ghost before = *self;
        let outcome = self.complete_context_switch(cpu, now_ns, monotonic_now);
        let ghost switched = *self;
        assert(switched.switch_completed(&before, cpu, now_ns, monotonic_now, outcome));
        match outcome {
            Ok(_) => {},
            Err(error) => {
                return Err(error);
            },
        }
        match self.ensure_owner_cpu_online(cpu) {
            Ok(_) => {},
            Err(error) => {
                return Err(error);
            },
        }
        let thread = match self.cpus[cpu.index as usize].current {
            Some(thread) => thread,
            None => {
                return Err(TaskError::NoRunnableThread);
            },
        };
        if self.thread_record(thread).is_err() {
            return Err(TaskError::NoRunnableThread);
        }
        self.announce_park(thread)
    }

    /// The decision of a CPU whose thread runs on, if it has one.
    pub open spec fn runs_on(&self, cpu: CpuId, now_ns: u64) -> Result<ScheduleDecision, TaskError> {
        match self.cpu(cpu).current {
            Some(thread) => Ok(switch_plan(thread, thread, SwitchReason::Blocked, now_ns)),
            None => Err(TaskError::NoRunnableThread),
        }
    }

    /// The system after the running thread of a CPU was asked to block.
    pub open spec fn blocked_on_cpu(&self, before: &Self, cpu: CpuId, now_ns: u64, monotonic_now: MonotonicInstant, result: Result<ScheduleDecision, TaskError>) -> bool {
        exists|prepared: TaskSystem, announced: Result<ParkPrepare, TaskError>|
            #[trigger] prepared.park_prepared(before, cpu, now_ns, monotonic_now, announced)
                && prepared.wf() && match announced {
                Err(error) => result == Err::<ScheduleDecision, TaskError>(error) && *self
                    == prepared,
                Ok(ParkPrepare::Notified) => *self == prepared && result == prepared.runs_on(
                    cpu,
                    now_ns,
                ),
                Ok(ParkPrepare::Prepared(ticket)) => exists|outcome: Result<ParkCommit, TaskError>|
                    #[trigger] self.park_committed(
                        &prepared,
                        cpu,
                        ticket,
                        now_ns,
                        monotonic_now,
                        outcome,
                    ) && result == match outcome {
                        Err(error) => Err::<ScheduleDecision, TaskError>(error),
                        Ok(ParkCommit::Blocked(decision)) => Ok(decision),
                        Ok(ParkCommit::Notified) => self.runs_on(cpu, now_ns),
                    },
            }
    }

    /// Blocks the running thread of a CPU, unless a wake-up came first.
    pub fn block_current(&mut self, cpu: CpuId, now_ns: u64, monotonic_now: MonotonicInstant) -> (result: Result<ScheduleDecision, TaskError>)
        requires
            old(self).wf(),
        ensures
            final(self).blocked_on_cpu(old(self), cpu, now_ns, monotonic_now, result),
            final(self).wf(),
    {
        let ghost before = *self;
        let announced = self.prepare_park(cpu, now_ns, monotonic_now);
        let ghost prepared = *self;
        assert(prepared.park_prepared(&before, cpu, now_ns, monotonic_now, announced));
        match announced {
            Err(error) => Err(error),
            Ok(ParkPrepare::Notified) => self.decide_to_run_on(cpu, now_ns),
            Ok(ParkPrepare::Prepared(ticket)) => {
                let mut ticket = ticket;
                let outcome = self.commit_park(cpu, &mut ticket, now_ns, monotonic_now);
                match outcome {
                    Err(error) => Err(error),
                    Ok(ParkCommit::Blocked(decision)) => Ok(decision),
                    Ok(ParkCommit::Notified) => self.decide_to_run_on(cpu, now_ns),
                }
            },
        }
    }

    fn decide_to_run_on(&self, cpu: CpuId, now_ns: u64) -> (result: Result<ScheduleDecision, TaskError>)
        requires
            self.wf(),
            self.has_cpu(cpu),
        ensures
            result == self.runs_on(cpu, now_ns),
    {
        match self.cpus[cpu.index as usize].current {
            Some(thread) => Ok(owner_switch_plan(thread, thread, SwitchReason::Blocked, now_ns)),
            None => Err(TaskError::NoRunnableThread),
        }
    }
}

} // verus!
