//! The part of a CPU that only its owner touches.
use vstd::prelude::*;
use crate::config::TaskSystemConfig;
use crate::cpu::clock::RunQueueClockSnapshot;
use crate::cpu::deadline::{
    CpuDeadlineState, SchedulerClockEvent, SchedulerDeadlinePublicationState,
    SchedulerDeadlineUpdate, clock_event, scheduler_clock_event,
};
use crate::cpu::dispatch::{CurrentDispatch, earlier, earliest};
use crate::cpu::doorbell::{SchedulerDoorbell, SchedulerRequestClaim, SchedulerRequestReason};
use crate::cpu::handoff::{PreparedMigrationDelivery, SwitchHandoff, SwitchHandoffPhase};
use crate::cpu::inbox::SchedulerInbox;
use crate::cpu::ktimer::KtimerWorkerPhase;
use crate::cpu::load::{CpuLoadSummary, RemoteLoadState};
use crate::cpu::remote::{CpuLifecycleState, CpuRemote};
use crate::cpu::run_queue::CpuRunQueueState;
use crate::error::TaskError;
use crate::ids::{CpuId, ThreadId};
use crate::scheduler::deadline::DeadlineBandwidthSnapshot;
use crate::scheduler::policy::FairMode;
use crate::scheduler::run_queue::RunQueue;
use crate::time::{
    MonotonicDeadline, MonotonicInstant, circular_before, circular_offset, scheduler_time_advance,
    wrapping_before,
};
use crate::timer::{
    ExpiredTaskDeadline, TaskDeadlineExpireBatch, TaskDeadlineExpireRequest, fired, next_to_fire,
    unfired,
};

verus! {

#[derive(Debug)]
pub struct CpuLocal {
    pub remote: CpuRemote,
    pub current: Option<ThreadId>,
    pub idle: Option<ThreadId>,
    pub switch_handoff: Option<SwitchHandoff>,
    pub deadlines: CpuDeadlineState,
    pub batch_limit: usize,
    pub fair_balance_interval_ns: u64,
}

pub open spec fn least(a: Option<MonotonicDeadline>, b: Option<MonotonicDeadline>) -> Option<MonotonicDeadline> {
    match (a, b) {
        (Some(x), Some(y)) => Some(
            if y.ns < x.ns {
                y
            } else {
                x
            },
        ),
        (Some(x), None) => Some(x),
        (None, other) => other,
    }
}

fn minimum(a: Option<MonotonicDeadline>, b: Option<MonotonicDeadline>) -> (result: Option<MonotonicDeadline>)
    ensures
        result == least(a, b),
{
    match (a, b) {
        (Some(x), Some(y)) => Some(
            if y.ns < x.ns {
                y
            } else {
                x
            },
        ),
        (Some(x), None) => Some(x),
        (None, other) => other,
    }
}

impl CpuLocal {
    pub open spec fn wf(&self) -> bool {
        &&& self.remote.wf()
        &&& self.deadlines.wf()
        &&& self.remote.idle_thread == self.idle
    }

    pub open spec fn queue(&self) -> RunQueue {
        self.remote.run_queue.queue
    }

    pub open spec fn with_remote(self, remote: CpuRemote) -> CpuLocal {
        CpuLocal { remote, ..self }
    }

    /// The CPU is offline and was never online.
    pub open spec fn blank(&self, owner: CpuId, config: TaskSystemConfig) -> bool {
        &&& self.remote.blank(owner, config)
        &&& self.deadlines.blank(config)
        &&& self.current is None
        &&& self.idle is None
        &&& self.switch_handoff is None
        &&& self.batch_limit == config.batch_limit
        &&& self.fair_balance_interval_ns == 1
    }

    pub fn create(owner: CpuId, config: TaskSystemConfig) -> (cpu: Self)
        requires
            config.valid(),
        ensures
            cpu.blank(owner, config),
            cpu.wf(),
    {
        CpuLocal {
            remote: CpuRemote::create(owner, config),
            current: None,
            idle: None,
            switch_handoff: None,
            deadlines: CpuDeadlineState::new(config),
            batch_limit: config.batch_limit,
            fair_balance_interval_ns: 1,
        }
    }

    pub fn owner(&self) -> (owner: CpuId)
        ensures
            owner == self.remote.owner,
    {
        self.remote.owner()
    }

    pub fn is_online(&self) -> (online: bool)
        ensures
            online == (self.remote.lifecycle == CpuLifecycleState::Online),
    {
        self.remote.is_online()
    }

    /// The thread that runs, unless it is the idle thread.
    pub fn current(&self) -> (current: Option<ThreadId>)
        ensures
            current == if self.current is Some && self.current == self.idle {
                None
            } else {
                self.current
            },
    {
        match (self.current, self.idle) {
            (Some(current), Some(idle)) => if current == idle {
                None
            } else {
                Some(current)
            },
            _ => self.current,
        }
    }

    pub fn current_thread_handle(&self) -> (result: Result<ThreadId, TaskError>)
        ensures
            result == match self.current {
                Some(thread) => Ok(thread),
                None => Err(TaskError::NoRunnableThread),
            },
    {
        match self.current {
            Some(thread) => Ok(thread),
            None => Err(TaskError::NoRunnableThread),
        }
    }

    pub fn idle(&self) -> (idle: Option<ThreadId>)
        ensures
            idle == self.idle,
    {
        self.idle
    }

    pub fn runnable_count(&self) -> (count: usize)
        ensures
            count == self.queue().queued_count(),
    {
        self.remote.run_queue.queue.runnable_len()
    }

    /// Whether the CPU may go offline.
    pub open spec fn quiescent(&self) -> bool {
        &&& self.current is None || self.current == self.idle
        &&& self.queue().queued_count() == 0
        &&& self.queue().deadline.members@.len() == 0
        &&& self.deadlines.queue.entries@.len() == 0
        &&& self.deadlines.expired@.len() == 0
        &&& self.switch_handoff is None
        &&& self.remote.inbox.messages@.len() == 0
        &&& self.remote.load.incoming_migration_demand == 0
        &&& match self.remote.ktimer.phase {
            KtimerWorkerPhase::Uninstalled => true,
            KtimerWorkerPhase::Starting => false,
            KtimerWorkerPhase::Installed => !self.remote.ktimer.event_pending,
        }
    }

    pub fn is_quiescent_for_offline(&self) -> (quiescent: bool)
        ensures
            quiescent == self.quiescent(),
    {
        let unoccupied = match (self.current, self.idle) {
            (Some(current), Some(idle)) => current == idle,
            (Some(_), None) => false,
            (None, _) => true,
        };
        unoccupied && self.runnable_count() == 0
            && self.remote.run_queue.queue.deadline_members_are_empty()
            && self.deadlines.queue.is_empty() && self.deadlines.expired.len() == 0
            && self.switch_handoff.is_none() && self.remote.is_quiescent_for_offline()
    }

    pub fn request_reschedule(&mut self)
        ensures
            *final(self) == old(self).with_remote(old(self).remote.asked_to_reschedule()),
            old(self).wf() ==> final(self).wf(),
    {
        self.remote.request_reschedule();
    }

    pub fn request_scheduler_work(&mut self)
        ensures
            *final(self) == old(self).with_remote(old(self).remote.asked_to_work()),
            old(self).wf() ==> final(self).wf(),
    {
        self.remote.request_scheduler_work();
    }

    pub fn needs_reschedule(&self) -> (needed: bool)
        ensures
            needed == self.remote.doorbell.pending(),
    {
        self.remote.needs_reschedule()
    }

    pub fn thread_capacity(&self) -> (capacity: usize)
        ensures
            capacity == self.deadlines.queue.capacity_per_class,
    {
        self.deadlines.queue.capacity()
    }

    pub fn batch_limit(&self) -> (limit: usize)
        ensures
            limit == self.batch_limit,
    {
        self.batch_limit
    }

    /// The CPU without a running thread.
    pub open spec fn vacated(self) -> CpuLocal {
        CpuLocal {
            current: None,
            remote: CpuRemote {
                current_thread: None,
                run_queue: CpuRunQueueState {
                    queue: RunQueue { current: None, ..self.remote.run_queue.queue },
                    ..self.remote.run_queue
                },
                ..self.remote
            },
            ..self
        }
    }

    /// Forgets the running thread.
    pub fn clear_current(&mut self)
        ensures
            *final(self) == old(self).vacated(),
            old(self).wf() ==> final(self).wf(),
    {
        let _ = self.remote.run_queue.queue.take_current();
        self.current = None;
        self.remote.publish_current_thread(None);
    }

    /// The CPU with a running thread of its own.
    pub open spec fn occupied(self, thread: ThreadId) -> CpuLocal {
        CpuLocal {
            current: Some(thread),
            remote: CpuRemote {
                current_thread: Some(thread),
                doorbell: SchedulerDoorbell { ready: true, ..self.remote.doorbell },
                ..self.remote
            },
            ..self
        }
    }

    /// Names the running thread.
    pub fn set_current_thread(&mut self, thread: ThreadId)
        ensures
            *final(self) == old(self).occupied(thread),
            old(self).wf() ==> final(self).wf(),
    {
        self.current = Some(thread);
        self.remote.publish_current_thread(Some(thread));
        self.remote.mark_scheduler_ready();
    }

    /// The CPU with a dispatch installed.
    pub open spec fn dispatching(self, dispatch: CurrentDispatch) -> CpuLocal {
        CpuLocal {
            remote: CpuRemote {
                run_queue: CpuRunQueueState {
                    queue: RunQueue { current: Some(dispatch), ..self.remote.run_queue.queue },
                    ..self.remote.run_queue
                },
                ..self.remote
            },
            ..self
        }
    }

    pub fn install_dispatch(&mut self, dispatch: CurrentDispatch)
        requires
            old(self).wf(),
            old(self).dispatching(dispatch).queue().dispatch_ok(),
        ensures
            *final(self) == old(self).dispatching(dispatch),
            final(self).wf(),
    {
        let _ = self.remote.run_queue.queue.take_current();
        self.remote.run_queue.queue.install_current(dispatch);
    }

    pub fn take_dispatch(&mut self) -> (dispatch: Option<CurrentDispatch>)
        ensures
            dispatch == old(self).queue().current,
            *final(self) == (CpuLocal {
                remote: CpuRemote {
                    run_queue: CpuRunQueueState {
                        queue: RunQueue { current: None, ..old(self).queue() },
                        ..old(self).remote.run_queue
                    },
                    ..old(self).remote
                },
                ..*old(self)
            }),
            old(self).wf() ==> final(self).wf(),
    {
        self.remote.run_queue.queue.take_current()
    }

    /// Names the thread that runs when nothing else does.
    pub fn set_idle(&mut self, idle: ThreadId)
        ensures
            *final(self) == (CpuLocal {
                idle: Some(idle),
                remote: CpuRemote {
                    idle_thread: Some(idle),
                    doorbell: SchedulerDoorbell { ready: true, ..old(self).remote.doorbell },
                    ..old(self).remote
                },
                ..*old(self)
            }),
            old(self).wf() ==> final(self).wf(),
    {
        self.idle = Some(idle);
        self.remote.publish_idle_thread(idle);
        self.remote.mark_scheduler_ready();
    }

    /// Records the thread that a switch leaves behind.
    pub fn stage_switch_handoff(&mut self, previous: ThreadId, migration: Option<PreparedMigrationDelivery>) -> (result: Result<(), TaskError>)
        ensures
            result == if old(self).switch_handoff is None {
                Ok::<(), TaskError>(())
            } else {
                Err(TaskError::InvalidConfiguration)
            },
            *final(self) == if result is Ok {
                CpuLocal {
                    switch_handoff: Some(
                        SwitchHandoff {
                            phase: SwitchHandoffPhase::Prepared,
                            previous,
                            migration,
                        },
                    ),
                    ..*old(self)
                }
            } else {
                *old(self)
            },
            old(self).wf() ==> final(self).wf(),
    {
        if self.switch_handoff.is_some() {
            return Err(TaskError::InvalidConfiguration);
        }
        self.switch_handoff = Some(SwitchHandoff::prepared(previous, migration));
        Ok(())
    }

    /// Notes that the platform has finished its part of a switch.
    pub fn finish_switch_runtime_tail(&mut self, previous: ThreadId, migration_target: Option<CpuId>) -> (result: Result<(), TaskError>)
        ensures
            result == if old(self).switch_handoff matches Some(handoff) && handoff.previous
                == previous && handoff.target_cpu() == migration_target && handoff.phase
                == SwitchHandoffPhase::Prepared {
                Ok::<(), TaskError>(())
            } else {
                Err(TaskError::InvalidConfiguration)
            },
            *final(self) == if result is Ok {
                CpuLocal {
                    switch_handoff: Some(
                        SwitchHandoff {
                            phase: SwitchHandoffPhase::RuntimeTailFinished,
                            ..old(self).switch_handoff->0
                        },
                    ),
                    ..*old(self)
                }
            } else {
                *old(self)
            },
            old(self).wf() ==> final(self).wf(),
    {
        let handoff = match self.switch_handoff {
            Some(handoff) => handoff,
            None => {
                return Err(TaskError::InvalidConfiguration);
            },
        };
        let target = handoff.migration_target();
        let same_target = match (target, migration_target) {
            (Some(a), Some(b)) => a == b,
            (None, None) => true,
            _ => false,
        };
        if handoff.previous != previous || !same_target {
            return Err(TaskError::InvalidConfiguration);
        }
        match handoff.finish_runtime_tail() {
            Ok(finished) => {
                self.switch_handoff = Some(finished);
                Ok(())
            },
            Err(_) => Err(TaskError::InvalidConfiguration),
        }
    }

    pub fn take_switch_handoff(&mut self) -> (handoff: Option<SwitchHandoff>)
        ensures
            handoff == old(self).switch_handoff,
            *final(self) == (CpuLocal { switch_handoff: None, ..*old(self) }),
            old(self).wf() ==> final(self).wf(),
    {
        let handoff = self.switch_handoff;
        self.switch_handoff = None;
        handoff
    }

    pub fn claim_scheduler_request(&mut self) -> (claim: SchedulerRequestClaim)
        ensures
            claim == (SchedulerRequestClaim {
                generation: old(self).remote.doorbell.generation,
                preempt: old(self).remote.doorbell.preempt,
            }),
            *final(self) == old(self).with_remote(
                old(self).remote.with_doorbell(
                    SchedulerDoorbell {
                        preempt: false,
                        owner_work: false,
                        ..old(self).remote.doorbell
                    },
                ),
            ),
            old(self).wf() ==> final(self).wf(),
    {
        self.remote.claim_scheduler_request()
    }

    pub fn acknowledge_scheduler_request(&mut self, claim: SchedulerRequestClaim)
        ensures
            *final(self) == old(self).with_remote(old(self).remote.acknowledged(claim)),
            old(self).wf() ==> final(self).wf(),
    {
        self.remote.acknowledge_scheduler_request(claim);
    }

    pub fn deadline_bandwidth(&self) -> (snapshot: DeadlineBandwidthSnapshot)
        ensures
            snapshot == (DeadlineBandwidthSnapshot {
                this_bw_scaled: self.queue().deadline.bandwidth.this_bw_scaled,
                running_bw_scaled: self.queue().deadline.bandwidth.running_bw_scaled,
                max_bw_scaled: self.queue().deadline.bandwidth.max_bw_scaled,
            }),
    {
        self.remote.run_queue.queue.deadline_bandwidth()
    }

    pub fn deadline_extra_bw_scaled(&self) -> (extra: u64)
        ensures
            extra == self.remote.deadline_extra_bw_scaled,
    {
        self.remote.deadline_extra_bw_scaled()
    }

    pub fn try_load_summary(&self) -> (summary: Option<CpuLoadSummary>)
        ensures
            summary == self.remote.load.summary(),
    {
        self.remote.try_load_summary()
    }

    pub fn try_runnable_summary(&self) -> (count: Option<usize>)
        ensures
            count == self.remote.runnable(),
    {
        self.remote.try_runnable_summary()
    }

    /// The instant at which the scheduler has to look at this CPU again: the
    /// first queued deadline, the end of the running slice where somebody
    /// competes for it, and the end of the real-time quota.
    pub open spec fn next_scheduler_instant(&self, now_ns: u64) -> Option<u64> {
        let queue = self.queue();
        let queued = if queue.deadline.entries@.len() > 0 {
            Some(
                crate::scheduler::task::due(queue.deadline.entries@[queue.deadline.choice()->0]),
            )
        } else {
            None
        };
        match (queue.current, queue.running_entity()) {
            (Some(current), Some(entity)) => if current.is_idle() {
                queued
            } else {
                let wanted = match entity.as_fair() {
                    Some(fair) => if fair.mode == FairMode::Idle {
                        queue.idle_fair.entries@.len() > 0
                    } else {
                        queue.fair.entries@.len() > 0
                    },
                    None => true,
                };
                let sliced = match current.next_event(entity, now_ns) {
                    Some(event) => if wanted {
                        earlier(queued, event)
                    } else {
                        queued
                    },
                    None => queued,
                };
                let rt = self.remote.run_queue.rt;
                if current.policy().rt() is Some && !current.rt_quota_exempt && rt.enabled
                    && !rt.throttled {
                    earlier(
                        sliced,
                        circular_offset(now_ns, rt.runtime_ns - rt.time_ns + 1),
                    )
                } else {
                    sliced
                }
            },
            _ => queued,
        }
    }

    /// Whether periodic balancing of the fair class makes sense.
    pub open spec fn balances_periodically(&self) -> bool {
        let busy = self.current is Some && self.current != self.idle;
        self.queue().fair.entries@.len() > 0 && self.queue().queued_count() + if busy {
            1int
        } else {
            0int
        } > 1
    }

    pub fn has_periodic_fair_balance_work(&self) -> (any: bool)
        ensures
            any == self.balances_periodically(),
    {
        let busy = match (self.current, self.idle) {
            (Some(current), Some(idle)) => current != idle,
            (Some(_), None) => true,
            (None, _) => false,
        };
        let len: usize = self.runnable_count();
        self.remote.run_queue.queue.has_fair() && (len > 1 || (len == 1 && busy))
    }

    /// Notes that periodic balancing is due, if there is anything to balance.
    pub fn publish_fair_balance_due(&mut self, now: MonotonicInstant) -> (due: bool)
        ensures
            due == (old(self).balances_periodically() && old(self).remote.load.fair_balance_armed
                && now.ns >= old(self).remote.load.fair_balance_deadline.ns),
            *final(self) == old(self).with_remote(
                CpuRemote {
                    load: RemoteLoadState {
                        fair_balance_pending: old(self).remote.load.fair_balance_pending || due,
                        ..old(self).remote.load
                    },
                    ..old(self).remote
                },
            ),
            old(self).wf() ==> final(self).wf(),
    {
        self.has_periodic_fair_balance_work() && self.remote.load.publish_fair_balance_due(now)
    }

    /// Starts periodic balancing anew.
    pub fn reset_fair_balance(&mut self, now: MonotonicInstant, minimum_interval_ns: u64)
        ensures
            ({
                let interval = if minimum_interval_ns == 0 {
                    1
                } else {
                    minimum_interval_ns
                };
                *final(self) == old(self).balancing_after(now, interval)
            }),
            old(self).wf() ==> final(self).wf(),
    {
        let interval_ns: u64 = if minimum_interval_ns == 0 {
            1
        } else {
            minimum_interval_ns
        };
        self.fair_balance_interval_ns = interval_ns;
        self.remote.load.defer_fair_balance(now, interval_ns);
    }

    pub open spec fn balancing_after(self, now: MonotonicInstant, interval_ns: u64) -> CpuLocal {
        CpuLocal {
            fair_balance_interval_ns: interval_ns,
            remote: CpuRemote {
                load: RemoteLoadState {
                    fair_balance_armed: true,
                    fair_balance_pending: false,
                    fair_balance_deadline: now.due_after(interval_ns),
                    ..self.remote.load
                },
                ..self.remote
            },
            ..self
        }
    }

    /// The doubled interval, within bounds.
    pub open spec fn backed_off(&self, minimum_interval_ns: u64, maximum_interval_ns: u64) -> u64 {
        let low = if minimum_interval_ns == 0 {
            1u64
        } else {
            minimum_interval_ns
        };
        let high = if maximum_interval_ns < low {
            low
        } else {
            maximum_interval_ns
        };
        let current = if self.fair_balance_interval_ns < low {
            low
        } else if self.fair_balance_interval_ns > high {
            high
        } else {
            self.fair_balance_interval_ns
        };
        if current * 2 < high {
            (current * 2) as u64
        } else {
            high
        }
    }

    /// Puts periodic balancing off for twice as long as before.
    pub fn backoff_fair_balance(&mut self, now: MonotonicInstant, minimum_interval_ns: u64, maximum_interval_ns: u64)
        ensures
            *final(self) == old(self).balancing_after(
                now,
                old(self).backed_off(minimum_interval_ns, maximum_interval_ns),
            ),
            old(self).wf() ==> final(self).wf(),
    {
        let low: u64 = if minimum_interval_ns == 0 {
            1
        } else {
            minimum_interval_ns
        };
        let high: u64 = if maximum_interval_ns < low {
            low
        } else {
            maximum_interval_ns
        };
        let current: u64 = if self.fair_balance_interval_ns < low {
            low
        } else if self.fair_balance_interval_ns > high {
            high
        } else {
            self.fair_balance_interval_ns
        };
        let doubled: u64 = current.saturating_add(current);
        let next: u64 = if doubled < high {
            doubled
        } else {
            high
        };
        self.fair_balance_interval_ns = next;
        self.remote.load.defer_fair_balance(now, next);
    }

    fn scheduler_deadline_ns(&self, now_ns: u64) -> (deadline: Option<u64>)
        requires
            self.wf(),
        ensures
            deadline == self.next_scheduler_instant(now_ns),
    {
        let queue = &self.remote.run_queue.queue;
        let queued = queue.earliest_deadline_ns();
        let (current, entity) = match (queue.current, queue.current_scheduling_entity()) {
            (Some(current), Some(entity)) => (current, entity),
            _ => {
                return queued;
            },
        };
        if current.is_dedicated_idle() {
            return queued;
        }
        proof {
            if let Some(id) = queue.linked() {
                queue.member_record(id);
            }
        }
        let wanted = match entity.fair() {
            Some(fair) => if fair.mode() == FairMode::Idle {
                queue.has_idle_fair()
            } else {
                queue.has_fair()
            },
            None => true,
        };
        let sliced = match current.next_scheduler_event_ns(entity, now_ns) {
            Some(event) => if wanted {
                earliest(queued, event)
            } else {
                queued
            },
            None => queued,
        };
        if current.is_rt() && !current.rt_quota_exempt {
            if let Some(remaining) = self.remote.run_queue.rt.runtime_until_throttle() {
                return earliest(sliced, scheduler_time_advance(now_ns, remaining));
            }
        }
        sliced
    }

    /// Whether the scheduler has work at this instant; asks for a reschedule
    /// where the running thread's time is up.
    pub fn scheduler_work_due(&mut self, clock: RunQueueClockSnapshot, monotonic_now: MonotonicInstant) -> (due: bool)
        requires
            old(self).wf(),
        ensures
            ({
                let instant = old(self).next_scheduler_instant(clock.now.ns);
                let up = instant is Some && !circular_before(clock.now.ns, instant->0);
                let balance = old(self).balances_periodically()
                    && old(self).remote.load.fair_balance_armed && monotonic_now.ns
                    >= old(self).remote.load.fair_balance_deadline.ns;
                &&& due == (up || balance)
                &&& *final(self) == if up {
                    old(self).with_remote(old(self).remote.asked_to_reschedule())
                } else {
                    old(self).with_remote(
                        CpuRemote {
                            load: RemoteLoadState {
                                fair_balance_pending: old(self).remote.load.fair_balance_pending
                                    || balance,
                                ..old(self).remote.load
                            },
                            ..old(self).remote
                        },
                    )
                }
            }),
            final(self).wf(),
    {
        let now_ns: u64 = clock.as_nanos();
        let up = match self.scheduler_deadline_ns(now_ns) {
            Some(deadline) => !wrapping_before(now_ns, deadline),
            None => false,
        };
        if up {
            self.remote.request_reschedule();
            return true;
        }
        self.publish_fair_balance_due(monotonic_now)
    }

    /// The clock event that this CPU needs next.
    pub open spec fn next_event_of(
        &self,
        scheduler_now_ns: u64,
        monotonic_now: MonotonicInstant,
        rt_period: Option<MonotonicDeadline>,
    ) -> Option<MonotonicDeadline> {
        let entries = self.deadlines.queue.entries@;
        let first = entries[next_to_fire(entries)].deadline;
        let timer = if entries.len() == 0 || (self.remote.doorbell.soft_timer && monotonic_now.ns
            >= first.ns) {
            None
        } else {
            Some(first)
        };
        let scheduler = match self.next_scheduler_instant(scheduler_now_ns) {
            Some(instant) => match clock_event(scheduler_now_ns, monotonic_now, instant) {
                SchedulerClockEvent::Future(deadline) => Some(deadline),
                SchedulerClockEvent::Due => None,
            },
            None => None,
        };
        let load = self.remote.load;
        let balance = if self.balances_periodically() && load.fair_balance_armed
            && monotonic_now.ns < load.fair_balance_deadline.ns {
            Some(load.fair_balance_deadline)
        } else {
            None
        };
        least(least(least(timer, scheduler), balance), rt_period)
    }

    /// Computes the clock event that this CPU needs next; what is due already
    /// is turned into a request.
    pub fn next_oneshot_deadline(
        &mut self,
        clock: RunQueueClockSnapshot,
        monotonic_now: MonotonicInstant,
        rt_period: Option<MonotonicDeadline>,
    ) -> (deadline: Option<MonotonicDeadline>)
        requires
            old(self).wf(),
        ensures
            deadline == old(self).next_event_of(clock.now.ns, monotonic_now, rt_period),
            *final(self) == old(self).looked_ahead(clock.now.ns, monotonic_now),
            final(self).wf(),
    {
        let now_ns: u64 = clock.as_nanos();
        let backlog = self.remote.soft_timer_work_pending()
            && self.deadlines.queue.has_immediately_actionable_entry(monotonic_now);
        let timer = if backlog {
            None
        } else {
            self.deadlines.queue.next_deadline()
        };
        let instant = self.scheduler_deadline_ns(now_ns);
        let balances = self.has_periodic_fair_balance_work();
        let scheduler = match instant {
            Some(instant) => match scheduler_clock_event(now_ns, monotonic_now, instant) {
                SchedulerClockEvent::Due => {
                    self.remote.request_scheduler_work();
                    None
                },
                SchedulerClockEvent::Future(deadline) => Some(deadline),
            },
            None => None,
        };
        let balance = if balances {
            if self.remote.load.publish_fair_balance_due(monotonic_now) {
                None
            } else {
                self.remote.load.fair_balance_deadline()
            }
        } else {
            None
        };
        minimum(minimum(minimum(timer, scheduler), balance), rt_period)
    }

    /// The CPU after a look at what comes next.
    pub open spec fn looked_ahead(self, scheduler_now_ns: u64, monotonic_now: MonotonicInstant) -> CpuLocal {
        let instant = self.next_scheduler_instant(scheduler_now_ns);
        let asked = if instant is Some && !circular_before(scheduler_now_ns, instant->0) {
            self.remote.asked_to_work()
        } else {
            self.remote
        };
        let due = self.balances_periodically() && self.remote.load.fair_balance_armed
            && monotonic_now.ns >= self.remote.load.fair_balance_deadline.ns;
        self.with_remote(
            CpuRemote {
                load: RemoteLoadState {
                    fair_balance_pending: self.remote.load.fair_balance_pending || due,
                    ..self.remote.load
                },
                ..asked
            },
        )
    }

    /// The request for the clock device, if it differs from the last one.
    pub fn next_scheduler_deadline_update_if_changed(
        &mut self,
        clock: RunQueueClockSnapshot,
        monotonic_now: MonotonicInstant,
        rt_period: Option<MonotonicDeadline>,
    ) -> (result: Result<Option<SchedulerDeadlineUpdate>, TaskError>)
        requires
            old(self).wf(),
        ensures
            ({
                let deadline = old(self).next_event_of(clock.now.ns, monotonic_now, rt_period);
                let wanted = SchedulerDeadlinePublicationState { deadline };
                let looked = old(self).looked_ahead(clock.now.ns, monotonic_now);
                if old(self).deadlines.publication == Some(wanted) {
                    result == Ok::<_, TaskError>(None::<SchedulerDeadlineUpdate>) && *final(self)
                        == looked
                } else if old(self).deadlines.generation == u64::MAX {
                    result == Err::<Option<SchedulerDeadlineUpdate>, TaskError>(
                        TaskError::InvalidConfiguration,
                    ) && *final(self) == looked
                } else {
                    let generation = (old(self).deadlines.generation + 1) as u64;
                    &&& result == Ok::<_, TaskError>(
                        Some(SchedulerDeadlineUpdate { generation, deadline }),
                    )
                    &&& *final(self) == (CpuLocal {
                        deadlines: CpuDeadlineState {
                            generation,
                            publication: Some(wanted),
                            ..looked.deadlines
                        },
                        ..looked
                    })
                }
            }),
            final(self).wf(),
    {
        let deadline = self.next_oneshot_deadline(clock, monotonic_now, rt_period);
        let publication = SchedulerDeadlinePublicationState { deadline };
        let unchanged = match self.deadlines.publication {
            Some(last) => last == publication,
            None => false,
        };
        if unchanged {
            return Ok(None);
        }
        match self.deadlines.commit_publication(publication) {
            Ok(update) => Ok(Some(update)),
            Err(error) => Err(error),
        }
    }

    /// The request for the clock device, the last one again if nothing changed.
    pub fn next_scheduler_deadline_update(
        &mut self,
        clock: RunQueueClockSnapshot,
        monotonic_now: MonotonicInstant,
        rt_period: Option<MonotonicDeadline>,
    ) -> (result: Result<SchedulerDeadlineUpdate, TaskError>)
        requires
            old(self).wf(),
        ensures
            ({
                let deadline = old(self).next_event_of(clock.now.ns, monotonic_now, rt_period);
                let wanted = SchedulerDeadlinePublicationState { deadline };
                let looked = old(self).looked_ahead(clock.now.ns, monotonic_now);
                let same = old(self).deadlines.publication == Some(wanted);
                let generation = old(self).deadlines.generation;
                if same && generation == 0 {
                    result == Err::<SchedulerDeadlineUpdate, TaskError>(
                        TaskError::InvalidConfiguration,
                    ) && *final(self) == looked
                } else if same {
                    result == Ok::<_, TaskError>(SchedulerDeadlineUpdate { generation, deadline })
                        && *final(self) == looked
                } else if generation == u64::MAX {
                    result == Err::<SchedulerDeadlineUpdate, TaskError>(
                        TaskError::InvalidConfiguration,
                    ) && *final(self) == looked
                } else {
                    let following = (generation + 1) as u64;
                    &&& result == Ok::<_, TaskError>(
                        SchedulerDeadlineUpdate { generation: following, deadline },
                    )
                    &&& *final(self) == (CpuLocal {
                        deadlines: CpuDeadlineState {
                            generation: following,
                            publication: Some(wanted),
                            ..looked.deadlines
                        },
                        ..looked
                    })
                }
            }),
            final(self).wf(),
    {
        match self.next_scheduler_deadline_update_if_changed(clock, monotonic_now, rt_period) {
            Ok(Some(update)) => Ok(update),
            Ok(None) => {
                let deadline = match self.deadlines.publication {
                    Some(publication) => publication.deadline,
                    None => None,
                };
                if self.deadlines.generation == 0 {
                    return Err(TaskError::InvalidConfiguration);
                }
                Ok(SchedulerDeadlineUpdate { generation: self.deadlines.generation, deadline })
            },
            Err(error) => Err(error),
        }
    }

    /// How many deadlines one pass may promote.
    pub open spec fn promotion_budget(&self, budget: usize) -> nat {
        let room = (self.deadlines.expired_room - self.deadlines.expired@.len()) as nat;
        let wanted = if budget < self.batch_limit {
            budget as nat
        } else {
            self.batch_limit as nat
        };
        if wanted < room {
            wanted
        } else {
            room
        }
    }

    /// Moves passed deadlines to the buffer of expired ones.
    pub fn promote_due_task_deadlines(&mut self, now: MonotonicInstant, budget: usize) -> (batch: TaskDeadlineExpireBatch)
        requires
            old(self).wf(),
        ensures
            final(self).promoted(old(self), now, budget, batch),
            final(self).remote == old(self).remote,
            final(self).wf(),
    {
        let wanted: usize = if budget < self.batch_limit {
            budget
        } else {
            self.batch_limit
        };
        let available: usize = self.deadlines.expired_room - self.deadlines.expired.len();
        let limit: usize = if wanted < available {
            wanted
        } else {
            available
        };
        let room: usize = self.deadlines.expired_room;
        self.deadlines.queue.expire(
            TaskDeadlineExpireRequest::new(now, limit),
            &mut self.deadlines.expired,
            room,
        )
    }

    /// `self` is `before` with passed deadlines moved to the buffer.
    pub open spec fn promoted(&self, before: &Self, now: MonotonicInstant, budget: usize, batch: TaskDeadlineExpireBatch) -> bool {
        let entries = before.deadlines.queue.entries@;
        let gone = fired(entries, now, before.promotion_budget(budget));
        let left = self.deadlines.queue.entries@;
        &&& left == unfired(entries, now, before.promotion_budget(budget))
        &&& self.deadlines.expired@ == before.deadlines.expired@ + Seq::new(
            gone.len(),
            |i: int| ExpiredTaskDeadline { entry: gone[i] },
        )
        &&& batch.processed == gone.len()
        &&& batch.expired == gone.len()
        &&& batch.pending == (left.len() > 0 && now.ns >= left[next_to_fire(left)].deadline.ns)
        &&& batch.next_deadline == if left.len() > 0 {
            Some(left[next_to_fire(left)].deadline)
        } else {
            None
        }
        &&& self.current == before.current
        &&& self.idle == before.idle
        &&& self.switch_handoff == before.switch_handoff
        &&& self.batch_limit == before.batch_limit
        &&& self.fair_balance_interval_ns == before.fair_balance_interval_ns
        &&& self.deadlines.queue.capacity_per_class == before.deadlines.queue.capacity_per_class
        &&& self.deadlines.expired_room == before.deadlines.expired_room
        &&& self.deadlines.generation == before.deadlines.generation
        &&& self.deadlines.publication == before.deadlines.publication
    }

    /// Serves a clock interrupt: promotes passed deadlines and asks for the
    /// timer worker where there are any.
    pub fn on_task_clock_event(&mut self, now: MonotonicInstant, budget: usize) -> (batch: TaskDeadlineExpireBatch)
        requires
            old(self).wf(),
        ensures
            final(self).promoted(old(self), now, budget, batch),
            final(self).remote == if batch.pending || batch.expired != 0 {
                old(self).remote.with_doorbell(
                    old(self).remote.doorbell.requested(SchedulerRequestReason::SoftTimer),
                )
            } else {
                old(self).remote
            },
            final(self).wf(),
    {
        let batch = self.promote_due_task_deadlines(now, budget);
        if batch.pending() || batch.expired() != 0 {
            self.remote.publish_soft_timer_work();
        }
        batch
    }

    /// Takes expired deadlines out of the buffer, oldest first.
    pub fn take_expired_task_deadlines(&mut self, limit: usize) -> (taken: Vec<ExpiredTaskDeadline>)
        ensures
            ({
                let buffered = old(self).deadlines.expired@;
                let count = if buffered.len() < limit {
                    buffered.len() as int
                } else {
                    limit as int
                };
                &&& taken@ == buffered.take(count)
                &&& final(self).deadlines.expired@ == buffered.skip(count)
            }),
            *final(self) == (CpuLocal {
                deadlines: CpuDeadlineState {
                    expired: final(self).deadlines.expired,
                    ..old(self).deadlines
                },
                ..*old(self)
            }),
            old(self).wf() ==> final(self).wf(),
    {
        self.deadlines.take_expired(limit)
    }

    pub fn has_expired_task_deadlines(&self) -> (any: bool)
        ensures
            any == (self.deadlines.expired@.len() > 0),
    {
        self.deadlines.expired.len() > 0
    }

    pub fn has_due_task_deadline(&self, now: MonotonicInstant) -> (due: bool)
        ensures
            due == (self.deadlines.queue.entries@.len() > 0 && now.ns
                >= self.deadlines.queue.entries@[next_to_fire(
                self.deadlines.queue.entries@,
            )].deadline.ns),
    {
        self.deadlines.queue.has_immediately_actionable_entry(now)
    }

    pub fn owner_control_inbox(&self) -> (inbox: &SchedulerInbox)
        ensures
            *inbox == self.remote.inbox,
    {
        self.remote.owner_control_inbox()
    }

    pub fn has_remote_work(&self) -> (pending: bool)
        ensures
            pending == (self.remote.inbox.messages@.len() > 0),
    {
        self.remote.has_remote_work()
    }

    pub fn prepare_idle_wait(&mut self) -> (may_wait: bool)
        ensures
            may_wait == old(self).remote.may_sleep(),
            *final(self) == old(self).with_remote(
                old(self).remote.with_doorbell(
                    SchedulerDoorbell { idle_polling: may_wait, ..old(self).remote.doorbell },
                ),
            ),
            old(self).wf() ==> final(self).wf(),
    {
        self.remote.prepare_idle_wait()
    }

    pub fn finish_idle_wait(&mut self)
        ensures
            *final(self) == old(self).with_remote(
                old(self).remote.with_doorbell(
                    SchedulerDoorbell { idle_polling: false, ..old(self).remote.doorbell },
                ),
            ),
            old(self).wf() ==> final(self).wf(),
    {
        self.remote.finish_idle_wait();
    }

    pub fn is_idle_polling(&self) -> (polling: bool)
        ensures
            polling == self.remote.doorbell.idle_polling,
    {
        self.remote.is_idle_polling()
    }
}

/// A doorbell after further requests, in their order.
pub open spec fn all_requested(doorbell: SchedulerDoorbell, reasons: Seq<SchedulerRequestReason>) -> SchedulerDoorbell
    decreases reasons.len(),
{
    if reasons.len() == 0 {
        doorbell
    } else {
        all_requested(doorbell, reasons.drop_last()).requested(reasons.last())
    }
}

proof fn preempt_requests_stay(doorbell: SchedulerDoorbell, reasons: Seq<SchedulerRequestReason>)
    requires
        doorbell.preempt,
    ensures
        all_requested(doorbell, reasons).preempt,
    decreases reasons.len(),
{
    reveal(SchedulerDoorbell::requested);
    if reasons.len() > 0 {
        preempt_requests_stay(doorbell, reasons.drop_last());
    }
}

/// A request to reschedule is sticky: on a CPU that is not offline it is wanted
/// from then on, whatever else is asked, until the scheduler takes it. What the
/// CPU runs, its run queue and whether it polls stay as they are.
pub proof fn reschedule_requests_are_sticky(local: CpuLocal, reasons: Seq<SchedulerRequestReason>)
    requires
        local.remote.hears(),
    ensures
        ({
            let asked = local.with_remote(local.remote.asked_to_reschedule());
            &&& asked.remote.doorbell.pending()
            &&& all_requested(asked.remote.doorbell, reasons).preempt
            &&& all_requested(asked.remote.doorbell, reasons).pending()
            &&& asked.current == local.current
            &&& asked.queue() == local.queue()
            &&& asked.remote.doorbell.idle_polling == local.remote.doorbell.idle_polling
        }),
{
    reveal(SchedulerDoorbell::requested);
    preempt_requests_stay(local.remote.asked_to_reschedule().doorbell, reasons);
}

} // verus!
