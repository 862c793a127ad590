//! The run queue of one CPU together with its clock and real-time quota.
use vstd::prelude::*;
use crate::config::TaskSystemConfig;
use crate::cpu::clock::{RunQueueClock, RunQueueClockSnapshot};
use crate::cpu::dispatch::{CurrentDispatch, CurrentSchedule, DispatchCharge, DispatchRole};
use crate::cpu::load::RunQueueLoadPublication;
use crate::error::TaskError;
use crate::ids::{CpuId, ThreadId};
use crate::scheduler::bandwidth::RtRunQueueBandwidth;
use crate::scheduler::entity::SchedulingEntity;
use crate::scheduler::fair::{fair_of, weight_sum};
use crate::scheduler::policy::{DEADLINE_UTILIZATION_SCALE, SchedulePolicy, SchedulerClass};
use crate::scheduler::realtime::RealtimeRunQueue;
use crate::scheduler::run_queue::{QueueMembershipClass, RunQueue, saturated_add};
use crate::scheduler::task::{QueuedThread, due, first_where, index_of};
use crate::time::SchedulerTimestamp;

verus! {

/// What a wake-up does to the running thread.
#[derive(Clone, Copy, Debug, PartialEq, Eq, Structural)]
pub enum WakePreemptionDecision {
    KeepCurrent,
    WakeeSelected,
    QueuedCandidateSelected,
}

impl WakePreemptionDecision {
    /// Only a wakee that would run next justifies a reschedule.
    pub fn requests_reschedule(self) -> (requests: bool)
        ensures
            requests == (self == WakePreemptionDecision::WakeeSelected),
    {
        match self {
            WakePreemptionDecision::WakeeSelected => true,
            WakePreemptionDecision::KeepCurrent
            | WakePreemptionDecision::QueuedCandidateSelected => false,
        }
    }
}

/// Run queue, clock and real-time quota of one CPU.
#[derive(Debug)]
pub struct CpuRunQueueState {
    pub owner: CpuId,
    pub clock: RunQueueClock,
    pub queue: RunQueue,
    pub rt: RtRunQueueBandwidth,
    pub busy_runtime_ns: u64,
}

impl RunQueue {
    /// The running thread can be charged.
    pub open spec fn dispatch_ok(&self) -> bool {
        self.current matches Some(current) ==> {
            &&& current.policy() matches SchedulePolicy::Deadline(policy) ==> policy.valid()
            &&& current.owned_entity() matches Some(entity) ==> entity.wf()
        }
    }

    /// Threads that wait to run.
    pub open spec fn queued_count(&self) -> usize {
        if self.current is Some && !self.current->0.is_idle() && self.nr_running > 0 {
            (self.nr_running - 1) as usize
        } else {
            self.nr_running
        }
    }

    /// The most urgent class with a thread that could be pushed away.
    #[verifier::opaque]
    pub open spec fn pushable(&self) -> Option<SchedulerClass> {
        if exists|i: int|
            0 <= i < self.deadline.entries@.len() && (#[trigger] self.deadline.entries@[i]).pushable {
            Some(SchedulerClass::Deadline)
        } else if exists|p: u8| 1 <= p <= 99 && #[trigger] self.rt_pushable(p) {
            Some(SchedulerClass::Realtime)
        } else if exists|i: int|
            0 <= i < self.fair.entries@.len()
                && (#[trigger] self.fair.entries@[i]).migration_capable {
            Some(SchedulerClass::Fair)
        } else {
            None
        }
    }

    /// The load that other CPUs are shown. The idle thread is no load.
    #[verifier::opaque]
    pub open spec fn load_of(&self, idle: Option<ThreadId>) -> RunQueueLoadPublication {
        let schedule = self.running_schedule();
        let busy = schedule is Some && (idle is None || (schedule->0).thread != idle->0);
        let workload = if busy && self.queued_count() < usize::MAX {
            (self.queued_count() + 1) as usize
        } else {
            self.queued_count()
        };
        let task = busy && (schedule->0).role == DispatchRole::Task;
        let fair = (weight_sum(self.fair.entries@) + weight_sum(self.idle_fair.entries@)) as u64;
        RunQueueLoadPublication {
            current_key: match schedule {
                Some(current) => Some(current.key()),
                None => None,
            },
            pushable_class: self.pushable(),
            runnable_count: self.queued_count(),
            workload_count: workload,
            fair_demand: saturated_add(
                fair,
                if task {
                    (schedule->0).policy.fair_load()
                } else {
                    0
                },
            ),
            workload_demand: saturated_add(
                saturated_add(fair, self.fixed_placement_demand),
                if task {
                    (schedule->0).policy.load()
                } else {
                    0
                },
            ),
            overloaded: self.pushable() is Some && workload > 1,
        }
    }

    pub fn runnable_len(&self) -> (count: usize)
        ensures
            count == self.queued_count(),
    {
        let busy = match self.current {
            Some(current) => !current.is_dedicated_idle(),
            None => false,
        };
        if busy && self.nr_running > 0 {
            self.nr_running - 1
        } else {
            self.nr_running
        }
    }

    pub fn pushable_class(&self) -> (class: Option<SchedulerClass>)
        ensures
            class == self.pushable(),
    {
        proof {
            reveal(RunQueue::pushable);
        }
        if self.has_pushable_deadline() {
            Some(SchedulerClass::Deadline)
        } else if self.has_pushable_realtime() {
            Some(SchedulerClass::Realtime)
        } else if self.has_pushable_fair() {
            Some(SchedulerClass::Fair)
        } else {
            None
        }
    }

    pub fn load_publication(&self, idle: Option<ThreadId>) -> (publication: RunQueueLoadPublication)
        requires
            self.wf(),
        ensures
            publication == self.load_of(idle),
            publication.wf(),
    {
        proof {
            reveal(RunQueue::load_of);
        }
        let schedule = self.current_schedule();
        let busy = match (schedule, idle) {
            (Some(current), Some(idle)) => current.thread != idle,
            (Some(_), None) => true,
            (None, _) => false,
        };
        let current_key = match schedule {
            Some(current) => Some(current.scheduling_key()),
            None => None,
        };
        let pushable_class = self.pushable_class();
        let runnable_count: usize = self.runnable_len();
        let workload_count: usize = if busy {
            runnable_count.saturating_add(1)
        } else {
            runnable_count
        };
        let current_fair: u64 = match schedule {
            Some(current) => if busy {
                current.fair_demand()
            } else {
                0
            },
            None => 0,
        };
        let current_placement: u64 = match schedule {
            Some(current) => if busy {
                current.placement_demand()
            } else {
                0
            },
            None => 0,
        };
        let fair_demand: u64 = self.fair_demand().saturating_add(current_fair);
        let workload_demand: u64 = self.placement_demand().saturating_add(current_placement);
        RunQueueLoadPublication {
            current_key,
            pushable_class,
            runnable_count,
            workload_count,
            fair_demand,
            workload_demand,
            overloaded: pushable_class.is_some() && workload_count > 1,
        }
    }

    /// Whether a priority is the greatest of the running and the queued ones.
    pub open spec fn is_top_rt(&self, priority: Option<u8>) -> bool {
        let running = match self.running_schedule() {
            Some(current) => current.policy.rt(),
            None => None,
        };
        match priority {
            Some(p) => {
                &&& (running is Some && (running->0).value == p) || (1 <= p <= 99 && self.rt.level(
                    p,
                ).len() > 0)
                &&& running is Some ==> (running->0).value <= p
                &&& forall|i: int| p <= i < 99 ==> (#[trigger] self.rt.levels@[i])@.len() == 0
            },
            None => running is None && !self.has_rt_thread(),
        }
    }

    /// The greater of the running and the queued real-time priorities.
    pub open spec fn top_rt(&self) -> Option<u8> {
        choose|priority: Option<u8>| self.is_top_rt(priority)
    }

    proof fn top_rt_is_unique(&self, a: Option<u8>, b: Option<u8>)
        requires
            self.rt.wf(),
            self.is_top_rt(a),
            self.is_top_rt(b),
        ensures
            a == b,
    {
        reveal(RealtimeRunQueue::occupied);
        if let (Some(p), Some(q)) = (a, b) {
            if p < q && 1 <= q <= 99 {
                assert(self.rt.levels@[q - 1]@.len() == 0);
            }
            if q < p && 1 <= p <= 99 {
                assert(self.rt.levels@[p - 1]@.len() == 0);
            }
        }
        if let Some(p) = a {
            if 1 <= p <= 99 && self.rt.level(p).len() > 0 {
                assert(self.rt.levels@[p - 1]@.len() > 0);
            }
        }
        if let Some(p) = b {
            if 1 <= p <= 99 && self.rt.level(p).len() > 0 {
                assert(self.rt.levels@[p - 1]@.len() > 0);
            }
        }
    }

    pub fn highest_rt_priority_including_current(&self) -> (priority: Option<u8>)
        requires
            self.wf(),
        ensures
            self.is_top_rt(priority),
            priority == self.top_rt(),
    {
        let priority = self.compute_top_rt();
        proof {
            self.top_rt_is_unique(priority, self.top_rt());
        }
        priority
    }

    fn compute_top_rt(&self) -> (priority: Option<u8>)
        requires
            self.wf(),
        ensures
            self.is_top_rt(priority),
    {
        proof {
            reveal(RealtimeRunQueue::occupied);
        }
        let running: Option<u8> = match self.current_schedule() {
            Some(current) => match current.policy.rt_priority() {
                Some(priority) => Some(priority.get()),
                None => None,
            },
            None => None,
        };
        match (running, self.highest_rt_priority()) {
            (Some(running), Some(queued)) => if running > queued {
                Some(running)
            } else {
                Some(queued)
            },
            (Some(priority), None) => Some(priority),
            (None, Some(priority)) => Some(priority),
            (None, None) => None,
        }
    }

    pub open spec fn earliest_due(&self) -> Option<u64> {
        let running = match self.running_schedule() {
            Some(current) => if current.role == DispatchRole::DedicatedIdle {
                None
            } else {
                CurrentSchedule::deadline_of(current.entity)
            },
            None => None,
        };
        let queued = if self.deadline.entries@.len() > 0 {
            Some(due(self.deadline.entries@[self.deadline.choice()->0]))
        } else {
            None
        };
        match (running, queued) {
            (Some(a), Some(b)) => Some(
                if a < b {
                    a
                } else {
                    b
                },
            ),
            (Some(a), None) => Some(a),
            (None, other) => other,
        }
    }

    /// The smaller of the running and the first queued deadline.
    pub fn earliest_deadline_including_current(&self) -> (deadline: Option<u64>)
        requires
            self.wf(),
        ensures
            deadline == self.earliest_due(),
    {
        let running = match self.current_schedule() {
            Some(current) => current.absolute_deadline_ns(),
            None => None,
        };
        match (running, self.earliest_deadline_ns()) {
            (Some(a), Some(b)) => Some(
                if a < b {
                    a
                } else {
                    b
                },
            ),
            (Some(a), None) => Some(a),
            (None, other) => other,
        }
    }

    /// What a wake-up does to the running thread.
    #[verifier::opaque]
    pub open spec fn preemption(
        &self,
        wakee: ThreadId,
        policy: SchedulePolicy,
        entity: SchedulingEntity,
        virtual_time: u64,
    ) -> WakePreemptionDecision {
        match self.running_schedule() {
            None => WakePreemptionDecision::WakeeSelected,
            Some(current) => if !current.preempted_by(policy, entity, virtual_time) {
                WakePreemptionDecision::KeepCurrent
            } else if policy is Fair {
                let list = if policy->mode == crate::scheduler::policy::FairMode::Idle {
                    self.idle_fair.entries@
                } else {
                    self.fair.entries@
                };
                let choice = first_where(
                    list,
                    |t: QueuedThread| fair_of(t).eligible(virtual_time),
                );
                if choice is Some && list[choice->0].id == wakee {
                    WakePreemptionDecision::WakeeSelected
                } else {
                    WakePreemptionDecision::QueuedCandidateSelected
                }
            } else {
                WakePreemptionDecision::WakeeSelected
            },
        }
    }

    pub fn wakee_preemption(
        &self,
        wakee: ThreadId,
        policy: SchedulePolicy,
        entity: SchedulingEntity,
        fair_virtual_time: u64,
    ) -> (decision: WakePreemptionDecision)
        requires
            self.wf(),
        ensures
            decision == self.preemption(wakee, policy, entity, fair_virtual_time),
    {
        proof {
            reveal(RunQueue::preemption);
        }
        let current = match self.current_schedule() {
            Some(current) => current,
            None => {
                return WakePreemptionDecision::WakeeSelected;
            },
        };
        if !current.should_preempt(policy, entity, fair_virtual_time) {
            return WakePreemptionDecision::KeepCurrent;
        }
        match policy {
            SchedulePolicy::Fair { mode, .. } => {
                if self.fair_wakee_is_selected(wakee, mode, fair_virtual_time) {
                    WakePreemptionDecision::WakeeSelected
                } else {
                    WakePreemptionDecision::QueuedCandidateSelected
                }
            },
            _ => WakePreemptionDecision::WakeeSelected,
        }
    }
}

impl CpuRunQueueState {
    pub open spec fn wf(&self) -> bool {
        &&& self.queue.wf()
        &&& self.queue.dispatch_ok()
        &&& self.queue.deadline.bandwidth.wf()
        &&& self.rt.within_budget()
        &&& self.rt.enabled ==> self.rt.runtime_ns < u64::MAX
    }

    /// The clock was never read, nothing is queued, and nothing ran.
    pub open spec fn blank(&self, owner: CpuId, config: TaskSystemConfig) -> bool {
        &&& self.owner == owner
        &&& self.clock.now is None
        &&& self.queue.blank(
            (config.deadline_cap_percent * DEADLINE_UTILIZATION_SCALE / 100) as u64,
            config.thread_capacity,
        )
        &&& self.busy_runtime_ns == 0
        &&& self.rt == (RtRunQueueBandwidth {
            enabled: config.rt_runtime_ns < config.rt_period_ns,
            runtime_ns: config.rt_runtime_ns,
            time_ns: 0,
            throttled: false,
        })
    }

    pub fn new(owner: CpuId, config: TaskSystemConfig) -> (state: Self)
        requires
            config.valid(),
        ensures
            state.blank(owner, config),
            state.wf(),
    {
        let max_bw_scaled: u64 = config.deadline_cap_percent as u64 * DEADLINE_UTILIZATION_SCALE
            / 100;
        CpuRunQueueState {
            owner,
            clock: RunQueueClock::new(),
            queue: RunQueue::configured(max_bw_scaled, config.thread_capacity),
            rt: RtRunQueueBandwidth::new(config.rt_period_ns, config.rt_runtime_ns),
            busy_runtime_ns: 0,
        }
    }

    pub fn update_clock(&mut self, source: SchedulerTimestamp) -> (snapshot: RunQueueClockSnapshot)
        ensures
            snapshot.now == old(self).clock.reading(source),
            *final(self) == (CpuRunQueueState {
                clock: RunQueueClock { now: Some(snapshot.now) },
                ..*old(self)
            }),
    {
        self.clock.update(source)
    }

    /// Execution of the running thread that has not been charged.
    pub open spec fn owed(&self, now_ns: u64) -> u64 {
        match self.queue.current {
            Some(current) => if now_ns > current.accounted_until_ns {
                (now_ns - current.accounted_until_ns) as u64
            } else {
                0
            },
            None => 0,
        }
    }

    /// The real-time quota after a span of real-time execution.
    pub open spec fn quota_after(rt: RtRunQueueBandwidth, policy: SchedulePolicy, runtime_ns: u64) -> RtRunQueueBandwidth {
        if policy.rt() is Some && rt.enabled {
            let time_ns = saturated_add(rt.time_ns, runtime_ns);
            RtRunQueueBandwidth {
                time_ns,
                throttled: rt.throttled || time_ns > rt.runtime_ns,
                ..rt
            }
        } else {
            rt
        }
    }

    /// `self` is `before` with the running thread charged up to `now_ns`.
    #[verifier::opaque]
    pub open spec fn settled(
        &self,
        before: &Self,
        now_ns: u64,
        extra_bw_scaled: u64,
        reclaimed_ns: u64,
        charge: DispatchCharge,
        reschedule: bool,
    ) -> bool {
        let current = before.queue.current->0;
        let runtime_ns = before.owed(now_ns);
        let bandwidth = before.queue.deadline.bandwidth;
        let total = RunQueue::total_reclaimed(
            current,
            runtime_ns,
            (bandwidth.this_bw_scaled - bandwidth.running_bw_scaled) as u64,
            extra_bw_scaled,
            bandwidth.max_bw_scaled,
            reclaimed_ns,
        );
        let entity = before.queue.running_entity()->0;
        &&& self.owner == before.owner
        &&& self.clock == before.clock
        &&& if current.is_idle() {
            &&& charge == (DispatchCharge { slice_expired: false, deadline_overrun: false })
            &&& !reschedule
            &&& self.queue == (RunQueue {
                current: Some(CurrentDispatch { accounted_until_ns: now_ns, ..current }),
                ..before.queue
            })
            &&& self.rt == before.rt
            &&& self.busy_runtime_ns == before.busy_runtime_ns
        } else {
            &&& charge == current.charge_outcome(entity, runtime_ns, total)
            &&& self.queue.current is Some
            &&& self.queue.current->0 == (CurrentDispatch {
                schedule: self.queue.current->0.schedule,
                ..current.charged_account(entity, runtime_ns, now_ns, total)
            })
            &&& self.queue.current->0.policy() == current.policy()
            &&& self.queue.current->0.schedule is Linked == current.schedule is Linked
            &&& self.queue.running_entity() == Some(
                current.charged_entity(entity, runtime_ns, total),
            )
            &&& self.queue.membership@ == before.queue.membership@
            &&& self.queue.same_ledger(&before.queue)
            &&& self.queue.nr_running == before.queue.nr_running
            &&& self.queue.fixed_placement_demand == before.queue.fixed_placement_demand
            &&& self.queue.next_sequence == before.queue.next_sequence
            &&& self.queue.balance_scan_epoch == before.queue.balance_scan_epoch
            &&& self.queue.same_rt_pushable(&before.queue)
            &&& self.busy_runtime_ns == saturated_add(before.busy_runtime_ns, runtime_ns)
            &&& self.rt == Self::quota_after(before.rt, current.policy(), runtime_ns)
            &&& reschedule == (charge.slice_expired || charge.deadline_overrun || (
            self.rt.throttled && !before.rt.throttled && !current.rt_quota_exempt))
            &&& exists|charged: RunQueue|
                #[trigger] self.queue.times_updated(
                    &charged,
                    current.charged_entity(entity, runtime_ns, total).as_fair(),
                ) && self.queue.same_lists(&charged) && charged.same_times(&before.queue)
                    && match before.queue.linked() {
                    Some(id) => {
                        let class = before.queue.member(id)->0;
                        let list = before.queue.list_of(class);
                        let at = index_of(list, id);
                        &&& charged.list_of(class) == list.update(
                            at,
                            QueuedThread {
                                active: list[at].active.with_effective(
                                    current.charged_entity(entity, runtime_ns, total),
                                ),
                                ..list[at]
                            },
                        )
                        &&& charged.only_list_changed(&before.queue, class)
                    },
                    None => charged.same_lists(&before.queue),
                }
        }
    }

    /// Charges the running thread for its execution up to `now_ns`. Says also
    /// whether the scheduler is wanted: the slice is over, a Deadline budget was
    /// overrun, or the real-time quota ran out under a thread that it binds.
    pub fn settle_current(&mut self, now_ns: u64, extra_bw_scaled: u64, reclaimed_ns: u64) -> (result: Result<(DispatchCharge, bool), TaskError>)
        requires
            old(self).wf(),
        ensures
            result is Err <==> old(self).queue.current is None || (!(
            old(self).queue.current->0).is_idle() && old(self).queue.running_entity() is None),
            result matches Err(error) ==> {
                &&& error == if old(self).queue.current is None {
                    TaskError::NoRunnableThread
                } else {
                    TaskError::InvalidConfiguration
                }
                &&& *final(self) == *old(self)
            },
            result matches Ok((charge, reschedule)) ==> final(self).settled(
                old(self),
                now_ns,
                extra_bw_scaled,
                reclaimed_ns,
                charge,
                reschedule,
            ),
            final(self).wf(),
    {
        proof {
            reveal(CpuRunQueueState::settled);
        }
        let mut current = match self.queue.current {
            Some(current) => current,
            None => {
                return Err(TaskError::NoRunnableThread);
            },
        };
        let runtime_ns: u64 = current.unaccounted_runtime(now_ns);
        if current.is_dedicated_idle() {
            let ghost before = self.queue;
            current.account_dedicated_idle_until(now_ns);
            self.queue.current = Some(current);
            proof {
                RunQueue::wf_when_lists_stay(&before, &self.queue);
            }
            return Ok((DispatchCharge { slice_expired: false, deadline_overrun: false }, false));
        }
        let bandwidth = self.queue.deadline_bandwidth();
        let inactive_bw_scaled: u64 = bandwidth.this_bw_scaled - bandwidth.running_bw_scaled;
        let (charge, policy, entity, exempt) = match self.queue.charge_current(
            runtime_ns,
            now_ns,
            inactive_bw_scaled,
            extra_bw_scaled,
            bandwidth.max_bw_scaled,
            reclaimed_ns,
        ) {
            Ok(charged) => charged,
            Err(error) => {
                return Err(error);
            },
        };
        let ghost charged = self.queue;
        self.busy_runtime_ns = self.busy_runtime_ns.saturating_add(runtime_ns);
        self.queue.update_fair_virtual_time(entity.fair());
        proof {
            assert(self.queue.times_updated(&charged, entity.as_fair()));
            assert forall|p: u8| 1 <= p <= 99 implies #[trigger] self.queue.rt_pushable(p)
                == old(self).queue.rt_pushable(p) by {
                assert(self.queue.rt_pushable(p) == charged.rt_pushable(p));
            }
            assert(self.queue.list_of(QueueMembershipClass::Deadline) == charged.list_of(
                QueueMembershipClass::Deadline,
            ));
            if let Some(id) = charged.linked() {
                let class = charged.member(id)->0;
                assert(self.queue.list_of(class) == charged.list_of(class)) by {
                    charged.member_record(id);
                }
            }
        }
        let mut exhausted = false;
        if policy.rt_priority().is_some() {
            let room: u64 = u64::MAX - self.rt.time_ns;
            exhausted = self.rt.charge(
                if runtime_ns < room {
                    runtime_ns
                } else {
                    room
                },
            );
        }
        let reschedule = charge.slice_expired || charge.deadline_overrun || (exhausted && !exempt);
        Ok((charge, reschedule))
    }

    pub fn clock_snapshot(&self) -> (snapshot: Option<RunQueueClockSnapshot>)
        ensures
            snapshot == match self.clock.now {
                Some(now) => Some(RunQueueClockSnapshot { now }),
                None => None,
            },
    {
        self.clock.snapshot()
    }
}

} // verus!
