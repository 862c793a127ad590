//! The thread that a CPU runs now: preemption, runtime accounting and the next
//! instant at which its entity needs attention.
use vstd::prelude::*;
use crate::ids::ThreadId;
use crate::scheduler::entity::{FairEntity, SchedulingEntity};
use crate::scheduler::policy::{
    DeadlineAdmission, DeadlineFlags, FairMode, SchedulePolicy, SchedulerClass,
};
use crate::scheduler::task::{ActiveSchedulingState, RqTaskMetadata};
use crate::time::{circular_before, circular_offset, scheduler_time_advance, wrapping_before};

verus! {

/// Whether a dispatch is a thread of its own or the CPU's filler.
#[derive(Clone, Copy, Debug, PartialEq, Eq, Structural)]
pub enum DispatchRole {
    Task,
    DedicatedIdle,
}

/// Order of threads for inspection: class, urgency within it, identity.
#[derive(Clone, Copy, Debug, PartialEq, Eq, Structural)]
pub struct SchedulingKey {
    pub rank: u8,
    pub value: u64,
    pub thread: u64,
}

/// What a wakeup compares itself with.
#[derive(Clone, Copy, Debug, PartialEq, Eq, Structural)]
pub struct CurrentSchedule {
    pub thread: ThreadId,
    pub policy: SchedulePolicy,
    pub entity: SchedulingEntity,
    pub role: DispatchRole,
}

impl CurrentSchedule {
    /// The deadline of a Deadline entity.
    pub open spec fn deadline_of(entity: SchedulingEntity) -> Option<u64> {
        match entity {
            SchedulingEntity::Deadline(deadline) => deadline.absolute_deadline,
            _ => None,
        }
    }

    /// Whether a woken fair entity deserves the CPU of a fair one: it must be
    /// owed service, the running one must have had its share or its request,
    /// and the woken deadline must come first.
    pub open spec fn fair_preempts(woken: FairEntity, current: FairEntity, virtual_time: u64) -> bool {
        &&& woken.eligible(virtual_time)
        &&& !current.eligible(virtual_time) || current.remaining_request_ns == 0
        &&& woken.precedes(current)
    }

    /// Whether the woken thread takes the CPU: anything preempts the idle
    /// filler, a more urgent class preempts a less urgent one, and within a
    /// class the class decides.
    pub open spec fn preempted_by(
        self,
        woken_policy: SchedulePolicy,
        woken_entity: SchedulingEntity,
        virtual_time: u64,
    ) -> bool {
        let woken = woken_policy.class();
        let current = self.policy.class();
        if self.role == DispatchRole::DedicatedIdle {
            true
        } else if woken != current {
            woken.rank() < current.rank()
        } else {
            match woken {
                SchedulerClass::Stop => false,
                SchedulerClass::Deadline => match (
                    Self::deadline_of(woken_entity),
                    Self::deadline_of(self.entity),
                ) {
                    (Some(woken), Some(current)) => woken < current,
                    _ => false,
                },
                SchedulerClass::Realtime => woken_policy.rt()->0.value > self.policy.rt()->0.value,
                SchedulerClass::Fair | SchedulerClass::IdleFair => woken_policy->mode
                    != FairMode::Batch && woken_entity is Fair && self.entity is Fair
                    && Self::fair_preempts(
                    woken_entity->Fair_0,
                    self.entity->Fair_0,
                    virtual_time,
                ),
            }
        }
    }

    /// The schedule of an ordinary thread.
    pub fn task(thread: ThreadId, policy: SchedulePolicy, entity: SchedulingEntity) -> (schedule: Self)
        ensures
            schedule == (CurrentSchedule { thread, policy, entity, role: DispatchRole::Task }),
    {
        CurrentSchedule { thread, policy, entity, role: DispatchRole::Task }
    }

    pub fn thread(&self) -> (thread: ThreadId)
        ensures
            thread == self.thread,
    {
        self.thread
    }

    pub fn schedule_policy(&self) -> (policy: SchedulePolicy)
        ensures
            policy == self.policy,
    {
        self.policy
    }

    pub fn scheduling_entity(&self) -> (entity: SchedulingEntity)
        ensures
            entity == self.entity,
    {
        self.entity
    }

    pub fn absolute_deadline_ns(&self) -> (deadline: Option<u64>)
        ensures
            deadline == if self.role == DispatchRole::DedicatedIdle {
                None
            } else {
                Self::deadline_of(self.entity)
            },
    {
        match self.role {
            DispatchRole::DedicatedIdle => None,
            DispatchRole::Task => match self.entity.deadline() {
                Some(deadline) => deadline.absolute_deadline_ns(),
                None => None,
            },
        }
    }

    pub fn fair_entity(&self) -> (fair: Option<FairEntity>)
        ensures
            fair == if self.role == DispatchRole::DedicatedIdle {
                None
            } else {
                self.entity.as_fair()
            },
    {
        match self.role {
            DispatchRole::DedicatedIdle => None,
            DispatchRole::Task => self.entity.fair(),
        }
    }

    /// Position of the running thread in the order of all threads.
    pub open spec fn key(self) -> SchedulingKey {
        SchedulingKey {
            rank: self.policy.class().rank() as u8,
            value: match self.entity {
                SchedulingEntity::Fair(fair) => fair.virtual_deadline,
                _ => self.entity.urgency(self.policy).value,
            },
            thread: self.thread.packed() as u64,
        }
    }

    pub fn scheduling_key(&self) -> (key: SchedulingKey)
        ensures
            key == self.key(),
    {
        let value: u64 = match self.entity {
            SchedulingEntity::Fair(fair) => fair.virtual_deadline(),
            _ => self.entity.scheduling_urgency(self.policy).value,
        };
        SchedulingKey { rank: self.policy.class_rank(), value, thread: self.thread.as_u64() }
    }

    pub fn placement_demand(&self) -> (demand: u64)
        ensures
            demand == if self.role == DispatchRole::DedicatedIdle {
                0
            } else {
                self.policy.load()
            },
    {
        match self.role {
            DispatchRole::DedicatedIdle => 0,
            DispatchRole::Task => self.policy.placement_demand(),
        }
    }

    pub fn fair_demand(&self) -> (demand: u64)
        ensures
            demand == if self.role == DispatchRole::DedicatedIdle {
                0
            } else {
                self.policy.fair_load()
            },
    {
        match self.role {
            DispatchRole::DedicatedIdle => 0,
            DispatchRole::Task => self.policy.fair_demand(),
        }
    }

    pub fn should_preempt(
        &self,
        woken_policy: SchedulePolicy,
        woken_entity: SchedulingEntity,
        fair_virtual_time: u64,
    ) -> (preempts: bool)
        ensures
            preempts == self.preempted_by(woken_policy, woken_entity, fair_virtual_time),
    {
        match self.role {
            DispatchRole::DedicatedIdle => {
                return true;
            },
            DispatchRole::Task => {},
        }
        match woken_policy {
            SchedulePolicy::KernelStop => match self.policy {
                SchedulePolicy::KernelStop => false,
                _ => true,
            },
            SchedulePolicy::Deadline(_) => match self.policy {
                SchedulePolicy::KernelStop => false,
                SchedulePolicy::Deadline(_) => match (woken_entity, self.entity) {
                    (
                        SchedulingEntity::Deadline(woken),
                        SchedulingEntity::Deadline(current),
                    ) => match (woken.absolute_deadline_ns(), current.absolute_deadline_ns()) {
                        (Some(woken), Some(current)) => woken < current,
                        _ => false,
                    },
                    _ => false,
                },
                _ => true,
            },
            SchedulePolicy::Fifo { priority } | SchedulePolicy::RoundRobin { priority, .. } => {
                match self.policy {
                    SchedulePolicy::KernelStop | SchedulePolicy::Deadline(_) => false,
                    SchedulePolicy::Fifo { priority: current }
                    | SchedulePolicy::RoundRobin { priority: current, .. } => priority.value
                        > current.value,
                    SchedulePolicy::Fair { .. } => true,
                }
            },
            SchedulePolicy::Fair { mode: woken_mode, .. } => match self.policy {
                SchedulePolicy::KernelStop | SchedulePolicy::Deadline(_)
                | SchedulePolicy::Fifo { .. } | SchedulePolicy::RoundRobin { .. } => false,
                SchedulePolicy::Fair { mode: current_mode, .. } => {
                    if woken_mode == FairMode::Idle && current_mode != FairMode::Idle {
                        false
                    } else if woken_mode != FairMode::Idle && current_mode == FairMode::Idle {
                        true
                    } else if woken_mode == FairMode::Batch {
                        false
                    } else {
                        match (woken_entity, self.entity) {
                            (SchedulingEntity::Fair(woken), SchedulingEntity::Fair(current)) => {
                                woken.is_eligible(fair_virtual_time) && (!current.is_eligible(
                                    fair_virtual_time,
                                ) || current.request_exhausted()) && woken.deadline_precedes(current)
                            },
                            _ => false,
                        }
                    }
                },
            },
        }
    }
}

/// Where the running thread's class state lives: linked in its class, taken out
/// of it, or that of the idle filler.
#[derive(Clone, Copy, Debug, PartialEq, Eq, Structural)]
pub enum CurrentClassState {
    Linked { policy: SchedulePolicy },
    Owned(ActiveSchedulingState),
    Idle(ActiveSchedulingState),
}

/// Outcome of charging a span of execution.
#[derive(Clone, Copy, Debug, PartialEq, Eq, Structural)]
pub struct DispatchCharge {
    pub slice_expired: bool,
    pub deadline_overrun: bool,
}

/// Facts with which a dispatch starts.
#[derive(Clone, Copy, Debug, PartialEq, Eq, Structural)]
pub struct CurrentDispatchState {
    pub thread: ThreadId,
    pub schedule: CurrentClassState,
    pub deadline_donor: Option<ThreadId>,
    pub blocks_pi_waiter: bool,
    pub rt_quota_exempt: bool,
    pub pi_critical_rescue: bool,
    pub deadline_bandwidth_scaled: u64,
    pub policy_generation: u64,
}

/// The thread that a CPU runs now.
#[derive(Clone, Copy, Debug, PartialEq, Eq, Structural)]
pub struct CurrentDispatch {
    pub thread: ThreadId,
    pub schedule: CurrentClassState,
    pub deadline_donor: Option<ThreadId>,
    pub deadline_cbs_generation: Option<u64>,
    pub blocks_pi_waiter: bool,
    pub rt_quota_exempt: bool,
    pub pi_critical_rescue: bool,
    pub deadline_bandwidth_scaled: u64,
    pub policy_generation: u64,
    pub deadline_overrun: bool,
    pub accounted_until_ns: u64,
    pub charged_runtime_ns: u64,
}

/// Rate at which a reclaiming reservation is charged: what the other
/// reservations leave unused is free, its own share never is.
pub open spec fn grub_rate(own: u64, inactive: u64, extra: u64, max: u64) -> int {
    if inactive + extra > max - own {
        own as int
    } else {
        max - inactive - extra
    }
}

/// Budget consumed by `runtime_ns` of execution of a reclaiming reservation.
pub open spec fn grub_charge(runtime_ns: u64, own: u64, inactive: u64, extra: u64, max: u64) -> int {
    runtime_ns * grub_rate(own, inactive, extra, max) / (max as int)
}

/// See `grub_charge`.
pub fn grub_charge_ns(
    runtime_ns: u64,
    own_bw_scaled: u64,
    inactive_bw_scaled: u64,
    extra_bw_scaled: u64,
    max_bw_scaled: u64,
) -> (charged: u64)
    requires
        max_bw_scaled > 0,
        own_bw_scaled <= max_bw_scaled,
    ensures
        charged == grub_charge(
            runtime_ns,
            own_bw_scaled,
            inactive_bw_scaled,
            extra_bw_scaled,
            max_bw_scaled,
        ),
        charged <= runtime_ns,
{
    let reclaimable: u128 = (inactive_bw_scaled as u128) + (extra_bw_scaled as u128);
    let rate: u64 = if reclaimable > (max_bw_scaled - own_bw_scaled) as u128 {
        own_bw_scaled
    } else {
        max_bw_scaled - (reclaimable as u64)
    };
    assert(rate == grub_rate(own_bw_scaled, inactive_bw_scaled, extra_bw_scaled, max_bw_scaled));
    assert(0 <= runtime_ns * rate <= 0xffff_ffff_ffff_ffff * 0xffff_ffff_ffff_ffff)
        by (nonlinear_arith)
        requires
            0 <= runtime_ns <= 0xffff_ffff_ffff_ffff,
            0 <= rate <= 0xffff_ffff_ffff_ffff,
    ;
    assert(0 <= runtime_ns * rate / (max_bw_scaled as int) <= runtime_ns) by (nonlinear_arith)
        requires
            0 <= rate <= max_bw_scaled,
            0 < max_bw_scaled,
            0 <= runtime_ns,
    ;
    ((runtime_ns as u128) * (rate as u128) / (max_bw_scaled as u128)) as u64
}

/// Reclaiming never charges less than the reservation's own share of the time
/// and never more than the time itself.
pub proof fn grub_charge_is_bounded(runtime_ns: u64, own: u64, inactive: u64, extra: u64, max: u64)
    requires
        0 < max,
        own <= max,
    ensures
        runtime_ns * own / (max as int) <= grub_charge(runtime_ns, own, inactive, extra, max) <= runtime_ns,
{
    let rate = grub_rate(own, inactive, extra, max);
    assert(own <= rate <= max);
    assert(runtime_ns * own <= runtime_ns * rate <= runtime_ns * max) by (nonlinear_arith)
        requires
            own <= rate <= max,
            0 <= runtime_ns,
    ;
    vstd::arithmetic::div_mod::lemma_div_is_ordered(runtime_ns * own, runtime_ns * rate, max as int);
    vstd::arithmetic::div_mod::lemma_div_is_ordered(runtime_ns * rate, runtime_ns * max, max as int);
    vstd::arithmetic::div_mod::lemma_div_by_multiple(runtime_ns as int, max as int);
}

impl CurrentDispatch {
    /// The policy in effect.
    pub open spec fn policy(self) -> SchedulePolicy {
        match self.schedule {
            CurrentClassState::Linked { policy } => policy,
            CurrentClassState::Owned(active) => active.policy,
            CurrentClassState::Idle(active) => active.policy,
        }
    }

    /// The entity that travels with the dispatch.
    pub open spec fn owned_entity(self) -> Option<SchedulingEntity> {
        match self.schedule {
            CurrentClassState::Linked { .. } => None,
            CurrentClassState::Owned(active) => Some(active.effective()),
            CurrentClassState::Idle(active) => Some(active.effective()),
        }
    }

    pub open spec fn is_idle(self) -> bool {
        self.schedule is Idle
    }

    /// Entity after a charge.
    pub open spec fn charged_entity(self, entity: SchedulingEntity, runtime_ns: u64, reclaimed_ns: u64) -> SchedulingEntity {
        let charged = entity.charged(runtime_ns, 0, reclaimed_ns);
        if self.pi_critical_rescue {
            entity
        } else if charged.expired() && self.policy() is Deadline && self.blocks_pi_waiter {
            charged.rescued()
        } else {
            charged
        }
    }

    /// Outcome of a charge. The holder of a contended lock is never stopped by
    /// its Deadline budget.
    pub open spec fn charge_outcome(self, entity: SchedulingEntity, runtime_ns: u64, reclaimed_ns: u64) -> DispatchCharge {
        let expired = entity.charged(runtime_ns, 0, reclaimed_ns).expired();
        if self.pi_critical_rescue {
            DispatchCharge { slice_expired: false, deadline_overrun: false }
        } else {
            DispatchCharge {
                slice_expired: expired && !(self.policy() is Deadline && self.blocks_pi_waiter),
                deadline_overrun: expired && self.policy() is Deadline
                    && self.policy()->Deadline_0.flags.dl_overrun,
            }
        }
    }

    /// The dispatch's own account after a charge.
    pub open spec fn charged_account(
        self,
        entity: SchedulingEntity,
        runtime_ns: u64,
        now_ns: u64,
        reclaimed_ns: u64,
    ) -> CurrentDispatch {
        let expired = entity.charged(runtime_ns, 0, reclaimed_ns).expired();
        CurrentDispatch {
            charged_runtime_ns: if self.charged_runtime_ns + runtime_ns <= u64::MAX {
                (self.charged_runtime_ns + runtime_ns) as u64
            } else {
                u64::MAX
            },
            accounted_until_ns: now_ns,
            deadline_overrun: self.deadline_overrun || self.charge_outcome(
                entity,
                runtime_ns,
                reclaimed_ns,
            ).deadline_overrun,
            pi_critical_rescue: self.pi_critical_rescue || (expired && self.policy() is Deadline
                && self.blocks_pi_waiter),
            ..self
        }
    }

    /// Whether execution of this dispatch is charged at the reclaiming rate. A
    /// reservation beyond what a run queue carries reclaims nothing.
    pub open spec fn reclaims(self, max_bw_scaled: u64) -> bool {
        self.deadline_donor is None && self.policy() is Deadline
            && self.policy()->Deadline_0.flags.reclaim && max_bw_scaled > 0
            && self.policy()->Deadline_0.utilization() <= max_bw_scaled
    }

    pub fn new(state: CurrentDispatchState, now_ns: u64) -> (dispatch: Self)
        ensures
            dispatch == (CurrentDispatch {
                thread: state.thread,
                schedule: state.schedule,
                deadline_donor: state.deadline_donor,
                deadline_cbs_generation: None,
                blocks_pi_waiter: state.blocks_pi_waiter,
                rt_quota_exempt: state.rt_quota_exempt,
                pi_critical_rescue: state.pi_critical_rescue,
                deadline_bandwidth_scaled: state.deadline_bandwidth_scaled,
                policy_generation: state.policy_generation,
                deadline_overrun: false,
                accounted_until_ns: now_ns,
                charged_runtime_ns: 0,
            }),
    {
        CurrentDispatch {
            thread: state.thread,
            schedule: state.schedule,
            deadline_donor: state.deadline_donor,
            deadline_cbs_generation: None,
            blocks_pi_waiter: state.blocks_pi_waiter,
            rt_quota_exempt: state.rt_quota_exempt,
            pi_critical_rescue: state.pi_critical_rescue,
            deadline_bandwidth_scaled: state.deadline_bandwidth_scaled,
            policy_generation: state.policy_generation,
            deadline_overrun: false,
            accounted_until_ns: now_ns,
            charged_runtime_ns: 0,
        }
    }

    /// Ties the dispatch to the server generation of its Deadline donor.
    pub fn with_deadline_donor_core(self, donor: Option<ThreadId>, cbs_generation: Option<u64>) -> (dispatch: Self)
        requires
            donor == self.deadline_donor,
            cbs_generation is Some ==> donor is Some,
        ensures
            dispatch == (CurrentDispatch { deadline_cbs_generation: cbs_generation, ..self }),
    {
        let mut dispatch = self;
        dispatch.deadline_donor = donor;
        dispatch.deadline_cbs_generation = cbs_generation;
        dispatch
    }

    pub fn deadline_cbs_generation(&self) -> (generation: Option<u64>)
        ensures
            generation == self.deadline_cbs_generation,
    {
        self.deadline_cbs_generation
    }

    pub fn thread(&self) -> (thread: ThreadId)
        ensures
            thread == self.thread,
    {
        self.thread
    }

    pub fn schedule_policy(&self) -> (policy: SchedulePolicy)
        ensures
            policy == self.policy(),
    {
        match self.schedule {
            CurrentClassState::Linked { policy } => policy,
            CurrentClassState::Owned(active) => active.policy(),
            CurrentClassState::Idle(active) => active.policy(),
        }
    }

    pub fn owned_scheduling_entity(&self) -> (entity: Option<SchedulingEntity>)
        ensures
            entity == self.owned_entity(),
    {
        match self.schedule {
            CurrentClassState::Linked { .. } => None,
            CurrentClassState::Owned(active) => Some(active.entity()),
            CurrentClassState::Idle(active) => Some(active.entity()),
        }
    }

    pub fn is_dedicated_idle(&self) -> (idle: bool)
        ensures
            idle == self.is_idle(),
    {
        match self.schedule {
            CurrentClassState::Idle(_) => true,
            _ => false,
        }
    }

    pub fn rt_quota_exempt(&self) -> (exempt: bool)
        ensures
            exempt == self.rt_quota_exempt,
    {
        self.rt_quota_exempt
    }

    /// Charges an entity that is linked in its class.
    pub fn charge_linked(
        &mut self,
        entity: &mut SchedulingEntity,
        runtime_ns: u64,
        now_ns: u64,
        reclaimed_ns: u64,
    ) -> (charge: DispatchCharge)
        requires
            old(entity).wf(),
        ensures
            *final(self) == old(self).charged_account(*old(entity), runtime_ns, now_ns, reclaimed_ns),
            *final(entity) == old(self).charged_entity(*old(entity), runtime_ns, reclaimed_ns),
            charge == old(self).charge_outcome(*old(entity), runtime_ns, reclaimed_ns),
            final(entity).wf(),
    {
        self.charged_runtime_ns = self.charged_runtime_ns.saturating_add(runtime_ns);
        self.accounted_until_ns = now_ns;
        if self.pi_critical_rescue {
            return DispatchCharge { slice_expired: false, deadline_overrun: false };
        }
        let mut slice_expired = entity.charge(runtime_ns, 0, reclaimed_ns);
        let mut deadline_overrun = false;
        if slice_expired {
            if let SchedulePolicy::Deadline(policy) = self.schedule_policy() {
                deadline_overrun = policy.flags().contains(DeadlineFlags::reporting_overrun());
                self.deadline_overrun = self.deadline_overrun || deadline_overrun;
                if self.blocks_pi_waiter {
                    self.pi_critical_rescue = true;
                    entity.enter_pi_critical_rescue();
                    slice_expired = false;
                }
            }
        }
        DispatchCharge { slice_expired, deadline_overrun }
    }

    /// Charges the entity that travels with the dispatch.
    pub fn charge(&mut self, runtime_ns: u64, now_ns: u64, reclaimed_ns: u64) -> (charge: DispatchCharge)
        requires
            old(self).owned_entity() is Some,
            old(self).owned_entity()->0.wf(),
        ensures
            charge == old(self).charge_outcome(
                old(self).owned_entity()->0,
                runtime_ns,
                reclaimed_ns,
            ),
            final(self).owned_entity() == Some(
                old(self).charged_entity(old(self).owned_entity()->0, runtime_ns, reclaimed_ns),
            ),
            final(self).policy() == old(self).policy(),
            *final(self) == (CurrentDispatch {
                schedule: final(self).schedule,
                ..old(self).charged_account(
                    old(self).owned_entity()->0,
                    runtime_ns,
                    now_ns,
                    reclaimed_ns,
                )
            }),
            final(self).is_idle() == old(self).is_idle(),
            final(self).owned_entity()->0.wf(),
    {
        match self.schedule {
            CurrentClassState::Owned(active) => {
                let mut active = active;
                let mut entity = active.entity();
                let charge = self.charge_linked(&mut entity, runtime_ns, now_ns, reclaimed_ns);
                active.set_entity(entity);
                self.schedule = CurrentClassState::Owned(active);
                charge
            },
            CurrentClassState::Idle(active) => {
                let mut active = active;
                let mut entity = active.entity();
                let charge = self.charge_linked(&mut entity, runtime_ns, now_ns, reclaimed_ns);
                active.set_entity(entity);
                self.schedule = CurrentClassState::Idle(active);
                charge
            },
            CurrentClassState::Linked { .. } => DispatchCharge {
                slice_expired: false,
                deadline_overrun: false,
            },
        }
    }

    /// Lets time pass without charging the idle filler.
    pub fn account_dedicated_idle_until(&mut self, now_ns: u64)
        ensures
            *final(self) == (CurrentDispatch { accounted_until_ns: now_ns, ..*old(self) }),
    {
        self.accounted_until_ns = now_ns;
    }

    /// Runtime charged since the last call.
    pub fn take_charged_runtime_ns(&mut self) -> (charged: u64)
        ensures
            charged == old(self).charged_runtime_ns,
            *final(self) == (CurrentDispatch { charged_runtime_ns: 0, ..*old(self) }),
    {
        let charged: u64 = self.charged_runtime_ns;
        self.charged_runtime_ns = 0;
        charged
    }

    /// Whether an overrun has been recorded since the last call.
    pub fn take_deadline_overrun(&mut self) -> (overrun: bool)
        ensures
            overrun == old(self).deadline_overrun,
            *final(self) == (CurrentDispatch { deadline_overrun: false, ..*old(self) }),
    {
        let overrun = self.deadline_overrun;
        self.deadline_overrun = false;
        overrun
    }

    /// Execution that has not been charged yet.
    pub fn unaccounted_runtime(&self, now_ns: u64) -> (runtime: u64)
        ensures
            runtime == if now_ns > self.accounted_until_ns {
                now_ns - self.accounted_until_ns
            } else {
                0
            },
    {
        now_ns.saturating_sub(self.accounted_until_ns)
    }

    /// Part of `runtime_ns` that unused bandwidth pays for.
    pub fn grub_reclaimed_ns(
        &self,
        runtime_ns: u64,
        inactive_bw_scaled: u64,
        extra_bw_scaled: u64,
        max_bw_scaled: u64,
    ) -> (reclaimed: u64)
        requires
            self.policy() matches SchedulePolicy::Deadline(policy) ==> policy.valid(),
        ensures
            reclaimed == if self.reclaims(max_bw_scaled) {
                runtime_ns - grub_charge(
                    runtime_ns,
                    self.policy()->Deadline_0.utilization() as u64,
                    inactive_bw_scaled,
                    extra_bw_scaled,
                    max_bw_scaled,
                )
            } else {
                0
            },
            reclaimed <= runtime_ns,
    {
        if self.deadline_donor.is_some() {
            return 0;
        }
        let policy = match self.schedule_policy() {
            SchedulePolicy::Deadline(policy) => policy,
            _ => {
                return 0;
            },
        };
        if !policy.flags().contains(DeadlineFlags::reclaiming()) || max_bw_scaled == 0 {
            return 0;
        }
        let own_bw_scaled: u64 = DeadlineAdmission::utilization(policy);
        if own_bw_scaled > max_bw_scaled {
            return 0;
        }
        let charged: u64 = grub_charge_ns(
            runtime_ns,
            own_bw_scaled,
            inactive_bw_scaled,
            extra_bw_scaled,
            max_bw_scaled,
        );
        runtime_ns - charged
    }

    pub fn is_rt(&self) -> (rt: bool)
        ensures
            rt == self.policy().is_rt(),
    {
        match self.schedule_policy() {
            SchedulePolicy::Fifo { .. } | SchedulePolicy::RoundRobin { .. } => true,
            _ => false,
        }
    }

    /// The comparison state of this dispatch with a given entity in effect.
    pub fn schedule_snapshot(&self, entity: SchedulingEntity) -> (schedule: CurrentSchedule)
        ensures
            schedule == (CurrentSchedule {
                thread: self.thread,
                policy: self.policy(),
                entity,
                role: if self.is_idle() {
                    DispatchRole::DedicatedIdle
                } else {
                    DispatchRole::Task
                },
            }),
    {
        CurrentSchedule {
            thread: self.thread,
            policy: self.schedule_policy(),
            entity,
            role: match self.schedule {
                CurrentClassState::Idle(_) => DispatchRole::DedicatedIdle,
                _ => DispatchRole::Task,
            },
        }
    }

    /// Replaces the facts that a change of policy or inheritance alters.
    pub fn refresh_scheduler_metadata(&mut self, metadata: RqTaskMetadata, rt_quota_exempt: bool)
        ensures
            *final(self) == (CurrentDispatch {
                deadline_donor: metadata.deadline_donor,
                deadline_bandwidth_scaled: metadata.deadline_bandwidth_scaled,
                policy_generation: metadata.policy_generation,
                rt_quota_exempt,
                ..*old(self)
            }),
    {
        self.deadline_donor = metadata.deadline_donor;
        self.deadline_bandwidth_scaled = metadata.deadline_bandwidth_scaled;
        self.policy_generation = metadata.policy_generation;
        self.rt_quota_exempt = rt_quota_exempt;
    }

    /// The instant at which an entity in effect needs the scheduler.
    pub open spec fn next_event(self, entity: SchedulingEntity, now_ns: u64) -> Option<u64> {
        match entity {
            SchedulingEntity::KernelStop => None,
            SchedulingEntity::Fifo => None,
            SchedulingEntity::Fair(fair) => Some(
                circular_offset(now_ns, fair.remaining_request_ns as int),
            ),
            SchedulingEntity::RoundRobin { remaining_quantum_ns } => Some(
                circular_offset(now_ns, remaining_quantum_ns as int),
            ),
            SchedulingEntity::Deadline(deadline) => {
                let server = if deadline.throttled {
                    Some(deadline.next_period())
                } else {
                    deadline.absolute_deadline
                };
                let budget = circular_offset(now_ns, deadline.remaining_runtime_ns as int);
                if self.pi_critical_rescue {
                    server
                } else {
                    earlier(server, budget)
                }
            },
        }
    }

    /// See `next_event`.
    pub fn next_scheduler_event_ns(&self, entity: SchedulingEntity, now_ns: u64) -> (event: Option<u64>)
        requires
            entity.wf(),
        ensures
            event == self.next_event(entity, now_ns),
    {
        match entity {
            SchedulingEntity::KernelStop => None,
            SchedulingEntity::Fifo => None,
            SchedulingEntity::Fair(fair) => Some(
                scheduler_time_advance(now_ns, fair.remaining_request_ns()),
            ),
            SchedulingEntity::RoundRobin { remaining_quantum_ns } => Some(
                scheduler_time_advance(now_ns, remaining_quantum_ns),
            ),
            SchedulingEntity::Deadline(deadline) => {
                let server = deadline.next_scheduler_event_ns();
                if self.pi_critical_rescue {
                    server
                } else {
                    earliest(
                        server,
                        scheduler_time_advance(now_ns, deadline.remaining_runtime_ns()),
                    )
                }
            },
        }
    }
}

/// The earlier of an optional instant and another one.
pub open spec fn earlier(first: Option<u64>, second: u64) -> Option<u64> {
    match first {
        Some(first) => Some(if circular_before(second, first) { second } else { first }),
        None => Some(second),
    }
}

pub fn earliest(first: Option<u64>, second: u64) -> (result: Option<u64>)
    ensures
        result == earlier(first, second),
{
    match first {
        Some(first) => Some(if wrapping_before(second, first) { second } else { first }),
        None => Some(second),
    }
}

/// The stop class preempts every other class and is preempted by none.
pub proof fn stop_class_outranks_all(current: CurrentSchedule, entity: SchedulingEntity, virtual_time: u64)
    requires
        current.role == DispatchRole::Task,
    ensures
        current.preempted_by(SchedulePolicy::KernelStop, entity, virtual_time) == (current.policy
            != SchedulePolicy::KernelStop),
        forall|policy: SchedulePolicy, woken: SchedulingEntity|
            current.policy == SchedulePolicy::KernelStop ==> !current.preempted_by(
                policy,
                woken,
                virtual_time,
            ),
{
}

} // verus!
