//! Counters, queries and runtime accounting of a run queue.
use vstd::prelude::*;
use crate::cpu::dispatch::{
    CurrentDispatch, CurrentSchedule, DispatchCharge, DispatchRole, grub_charge,
};
use crate::error::TaskError;
use crate::ids::ThreadId;
use crate::scheduler::deadline::{DeadlineBandwidthSnapshot, DeadlineRunQueueBandwidth};
use crate::scheduler::entity::SchedulingEntity;
use crate::scheduler::fair::{fair_of, weight_sum};
use crate::scheduler::policy::{FairMode, SchedulePolicy};
use crate::scheduler::realtime::{RT_PRIORITY_LEVELS, RealtimeRunQueue, any_exempt};
use crate::scheduler::run_queue::{QueueMembershipClass, RunQueue, saturated_add};
use crate::scheduler::task::{
    QueuedThread, QueuedThreadSnapshot, due, first_where, index_of, index_of_is_unique,
};

verus! {

impl RunQueue {
    pub fn current(&self) -> (current: Option<CurrentDispatch>)
        ensures
            current == self.current,
    {
        self.current
    }

    /// Installs the running thread; the predecessor has been taken out.
    pub fn install_current(&mut self, current: CurrentDispatch)
        requires
            old(self).current is None,
        ensures
            *final(self) == (RunQueue { current: Some(current), ..*old(self) }),
            old(self).wf() ==> final(self).wf(),
    {
        let ghost before = *self;
        self.current = Some(current);
        proof {
            if before.wf() {
                RunQueue::wf_when_lists_stay(&before, self);
            }
        }
    }

    pub fn take_current(&mut self) -> (current: Option<CurrentDispatch>)
        ensures
            current == old(self).current,
            *final(self) == (RunQueue { current: None, ..*old(self) }),
            old(self).wf() ==> final(self).wf(),
    {
        let ghost before = *self;
        let current = self.current;
        self.current = None;
        proof {
            if before.wf() {
                RunQueue::wf_when_lists_stay(&before, self);
            }
        }
        current
    }

    /// Runnable threads, the running one counted.
    pub fn nr_running(&self) -> (count: usize)
        ensures
            count == self.nr_running,
    {
        self.nr_running
    }

    /// Runnable threads that wait for the CPU.
    pub fn nr_queued(&self) -> (count: usize)
        requires
            self.current matches Some(current) && !current.is_idle() ==> self.nr_running > 0,
        ensures
            count == self.nr_running - if self.current is Some && !self.current->0.is_idle() {
                1int
            } else {
                0int
            },
    {
        let runnable = match self.current {
            Some(current) => !current.is_dedicated_idle(),
            None => false,
        };
        if runnable {
            self.nr_running - 1
        } else {
            self.nr_running
        }
    }

    /// Counts a running thread that no list has held.
    pub fn count_unlinked_current(&mut self)
        ensures
            *final(self) == (RunQueue {
                nr_running: if old(self).nr_running < usize::MAX {
                    (old(self).nr_running + 1) as usize
                } else {
                    usize::MAX
                },
                ..*old(self)
            }),
            old(self).wf() ==> final(self).wf(),
    {
        let ghost before = *self;
        self.nr_running = self.nr_running.saturating_add(1);
        proof {
            if before.wf() {
                RunQueue::wf_when_lists_stay(&before, self);
            }
        }
    }

    /// Stops counting a running thread that no list holds.
    pub fn deactivate_unlinked_current(&mut self, id: ThreadId)
        requires
            old(self).member(id) is None,
            old(self).nr_running > 0,
        ensures
            *final(self) == (RunQueue {
                nr_running: (old(self).nr_running - 1) as usize,
                ..*old(self)
            }),
            old(self).wf() ==> final(self).wf(),
    {
        let ghost before = *self;
        self.nr_running = self.nr_running - 1;
        proof {
            if before.wf() {
                RunQueue::wf_when_lists_stay(&before, self);
            }
        }
    }

    /// Load of the fair classes.
    pub fn fair_demand(&self) -> (demand: u64)
        requires
            self.wf(),
        ensures
            demand == weight_sum(self.fair.entries@) + weight_sum(self.idle_fair.entries@),
    {
        let fair: u64 = self.fair.total_weight();
        let idle: u64 = self.idle_fair.total_weight();
        assert(fair <= 0xffff_ffff * 88761 && idle <= 0xffff_ffff * 88761);
        fair.saturating_add(idle)
    }

    /// Load by which placement compares this CPU with others.
    pub fn placement_demand(&self) -> (demand: u64)
        requires
            self.wf(),
        ensures
            demand == saturated_add(
                (weight_sum(self.fair.entries@) + weight_sum(self.idle_fair.entries@)) as u64,
                self.fixed_placement_demand,
            ),
    {
        self.fair_demand().saturating_add(self.fixed_placement_demand)
    }

    /// Virtual time of the normal fair class.
    pub fn virtual_time(&self) -> (virtual_time: u64)
        ensures
            virtual_time == self.fair.virtual_time,
    {
        self.fair.virtual_time()
    }

    /// Starts the normal fair class at another virtual time.
    pub fn set_virtual_time(&mut self, virtual_time: u64)
        requires
            old(self).wf(),
        ensures
            final(self).fair.virtual_time == virtual_time,
            final(self).idle_fair.virtual_time == old(self).idle_fair.virtual_time,
            final(self).same_lists(old(self)),
            final(self).membership@ == old(self).membership@,
            final(self).same_ledger(old(self)),
            final(self).same_counters(old(self)),
            final(self).rt == old(self).rt,
            final(self).wf(),
    {
        let ghost before = *self;
        self.fair.set_virtual_time(virtual_time);
        proof {
            RunQueue::wf_when_lists_stay(&before, self);
        }
    }

    pub fn has_rt(&self) -> (any: bool)
        requires
            self.wf(),
        ensures
            any == self.has_rt_thread(),
    {
        self.rt.has_any_rt()
    }

    pub fn has_exempt_rt(&self) -> (any: bool)
        requires
            self.wf(),
        ensures
            any == exists|i: int|
                0 <= i < RT_PRIORITY_LEVELS && any_exempt(#[trigger] self.rt.levels@[i]@),
    {
        self.rt.has_exempt_rt()
    }

    pub fn highest_rt_priority(&self) -> (priority: Option<u8>)
        requires
            self.wf(),
        ensures
            match priority {
                Some(p) => 1 <= p <= 99 && self.rt.level(p).len() > 0 && forall|i: int|
                    p <= i < RT_PRIORITY_LEVELS ==> (#[trigger] self.rt.levels@[i])@.len() == 0,
                None => !self.has_rt_thread(),
            },
    {
        proof {
            reveal(RealtimeRunQueue::occupied);
        }
        self.rt.highest_rt_priority()
    }

    pub fn rt_count_at_priority(&self, priority: u8) -> (count: usize)
        requires
            self.wf(),
        ensures
            count == if 1 <= priority <= 99 {
                self.rt.level(priority).len()
            } else {
                0
            },
    {
        self.rt.count_at_priority(priority)
    }

    pub fn has_fair(&self) -> (any: bool)
        ensures
            any == (self.fair.entries@.len() > 0),
    {
        !self.fair.is_empty()
    }

    pub fn has_idle_fair(&self) -> (any: bool)
        ensures
            any == (self.idle_fair.entries@.len() > 0),
    {
        !self.idle_fair.is_empty()
    }

    /// Whether a woken fair thread is what its class would run next.
    pub fn fair_wakee_is_selected(&self, wakee: ThreadId, mode: FairMode, virtual_time: u64) -> (selected: bool)
        requires
            self.wf(),
        ensures
            ({
                let list = if mode == FairMode::Idle {
                    self.idle_fair.entries@
                } else {
                    self.fair.entries@
                };
                let choice = first_where(
                    list,
                    |t: QueuedThread| fair_of(t).eligible(virtual_time),
                );
                selected == (choice is Some && list[choice->0].id == wakee)
            }),
    {
        let found = match mode {
            FairMode::Idle => self.idle_fair.earliest_eligible(virtual_time),
            FairMode::Normal | FairMode::Batch => self.fair.earliest_eligible(virtual_time),
        };
        match found {
            Some(id) => id == wakee,
            None => false,
        }
    }

    pub fn earliest_deadline_ns(&self) -> (deadline: Option<u64>)
        requires
            self.wf(),
        ensures
            deadline == if self.deadline.entries@.len() > 0 {
                Some(due(self.deadline.entries@[self.deadline.choice()->0]))
            } else {
                None
            },
    {
        self.deadline.earliest_deadline_ns()
    }

    pub fn deadline_members_are_empty(&self) -> (empty: bool)
        ensures
            empty == (self.deadline.members@.len() == 0),
    {
        self.deadline.members_are_empty()
    }

    pub fn is_deadline_member(&self, thread: ThreadId) -> (member: bool)
        ensures
            member == self.deadline.members@.contains(thread),
    {
        self.deadline.is_member(thread)
    }

    /// Registers a thread whose reservation this run queue carries.
    pub fn register_deadline_member(&mut self, thread: ThreadId) -> (registered: bool)
        requires
            old(self).wf(),
            old(self).deadline.members@.contains(thread) || old(self).deadline.members@.len()
                < old(self).deadline.member_capacity,
        ensures
            registered == !old(self).deadline.members@.contains(thread),
            final(self).deadline.members@ == if registered {
                old(self).deadline.members@.push(thread)
            } else {
                old(self).deadline.members@
            },
            final(self).deadline.member_capacity == old(self).deadline.member_capacity,
            final(self).deadline.bandwidth == old(self).deadline.bandwidth,
            final(self).outside_ledger(old(self)),
            final(self).wf(),
    {
        let ghost before = *self;
        let registered = self.deadline.register_member(thread);
        proof {
            RunQueue::wf_when_lists_stay(&before, self);
        }
        registered
    }

    /// Everything but the Deadline ledger is unchanged.
    pub open spec fn outside_ledger(&self, before: &Self) -> bool {
        &&& self.same_lists(before)
        &&& self.membership@ == before.membership@
        &&& self.same_times(before)
        &&& self.same_counters(before)
        &&& self.rt == before.rt
    }

    /// Forgets a thread whose reservation has left this run queue.
    pub fn unregister_deadline_member(&mut self, thread: ThreadId)
        requires
            old(self).wf(),
        ensures
            forall|other: ThreadId|
                final(self).deadline.members@.contains(other) <==> old(self).deadline.members@.contains(other) && other != thread,
            final(self).deadline.members@.len() <= old(self).deadline.members@.len(),
            final(self).deadline.member_capacity == old(self).deadline.member_capacity,
            final(self).deadline.bandwidth == old(self).deadline.bandwidth,
            final(self).outside_ledger(old(self)),
            final(self).wf(),
    {
        let ghost before = *self;
        self.deadline.unregister_member(thread);
        proof {
            RunQueue::wf_when_lists_stay(&before, self);
        }
    }

    pub fn add_deadline_bandwidth(&mut self, utilization_scaled: u64, active: bool)
        requires
            old(self).wf(),
            old(self).deadline.bandwidth.can_add(utilization_scaled),
        ensures
            final(self).deadline.bandwidth == old(self).deadline.bandwidth.added(
                utilization_scaled,
                active,
            ),
            final(self).deadline.members == old(self).deadline.members,
            final(self).deadline.member_capacity == old(self).deadline.member_capacity,
            final(self).outside_ledger(old(self)),
            final(self).wf(),
    {
        let ghost before = *self;
        self.deadline.bandwidth.add_reservation(utilization_scaled, active);
        proof {
            RunQueue::wf_when_lists_stay(&before, self);
        }
    }

    pub fn remove_deadline_bandwidth(&mut self, utilization_scaled: u64, active: bool)
        requires
            old(self).wf(),
            old(self).deadline.bandwidth.can_remove(utilization_scaled, active),
        ensures
            final(self).deadline.bandwidth == old(self).deadline.bandwidth.removed(
                utilization_scaled,
                active,
            ),
            final(self).deadline.members == old(self).deadline.members,
            final(self).deadline.member_capacity == old(self).deadline.member_capacity,
            final(self).outside_ledger(old(self)),
            final(self).wf(),
    {
        let ghost before = *self;
        self.deadline.bandwidth.remove_reservation(utilization_scaled, active);
        proof {
            RunQueue::wf_when_lists_stay(&before, self);
        }
    }

    pub fn activate_deadline_bandwidth(&mut self, utilization_scaled: u64)
        requires
            old(self).wf(),
            old(self).deadline.bandwidth.running_bw_scaled + utilization_scaled <= old(self).deadline.bandwidth.this_bw_scaled,
        ensures
            final(self).deadline.bandwidth == (DeadlineRunQueueBandwidth {
                running_bw_scaled: (old(self).deadline.bandwidth.running_bw_scaled
                    + utilization_scaled) as u64,
                ..old(self).deadline.bandwidth
            }),
            final(self).deadline.members == old(self).deadline.members,
            final(self).deadline.member_capacity == old(self).deadline.member_capacity,
            final(self).outside_ledger(old(self)),
            final(self).wf(),
    {
        let ghost before = *self;
        self.deadline.bandwidth.activate(utilization_scaled);
        proof {
            RunQueue::wf_when_lists_stay(&before, self);
        }
    }

    pub fn deactivate_deadline_bandwidth(&mut self, utilization_scaled: u64)
        requires
            old(self).wf(),
            utilization_scaled <= old(self).deadline.bandwidth.running_bw_scaled,
        ensures
            final(self).deadline.bandwidth == (DeadlineRunQueueBandwidth {
                running_bw_scaled: (old(self).deadline.bandwidth.running_bw_scaled
                    - utilization_scaled) as u64,
                ..old(self).deadline.bandwidth
            }),
            final(self).deadline.members == old(self).deadline.members,
            final(self).deadline.member_capacity == old(self).deadline.member_capacity,
            final(self).outside_ledger(old(self)),
            final(self).wf(),
    {
        let ghost before = *self;
        self.deadline.bandwidth.deactivate(utilization_scaled);
        proof {
            RunQueue::wf_when_lists_stay(&before, self);
        }
    }

    pub fn deadline_bandwidth(&self) -> (snapshot: DeadlineBandwidthSnapshot)
        ensures
            snapshot == (DeadlineBandwidthSnapshot {
                this_bw_scaled: self.deadline.bandwidth.this_bw_scaled,
                running_bw_scaled: self.deadline.bandwidth.running_bw_scaled,
                max_bw_scaled: self.deadline.bandwidth.max_bw_scaled,
            }),
    {
        self.deadline.bandwidth.snapshot()
    }

    pub fn is_deadline_throttled_member(&self, id: ThreadId) -> (throttled: bool)
        ensures
            throttled == (self.member(id) == Some(QueueMembershipClass::DeadlineThrottled)),
    {
        match self.membership_class(id) {
            Some(QueueMembershipClass::DeadlineThrottled) => true,
            _ => false,
        }
    }

    /// The record of a thread that some list holds.
    pub fn queued_record(&self, id: ThreadId) -> (found: Option<QueuedThread>)
        requires
            self.wf(),
        ensures
            found is Some <==> self.member(id) is Some,
            found matches Some(thread) ==> thread == self.record(id) && thread.id == id
                && self.member(id)->0.fits(thread),
    {
        let class = match self.membership_class(id) {
            Some(class) => class,
            None => {
                return None;
            },
        };
        proof {
            self.member_record(id);
        }
        match class {
            QueueMembershipClass::Stop => {
                assert(self.stop is Some);
                assert(index_of(self.list_of(class), id) == 0);
                self.stop
            },
            QueueMembershipClass::Deadline => self.deadline.get(id),
            QueueMembershipClass::DeadlineThrottled => self.deadline.throttled(id),
            QueueMembershipClass::Realtime(priority) => {
                assert(self.rt.level(priority) == self.list_of(class));
                self.rt.get(priority, id)
            },
            QueueMembershipClass::Fair => self.fair.get(id),
            QueueMembershipClass::IdleFair => self.idle_fair.get(id),
        }
    }

    /// A thread that waits for the CPU; neither the running nor a throttled one.
    pub fn queued_thread(&self, id: ThreadId) -> (found: Option<QueuedThreadSnapshot>)
        requires
            self.wf(),
        ensures
            found == if self.linked() == Some(id) || self.member(id) is None || self.member(id)
                == Some(QueueMembershipClass::DeadlineThrottled) {
                None
            } else {
                Some(self.record(id).snapshot())
            },
    {
        if self.is_linked_current(id) || self.is_deadline_throttled_member(id) {
            return None;
        }
        match self.queued_record(id) {
            Some(thread) => Some(thread.to_snapshot()),
            None => None,
        }
    }

    pub fn scheduling_entity(&self, id: ThreadId) -> (entity: Option<SchedulingEntity>)
        requires
            self.wf(),
        ensures
            entity == if self.member(id) is Some {
                Some(self.record(id).entity())
            } else {
                None
            },
    {
        match self.queued_record(id) {
            Some(thread) => Some(thread.active.entity()),
            None => None,
        }
    }

    pub fn base_scheduling_entity(&self, id: ThreadId) -> (entity: Option<SchedulingEntity>)
        requires
            self.wf(),
        ensures
            entity == if self.member(id) is Some {
                Some(self.record(id).active.base_entity)
            } else {
                None
            },
    {
        match self.queued_record(id) {
            Some(thread) => Some(thread.active.base_entity()),
            None => None,
        }
    }

    pub fn scheduling_state(&self, id: ThreadId) -> (state: Option<(SchedulePolicy, SchedulingEntity)>)
        requires
            self.wf(),
        ensures
            state == if self.member(id) is Some {
                Some((self.record(id).active.policy, self.record(id).entity()))
            } else {
                None
            },
    {
        match self.queued_record(id) {
            Some(thread) => Some((thread.active.policy(), thread.active.entity())),
            None => None,
        }
    }

    pub fn linked_current_entity(&self, id: ThreadId) -> (entity: Option<SchedulingEntity>)
        requires
            self.wf(),
        ensures
            entity == if self.linked() == Some(id) {
                Some(self.record(id).entity())
            } else {
                None
            },
    {
        if !self.is_linked_current(id) {
            return None;
        }
        self.scheduling_entity(id)
    }

    /// The entity by which the running thread competes.
    pub open spec fn running_entity(&self) -> Option<SchedulingEntity> {
        match self.current {
            Some(current) => if self.linked() is Some {
                Some(self.record(current.thread).entity())
            } else {
                current.owned_entity()
            },
            None => None,
        }
    }

    pub fn current_scheduling_entity(&self) -> (entity: Option<SchedulingEntity>)
        requires
            self.wf(),
        ensures
            entity == self.running_entity(),
    {
        match self.current {
            Some(current) => if self.linked_current().is_some() {
                self.scheduling_entity(current.thread)
            } else {
                current.owned_scheduling_entity()
            },
            None => None,
        }
    }

    /// Execution reclaimed from unused bandwidth while charging the running
    /// thread.
    pub open spec fn total_reclaimed(
        current: CurrentDispatch,
        runtime_ns: u64,
        inactive_bw_scaled: u64,
        extra_bw_scaled: u64,
        max_bw_scaled: u64,
        reclaimed_ns: u64,
    ) -> u64 {
        let grub = if current.reclaims(max_bw_scaled) {
            (runtime_ns - grub_charge(
                runtime_ns,
                current.policy()->Deadline_0.utilization() as u64,
                inactive_bw_scaled,
                extra_bw_scaled,
                max_bw_scaled,
            )) as u64
        } else {
            0
        };
        saturated_add(reclaimed_ns, grub)
    }

    /// Charges the running thread for a span of execution, wherever its entity
    /// lives. Returns the outcome, the policy, the charged entity and whether
    /// the thread is exempt from the real-time quota.
    pub fn charge_current(
        &mut self,
        runtime_ns: u64,
        now_ns: u64,
        inactive_bw_scaled: u64,
        extra_bw_scaled: u64,
        max_bw_scaled: u64,
        reclaimed_ns: u64,
    ) -> (result: Result<(DispatchCharge, SchedulePolicy, SchedulingEntity, bool), TaskError>)
        requires
            old(self).wf(),
            old(self).current matches Some(current) ==> {
                &&& current.policy() matches SchedulePolicy::Deadline(policy) ==> policy.valid()
                &&& current.owned_entity() matches Some(entity) ==> entity.wf()
            },
        ensures
            ({
                let current = old(self).current->0;
                let entity = old(self).running_entity()->0;
                let total = Self::total_reclaimed(
                    current,
                    runtime_ns,
                    inactive_bw_scaled,
                    extra_bw_scaled,
                    max_bw_scaled,
                    reclaimed_ns,
                );
                let charged = current.charged_entity(entity, runtime_ns, total);
                &&& result == if old(self).current is None {
                    Err(TaskError::NoRunnableThread)
                } else if old(self).running_entity() is None {
                    Err(TaskError::InvalidConfiguration)
                } else {
                    Ok(
                        (
                            current.charge_outcome(entity, runtime_ns, total),
                            current.policy(),
                            charged,
                            current.rt_quota_exempt,
                        ),
                    )
                }
                &&& result is Ok ==> {
                    &&& final(self).current is Some
                    &&& final(self).current->0 == (CurrentDispatch {
                        schedule: final(self).current->0.schedule,
                        ..current.charged_account(entity, runtime_ns, now_ns, total)
                    })
                    &&& final(self).current->0.policy() == current.policy()
                    &&& final(self).running_entity() == Some(charged)
                    &&& final(self).linked() == old(self).linked()
                    &&& match old(self).linked() {
                        Some(id) => {
                            let class = old(self).member(id)->0;
                            let list = old(self).list_of(class);
                            let at = index_of(list, id);
                            &&& final(self).current->0.schedule == current.schedule
                            &&& final(self).list_of(class) == list.update(
                                at,
                                QueuedThread {
                                    active: list[at].active.with_effective(charged),
                                    ..list[at]
                                },
                            )
                            &&& final(self).only_list_changed(old(self), class)
                        },
                        None => final(self).same_lists(old(self)),
                    }
                }
            }),
            result matches Ok(charged) ==> charged.2.wf(),
            final(self).current matches Some(current) ==> (current.owned_entity() matches Some(
                entity,
            ) ==> entity.wf()),
            result is Err ==> *final(self) == *old(self),
            final(self).membership@ == old(self).membership@,
            final(self).same_ledger(old(self)),
            final(self).same_times(old(self)),
            final(self).same_rt_pushable(old(self)),
            final(self).next_sequence == old(self).next_sequence,
            final(self).balance_scan_epoch == old(self).balance_scan_epoch,
            final(self).nr_running == old(self).nr_running,
            final(self).fixed_placement_demand == old(self).fixed_placement_demand,
            final(self).wf(),
    {
        let ghost before = *self;
        let mut dispatch = match self.current {
            Some(current) => current,
            None => {
                return Err(TaskError::NoRunnableThread);
            },
        };
        let policy = dispatch.schedule_policy();
        let exempt = dispatch.rt_quota_exempt();
        let grub: u64 = dispatch.grub_reclaimed_ns(
            runtime_ns,
            inactive_bw_scaled,
            extra_bw_scaled,
            max_bw_scaled,
        );
        let total: u64 = reclaimed_ns.saturating_add(grub);
        if let Some(id) = self.linked_current() {
            proof {
                before.member_record(id);
            }
            let class = self.membership_class(id).unwrap();
            let mut thread = self.queued_record(id).unwrap();
            let mut entity = thread.active.entity();
            let charge = dispatch.charge_linked(&mut entity, runtime_ns, now_ns, total);
            thread.active.set_entity(entity);
            self.current = Some(dispatch);
            let ghost charged = *self;
            proof {
                RunQueue::wf_when_lists_stay(&before, self);
                assert(charged.list_of(class) == before.list_of(class));
                assert(class.fits(thread));
            }
            self.replace(class, thread);
            proof {
                assert forall|other: QueueMembershipClass| other.valid() && other != class implies
                    #[trigger] self.list_of(other) == before.list_of(other) by {
                    assert(charged.list_of(other) == before.list_of(other));
                }
                let list = before.list_of(class);
                self.member_record(id);
                assert(self.list_of(class)[index_of(list, id)].id == id);
                index_of_is_unique(
                    self.list_of(class),
                    id,
                    index_of(list, id),
                );
            }
            Ok((charge, policy, entity, exempt))
        } else {
            if dispatch.owned_scheduling_entity().is_none() {
                return Err(TaskError::InvalidConfiguration);
            }
            let charge = dispatch.charge(runtime_ns, now_ns, total);
            let entity = dispatch.owned_scheduling_entity().unwrap();
            self.current = Some(dispatch);
            proof {
                RunQueue::wf_when_lists_stay(&before, self);
            }
            Ok((charge, policy, entity, exempt))
        }
    }

    /// The comparison state of the running thread.
    pub open spec fn running_schedule(&self) -> Option<CurrentSchedule> {
        match (self.current, self.running_entity()) {
            (Some(current), Some(entity)) => Some(
                CurrentSchedule {
                    thread: current.thread,
                    policy: current.policy(),
                    entity,
                    role: if current.is_idle() {
                        DispatchRole::DedicatedIdle
                    } else {
                        DispatchRole::Task
                    },
                },
            ),
            _ => None,
        }
    }

    pub fn current_schedule(&self) -> (schedule: Option<CurrentSchedule>)
        requires
            self.wf(),
        ensures
            schedule == self.running_schedule(),
    {
        match self.current {
            Some(current) => match self.current_scheduling_entity() {
                Some(entity) => Some(current.schedule_snapshot(entity)),
                None => None,
            },
            None => None,
        }
    }
}

} // verus!
