//! Entering and leaving a run queue.
use vstd::prelude::*;
use crate::error::TaskError;
use crate::ids::ThreadId;
use crate::scheduler::deadline::deadline_record;
use crate::scheduler::entity::{EnqueueReason, FairEntity, SchedulingEntity};
use crate::scheduler::fair::MAX_ENTRIES;
use crate::scheduler::policy::{FairMode, SchedulePolicy};
use crate::scheduler::realtime::{any_pushable, bit};
use crate::scheduler::run_queue::{
    QueueMembership, QueueMembershipClass, RunQueue, saturated_add, saturated_sub,
};
use crate::scheduler::task::{QueuedThread, index_of, index_of_is_unique};

verus! {

/// Whether an enqueue makes a thread runnable that was not.
pub open spec fn activates(reason: EnqueueReason) -> bool {
    reason == EnqueueReason::Wake || reason == EnqueueReason::Replenished || reason
        == EnqueueReason::Migrated
}

impl RunQueue {
    /// `self` is `before` with the pushable summary of one thread's class
    /// recomputed.
    pub open spec fn pushable_refreshed(
        &self,
        before: &Self,
        id: ThreadId,
        policy: SchedulePolicy,
        current: Option<ThreadId>,
    ) -> bool {
        let list = before.list_of(QueueMembershipClass::Deadline);
        let at = index_of(list, id);
        &&& self.list_of(QueueMembershipClass::Deadline) == if policy is Deadline && before.member(id)
            == Some(QueueMembershipClass::Deadline) {
            list.update(
                at,
                QueuedThread {
                    pushable: list[at].migration_capable && current != Some(id),
                    ..list[at]
                },
            )
        } else {
            list
        }
        &&& self.only_list_changed(before, QueueMembershipClass::Deadline)
        &&& forall|p: u8|
            1 <= p <= 99 ==> #[trigger] self.rt_pushable(p) == if policy.rt() is Some
                && policy.rt()->0.value == p {
                any_pushable(before.list_of(QueueMembershipClass::Realtime(p)), current)
            } else {
                before.rt_pushable(p)
            }
        &&& self.membership@ == before.membership@
        &&& self.same_ledger(before)
        &&& self.same_times(before)
        &&& self.same_counters(before)
    }

    /// Recomputes whether the class of a thread has something to push away.
    pub(crate) fn refresh_class_pushable(
        &mut self,
        id: ThreadId,
        policy: SchedulePolicy,
        current: Option<ThreadId>,
    )
        requires
            old(self).wf(),
            policy.valid(),
        ensures
            final(self).pushable_refreshed(old(self), id, policy, current),
            final(self).wf(),
    {
        match policy {
            SchedulePolicy::Deadline(_) => {
                if let Some(QueueMembershipClass::Deadline) = self.membership_class(id) {
                    proof {
                        self.member_record(id);
                    }
                    if let Some(thread) = self.deadline.get(id) {
                        let mut thread = thread;
                        let is_current = match current {
                            Some(current) => current == id,
                            None => false,
                        };
                        thread.pushable = thread.migration_capable && !is_current;
                        self.replace(QueueMembershipClass::Deadline, thread);
                    }
                }
            },
            SchedulePolicy::Fifo { priority } | SchedulePolicy::RoundRobin { priority, .. } => {
                let ghost before = *self;
                self.rt.refresh_pushable_priority(priority.value, current);
                proof {
                    assert forall|p: u8| 1 <= p <= 99 implies #[trigger] self.rt_pushable(p)
                        == if priority.value == p {
                        any_pushable(before.list_of(QueueMembershipClass::Realtime(p)), current)
                    } else {
                        before.rt_pushable(p)
                    } by {
                        assert(bit(self.rt.pushable_bitmap, (p - 1) as u32) == if (p - 1) as u32
                            == priority.value - 1 {
                            any_pushable(before.rt.level(priority.value), current)
                        } else {
                            bit(before.rt.pushable_bitmap, (p - 1) as u32)
                        });
                    }
                    RunQueue::wf_when_lists_stay(&before, self);
                }
            },
            SchedulePolicy::KernelStop | SchedulePolicy::Fair { .. } => {},
        }
    }

    /// Load that a fair newcomer of a mode joins: the queue's own and that of a
    /// running entity of the same mode.
    pub fn fair_placement_load(&self, mode: FairMode, current: Option<FairEntity>) -> (load: u64)
        requires
            self.wf(),
            current matches Some(entity) ==> entity.wf(),
        ensures
            load == self.fair_load(mode, current),
            load <= 0x4_0000_0000_0000,
    {
        let queued: u64 = match mode {
            FairMode::Idle => self.idle_fair.total_weight(),
            FairMode::Normal | FairMode::Batch => self.fair.total_weight(),
        };
        let running: u64 = match current {
            Some(entity) => if entity.mode == mode {
                entity.weight as u64
            } else {
                0
            },
            None => 0,
        };
        assert(queued <= 0xffff_ffff * 88761);
        queued + running
    }

    /// `self` is `before` after one thread entered it.
    pub open spec fn enqueued(
        &self,
        before: &Self,
        entry: QueuedThread,
        reason: EnqueueReason,
        current: Option<FairEntity>,
    ) -> bool {
        let thread = before.placed_record(entry, reason, current);
        let class = QueueMembershipClass::home(entry.active.policy);
        let list = before.list_of(class);
        &&& self.membership@ == before.membership@.update(
            entry.id.slot as int,
            Some(QueueMembership { generation: entry.id.generation, class }),
        )
        &&& self.list_of(class) == match class {
            QueueMembershipClass::Deadline => list.push(
                QueuedThread {
                    pushable: thread.migration_capable && self.linked() != Some(entry.id),
                    ..thread
                },
            ),
            QueueMembershipClass::Realtime(_) => if reason == EnqueueReason::Preempted {
                seq![thread] + list
            } else {
                list.push(thread)
            },
            _ => list.push(thread),
        }
        &&& self.only_list_changed(before, class)
        &&& self.nr_running == before.nr_running + if activates(reason) {
            1int
        } else {
            0int
        }
        &&& self.fixed_placement_demand == saturated_add(
            before.fixed_placement_demand,
            entry.active.policy.fixed_load(),
        )
        &&& self.next_sequence == crate::time::circular_offset(before.next_sequence, 1)
        &&& self.current == before.current
        &&& self.balance_scan_epoch == before.balance_scan_epoch
        &&& self.same_ledger(before)
        &&& self.same_times(before)
        &&& forall|p: u8|
            1 <= p <= 99 ==> #[trigger] self.rt_pushable(p) == if class
                == QueueMembershipClass::Realtime(p) {
                any_pushable(self.list_of(class), self.linked())
            } else {
                before.rt_pushable(p)
            }
    }

    /// What an enqueue needs: a well-formed entry, a prepared registry slot
    /// that no other thread occupies, and room.
    pub open spec fn can_enqueue(&self, entry: QueuedThread) -> bool {
        &&& entry.active.wf()
        &&& entry.active.policy is Deadline ==> deadline_record(entry)
        &&& entry.id.slot < self.membership@.len()
        &&& self.membership@[entry.id.slot as int] is Some ==> self.member(entry.id) is Some
        &&& self.fair.entries@.len() < MAX_ENTRIES
        &&& self.idle_fair.entries@.len() < MAX_ENTRIES
        &&& self.nr_running < usize::MAX
    }

    fn place_entry(&self, entry: QueuedThread, reason: EnqueueReason, current_fair: Option<FairEntity>) -> (thread: QueuedThread)
        requires
            self.wf(),
            entry.active.wf(),
            entry.active.policy is Deadline ==> deadline_record(entry),
            current_fair matches Some(entity) ==> entity.wf(),
        ensures
            thread == self.placed_record(entry, reason, current_fair),
            thread.id == entry.id,
            thread.migration_capable == entry.migration_capable,
            thread.active.policy == entry.active.policy,
            QueueMembershipClass::home(entry.active.policy).fits(thread),
    {
        let mut thread = entry;
        thread.sequence = self.next_sequence;
        if let SchedulingEntity::Fair(fair) = thread.active.entity() {
            let mut fair = fair;
            let virtual_time: u64 = self.virtual_time_for_mode(fair.mode);
            let load: u64 = self.fair_placement_load(fair.mode, current_fair);
            fair.place(reason, virtual_time, load);
            thread.active.set_entity(SchedulingEntity::Fair(fair));
        }
        thread
    }

    /// Makes a thread a member of the run queue. A thread is queued at most
    /// once, and there is at most one stopper.
    pub fn enqueue_task(
        &mut self,
        entry: QueuedThread,
        reason: EnqueueReason,
        current_fair: Option<FairEntity>,
    ) -> (result: Result<SchedulingEntity, TaskError>)
        requires
            old(self).wf(),
            old(self).can_enqueue(entry),
            current_fair matches Some(entity) ==> entity.wf(),
        ensures
            result == if old(self).member(entry.id) is Some {
                Err(TaskError::AlreadyQueued)
            } else if entry.active.policy is KernelStop && old(self).stop is Some {
                Err(TaskError::InvalidConfiguration)
            } else {
                Ok(old(self).placed_record(entry, reason, current_fair).entity())
            },
            result is Err ==> *final(self) == *old(self),
            result is Ok ==> final(self).enqueued(old(self), entry, reason, current_fair),
            final(self).wf(),
    {
        if self.contains(entry.id) {
            return Err(TaskError::AlreadyQueued);
        }
        let policy = entry.active.policy();
        let class = QueueMembershipClass::for_policy(policy);
        if class == QueueMembershipClass::Stop && self.stop.is_some() {
            return Err(TaskError::InvalidConfiguration);
        }
        let ghost before = *self;
        let thread = self.place_entry(entry, reason, current_fair);
        let entity = thread.active.entity();
        self.link(class, thread, reason == EnqueueReason::Preempted);
        let ghost linked = *self;
        self.next_sequence = self.next_sequence.wrapping_add(1);
        match reason {
            EnqueueReason::Wake | EnqueueReason::Replenished | EnqueueReason::Migrated => {
                self.nr_running = self.nr_running + 1;
            },
            _ => {},
        }
        self.fixed_placement_demand = self.fixed_placement_demand.saturating_add(
            policy.fixed_placement_demand(),
        );
        proof {
            RunQueue::wf_when_lists_stay(&linked, self);
        }
        let ghost counted = *self;
        let running = self.linked_current();
        self.refresh_class_pushable(entry.id, policy, running);
        proof {
            let list = before.list_of(class);
            assert(counted.list_of(class) == linked.list_of(class));
            assert forall|other: QueueMembershipClass| other.valid() && other != class implies
                #[trigger] self.list_of(other) == before.list_of(other) by {
                assert(counted.list_of(other) == linked.list_of(other));
            }
            assert forall|p: u8| 1 <= p <= 99 implies #[trigger] self.rt_pushable(p) == if class
                == QueueMembershipClass::Realtime(p) {
                any_pushable(self.list_of(class), self.linked())
            } else {
                before.rt_pushable(p)
            } by {
                assert(counted.rt_pushable(p) == linked.rt_pushable(p));
                if class == QueueMembershipClass::Realtime(p) {
                    assert(self.list_of(class) == counted.list_of(class));
                }
            }
            if class == QueueMembershipClass::Deadline {
                let longer = list.push(thread);
                linked.lists_are_distinct(class);
                assert(longer[list.len() as int].id == entry.id);
                index_of_is_unique(longer, entry.id, list.len() as int);
                assert(self.list_of(class) =~= list.push(
                    QueuedThread {
                        pushable: thread.migration_capable && running != Some(entry.id),
                        ..thread
                    },
                ));
            }
        }
        Ok(entity)
    }

    /// Virtual time of the fair class that serves a mode.
    pub fn virtual_time_for_mode(&self, mode: FairMode) -> (virtual_time: u64)
        ensures
            virtual_time == self.mode_time(mode),
    {
        match mode {
            FairMode::Idle => self.idle_fair.virtual_time(),
            FairMode::Normal | FairMode::Batch => self.fair.virtual_time(),
        }
    }

    /// `self` is `before` with both fair classes moved to the weighted mean of
    /// what they queue and the running entity.
    pub open spec fn retimed(&self, before: &Self, current: Option<FairEntity>) -> bool {
        &&& self.times_updated(before, current)
        &&& self.membership@ == before.membership@
        &&& self.same_lists(before)
        &&& self.same_ledger(before)
        &&& self.same_counters(before)
        &&& self.rt == before.rt
    }

    /// Whether the entry may be offered to the run queue.
    pub fn may_enqueue(&self, entry: QueuedThread) -> (may: bool)
        requires
            entry.active.wf(),
        ensures
            may == self.can_enqueue(entry),
    {
        let deadline_ok = match (entry.active.policy(), entry.scheduling_entity()) {
            (SchedulePolicy::Deadline(_), SchedulingEntity::Deadline(deadline)) => {
                deadline.absolute_deadline_ns().is_some()
            },
            (SchedulePolicy::Deadline(_), _) => false,
            _ => true,
        };
        if !deadline_ok || entry.id.slot as usize >= self.membership.len() {
            return false;
        }
        let slot_ok = match self.membership[entry.id.slot as usize] {
            Some(membership) => membership.generation == entry.id.generation,
            None => true,
        };
        slot_ok && self.fair.entries.len() < MAX_ENTRIES && self.idle_fair.entries.len()
            < MAX_ENTRIES && self.nr_running < usize::MAX
    }

    /// Moves both fair classes to the weighted mean of what they queue and the
    /// running entity.
    pub fn update_fair_virtual_time(&mut self, current: Option<FairEntity>)
        requires
            old(self).wf(),
            current matches Some(entity) ==> entity.wf(),
        ensures
            final(self).retimed(old(self), current),
            final(self).wf(),
    {
        let ghost before = *self;
        let (normal, idle) = match current {
            Some(entity) => match entity.mode {
                FairMode::Idle => (None, Some(entity)),
                FairMode::Normal | FairMode::Batch => (Some(entity), None),
            },
            None => (None, None),
        };
        self.fair.update_virtual_time(normal);
        self.idle_fair.update_virtual_time(idle);
        proof {
            RunQueue::wf_when_lists_stay(&before, self);
        }
    }

    /// `self` is `before` after one thread left it.
    pub open spec fn departed(&self, before: &Self, id: ThreadId, deactivate: bool) -> bool {
        let class = before.member(id)->0;
        let list = before.list_of(class);
        let thread = list[index_of(list, id)];
        let counted = class != QueueMembershipClass::DeadlineThrottled;
        &&& self.membership@ == before.membership@.update(id.slot as int, None)
        &&& self.list_of(class) == list.remove(index_of(list, id))
        &&& self.only_list_changed(before, class)
        &&& self.nr_running == before.nr_running - if counted && deactivate {
            1int
        } else {
            0int
        }
        &&& self.fixed_placement_demand == if counted && before.linked() != Some(id) {
            saturated_sub(before.fixed_placement_demand, thread.active.policy.fixed_load())
        } else {
            before.fixed_placement_demand
        }
        &&& self.next_sequence == before.next_sequence
        &&& self.current == before.current
        &&& self.balance_scan_epoch == before.balance_scan_epoch
        &&& self.same_ledger(before)
        &&& self.same_times(before)
        &&& forall|p: u8|
            1 <= p <= 99 ==> #[trigger] self.rt_pushable(p) == if class
                == QueueMembershipClass::Realtime(p) {
                any_pushable(self.list_of(class), self.linked())
            } else {
                before.rt_pushable(p)
            }
    }

    fn unlink_task(&mut self, id: ThreadId, deactivate: bool) -> (removed: Option<QueuedThread>)
        requires
            old(self).wf(),
            deactivate && old(self).member(id) is Some && old(self).member(id) != Some(
                QueueMembershipClass::DeadlineThrottled,
            ) ==> old(self).nr_running > 0,
        ensures
            removed is Some <==> old(self).member(id) is Some,
            removed matches Some(thread) ==> thread == old(self).record(id) && thread.id == id
                && final(self).departed(old(self), id, deactivate),
            removed is None ==> *final(self) == *old(self),
            final(self).wf(),
    {
        let class = match self.membership_class(id) {
            Some(class) => class,
            None => {
                return None;
            },
        };
        let ghost before = *self;
        let was_linked = self.is_linked_current(id);
        let thread = self.unlink(class, id);
        if class == QueueMembershipClass::DeadlineThrottled {
            return Some(thread);
        }
        let ghost unlinked = *self;
        let policy = thread.active.policy();
        if !was_linked {
            self.fixed_placement_demand = self.fixed_placement_demand.saturating_sub(
                policy.fixed_placement_demand(),
            );
        }
        if deactivate {
            self.nr_running = self.nr_running - 1;
        }
        proof {
            RunQueue::wf_when_lists_stay(&unlinked, self);
        }
        let ghost counted = *self;
        let running = self.linked_current();
        self.refresh_class_pushable(id, policy, running);
        proof {
            assert(counted.list_of(class) == unlinked.list_of(class));
            assert(self.list_of(class) == counted.list_of(class));
            assert forall|other: QueueMembershipClass| other.valid() && other != class implies
                #[trigger] self.list_of(other) == before.list_of(other) by {
                assert(counted.list_of(other) == unlinked.list_of(other));
            }
            assert forall|p: u8| 1 <= p <= 99 implies #[trigger] self.rt_pushable(p) == if class
                == QueueMembershipClass::Realtime(p) {
                any_pushable(self.list_of(class), self.linked())
            } else {
                before.rt_pushable(p)
            } by {
                assert(counted.rt_pushable(p) == unlinked.rt_pushable(p));
            }
        }
        Some(thread)
    }

    /// Takes a thread off the run queue; it is no longer runnable here.
    pub fn deactivate_task(&mut self, id: ThreadId) -> (removed: Option<QueuedThread>)
        requires
            old(self).wf(),
            old(self).member(id) is Some && old(self).member(id) != Some(
                QueueMembershipClass::DeadlineThrottled,
            ) ==> old(self).nr_running > 0,
        ensures
            removed is Some <==> old(self).member(id) is Some,
            removed matches Some(thread) ==> thread == old(self).record(id) && thread.id == id
                && final(self).departed(old(self), id, true),
            removed is None ==> *final(self) == *old(self),
            final(self).wf(),
    {
        self.unlink_task(id, true)
    }

    /// `self` is `before` after one thread left its class for another one.
    pub open spec fn reclassified(&self, before: &Self, id: ThreadId) -> bool {
        let freed = RunQueue {
            nr_running: (self.nr_running - if before.member(id) == Some(
                QueueMembershipClass::DeadlineThrottled,
            ) {
                1int
            } else {
                0int
            }) as usize,
            ..*self
        };
        freed.departed(before, id, false)
    }

    /// Takes a thread out of its class for another one; it stays runnable, and
    /// a throttled one becomes so.
    pub fn reclassify_task(&mut self, id: ThreadId) -> (removed: Option<QueuedThread>)
        requires
            old(self).wf(),
            old(self).nr_running < usize::MAX,
        ensures
            removed is Some <==> old(self).member(id) is Some,
            removed matches Some(thread) ==> thread == old(self).record(id) && thread.id == id
                && final(self).reclassified(old(self), id),
            removed is None ==> *final(self) == *old(self),
            final(self).wf(),
    {
        let was_throttled = match self.membership_class(id) {
            Some(QueueMembershipClass::DeadlineThrottled) => true,
            _ => false,
        };
        let removed = self.unlink_task(id, false);
        let ghost before = *self;
        if was_throttled {
            self.nr_running = self.nr_running + 1;
        }
        proof {
            RunQueue::wf_when_lists_stay(&before, self);
            if removed is Some {
                let freed = RunQueue { nr_running: before.nr_running, ..*self };
                assert(freed == before);
            }
        }
        removed
    }

    /// Accepts a Deadline thread whose budget is spent; it waits for its
    /// replenishment.
    pub fn enqueue_throttled_deadline(&mut self, thread: QueuedThread) -> (result: Result<(), TaskError>)
        requires
            old(self).wf(),
            old(self).can_enqueue(thread) || !(thread.active.policy is Deadline)
                || !thread.entity().is_throttled(),
            thread.active.policy is Deadline ==> old(self).can_enqueue(thread),
        ensures
            result == if old(self).member(thread.id) is Some || !(thread.active.policy is Deadline)
                || !thread.entity().is_throttled() {
                Err(TaskError::InvalidConfiguration)
            } else {
                Ok::<(), TaskError>(())
            },
            result is Err ==> *final(self) == *old(self),
            result is Ok ==> {
                let class = QueueMembershipClass::DeadlineThrottled;
                &&& final(self).list_of(class) == old(self).list_of(class).push(
                    QueuedThread { sequence: old(self).next_sequence, ..thread },
                )
                &&& final(self).only_list_changed(old(self), class)
                &&& final(self).membership@ == old(self).membership@.update(
                    thread.id.slot as int,
                    Some(QueueMembership { generation: thread.id.generation, class }),
                )
                &&& final(self).next_sequence == crate::time::circular_offset(
                    old(self).next_sequence,
                    1,
                )
                &&& final(self).nr_running == old(self).nr_running
                &&& final(self).fixed_placement_demand == old(self).fixed_placement_demand
                &&& final(self).current == old(self).current
                &&& final(self).balance_scan_epoch == old(self).balance_scan_epoch
                &&& final(self).same_ledger(old(self))
                &&& final(self).same_times(old(self))
                &&& final(self).same_rt_pushable(old(self))
            },
            final(self).wf(),
    {
        let deadline = match thread.active.policy() {
            SchedulePolicy::Deadline(_) => true,
            _ => false,
        };
        if self.contains(thread.id) || !deadline || !thread.active.entity().is_deadline_throttled() {
            return Err(TaskError::InvalidConfiguration);
        }
        let ghost before = *self;
        let mut thread = thread;
        thread.sequence = self.next_sequence;
        self.link(QueueMembershipClass::DeadlineThrottled, thread, false);
        let ghost linked = *self;
        self.next_sequence = self.next_sequence.wrapping_add(1);
        proof {
            RunQueue::wf_when_lists_stay(&linked, self);
            assert forall|other: QueueMembershipClass|
                other.valid() && other != QueueMembershipClass::DeadlineThrottled implies
                #[trigger] self.list_of(other) == before.list_of(other) by {
                assert(self.list_of(other) == linked.list_of(other));
            }
            assert forall|p: u8| 1 <= p <= 99 implies #[trigger] self.rt_pushable(p)
                == before.rt_pushable(p) by {
                assert(self.rt_pushable(p) == linked.rt_pushable(p));
            }
        }
        Ok(())
    }

    /// Moves the running Deadline thread, whose budget is spent, to the
    /// throttled ones.
    pub fn throttle_current_deadline(&mut self, id: ThreadId) -> (result: Result<SchedulingEntity, TaskError>)
        requires
            old(self).wf(),
            old(self).linked() == Some(id) ==> old(self).nr_running > 0,
        ensures
            result == if old(self).linked() != Some(id) {
                Err(TaskError::NotReady)
            } else if old(self).member(id) != Some(QueueMembershipClass::Deadline) {
                Err(TaskError::InvalidConfiguration)
            } else {
                Ok(old(self).record(id).entity())
            },
            result is Err ==> *final(self) == *old(self),
            result is Ok ==> {
                let list = old(self).list_of(QueueMembershipClass::Deadline);
                let at = index_of(list, id);
                &&& final(self).list_of(QueueMembershipClass::Deadline) == list.remove(at)
                &&& final(self).list_of(QueueMembershipClass::DeadlineThrottled) == old(self).list_of(QueueMembershipClass::DeadlineThrottled).push(list[at])
                &&& forall|other: QueueMembershipClass|
                    other.valid() && other != QueueMembershipClass::Deadline && other
                        != QueueMembershipClass::DeadlineThrottled
                        ==> #[trigger] final(self).list_of(other) == old(self).list_of(other)
                &&& final(self).member(id) == Some(QueueMembershipClass::DeadlineThrottled)
                &&& final(self).linked() is None
                &&& final(self).nr_running == old(self).nr_running - 1
                &&& final(self).fixed_placement_demand == old(self).fixed_placement_demand
                &&& final(self).next_sequence == old(self).next_sequence
                &&& final(self).current == old(self).current
                &&& final(self).balance_scan_epoch == old(self).balance_scan_epoch
                &&& final(self).same_ledger(old(self))
                &&& final(self).same_times(old(self))
                &&& final(self).same_rt_pushable(old(self))
            },
            final(self).wf(),
    {
        if !self.is_linked_current(id) {
            return Err(TaskError::NotReady);
        }
        match self.membership_class(id) {
            Some(QueueMembershipClass::Deadline) => {},
            _ => {
                return Err(TaskError::InvalidConfiguration);
            },
        }
        proof {
            self.member_record(id);
        }
        let ghost before = *self;
        let thread = self.unlink(QueueMembershipClass::Deadline, id);
        let ghost unlinked = *self;
        self.link(QueueMembershipClass::DeadlineThrottled, thread, false);
        let ghost moved = *self;
        self.nr_running = self.nr_running - 1;
        proof {
            RunQueue::wf_when_lists_stay(&moved, self);
            assert forall|other: QueueMembershipClass|
                other.valid() && other != QueueMembershipClass::DeadlineThrottled implies
                #[trigger] self.list_of(other) == unlinked.list_of(other) by {
                assert(self.list_of(other) == moved.list_of(other));
            }
            assert(unlinked.list_of(QueueMembershipClass::DeadlineThrottled) == before.list_of(
                QueueMembershipClass::DeadlineThrottled,
            ));
            assert forall|p: u8| 1 <= p <= 99 implies #[trigger] self.rt_pushable(p)
                == before.rt_pushable(p) by {
                assert(self.rt_pushable(p) == moved.rt_pushable(p));
                assert(moved.rt_pushable(p) == unlinked.rt_pushable(p));
            }
        }
        Ok(thread.active.entity())
    }
}

} // verus!
