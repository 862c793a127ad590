//! Choosing what runs next and returning what ran.
use vstd::prelude::*;
use crate::error::TaskError;
use crate::ids::ThreadId;
use crate::scheduler::entity::{EnqueueReason, FairCarry, FairEntity, SchedulingEntity};
use crate::scheduler::fair::{MAX_ENTRIES, fair_choice, mean_time};
use crate::scheduler::realtime::{RT_PRIORITY_LEVELS, RealtimeRunQueue, any_pushable, bit};
use crate::scheduler::run_queue::{
    QueueMembership, QueueMembershipClass, RtEligibility, RunQueue, saturated_add, saturated_sub,
    slot_free,
};
use crate::scheduler::task::{
    PickedThread, QueuedThread, QueuedThreadSnapshot, holds_after_push, holds_after_remove,
    index_of, index_of_is_unique,
};

verus! {

impl RunQueue {
    /// Whether the real-time class has a thread.
    pub open spec fn has_rt_thread(&self) -> bool {
        self.rt.occupied()
    }

    /// `snapshot` is that of the head of the most urgent real-time list.
    pub open spec fn is_rt_head(&self, snapshot: QueuedThreadSnapshot) -> bool {
        exists|p: u8| #![trigger self.rt.level(p)]
            1 <= p <= 99 && self.rt.level(p).len() > 0 && snapshot == self.rt.level(p)[0].snapshot()
                && forall|i: int|
                p <= i < RT_PRIORITY_LEVELS ==> (#[trigger] self.rt.levels@[i])@.len() == 0
    }

    /// `self` is `before` after the first thread of a list was taken out for
    /// execution.
    pub open spec fn taken(&self, before: &Self, class: QueueMembershipClass, at: int) -> bool {
        let list = before.list_of(class);
        &&& 0 <= at < list.len()
        &&& self.list_of(class) == list.remove(at)
        &&& self.only_list_changed(before, class)
        &&& self.membership@ == before.membership@.update(list[at].id.slot as int, None)
        &&& self.same_ledger(before)
        &&& self.same_counters(before)
        &&& self.same_rt_pushable_but(before, class)
    }

    /// Outcome of a selection: the stopper, then the earliest deadline, then
    /// the head of the most urgent real-time list unless the class is
    /// throttled, then the fair classes.
    #[verifier::opaque]
    pub open spec fn picks(&self, before: &Self, eligibility: RtEligibility, picked: Option<PickedThread>) -> bool {
        if before.stop is Some {
            &&& picked == Some(PickedThread::Owned(before.stop->0))
            &&& self.taken(before, QueueMembershipClass::Stop, 0)
            &&& self.same_times(before)
        } else if before.deadline.entries@.len() > 0 {
            &&& before.deadline.choice() matches Some(at) && 0 <= at < before.deadline.entries@.len()
            &&& picked == Some(
                PickedThread::Linked(
                    before.deadline.entries@[before.deadline.choice()->0].snapshot(),
                ),
            )
            &&& *self == *before
        } else if eligibility == RtEligibility::Runnable && before.has_rt_thread() {
            &&& picked matches Some(PickedThread::Linked(snapshot))
            &&& before.is_rt_head(snapshot)
            &&& *self == *before
        } else if before.fair.entries@.len() > 0 {
            let now = mean_time(before.fair.entries@, before.fair.virtual_time, None);
            let at = fair_choice(before.fair.entries@, now)->0;
            &&& picked == Some(PickedThread::Owned(before.fair.entries@[at]))
            &&& self.taken(before, QueueMembershipClass::Fair, at)
            &&& self.fair.virtual_time == now
            &&& self.idle_fair.virtual_time == before.idle_fair.virtual_time
        } else if before.idle_fair.entries@.len() > 0 {
            let now = mean_time(before.idle_fair.entries@, before.idle_fair.virtual_time, None);
            let at = fair_choice(before.idle_fair.entries@, now)->0;
            &&& picked == Some(PickedThread::Owned(before.idle_fair.entries@[at]))
            &&& self.taken(before, QueueMembershipClass::IdleFair, at)
            &&& self.idle_fair.virtual_time == now
            &&& self.fair.virtual_time == before.fair.virtual_time
        } else {
            picked is None && *self == *before
        }
    }

    /// Selects the thread to run next. What does not stay linked while it runs
    /// leaves its list.
    pub fn pick_next_task(&mut self, rt_eligibility: RtEligibility) -> (picked: Option<PickedThread>)
        requires
            old(self).wf(),
        ensures
            final(self).picks(old(self), rt_eligibility, picked),
            final(self).wf(),
    {
        proof {
            reveal(RealtimeRunQueue::occupied);
        }
        proof {
            reveal(RunQueue::picks);
        }
        let ghost before = *self;
        if let Some(stopper) = self.stop {
            proof {
                assert(self.list_of(QueueMembershipClass::Stop)[0] == stopper);
                assert(self.record_ok(QueueMembershipClass::Stop, 0));
                index_of_is_unique(self.list_of(QueueMembershipClass::Stop), stopper.id, 0);
            }
            let thread = self.unlink(QueueMembershipClass::Stop, stopper.id);
            return Some(PickedThread::Owned(thread));
        }
        if let Some(thread) = self.deadline.first() {
            return Some(PickedThread::Linked(thread.to_snapshot()));
        }
        if rt_eligibility == RtEligibility::Runnable {
            if let Some(snapshot) = self.rt.select() {
                proof {
                    let p = choose|p: u8| #![trigger self.rt.level(p)]
                        1 <= p <= 99 && self.rt.level(p).len() > 0 && snapshot == self.rt.level(p)[0].snapshot()
                            && forall|i: int|
                            p <= i < RT_PRIORITY_LEVELS ==> (#[trigger] self.rt.levels@[i])@.len() == 0;
                    assert(self.rt.levels@[p - 1]@.len() > 0);
                }
                return Some(PickedThread::Linked(snapshot));
            }
        }
        if !self.fair.is_empty() {
            let chosen = self.fair.choose_next();
            let ghost chosen_at = fair_choice(before.fair.entries@, self.fair.virtual_time)->0;
            proof {
                RunQueue::wf_when_lists_stay(&before, self);
                assert(self.record_ok(QueueMembershipClass::Fair, chosen_at));
                index_of_is_unique(before.fair.entries@, chosen->0, chosen_at);
            }
            let ghost updated = *self;
            let thread = self.unlink(QueueMembershipClass::Fair, chosen.unwrap());
            proof {
                assert forall|other: QueueMembershipClass|
                    other.valid() && other != QueueMembershipClass::Fair implies
                    #[trigger] self.list_of(other) == before.list_of(other) by {
                    assert(updated.list_of(other) == before.list_of(other));
                }
                assert forall|p: u8| 1 <= p <= 99 implies #[trigger] self.rt_pushable(p)
                    == before.rt_pushable(p) by {
                    assert(updated.rt_pushable(p) == before.rt_pushable(p));
                }
            }
            return Some(PickedThread::Owned(thread));
        }
        if !self.idle_fair.is_empty() {
            let chosen = self.idle_fair.choose_next();
            let ghost chosen_at = fair_choice(
                before.idle_fair.entries@,
                self.idle_fair.virtual_time,
            )->0;
            proof {
                RunQueue::wf_when_lists_stay(&before, self);
                assert(self.record_ok(QueueMembershipClass::IdleFair, chosen_at));
                index_of_is_unique(before.idle_fair.entries@, chosen->0, chosen_at);
            }
            let ghost updated = *self;
            let thread = self.unlink(QueueMembershipClass::IdleFair, chosen.unwrap());
            proof {
                assert forall|other: QueueMembershipClass|
                    other.valid() && other != QueueMembershipClass::IdleFair implies
                    #[trigger] self.list_of(other) == before.list_of(other) by {
                    assert(updated.list_of(other) == before.list_of(other));
                }
                assert forall|p: u8| 1 <= p <= 99 implies #[trigger] self.rt_pushable(p)
                    == before.rt_pushable(p) by {
                    assert(updated.rt_pushable(p) == before.rt_pushable(p));
                }
            }
            return Some(PickedThread::Owned(thread));
        }
        None
    }

    /// `self` is `before` after a selection was committed.
    #[verifier::opaque]
    pub open spec fn next_set(&self, before: &Self, picked: PickedThread) -> bool {
        let charged = RunQueue {
            fixed_placement_demand: saturated_sub(
                before.fixed_placement_demand,
                picked.thread_policy().fixed_load(),
            ),
            ..*before
        };
        self.pushable_refreshed(
            &charged,
            picked.thread_id(),
            picked.thread_policy(),
            Some(picked.thread_id()),
        )
    }

    /// Commits a selection: the running thread is neither placement demand nor
    /// pushable.
    pub fn set_next_task(&mut self, picked: &PickedThread)
        requires
            old(self).wf(),
            picked.thread_policy().valid(),
        ensures
            final(self).next_set(old(self), *picked),
            final(self).current == old(self).current,
            final(self).deadline.bandwidth == old(self).deadline.bandwidth,
            final(self).nr_running == old(self).nr_running,
            final(self).wf(),
    {
        let ghost before = *self;
        let policy = picked.policy();
        let id = picked.id();
        self.fixed_placement_demand = self.fixed_placement_demand.saturating_sub(
            policy.fixed_placement_demand(),
        );
        proof {
            RunQueue::wf_when_lists_stay(&before, self);
        }
        self.refresh_class_pushable(id, policy, Some(id));
        proof {
            reveal(RunQueue::next_set);
        }
    }

    /// `self` is `before` after a selection was returned.
    #[verifier::opaque]
    pub open spec fn rolled_back(&self, before: &Self, picked: PickedThread) -> bool {
        match picked {
            PickedThread::Linked(_) => *self == *before,
            PickedThread::Owned(thread) => {
                let class = QueueMembershipClass::home(thread.active.policy);
                let back = QueuedThread {
                    active: thread.active.with_effective(
                        match thread.entity() {
                            SchedulingEntity::Fair(fair) => if fair.carry is Migrating {
                                SchedulingEntity::Fair(
                                    FairEntity { carry: FairCarry::Resident, ..fair },
                                )
                            } else {
                                thread.entity()
                            },
                            other => other,
                        },
                    ),
                    ..thread
                };
                &&& self.list_of(class) == before.list_of(class).push(back)
                &&& self.only_list_changed(before, class)
                &&& self.membership@ == before.membership@.update(
                    thread.id.slot as int,
                    Some(QueueMembership { generation: thread.id.generation, class }),
                )
                &&& self.same_ledger(before)
                &&& self.same_times(before)
                &&& self.same_counters(before)
                &&& self.same_rt_pushable(before)
            },
        }
    }

    /// Returns a selection that will not run.
    pub fn rollback_pick(&mut self, picked: PickedThread)
        requires
            old(self).wf(),
            picked matches PickedThread::Owned(thread) ==> {
                &&& QueueMembershipClass::home(thread.active.policy).fits(thread)
                &&& thread.id.slot < old(self).membership@.len()
                &&& old(self).membership@[thread.id.slot as int] is None
                &&& thread.active.policy is KernelStop ==> old(self).stop is None
                &&& old(self).fair.entries@.len() < MAX_ENTRIES
                &&& old(self).idle_fair.entries@.len() < MAX_ENTRIES
            },
        ensures
            final(self).rolled_back(old(self), picked),
            final(self).current == old(self).current,
            final(self).deadline.bandwidth == old(self).deadline.bandwidth,
            final(self).wf(),
    {
        proof {
            reveal(RunQueue::rolled_back);
        }
        match picked {
            PickedThread::Linked(_) => {},
            PickedThread::Owned(thread) => {
                let mut thread = thread;
                let mut entity = thread.active.entity();
                entity.cancel_fair_migration();
                thread.active.set_entity(entity);
                let class = QueueMembershipClass::for_policy(thread.active.policy());
                self.link(class, thread, false);
            },
        }
    }

    /// Returns the running real-time or Deadline thread to the queued ones.
    pub fn put_prev_task(&mut self, id: ThreadId, reason: EnqueueReason) -> (result: Result<SchedulingEntity, TaskError>)
        requires
            old(self).wf(),
        ensures
            result == if old(self).linked() == Some(id) {
                Ok(old(self).record(id).entity())
            } else {
                Err(TaskError::NotReady)
            },
            result is Err ==> *final(self) == *old(self),
            result is Ok ==> {
                let class = old(self).member(id)->0;
                let list = old(self).list_of(class);
                let at = index_of(list, id);
                &&& final(self).list_of(class) == if class == QueueMembershipClass::Deadline {
                    list.update(
                        at,
                        QueuedThread { pushable: list[at].migration_capable, ..list[at] },
                    )
                } else if reason == EnqueueReason::Yield {
                    list.remove(at).push(list[at])
                } else {
                    list
                }
                &&& final(self).only_list_changed(old(self), class)
                &&& final(self).membership@ == old(self).membership@
                &&& final(self).fixed_placement_demand == saturated_add(
                    old(self).fixed_placement_demand,
                    list[at].active.policy.fixed_load(),
                )
                &&& final(self).current == old(self).current
                &&& final(self).balance_scan_epoch == old(self).balance_scan_epoch
                &&& final(self).next_sequence == old(self).next_sequence
                &&& final(self).nr_running == old(self).nr_running
                &&& final(self).same_ledger(old(self))
                &&& final(self).same_times(old(self))
                &&& forall|p: u8|
                    1 <= p <= 99 ==> #[trigger] final(self).rt_pushable(p) == if class
                        == QueueMembershipClass::Realtime(p) {
                        any_pushable(final(self).list_of(class), None)
                    } else {
                        old(self).rt_pushable(p)
                    }
            },
            final(self).wf(),
    {
        if !self.is_linked_current(id) {
            return Err(TaskError::NotReady);
        }
        let ghost before = *self;
        proof {
            before.member_record(id);
            before.indexed_slot_is_free_elsewhere(id);
        }
        let class = self.membership_class(id).unwrap();
        let ghost list = before.list_of(class);
        let ghost at = index_of(list, id);
        let thread = match class {
            QueueMembershipClass::Realtime(priority) => {
                assert(before.rt.level(priority) == list);
                self.rt.get(priority, id).unwrap()
            },
            _ => self.deadline.get(id).unwrap(),
        };
        let entity = thread.active.entity();
        let policy = thread.active.policy();
        if let QueueMembershipClass::Realtime(priority) = class {
            let _ = self.rt.put_prev_current(priority, id, reason);
            proof {
                assert(self.list_of(class) == if reason == EnqueueReason::Yield {
                    list.remove(at).push(list[at])
                } else {
                    list
                });
                assert forall|other: QueueMembershipClass| other.valid() && other != class implies
                    #[trigger] self.list_of(other) == before.list_of(other) by {
                    if let QueueMembershipClass::Realtime(q) = other {
                        assert(self.rt.levels@[q - 1] == before.rt.levels@[q - 1]);
                    }
                }
                assert forall|c: QueueMembershipClass, other: ThreadId|
                    c.valid() && other.slot != id.slot implies #[trigger] crate::scheduler::task::holds(
                    self.list_of(c),
                    other,
                ) == crate::scheduler::task::holds(before.list_of(c), other) by {
                    if c == class {
                        holds_after_remove(list, at, other);
                        holds_after_push(list.remove(at), list[at], other);
                    }
                }
                holds_after_push(list.remove(at), list[at], id);
                assert forall|c: QueueMembershipClass, i: int|
                    c.valid() && 0 <= i < self.list_of(c).len() implies c.fits(
                    #[trigger] self.list_of(c)[i],
                ) by {
                    if c == class && reason == EnqueueReason::Yield {
                        if i < at {
                            assert(self.list_of(c)[i] == list[i]);
                            assert(before.record_ok(c, i));
                        } else if i < list.len() - 1 {
                            assert(self.list_of(c)[i] == list[i + 1]);
                            assert(before.record_ok(c, i + 1));
                        }
                    } else {
                        assert(before.record_ok(c, i));
                    }
                }
                assert forall|c: QueueMembershipClass| c.valid() && c != class implies slot_free(
                    #[trigger] self.list_of(c),
                    id.slot,
                ) by {
                    assert(slot_free(before.list_of(c), id.slot));
                }
                RunQueue::wf_after_slot_change(&before, self, id);
            }
        }
        let ghost moved = *self;
        self.fixed_placement_demand = self.fixed_placement_demand.saturating_add(
            policy.fixed_placement_demand(),
        );
        proof {
            RunQueue::wf_when_lists_stay(&moved, self);
        }
        let ghost counted = *self;
        self.refresh_class_pushable(id, policy, None);
        proof {
            assert(counted.list_of(class) == moved.list_of(class));
            assert forall|other: QueueMembershipClass| other.valid() && other != class implies
                #[trigger] self.list_of(other) == before.list_of(other) by {
                assert(counted.list_of(other) == moved.list_of(other));
            }
            assert forall|p: u8| 1 <= p <= 99 implies #[trigger] self.rt_pushable(p) == if class
                == QueueMembershipClass::Realtime(p) {
                any_pushable(self.list_of(class), None)
            } else {
                before.rt_pushable(p)
            } by {
                assert(bit(counted.rt.pushable_bitmap, (p - 1) as u32) == bit(
                    moved.rt.pushable_bitmap,
                    (p - 1) as u32,
                ));
                if class == QueueMembershipClass::Realtime(p) {
                    assert(self.list_of(class) == counted.list_of(class));
                } else {
                    assert(counted.rt_pushable(p) == moved.rt_pushable(p));
                    assert(bit(moved.rt.pushable_bitmap, (p - 1) as u32) == bit(
                        before.rt.pushable_bitmap,
                        (p - 1) as u32,
                    ));
                }
            }
        }
        Ok(entity)
    }

    /// Links the running thread into the class that a change of policy gives
    /// it.
    pub fn link_running(&mut self, thread: QueuedThread) -> (result: Result<(), TaskError>)
        requires
            old(self).wf(),
            old(self).can_enqueue(thread),
        ensures
            result == if old(self).linked() is Some || !(thread.active.policy.is_deadline()
                || thread.active.policy.is_rt()) {
                Err(TaskError::InvalidConfiguration)
            } else if old(self).member(thread.id) is Some {
                Err(TaskError::AlreadyQueued)
            } else {
                Ok::<(), TaskError>(())
            },
            result is Err ==> *final(self) == *old(self),
            result is Ok ==> exists|queued: RunQueue|
                #[trigger] queued.enqueued(
                    old(self),
                    thread,
                    EnqueueReason::PolicyChanged,
                    None,
                ) && final(self).pushable_refreshed(
                    &(RunQueue {
                        fixed_placement_demand: saturated_sub(
                            queued.fixed_placement_demand,
                            thread.active.policy.fixed_load(),
                        ),
                        ..queued
                    }),
                    thread.id,
                    thread.active.policy,
                    Some(thread.id),
                ),
            final(self).wf(),
    {
        let policy = thread.active.policy();
        if self.linked_current().is_some() || !policy.retains_running_link() {
            return Err(TaskError::InvalidConfiguration);
        }
        match self.enqueue_task(thread, EnqueueReason::PolicyChanged, None) {
            Ok(_) => {},
            Err(error) => {
                return Err(error);
            },
        }
        let ghost queued = *self;
        self.fixed_placement_demand = self.fixed_placement_demand.saturating_sub(
            policy.fixed_placement_demand(),
        );
        proof {
            RunQueue::wf_when_lists_stay(&queued, self);
        }
        self.refresh_class_pushable(thread.id, policy, Some(thread.id));
        Ok(())
    }
}

/// Classes run strictly in order: a fair thread is selected only when no
/// stopper, no Deadline thread and no eligible real-time thread is there.
pub proof fn fair_runs_last(before: RunQueue, after: RunQueue, eligibility: RtEligibility, thread: QueuedThread)
    requires
        before.wf(),
        after.picks(&before, eligibility, Some(PickedThread::Owned(thread))),
        thread.active.policy is Fair,
    ensures
        before.stop is None,
        before.deadline.entries@.len() == 0,
        eligibility == RtEligibility::Throttled || !before.has_rt_thread(),
{
    reveal(RunQueue::picks);
    if before.stop is Some {
        assert(before.record_ok(QueueMembershipClass::Stop, 0));
    }
}

/// A CPU with a runnable thread never idles, unless all it has is a throttled
/// real-time class.
pub proof fn selection_is_work_conserving(before: RunQueue, after: RunQueue, eligibility: RtEligibility)
    requires
        before.wf(),
        after.picks(&before, eligibility, None),
    ensures
        before.stop is None,
        before.deadline.entries@.len() == 0,
        before.fair.entries@.len() == 0,
        before.idle_fair.entries@.len() == 0,
        eligibility == RtEligibility::Throttled || !before.has_rt_thread(),
{
    reveal(RealtimeRunQueue::occupied);
    reveal(RunQueue::picks);
}

} // verus!
