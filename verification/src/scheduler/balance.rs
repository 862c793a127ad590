//! Moving threads between run queues, and changes to queued threads in place.
use vstd::prelude::*;
use crate::error::TaskError;
use crate::ids::ThreadId;
use crate::scheduler::entity::{FairEntity, SchedulingEntity};
use crate::scheduler::realtime::{RT_PRIORITY_LEVELS, any_pushable, bit};
use crate::scheduler::run_queue::{QueueMembershipClass, RunQueue, saturated_add};
use crate::scheduler::task::{
    QueuedThread, QueuedThreadSnapshot, first_due, first_due_is_admitted, index_of,
    index_of_is_unique, verdicts,
};

verus! {

/// `verdict` is an answer to whether a queued thread may be moved in a scan:
/// the running thread and those already offered may not, and of any other the
/// caller's test decides.
pub open spec fn movable<F: Fn(&QueuedThread) -> bool>(
    may_migrate: F,
    linked: Option<ThreadId>,
    epoch: u64,
    thread: QueuedThread,
    verdict: bool,
) -> bool {
    let open = linked != Some(thread.id) && thread.balance_scan_epoch != epoch;
    if verdict {
        open && call_ensures(may_migrate, (&thread,), true)
    } else {
        !open || call_ensures(may_migrate, (&thread,), false)
    }
}

/// `admitted` answers the question for every record of a list.
pub open spec fn judged<F: Fn(&QueuedThread) -> bool>(
    may_migrate: F,
    linked: Option<ThreadId>,
    epoch: u64,
    list: Seq<QueuedThread>,
    admitted: Seq<bool>,
) -> bool {
    &&& admitted.len() == list.len()
    &&& forall|i: int|
        0 <= i < list.len() ==> movable(may_migrate, linked, epoch, list[i], #[trigger] admitted[i])
}

/// No record of a list may be moved.
pub open spec fn none_movable<F: Fn(&QueuedThread) -> bool>(
    may_migrate: F,
    linked: Option<ThreadId>,
    epoch: u64,
    list: Seq<QueuedThread>,
) -> bool {
    forall|i: int| 0 <= i < list.len() ==> movable(may_migrate, linked, epoch, #[trigger] list[i], false)
}

/// The record of a thread that a scan has offered.
pub open spec fn marked(thread: QueuedThread, epoch: u64) -> QueuedThread {
    QueuedThread { balance_scan_epoch: epoch, ..thread }
}

impl RunQueue {
    pub fn has_pushable_deadline(&self) -> (any: bool)
        ensures
            any == exists|i: int|
                0 <= i < self.deadline.entries@.len() && (#[trigger] self.deadline.entries@[i]).pushable,
    {
        self.deadline.has_pushable()
    }

    pub fn has_pushable_realtime(&self) -> (any: bool)
        ensures
            any == exists|p: u8| 1 <= p <= 99 && #[trigger] self.rt_pushable(p),
    {
        let any = self.rt.has_pushable();
        proof {
            if any {
                let j = choose|j: u32| j < 99 && #[trigger] bit(self.rt.pushable_bitmap, j);
                assert(self.rt_pushable((j + 1) as u8));
            }
            if exists|p: u8| 1 <= p <= 99 && #[trigger] self.rt_pushable(p) {
                let p = choose|p: u8| 1 <= p <= 99 && #[trigger] self.rt_pushable(p);
                assert(bit(self.rt.pushable_bitmap, (p - 1) as u32));
            }
        }
        any
    }

    pub fn has_pushable_fair(&self) -> (any: bool)
        ensures
            any == exists|i: int|
                0 <= i < self.fair.entries@.len() && (#[trigger] self.fair.entries@[i]).migration_capable,
    {
        self.fair.has_migratable()
    }

    /// Starts a scan in which every thread is offered at most once.
    pub fn begin_balance_scan(&mut self) -> (epoch: u64)
        requires
            old(self).balance_scan_epoch < u64::MAX,
        ensures
            epoch == old(self).balance_scan_epoch + 1,
            *final(self) == (RunQueue { balance_scan_epoch: epoch, ..*old(self) }),
            old(self).wf() ==> final(self).wf(),
    {
        let ghost before = *self;
        self.balance_scan_epoch = self.balance_scan_epoch + 1;
        proof {
            if before.wf() {
                RunQueue::wf_when_lists_stay(&before, self);
            }
        }
        self.balance_scan_epoch
    }

    /// The record at `at` of a list is the next one to offer: Deadline threads
    /// by deadline, then real-time ones by priority and arrival, then fair ones
    /// by virtual deadline.
    pub open spec fn is_next_candidate<F: Fn(&QueuedThread) -> bool>(
        &self,
        may_migrate: F,
        epoch: u64,
        class: QueueMembershipClass,
        at: int,
    ) -> bool {
        let linked = self.linked();
        let list = self.list_of(class);
        &&& 0 <= at < list.len()
        &&& movable(may_migrate, linked, epoch, list[at], true)
        &&& match class {
            QueueMembershipClass::Deadline => exists|admitted: Seq<bool>|
                #[trigger] judged(may_migrate, linked, epoch, list, admitted) && first_due(
                    list,
                    admitted,
                    list.len() as int,
                ) == Some(at),
            QueueMembershipClass::Realtime(p) => {
                &&& none_movable(may_migrate, linked, epoch, self.deadline.entries@)
                &&& forall|q: int|
                    p <= q < RT_PRIORITY_LEVELS ==> none_movable(
                        may_migrate,
                        linked,
                        epoch,
                        #[trigger] self.rt.levels@[q]@,
                    )
                &&& forall|j: int|
                    0 <= j < at ==> movable(may_migrate, linked, epoch, #[trigger] list[j], false)
            },
            QueueMembershipClass::Fair => {
                &&& none_movable(may_migrate, linked, epoch, self.deadline.entries@)
                &&& forall|q: int|
                    0 <= q < RT_PRIORITY_LEVELS ==> none_movable(
                        may_migrate,
                        linked,
                        epoch,
                        #[trigger] self.rt.levels@[q]@,
                    )
                &&& exists|admitted: Seq<bool>|
                    #[trigger] judged(may_migrate, linked, epoch, list, admitted) && first_due(
                        list,
                        admitted,
                        list.len() as int,
                    ) == Some(at)
            },
            _ => false,
        }
    }

    /// `self` is `before` after the next thread that may leave was offered, if
    /// there is one.
    pub open spec fn offers<F: Fn(&QueuedThread) -> bool>(
        &self,
        before: &Self,
        may_migrate: F,
        epoch: u64,
        candidate: Option<QueuedThreadSnapshot>,
    ) -> bool {
        &&& match candidate {
            Some(snapshot) => exists|class: QueueMembershipClass, at: int|
                #[trigger] before.is_next_candidate(may_migrate, epoch, class, at) && {
                    let list = before.list_of(class);
                    &&& class.valid()
                    &&& snapshot == list[at].snapshot()
                    &&& self.list_of(class) == list.update(at, marked(list[at], epoch))
                    &&& self.only_list_changed(before, class)
                },
            None => {
                &&& *self == *before
                &&& none_movable(may_migrate, before.linked(), epoch, before.deadline.entries@)
                &&& forall|q: int|
                    0 <= q < RT_PRIORITY_LEVELS ==> none_movable(
                        may_migrate,
                        before.linked(),
                        epoch,
                        #[trigger] before.rt.levels@[q]@,
                    )
                &&& none_movable(may_migrate, before.linked(), epoch, before.fair.entries@)
            },
        }
        &&& self.membership@ == before.membership@
        &&& self.same_ledger(before)
        &&& self.same_times(before)
        &&& self.same_rt_pushable(before)
        &&& self.same_counters(before)
    }

    /// Offers the next thread that may leave this CPU and marks it as offered.
    pub fn next_balance_candidate<F: Fn(&QueuedThread) -> bool + Copy>(&mut self, scan_epoch: u64, may_migrate: F) -> (candidate: Option<QueuedThreadSnapshot>)
        requires
            old(self).wf(),
            forall|t: QueuedThread| call_requires(may_migrate, (&t,)),
        ensures
            final(self).offers(old(self), may_migrate, scan_epoch, candidate),
            final(self).wf(),
    {
        let linked = self.linked_current();
        let test = |thread: &QueuedThread| -> (verdict: bool)
            ensures
                movable(may_migrate, linked, scan_epoch, *thread, verdict),
            {
                let is_current = match linked {
                    Some(current) => current == thread.id,
                    None => false,
                };
                !is_current && thread.balance_scan_epoch != scan_epoch && may_migrate(thread)
            };
        let found = self.deadline.find_first_matching(test);
        proof {
            let list = self.deadline.entries@;
            let admitted = choose|admitted: Seq<bool>|
                #[trigger] verdicts(list, test, admitted) && found == match first_due(
                    list,
                    admitted,
                    list.len() as int,
                ) {
                    Some(i) => Some(list[i].snapshot()),
                    None => None,
                };
            assert(judged(may_migrate, linked, scan_epoch, list, admitted));
            first_due_is_admitted(list, admitted, list.len() as int);
            match first_due(list, admitted, list.len() as int) {
                Some(i) => {
                    assert(admitted[i]);
                    assert(self.is_next_candidate(
                        may_migrate,
                        scan_epoch,
                        QueueMembershipClass::Deadline,
                        i,
                    ));
                },
                None => {
                    assert forall|i: int| 0 <= i < list.len() implies movable(
                        may_migrate,
                        linked,
                        scan_epoch,
                        #[trigger] list[i],
                        false,
                    ) by {
                        assert(!admitted[i]);
                    }
                },
            }
        }
        if let Some(snapshot) = found {
            let ghost at = choose|at: int|
                self.is_next_candidate(may_migrate, scan_epoch, QueueMembershipClass::Deadline, at)
                    && snapshot == self.deadline.entries@[at].snapshot();
            self.mark_balance_candidate(
                QueueMembershipClass::Deadline,
                snapshot.id,
                scan_epoch,
                Ghost(at),
            );
            return Some(snapshot);
        }
        let found = self.rt.find_first_matching(test);
        if let Some(snapshot) = found {
            let ghost (p, k) = choose|p: int, k: int| #![trigger self.rt.levels@[p]@[k]]
                0 <= p < RT_PRIORITY_LEVELS && 0 <= k < self.rt.levels@[p]@.len() && snapshot
                    == self.rt.levels@[p]@[k].snapshot() && call_ensures(
                    test,
                    (&self.rt.levels@[p]@[k],),
                    true,
                ) && (forall|j: int|
                    0 <= j < k ==> call_ensures(test, (&#[trigger] self.rt.levels@[p]@[j],), false))
                    && (forall|q: int, j: int|
                    p < q < RT_PRIORITY_LEVELS && 0 <= j < self.rt.levels@[q]@.len() ==> call_ensures(
                        test,
                        (&#[trigger] self.rt.levels@[q]@[j],),
                        false,
                    ));
            let class = QueueMembershipClass::for_policy(snapshot.policy);
            proof {
                let level = QueueMembershipClass::Realtime((p + 1) as u8);
                assert(self.list_of(level) == self.rt.levels@[p]@);
                assert(self.record_ok(level, k));
                assert(class == level);
                assert forall|q: int| p + 1 <= q < RT_PRIORITY_LEVELS implies none_movable(
                    may_migrate,
                    linked,
                    scan_epoch,
                    #[trigger] self.rt.levels@[q]@,
                ) by {
                    assert forall|j: int| 0 <= j < self.rt.levels@[q]@.len() implies movable(
                        may_migrate,
                        linked,
                        scan_epoch,
                        #[trigger] self.rt.levels@[q]@[j],
                        false,
                    ) by {
                        assert(call_ensures(test, (&self.rt.levels@[q]@[j],), false));
                    }
                }
                assert forall|j: int| 0 <= j < k implies movable(
                    may_migrate,
                    linked,
                    scan_epoch,
                    #[trigger] self.list_of(level)[j],
                    false,
                ) by {
                    assert(call_ensures(test, (&self.rt.levels@[p]@[j],), false));
                }
                assert(self.is_next_candidate(may_migrate, scan_epoch, level, k));
            }
            self.mark_balance_candidate(class, snapshot.id, scan_epoch, Ghost(k));
            return Some(snapshot);
        }
        proof {
            assert forall|q: int| 0 <= q < RT_PRIORITY_LEVELS implies none_movable(
                may_migrate,
                linked,
                scan_epoch,
                #[trigger] self.rt.levels@[q]@,
            ) by {
                assert forall|j: int| 0 <= j < self.rt.levels@[q]@.len() implies movable(
                    may_migrate,
                    linked,
                    scan_epoch,
                    #[trigger] self.rt.levels@[q]@[j],
                    false,
                ) by {
                    assert(call_ensures(test, (&self.rt.levels@[q]@[j],), false));
                }
            }
        }
        let found = self.fair.find_first_matching(test);
        proof {
            let list = self.fair.entries@;
            let admitted = choose|admitted: Seq<bool>|
                #[trigger] verdicts(list, test, admitted) && found == match first_due(
                    list,
                    admitted,
                    list.len() as int,
                ) {
                    Some(i) => Some(list[i].snapshot()),
                    None => None,
                };
            assert(judged(may_migrate, linked, scan_epoch, list, admitted));
            first_due_is_admitted(list, admitted, list.len() as int);
            match first_due(list, admitted, list.len() as int) {
                Some(i) => {
                    assert(admitted[i]);
                    assert(self.is_next_candidate(
                        may_migrate,
                        scan_epoch,
                        QueueMembershipClass::Fair,
                        i,
                    ));
                },
                None => {
                    assert forall|i: int| 0 <= i < list.len() implies movable(
                        may_migrate,
                        linked,
                        scan_epoch,
                        #[trigger] list[i],
                        false,
                    ) by {
                        assert(!admitted[i]);
                    }
                },
            }
        }
        if let Some(snapshot) = found {
            let ghost at = choose|at: int|
                self.is_next_candidate(may_migrate, scan_epoch, QueueMembershipClass::Fair, at)
                    && snapshot == self.fair.entries@[at].snapshot();
            self.mark_balance_candidate(
                QueueMembershipClass::Fair,
                snapshot.id,
                scan_epoch,
                Ghost(at),
            );
            return Some(snapshot);
        }
        None
    }

    fn mark_balance_candidate(
        &mut self,
        class: QueueMembershipClass,
        id: ThreadId,
        scan_epoch: u64,
        Ghost(at): Ghost<int>,
    )
        requires
            old(self).wf(),
            class.valid(),
            0 <= at < old(self).list_of(class).len(),
            old(self).list_of(class)[at].id == id,
        ensures
            final(self).list_of(class) == old(self).list_of(class).update(
                at,
                QueuedThread { balance_scan_epoch: scan_epoch, ..old(self).list_of(class)[at] },
            ),
            final(self).only_list_changed(old(self), class),
            final(self).membership@ == old(self).membership@,
            final(self).same_ledger(old(self)),
            final(self).same_times(old(self)),
            final(self).same_rt_pushable(old(self)),
            final(self).same_counters(old(self)),
            final(self).wf(),
    {
        proof {
            self.lists_are_distinct(class);
            index_of_is_unique(self.list_of(class), id, at);
            assert(self.record_ok(class, at));
        }
        let mut thread = self.queued_record(id).unwrap();
        thread.balance_scan_epoch = scan_epoch;
        self.replace(class, thread);
    }

    /// Replaces the Deadline server state of a queued thread. Reports whether
    /// the thread is queued in the Deadline class.
    pub fn update_base_deadline_entity(&mut self, id: ThreadId, entity: SchedulingEntity) -> (updated: bool)
        requires
            old(self).wf(),
            entity is Deadline,
            entity.wf(),
            entity.as_deadline()->0.absolute_deadline is Some,
        ensures
            updated == (old(self).member(id) == Some(QueueMembershipClass::Deadline) || old(self).member(id) == Some(QueueMembershipClass::DeadlineThrottled)),
            updated ==> {
                let class = old(self).member(id)->0;
                let list = old(self).list_of(class);
                let at = index_of(list, id);
                let changed = QueuedThread {
                    active: crate::scheduler::task::ActiveSchedulingState {
                        base_entity: entity,
                        ..list[at].active
                    },
                    ..list[at]
                };
                &&& final(self).list_of(class) == list.update(
                    at,
                    if class == QueueMembershipClass::Deadline && list[at].active.inherited is None {
                        QueuedThread {
                            pushable: changed.migration_capable && old(self).linked() != Some(id),
                            ..changed
                        }
                    } else {
                        changed
                    },
                )
                &&& final(self).only_list_changed(old(self), class)
            },
            !updated ==> *final(self) == *old(self),
            final(self).membership@ == old(self).membership@,
            final(self).same_ledger(old(self)),
            final(self).same_times(old(self)),
            final(self).same_rt_pushable(old(self)),
            final(self).same_counters(old(self)),
            final(self).wf(),
    {
        let ghost before = *self;
        match self.membership_class(id) {
            Some(QueueMembershipClass::Deadline) => {
                proof {
                    self.member_record(id);
                }
                let mut thread = self.queued_record(id).unwrap();
                thread.active.replace_base_entity(entity);
                if !thread.active.uses_inherited_entity() {
                    let linked = self.is_linked_current(id);
                    thread.pushable = thread.migration_capable && !linked;
                }
                self.replace(QueueMembershipClass::Deadline, thread);
                true
            },
            Some(QueueMembershipClass::DeadlineThrottled) => {
                proof {
                    self.member_record(id);
                }
                let mut thread = self.queued_record(id).unwrap();
                thread.active.replace_base_entity(entity);
                self.replace(QueueMembershipClass::DeadlineThrottled, thread);
                true
            },
            _ => false,
        }
    }

    /// `self` is `before` with another mark on whether a queued thread may leave.
    #[verifier::opaque]
    pub open spec fn remarked(&self, before: &Self, id: ThreadId, migration_capable: bool) -> bool {
        let class = before.member(id)->0;
        let list = before.list_of(class);
        let at = index_of(list, id);
        let capable = migration_capable && class != QueueMembershipClass::Stop;
        &&& self.list_of(class) == list.update(
            at,
            QueuedThread {
                migration_capable: capable,
                pushable: if class == QueueMembershipClass::Deadline {
                    capable && before.linked() != Some(id)
                } else {
                    list[at].pushable
                },
                ..list[at]
            },
        )
        &&& self.only_list_changed(before, class)
        &&& forall|p: u8|
            1 <= p <= 99 ==> #[trigger] self.rt_pushable(p) == if class
                == QueueMembershipClass::Realtime(p) {
                any_pushable(self.list_of(class), before.linked())
            } else {
                before.rt_pushable(p)
            }
        &&& self.membership@ == before.membership@
        &&& self.same_ledger(before)
        &&& self.same_times(before)
        &&& self.same_counters(before)
    }

    /// Records whether a queued thread may leave this CPU. Reports whether the
    /// thread is queued. The stopper never leaves.
    pub fn update_migration_capability(&mut self, id: ThreadId, migration_capable: bool) -> (updated: bool)
        requires
            old(self).wf(),
        ensures
            updated == (old(self).member(id) is Some),
            updated ==> final(self).remarked(old(self), id, migration_capable),
            !updated ==> *final(self) == *old(self),
            final(self).wf(),
    {
        proof {
            reveal(RunQueue::remarked);
        }
        let class = match self.membership_class(id) {
            Some(class) => class,
            None => {
                return false;
            },
        };
        let ghost before = *self;
        proof {
            self.member_record(id);
        }
        let mut thread = self.queued_record(id).unwrap();
        let linked = self.linked_current();
        match class {
            QueueMembershipClass::Stop => {
                thread.migration_capable = false;
            },
            QueueMembershipClass::Deadline => {
                let is_current = match linked {
                    Some(current) => current == id,
                    None => false,
                };
                thread.migration_capable = migration_capable;
                thread.pushable = migration_capable && !is_current;
            },
            _ => {
                thread.migration_capable = migration_capable;
            },
        }
        self.replace(class, thread);
        if let QueueMembershipClass::Realtime(priority) = class {
            let ghost replaced = *self;
            self.refresh_class_pushable(id, thread.active.policy(), linked);
            proof {
                assert(self.list_of(class) == replaced.list_of(class));
                assert forall|other: QueueMembershipClass| other.valid() && other != class implies
                    #[trigger] self.list_of(other) == before.list_of(other) by {
                    assert(self.list_of(other) == replaced.list_of(other));
                }
            }
        }
        true
    }

    /// Grants a throttled Deadline thread a new budget and makes it runnable.
    pub fn replenish_throttled_deadline(&mut self, id: ThreadId, entity: SchedulingEntity) -> (result: Result<(), TaskError>)
        requires
            old(self).wf(),
            entity.wf(),
            entity is Deadline,
            entity.as_deadline()->0.absolute_deadline is Some,
            old(self).nr_running < usize::MAX,
        ensures
            result == if old(self).member(id) != Some(QueueMembershipClass::DeadlineThrottled)
                || entity.is_throttled() {
                Err(TaskError::NotReady)
            } else {
                Ok::<(), TaskError>(())
            },
            result is Err ==> *final(self) == *old(self),
            result is Ok ==> {
                let list = old(self).list_of(QueueMembershipClass::DeadlineThrottled);
                let at = index_of(list, id);
                let thread = QueuedThread {
                    active: list[at].active.with_effective(entity),
                    pushable: list[at].migration_capable && final(self).linked() != Some(id),
                    ..list[at]
                };
                &&& final(self).list_of(QueueMembershipClass::DeadlineThrottled) == list.remove(at)
                &&& final(self).list_of(QueueMembershipClass::Deadline) == old(self).list_of(
                    QueueMembershipClass::Deadline,
                ).push(thread)
                &&& forall|other: QueueMembershipClass|
                    other.valid() && other != QueueMembershipClass::Deadline && other
                        != QueueMembershipClass::DeadlineThrottled
                        ==> #[trigger] final(self).list_of(other) == old(self).list_of(other)
                &&& final(self).member(id) == Some(QueueMembershipClass::Deadline)
                &&& final(self).nr_running == old(self).nr_running + 1
                &&& final(self).fixed_placement_demand == saturated_add(
                    old(self).fixed_placement_demand,
                    thread.active.policy.fixed_load(),
                )
                &&& final(self).current == old(self).current
                &&& final(self).next_sequence == old(self).next_sequence
                &&& final(self).same_ledger(old(self))
                &&& final(self).balance_scan_epoch == old(self).balance_scan_epoch
                &&& final(self).same_times(old(self))
                &&& final(self).same_rt_pushable(old(self))
            },
            final(self).wf(),
    {
        if !self.is_deadline_throttled_member(id) || entity.is_deadline_throttled() {
            return Err(TaskError::NotReady);
        }
        let ghost before = *self;
        proof {
            self.member_record(id);
        }
        let mut thread = self.unlink(QueueMembershipClass::DeadlineThrottled, id);
        let ghost unlinked = *self;
        thread.active.set_entity(entity);
        let policy = thread.active.policy();
        let runs = match self.current {
            Some(current) => current.thread == id,
            None => false,
        };
        thread.pushable = thread.migration_capable && !runs;
        self.link(QueueMembershipClass::Deadline, thread, false);
        let ghost linked = *self;
        self.nr_running = self.nr_running + 1;
        self.fixed_placement_demand = self.fixed_placement_demand.saturating_add(
            policy.fixed_placement_demand(),
        );
        proof {
            RunQueue::wf_when_lists_stay(&linked, self);
            assert forall|other: QueueMembershipClass|
                other.valid() && other != QueueMembershipClass::Deadline implies
                #[trigger] self.list_of(other) == unlinked.list_of(other) by {
                assert(self.list_of(other) == linked.list_of(other));
            }
            assert(self.list_of(QueueMembershipClass::Deadline) == linked.list_of(
                QueueMembershipClass::Deadline,
            ));
            assert(unlinked.list_of(QueueMembershipClass::Deadline) == before.list_of(
                QueueMembershipClass::Deadline,
            ));
            assert forall|p: u8| 1 <= p <= 99 implies #[trigger] self.rt_pushable(p)
                == before.rt_pushable(p) by {
                assert(self.rt_pushable(p) == linked.rt_pushable(p));
                assert(linked.rt_pushable(p) == unlinked.rt_pushable(p));
            }
        }
        Ok(())
    }

    /// Whether the running Deadline thread, with its budget replenished, should
    /// give way to an earlier deadline.
    pub fn requeue_replenished_deadline_current(&mut self, id: ThreadId) -> (result: Result<bool, TaskError>)
        requires
            old(self).wf(),
        ensures
            result == if old(self).linked() != Some(id) {
                Err(TaskError::NotReady)
            } else if old(self).member(id) != Some(QueueMembershipClass::Deadline) {
                Err(TaskError::InvalidConfiguration)
            } else {
                Ok(
                    old(self).deadline.entries@[old(self).deadline.choice()->0].id != id,
                )
            },
            *final(self) == *old(self),
    {
        if !self.is_linked_current(id) {
            return Err(TaskError::NotReady);
        }
        match self.membership_class(id) {
            Some(QueueMembershipClass::Deadline) => {},
            _ => {
                return Err(TaskError::InvalidConfiguration);
            },
        }
        proof {
            self.member_record(id);
        }
        match self.deadline.first() {
            Some(thread) => Ok(thread.id != id),
            None => Ok(false),
        }
    }

    /// Remembers the fair lag of a linked thread's own entity for a move.
    /// Reports whether the thread is linked in a real-time or Deadline list.
    pub fn capture_linked_fair_migration(&mut self, id: ThreadId, virtual_time: u64, granularity_ns: u64) -> (captured: bool)
        requires
            old(self).wf(),
        ensures
            captured == (old(self).member(id) matches Some(class) && (class
                == QueueMembershipClass::Deadline || class is Realtime)),
            captured ==> {
                let class = old(self).member(id)->0;
                let list = old(self).list_of(class);
                let at = index_of(list, id);
                &&& final(self).list_of(class) == list.update(
                    at,
                    QueuedThread {
                        active: crate::scheduler::task::ActiveSchedulingState {
                            base_entity: list[at].active.base_entity.in_transit(
                                virtual_time,
                                granularity_ns,
                            ),
                            ..list[at].active
                        },
                        ..list[at]
                    },
                )
                &&& final(self).only_list_changed(old(self), class)
            },
            !captured ==> *final(self) == *old(self),
            final(self).membership@ == old(self).membership@,
            final(self).same_ledger(old(self)),
            final(self).same_times(old(self)),
            final(self).same_rt_pushable(old(self)),
            final(self).same_counters(old(self)),
            final(self).wf(),
    {
        let class = match self.membership_class(id) {
            Some(class) => class,
            None => {
                return false;
            },
        };
        match class {
            QueueMembershipClass::Deadline | QueueMembershipClass::Realtime(_) => {},
            _ => {
                return false;
            },
        }
        proof {
            self.member_record(id);
        }
        let mut thread = self.queued_record(id).unwrap();
        let mut base = thread.active.base_entity();
        base.capture_fair_migration(virtual_time, granularity_ns);
        thread.active.replace_base_entity(base);
        self.replace(class, thread);
        true
    }

    /// `self` is `before` after a waiting thread was taken out for another run
    /// queue.
    #[verifier::opaque]
    pub open spec fn parted(&self, before: &Self, id: ThreadId, current_fair: Option<FairEntity>, granularity_ns: u64, thread: QueuedThread) -> bool {
        exists|timed: RunQueue, left: RunQueue|
            #[trigger] timed.times_updated(before, current_fair)
                && #[trigger] left.departed(&timed, id, true) && timed.same_ledger(before) && timed.same_lists(before)
                && timed.membership@ == before.membership@ && timed.same_counters(
                before,
            ) && timed.same_rt_pushable(before) && {
                let record = timed.record(id);
                &&& thread == if before.member(id) == Some(
                    QueueMembershipClass::DeadlineThrottled,
                ) {
                    record
                } else {
                    QueuedThread {
                        active: record.active.with_effective(
                            match record.entity() {
                                SchedulingEntity::Fair(fair) => record.entity().in_transit(
                                    timed.mode_time(fair.mode),
                                    granularity_ns,
                                ),
                                other => other,
                            },
                        ),
                        ..record
                    }
                }
                &&& self.same_lists(&left)
                &&& self.membership@ == left.membership@
                &&& self.same_counters(&left)
                &&& self.same_ledger(&left)
                &&& self.same_rt_pushable(&left)
                &&& if before.member(id) == Some(
                    QueueMembershipClass::DeadlineThrottled,
                ) {
                    self.same_times(&left)
                } else {
                    self.times_updated(&left, current_fair)
                }
            }
    }

    /// Takes a waiting thread out for another run queue. A fair one remembers
    /// its lag against the virtual time of the queue that it leaves.
    pub fn detach_for_transfer(&mut self, id: ThreadId, current_fair: Option<FairEntity>, granularity_ns: u64) -> (detached: Option<QueuedThread>)
        requires
            old(self).wf(),
            current_fair matches Some(entity) ==> entity.wf(),
            old(self).member(id) is Some && old(self).member(id) != Some(
                QueueMembershipClass::DeadlineThrottled,
            ) ==> old(self).nr_running > 0,
        ensures
            detached is Some <==> old(self).linked() != Some(id) && old(self).member(id) is Some,
            old(self).linked() == Some(id) ==> *final(self) == *old(self),
            detached matches Some(thread) ==> final(self).parted(
                old(self),
                id,
                current_fair,
                granularity_ns,
                thread,
            ),
            detached matches Some(thread) ==> final(self).current == old(self).current
                && final(self).member(id) is None && thread.active.wf(),
            detached is None && old(self).linked() != Some(id) ==> {
                &&& final(self).times_updated(old(self), current_fair)
                &&& final(self).same_lists(old(self))
                &&& final(self).membership@ == old(self).membership@
                &&& final(self).same_counters(old(self))
                &&& final(self).same_ledger(old(self))
                &&& final(self).same_rt_pushable(old(self))
            },
            final(self).wf(),
    {
        proof {
            reveal(RunQueue::parted);
            if self.member(id) is Some {
                self.member_record(id);
            }
        }
        if self.is_linked_current(id) {
            return None;
        }
        let ghost before = *self;
        self.update_fair_virtual_time(current_fair);
        let ghost timed = *self;
        proof {
            if before.member(id) is Some {
                before.member_record(id);
                assert(timed.list_of(before.member(id)->0) == before.list_of(before.member(id)->0));
            }
        }
        let throttled = self.is_deadline_throttled_member(id);
        let removed = self.deactivate_task(id);
        let mut thread = match removed {
            Some(thread) => thread,
            None => {
                return None;
            },
        };
        let ghost left = *self;
        if throttled {
            return Some(thread);
        }
        if let SchedulingEntity::Fair(fair) = thread.active.entity() {
            let mut entity = thread.active.entity();
            let virtual_time: u64 = self.virtual_time_for_mode(fair.mode);
            proof {
                timed.member_record(id);
            }
            entity.capture_fair_migration(virtual_time, granularity_ns);
            thread.active.set_entity(entity);
        }
        self.update_fair_virtual_time(current_fair);
        Some(thread)
    }
}

} // verus!
