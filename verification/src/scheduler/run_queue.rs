//! The run queue of one CPU: all classes behind one membership index.
use vstd::prelude::*;
use crate::cpu::dispatch::CurrentDispatch;
use crate::ids::ThreadId;
use crate::scheduler::deadline::{DeadlineRunQueue, deadline_record};
use crate::scheduler::entity::{EnqueueReason, FairEntity, SchedulingEntity};
use crate::scheduler::fair::{FairRunQueue, MAX_ENTRIES, mean_time, weight_sum};
use crate::scheduler::policy::{FairMode, SchedulePolicy, SchedulerClass};
use crate::scheduler::realtime::{RealtimeRunQueue, bit};
use crate::scheduler::task::{
    QueuedThread, distinct, holds, holds_after_prepend, holds_after_push, holds_after_remove,
    holds_after_update, index_of,
};

verus! {

/// Whether the real-time class may run.
#[derive(Clone, Copy, Debug, PartialEq, Eq, Structural)]
pub enum RtEligibility {
    Runnable,
    Throttled,
}

/// The list of a run queue that holds a thread.
#[derive(Clone, Copy, Debug, PartialEq, Eq, Structural)]
pub enum QueueMembershipClass {
    Stop,
    Deadline,
    DeadlineThrottled,
    Realtime(u8),
    Fair,
    IdleFair,
}

impl QueueMembershipClass {
    /// A real-time list exists for the priorities 1 to 99.
    pub open spec fn valid(self) -> bool {
        self matches QueueMembershipClass::Realtime(priority) ==> 1 <= priority <= 99
    }

    /// The list that holds runnable threads of a policy.
    pub open spec fn home(policy: SchedulePolicy) -> Self {
        match policy {
            SchedulePolicy::KernelStop => QueueMembershipClass::Stop,
            SchedulePolicy::Deadline(_) => QueueMembershipClass::Deadline,
            SchedulePolicy::Fifo { priority } => QueueMembershipClass::Realtime(priority.value),
            SchedulePolicy::RoundRobin { priority, .. } => QueueMembershipClass::Realtime(
                priority.value,
            ),
            SchedulePolicy::Fair { mode, .. } => if mode == FairMode::Idle {
                QueueMembershipClass::IdleFair
            } else {
                QueueMembershipClass::Fair
            },
        }
    }

    /// Whether a record belongs in this list.
    pub open spec fn fits(self, thread: QueuedThread) -> bool {
        &&& thread.active.wf()
        &&& match self {
            QueueMembershipClass::DeadlineThrottled => thread.active.policy is Deadline,
            QueueMembershipClass::Deadline => thread.active.policy is Deadline && deadline_record(
                thread,
            ),
            _ => Self::home(thread.active.policy) == self,
        }
    }

    pub fn for_policy(policy: SchedulePolicy) -> (class: Self)
        ensures
            class == Self::home(policy),
    {
        match policy {
            SchedulePolicy::KernelStop => QueueMembershipClass::Stop,
            SchedulePolicy::Deadline(_) => QueueMembershipClass::Deadline,
            SchedulePolicy::Fifo { priority } => QueueMembershipClass::Realtime(priority.value),
            SchedulePolicy::RoundRobin { priority, .. } => QueueMembershipClass::Realtime(
                priority.value,
            ),
            SchedulePolicy::Fair { mode, .. } => match mode {
                FairMode::Idle => QueueMembershipClass::IdleFair,
                FairMode::Normal | FairMode::Batch => QueueMembershipClass::Fair,
            },
        }
    }

    pub fn scheduler_class(&self) -> (class: SchedulerClass)
        ensures
            class == match *self {
                QueueMembershipClass::Stop => SchedulerClass::Stop,
                QueueMembershipClass::Deadline => SchedulerClass::Deadline,
                QueueMembershipClass::DeadlineThrottled => SchedulerClass::Deadline,
                QueueMembershipClass::Realtime(_) => SchedulerClass::Realtime,
                QueueMembershipClass::Fair => SchedulerClass::Fair,
                QueueMembershipClass::IdleFair => SchedulerClass::IdleFair,
            },
    {
        match self {
            QueueMembershipClass::Stop => SchedulerClass::Stop,
            QueueMembershipClass::Deadline | QueueMembershipClass::DeadlineThrottled => SchedulerClass::Deadline,
            QueueMembershipClass::Realtime(_) => SchedulerClass::Realtime,
            QueueMembershipClass::Fair => SchedulerClass::Fair,
            QueueMembershipClass::IdleFair => SchedulerClass::IdleFair,
        }
    }
}

/// Which generation of a registry slot is queued, and in which list.
#[derive(Clone, Copy, Debug, PartialEq, Eq, Structural)]
pub struct QueueMembership {
    pub generation: u32,
    pub class: QueueMembershipClass,
}

/// Runnable threads of one CPU.
#[derive(Debug)]
pub struct RunQueue {
    pub current: Option<CurrentDispatch>,
    pub stop: Option<QueuedThread>,
    pub deadline: DeadlineRunQueue,
    pub rt: RealtimeRunQueue,
    pub fair: FairRunQueue,
    pub idle_fair: FairRunQueue,
    pub membership: Vec<Option<QueueMembership>>,
    pub fixed_placement_demand: u64,
    pub balance_scan_epoch: u64,
    pub next_sequence: u64,
    pub nr_running: usize,
}

/// No record of the list is that of a registry slot.
pub open spec fn slot_free(list: Seq<QueuedThread>, slot: u32) -> bool {
    forall|i: int| 0 <= i < list.len() ==> (#[trigger] list[i]).id.slot != slot
}

pub open spec fn saturated_add(a: u64, b: u64) -> u64 {
    if a + b <= u64::MAX {
        (a + b) as u64
    } else {
        u64::MAX
    }
}

pub open spec fn saturated_sub(a: u64, b: u64) -> u64 {
    if a > b {
        (a - b) as u64
    } else {
        0
    }
}

impl RunQueue {
    /// The records of one list.
    pub open spec fn list_of(&self, class: QueueMembershipClass) -> Seq<QueuedThread> {
        match class {
            QueueMembershipClass::Stop => match self.stop {
                Some(thread) => seq![thread],
                None => Seq::empty(),
            },
            QueueMembershipClass::Deadline => self.deadline.entries@,
            QueueMembershipClass::DeadlineThrottled => self.deadline.throttled@,
            QueueMembershipClass::Realtime(priority) => self.rt.level(priority),
            QueueMembershipClass::Fair => self.fair.entries@,
            QueueMembershipClass::IdleFair => self.idle_fair.entries@,
        }
    }

    /// The list that holds a thread, by the index.
    pub open spec fn member(&self, id: ThreadId) -> Option<QueueMembershipClass> {
        if id.slot < self.membership@.len() {
            match self.membership@[id.slot as int] {
                Some(membership) => if membership.generation == id.generation {
                    Some(membership.class)
                } else {
                    None
                },
                None => None,
            }
        } else {
            None
        }
    }

    pub open spec fn parts_wf(&self) -> bool {
        &&& self.deadline.wf()
        &&& self.rt.wf()
        &&& self.fair.wf()
        &&& self.idle_fair.wf()
        &&& self.membership@.len() <= 0x1_0000_0000
    }

    /// The index entry of a slot names a list that holds the thread.
    pub open spec fn slot_backed(&self, slot: int) -> bool {
        self.membership@[slot] matches Some(membership) ==> membership.class.valid() && holds(
            self.list_of(membership.class),
            ThreadId { slot: slot as u32, generation: membership.generation },
        )
    }

    /// A record stands in the list that the index names, and fits there.
    pub open spec fn record_ok(&self, class: QueueMembershipClass, i: int) -> bool {
        let thread = self.list_of(class)[i];
        &&& thread.id.slot < self.membership@.len()
        &&& self.membership@[thread.id.slot as int] == Some(
            QueueMembership { generation: thread.id.generation, class },
        )
        &&& class.fits(thread)
    }

    /// The index and the lists agree: every thread is in exactly one list, the
    /// one that the index names.
    pub open spec fn wf(&self) -> bool {
        &&& self.parts_wf()
        &&& forall|slot: int| 0 <= slot < self.membership@.len() ==> #[trigger] self.slot_backed(slot)
        &&& forall|class: QueueMembershipClass, i: int|
            class.valid() && 0 <= i < self.list_of(class).len() ==> #[trigger] self.record_ok(class, i)
    }

    /// The running thread, if it is linked in its class.
    pub open spec fn linked(&self) -> Option<ThreadId> {
        match self.current {
            Some(current) => match self.member(current.thread) {
                Some(QueueMembershipClass::Deadline) => Some(current.thread),
                Some(QueueMembershipClass::Realtime(_)) => Some(current.thread),
                _ => None,
            },
            None => None,
        }
    }

    /// The record of a thread that some list holds.
    pub open spec fn record(&self, id: ThreadId) -> QueuedThread {
        let list = self.list_of(self.member(id)->0);
        list[index_of(list, id)]
    }

    pub open spec fn only_list_changed(&self, before: &Self, class: QueueMembershipClass) -> bool {
        forall|other: QueueMembershipClass|
            other.valid() && other != class ==> #[trigger] self.list_of(other) == before.list_of(other)
    }

    pub open spec fn same_lists(&self, before: &Self) -> bool {
        forall|class: QueueMembershipClass|
            class.valid() ==> #[trigger] self.list_of(class) == before.list_of(class)
    }

    /// The Deadline ledger is unchanged.
    pub open spec fn same_ledger(&self, before: &Self) -> bool {
        &&& self.deadline.members == before.deadline.members
        &&& self.deadline.member_capacity == before.deadline.member_capacity
        &&& self.deadline.bandwidth == before.deadline.bandwidth
    }

    /// The fair virtual times are unchanged.
    pub open spec fn same_times(&self, before: &Self) -> bool {
        &&& self.fair.virtual_time == before.fair.virtual_time
        &&& self.idle_fair.virtual_time == before.idle_fair.virtual_time
    }

    pub open spec fn same_counters(&self, before: &Self) -> bool {
        &&& self.current == before.current
        &&& self.fixed_placement_demand == before.fixed_placement_demand
        &&& self.balance_scan_epoch == before.balance_scan_epoch
        &&& self.next_sequence == before.next_sequence
        &&& self.nr_running == before.nr_running
    }

    /// The pushable summary of a real-time priority.
    pub open spec fn rt_pushable(&self, priority: u8) -> bool {
        bit(self.rt.pushable_bitmap, (priority - 1) as u32)
    }

    /// The pushable summary of every real-time priority is unchanged.
    pub open spec fn same_rt_pushable(&self, before: &Self) -> bool {
        forall|p: u8|
            1 <= p <= 99 ==> #[trigger] self.rt_pushable(p) == before.rt_pushable(p)
    }

    pub open spec fn same_rt_pushable_but(&self, before: &Self, class: QueueMembershipClass) -> bool {
        forall|p: u8|
            1 <= p <= 99 && class != QueueMembershipClass::Realtime(p) ==> #[trigger] self.rt_pushable(p)
                == before.rt_pushable(p)
    }

    /// Load that a fair newcomer of a mode joins.
    pub open spec fn fair_load(&self, mode: FairMode, current: Option<FairEntity>) -> int {
        weight_sum(
            if mode == FairMode::Idle {
                self.idle_fair.entries@
            } else {
                self.fair.entries@
            },
        ) + match current {
            Some(entity) => if entity.mode == mode {
                entity.weight as int
            } else {
                0
            },
            None => 0,
        }
    }

    pub open spec fn mode_time(&self, mode: FairMode) -> u64 {
        if mode == FairMode::Idle {
            self.idle_fair.virtual_time
        } else {
            self.fair.virtual_time
        }
    }

    /// The record under which a thread enters its list.
    pub open spec fn placed_record(
        &self,
        entry: QueuedThread,
        reason: EnqueueReason,
        current: Option<FairEntity>,
    ) -> QueuedThread {
        let entity = match entry.entity() {
            SchedulingEntity::Fair(fair) => SchedulingEntity::Fair(
                fair.placed(
                    reason,
                    self.mode_time(fair.mode),
                    self.fair_load(fair.mode, current) as u64,
                ),
            ),
            other => other,
        };
        QueuedThread {
            sequence: self.next_sequence,
            active: entry.active.with_effective(entity),
            ..entry
        }
    }

    /// The running entity as the class of its mode sees it.
    pub open spec fn current_of(current: Option<FairEntity>, idle: bool) -> Option<FairEntity> {
        match current {
            Some(entity) => if (entity.mode == FairMode::Idle) == idle {
                Some(entity)
            } else {
                None
            },
            None => None,
        }
    }

    /// The virtual times are the weighted means with a running entity.
    pub open spec fn times_updated(&self, before: &Self, current: Option<FairEntity>) -> bool {
        &&& self.fair.virtual_time == mean_time(
            before.fair.entries@,
            before.fair.virtual_time,
            Self::current_of(current, false),
        )
        &&& self.idle_fair.virtual_time == mean_time(
            before.idle_fair.entries@,
            before.idle_fair.virtual_time,
            Self::current_of(current, true),
        )
    }

    /// In a well-formed queue the index and the lists answer alike.
    pub proof fn member_iff_held(&self, id: ThreadId, class: QueueMembershipClass)
        requires
            self.wf(),
            class.valid(),
        ensures
            self.member(id) == Some(class) <==> holds(self.list_of(class), id),
    {
        if self.member(id) == Some(class) {
            assert(self.slot_backed(id.slot as int));
        }
        if holds(self.list_of(class), id) {
            let i = index_of(self.list_of(class), id);
            assert(self.record_ok(class, i));
        }
    }

    pub(crate) proof fn lists_are_distinct(&self, class: QueueMembershipClass)
        requires
            self.parts_wf(),
            class.valid(),
        ensures
            distinct(self.list_of(class)),
    {
        if let QueueMembershipClass::Realtime(p) = class {
            assert(self.rt.level_wf(p - 1));
        }
    }

    pub(crate) proof fn member_record(&self, id: ThreadId)
        requires
            self.wf(),
            self.member(id) is Some,
        ensures
            ({
                let class = self.member(id)->0;
                let list = self.list_of(class);
                let at = index_of(list, id);
                &&& class.valid()
                &&& 0 <= at < list.len()
                &&& list[at].id == id
                &&& class.fits(list[at])
                &&& holds(list, id)
                &&& distinct(list)
            }),
    {
        let class = self.member(id)->0;
        assert(self.slot_backed(id.slot as int));
        let at = index_of(self.list_of(class), id);
        assert(self.record_ok(class, at));
        self.lists_are_distinct(class);
    }

    /// A change that concerns one registry slot keeps the queue well-formed if
    /// the index entry of that slot is right again.
    pub(crate) proof fn wf_after_slot_change(before: &Self, after: &Self, id: ThreadId)
        requires
            before.wf(),
            after.parts_wf(),
            after.membership@.len() == before.membership@.len(),
            id.slot < after.membership@.len(),
            forall|slot: int|
                0 <= slot < after.membership@.len() && slot != id.slot
                    ==> #[trigger] after.membership@[slot] == before.membership@[slot],
            forall|class: QueueMembershipClass, other: ThreadId|
                class.valid() && other.slot != id.slot ==> #[trigger] holds(
                    after.list_of(class),
                    other,
                ) == holds(before.list_of(class), other),
            forall|class: QueueMembershipClass, i: int|
                class.valid() && 0 <= i < after.list_of(class).len() ==> class.fits(
                    #[trigger] after.list_of(class)[i],
                ),
            match after.membership@[id.slot as int] {
                Some(membership) => {
                    &&& membership.generation == id.generation
                    &&& membership.class.valid()
                    &&& holds(after.list_of(membership.class), id)
                    &&& forall|class: QueueMembershipClass|
                        class.valid() && class != membership.class ==> slot_free(
                            #[trigger] after.list_of(class),
                            id.slot,
                        )
                },
                None => forall|class: QueueMembershipClass|
                    class.valid() ==> slot_free(#[trigger] after.list_of(class), id.slot),
            },
        ensures
            after.wf(),
    {
        assert forall|slot: int| 0 <= slot < after.membership@.len() implies
            #[trigger] after.slot_backed(slot) by {
            if slot != id.slot {
                assert(before.slot_backed(slot));
                assert(after.membership@[slot] == before.membership@[slot]);
                if let Some(m) = after.membership@[slot] {
                    let other = ThreadId { slot: slot as u32, generation: m.generation };
                    assert(holds(after.list_of(m.class), other) == holds(
                        before.list_of(m.class),
                        other,
                    ));
                }
            }
        }
        assert forall|class: QueueMembershipClass, i: int|
            class.valid() && 0 <= i < after.list_of(class).len() implies #[trigger] after.record_ok(
            class,
            i,
        ) by {
            let list = after.list_of(class);
            let thread = list[i];
            assert(class.fits(thread));
            assert(holds(list, thread.id)) by {
                assert(list[i].id == thread.id);
            }
            if thread.id.slot != id.slot {
                assert(holds(before.list_of(class), thread.id));
                let k = index_of(before.list_of(class), thread.id);
                assert(before.record_ok(class, k));
                assert(after.membership@[thread.id.slot as int]
                    == before.membership@[thread.id.slot as int]);
            } else {
                match after.membership@[id.slot as int] {
                    Some(m) => {
                        if class != m.class {
                            assert(slot_free(list, id.slot));
                            assert(false);
                        }
                        after.lists_are_distinct(class);
                        let k = index_of(list, id);
                        assert(list[k].id == id);
                        assert(k == i);
                    },
                    None => {
                        assert(slot_free(list, id.slot));
                        assert(false);
                    },
                }
            }
        }
    }

    /// What does not touch index or lists keeps them in agreement.
    pub(crate) proof fn wf_when_lists_stay(before: &Self, after: &Self)
        requires
            before.wf(),
            after.parts_wf(),
            after.membership@ == before.membership@,
            after.same_lists(before),
        ensures
            after.wf(),
    {
        assert forall|slot: int| 0 <= slot < after.membership@.len() implies
            #[trigger] after.slot_backed(slot) by {
            assert(before.slot_backed(slot));
            if let Some(m) = after.membership@[slot] {
                assert(after.list_of(m.class) == before.list_of(m.class));
            }
        }
        assert forall|class: QueueMembershipClass, i: int|
            class.valid() && 0 <= i < after.list_of(class).len() implies #[trigger] after.record_ok(
            class,
            i,
        ) by {
            assert(after.list_of(class) == before.list_of(class));
            assert(before.record_ok(class, i));
        }
    }

    pub(crate) proof fn unindexed_slot_is_free(&self, slot: u32)
        requires
            self.wf(),
            slot < self.membership@.len(),
            self.membership@[slot as int] is None,
        ensures
            forall|class: QueueMembershipClass|
                class.valid() ==> slot_free(#[trigger] self.list_of(class), slot),
    {
        assert forall|class: QueueMembershipClass| class.valid() implies slot_free(
            #[trigger] self.list_of(class),
            slot,
        ) by {
            assert forall|i: int| 0 <= i < self.list_of(class).len() implies (
            #[trigger] self.list_of(class)[i]).id.slot != slot by {
                assert(self.record_ok(class, i));
            }
        }
    }

    pub(crate) proof fn indexed_slot_is_free_elsewhere(&self, id: ThreadId)
        requires
            self.wf(),
            self.member(id) is Some,
        ensures
            forall|class: QueueMembershipClass|
                class.valid() && class != self.member(id)->0 ==> slot_free(
                    #[trigger] self.list_of(class),
                    id.slot,
                ),
    {
        assert forall|class: QueueMembershipClass|
            class.valid() && class != self.member(id)->0 implies slot_free(
            #[trigger] self.list_of(class),
            id.slot,
        ) by {
            assert forall|i: int| 0 <= i < self.list_of(class).len() implies (
            #[trigger] self.list_of(class)[i]).id.slot != id.slot by {
                assert(self.record_ok(class, i));
            }
        }
    }

    /// Nothing is queued here, and nothing ever was.
    pub open spec fn blank(&self, deadline_max_bw_scaled: u64, thread_capacity: usize) -> bool {
        &&& forall|class: QueueMembershipClass|
            class.valid() ==> (#[trigger] self.list_of(class)).len() == 0
        &&& self.membership@.len() == 0
        &&& self.current is None
        &&& self.fixed_placement_demand == 0
        &&& self.balance_scan_epoch == 0
        &&& self.next_sequence == 0
        &&& self.nr_running == 0
        &&& self.fair.virtual_time == 0
        &&& self.idle_fair.virtual_time == 0
        &&& self.rt.active_bitmap == 0
        &&& self.rt.exempt_bitmap == 0
        &&& self.rt.pushable_bitmap == 0
        &&& self.deadline.members@.len() == 0
        &&& self.deadline.member_capacity == thread_capacity
        &&& self.deadline.bandwidth.this_bw_scaled == 0
        &&& self.deadline.bandwidth.running_bw_scaled == 0
        &&& self.deadline.bandwidth.max_bw_scaled == deadline_max_bw_scaled
    }

    /// An empty run queue for reservations up to `deadline_max_bw_scaled`.
    pub fn configured(deadline_max_bw_scaled: u64, thread_capacity: usize) -> (queue: Self)
        ensures
            queue.blank(deadline_max_bw_scaled, thread_capacity),
            queue.wf(),
    {
        let queue = RunQueue {
            current: None,
            stop: None,
            deadline: DeadlineRunQueue::new(deadline_max_bw_scaled, thread_capacity),
            rt: RealtimeRunQueue::new(),
            fair: FairRunQueue::new(),
            idle_fair: FairRunQueue::new(),
            membership: Vec::new(),
            fixed_placement_demand: 0,
            balance_scan_epoch: 0,
            next_sequence: 0,
            nr_running: 0,
        };
        assert forall|class: QueueMembershipClass| class.valid() implies (
        #[trigger] queue.list_of(class)).len() == 0 by {
            if let QueueMembershipClass::Realtime(p) = class {
                assert(queue.rt.levels@[p - 1]@.len() == 0);
            }
        }
        queue
    }

    /// The list that holds a thread.
    pub fn membership_class(&self, id: ThreadId) -> (class: Option<QueueMembershipClass>)
        ensures
            class == self.member(id),
    {
        if (id.slot as usize) < self.membership.len() {
            match self.membership[id.slot as usize] {
                Some(membership) => if membership.generation == id.generation {
                    Some(membership.class)
                } else {
                    None
                },
                None => None,
            }
        } else {
            None
        }
    }

    pub fn contains(&self, id: ThreadId) -> (contains: bool)
        ensures
            contains == (self.member(id) is Some),
    {
        self.membership_class(id).is_some()
    }

    /// See `linked`.
    pub fn linked_current(&self) -> (thread: Option<ThreadId>)
        ensures
            thread == self.linked(),
    {
        match self.current {
            Some(current) => match self.membership_class(current.thread) {
                Some(QueueMembershipClass::Deadline) => Some(current.thread),
                Some(QueueMembershipClass::Realtime(_)) => Some(current.thread),
                _ => None,
            },
            None => None,
        }
    }

    pub fn is_linked_current(&self, id: ThreadId) -> (linked: bool)
        ensures
            linked == (self.linked() == Some(id)),
    {
        match self.linked_current() {
            Some(thread) => thread == id,
            None => false,
        }
    }

    /// Makes room in the index for a registry slot.
    pub fn prepare_thread_slot(&mut self, slot: usize)
        requires
            old(self).wf(),
            slot < 0x1_0000_0000,
        ensures
            final(self).wf(),
            final(self).membership@.len() == if old(self).membership@.len() > slot {
                old(self).membership@.len()
            } else {
                (slot + 1) as nat
            },
            forall|i: int|
                0 <= i < final(self).membership@.len() ==> #[trigger] final(self).membership@[i]
                    == if i < old(self).membership@.len() {
                    old(self).membership@[i]
                } else {
                    None
                },
            final(self).same_lists(old(self)),
            final(self).same_ledger(old(self)),
            final(self).same_times(old(self)),
            final(self).same_counters(old(self)),
            final(self).rt == old(self).rt,
    {
        while self.membership.len() <= slot
            invariant
                old(self).wf(),
                slot < 0x1_0000_0000,
                self.parts_wf(),
                old(self).membership@.len() <= self.membership@.len(),
                self.membership@.len() <= if old(self).membership@.len() > slot {
                    old(self).membership@.len()
                } else {
                    (slot + 1) as nat
                },
                forall|i: int|
                    0 <= i < self.membership@.len() ==> #[trigger] self.membership@[i] == if i
                        < old(self).membership@.len() {
                        old(self).membership@[i]
                    } else {
                        None
                    },
                self.stop == old(self).stop,
                self.deadline == old(self).deadline,
                self.rt == old(self).rt,
                self.fair == old(self).fair,
                self.idle_fair == old(self).idle_fair,
                self.same_counters(old(self)),
            decreases slot + 1 - self.membership.len(),
        {
            self.membership.push(None);
        }
        assert forall|s: int| 0 <= s < self.membership@.len() implies #[trigger] self.slot_backed(s) by {
            if s < old(self).membership@.len() {
                assert(old(self).slot_backed(s));
                if let Some(m) = old(self).membership@[s] {
                    assert(self.list_of(m.class) == old(self).list_of(m.class));
                }
            }
        }
        assert forall|class: QueueMembershipClass, i: int|
            class.valid() && 0 <= i < self.list_of(class).len() implies #[trigger] self.record_ok(
            class,
            i,
        ) by {
            assert(self.list_of(class) == old(self).list_of(class));
            assert(old(self).record_ok(class, i));
        }
    }

    /// Puts a record into a list and into the index.
    pub(crate) fn link(&mut self, class: QueueMembershipClass, thread: QueuedThread, at_head: bool)
        requires
            old(self).wf(),
            class.valid(),
            class.fits(thread),
            thread.id.slot < old(self).membership@.len(),
            old(self).membership@[thread.id.slot as int] is None,
            class == QueueMembershipClass::Stop ==> old(self).stop is None,
            class == QueueMembershipClass::Fair ==> old(self).fair.entries@.len() < MAX_ENTRIES,
            class == QueueMembershipClass::IdleFair ==> old(self).idle_fair.entries@.len()
                < MAX_ENTRIES,
        ensures
            final(self).wf(),
            final(self).list_of(class) == if at_head && class is Realtime {
                seq![thread] + old(self).list_of(class)
            } else {
                old(self).list_of(class).push(thread)
            },
            final(self).only_list_changed(old(self), class),
            final(self).membership@ == old(self).membership@.update(
                thread.id.slot as int,
                Some(QueueMembership { generation: thread.id.generation, class }),
            ),
            final(self).same_ledger(old(self)),
            final(self).same_times(old(self)),
            final(self).same_counters(old(self)),
            final(self).same_rt_pushable(old(self)),
    {
        let ghost before = *self;
        let id = thread.id;
        proof {
            before.unindexed_slot_is_free(id.slot);
            assert(slot_free(before.list_of(class), id.slot));
        }
        match class {
            QueueMembershipClass::Stop => {
                self.stop = Some(thread);
                assert(self.list_of(class) =~= before.list_of(class).push(thread));
            },
            QueueMembershipClass::Deadline => {
                self.deadline.insert(thread);
            },
            QueueMembershipClass::DeadlineThrottled => {
                self.deadline.install_throttled(thread);
            },
            QueueMembershipClass::Realtime(priority) => {
                assert(before.rt.level(priority) == before.list_of(class));
                assert(thread.active.policy.rt()->0.value == priority);
                let reason = if at_head {
                    EnqueueReason::Preempted
                } else {
                    EnqueueReason::Wake
                };
                let _ = self.rt.enqueue(thread, reason);
            },
            QueueMembershipClass::Fair => {
                self.fair.insert(thread);
            },
            QueueMembershipClass::IdleFair => {
                self.idle_fair.insert(thread);
            },
        }
        self.membership.set(
            id.slot as usize,
            Some(QueueMembership { generation: id.generation, class }),
        );
        proof {
            assert forall|other: QueueMembershipClass| other.valid() && other != class implies
                #[trigger] self.list_of(other) == before.list_of(other) by {
                if let QueueMembershipClass::Realtime(q) = other {
                    if class is Realtime {
                        assert(self.rt.levels@[q - 1] == before.rt.levels@[q - 1]);
                    }
                }
            }
            assert forall|p: u8| 1 <= p <= 99 implies #[trigger] self.rt_pushable(p)
                == before.rt_pushable(p) by {
                assert(bit(self.rt.pushable_bitmap, (p - 1) as u32) == bit(
                    before.rt.pushable_bitmap,
                    (p - 1) as u32,
                ));
            }
            let list = before.list_of(class);
            assert forall|c: QueueMembershipClass, other: ThreadId|
                c.valid() && other.slot != id.slot implies #[trigger] holds(self.list_of(c), other)
                == holds(before.list_of(c), other) by {
                if c == class {
                    holds_after_push(list, thread, other);
                    holds_after_prepend(list, thread, other);
                }
            }
            holds_after_push(list, thread, id);
            holds_after_prepend(list, thread, id);
            assert forall|c: QueueMembershipClass, i: int|
                c.valid() && 0 <= i < self.list_of(c).len() implies c.fits(
                #[trigger] self.list_of(c)[i],
            ) by {
                if c == class {
                    if at_head && class is Realtime {
                        if i > 0 {
                            assert(self.list_of(c)[i] == list[i - 1]);
                            assert(before.record_ok(c, i - 1));
                        }
                    } else if i < list.len() {
                        assert(before.record_ok(c, i));
                    }
                } else {
                    assert(before.record_ok(c, i));
                }
            }
            Self::wf_after_slot_change(&before, self, id);
        }
    }

    /// Takes a record out of its list and out of the index.
    pub(crate) fn unlink(&mut self, class: QueueMembershipClass, id: ThreadId) -> (thread: QueuedThread)
        requires
            old(self).wf(),
            old(self).member(id) == Some(class),
        ensures
            final(self).wf(),
            ({
                let list = old(self).list_of(class);
                let at = index_of(list, id);
                &&& 0 <= at < list.len()
                &&& thread == list[at]
                &&& final(self).list_of(class) == list.remove(at)
            }),
            thread.id == id,
            class.valid(),
            class.fits(thread),
            final(self).only_list_changed(old(self), class),
            final(self).membership@ == old(self).membership@.update(id.slot as int, None),
            final(self).same_ledger(old(self)),
            final(self).same_times(old(self)),
            final(self).same_counters(old(self)),
            final(self).same_rt_pushable_but(old(self), class),
    {
        let ghost before = *self;
        proof {
            before.member_record(id);
            before.indexed_slot_is_free_elsewhere(id);
        }
        let ghost list = before.list_of(class);
        let ghost at = index_of(list, id);
        let found = match class {
            QueueMembershipClass::Stop => {
                let found = self.stop;
                self.stop = None;
                assert(self.list_of(class) =~= list.remove(at));
                found
            },
            QueueMembershipClass::Deadline => self.deadline.remove(id),
            QueueMembershipClass::DeadlineThrottled => self.deadline.take_throttled(id),
            QueueMembershipClass::Realtime(priority) => {
                assert(before.rt.level(priority) == list);
                self.rt.remove(priority, id)
            },
            QueueMembershipClass::Fair => self.fair.remove(id),
            QueueMembershipClass::IdleFair => self.idle_fair.remove(id),
        };
        self.membership.set(id.slot as usize, None);
        let thread = found.unwrap();
        proof {
            assert forall|other: QueueMembershipClass| other.valid() && other != class implies
                #[trigger] self.list_of(other) == before.list_of(other) by {
                if let QueueMembershipClass::Realtime(q) = other {
                    if class is Realtime {
                        assert(self.rt.levels@[q - 1] == before.rt.levels@[q - 1]);
                    }
                }
            }
            assert forall|p: u8|
                1 <= p <= 99 && class != QueueMembershipClass::Realtime(p) implies
                #[trigger] self.rt_pushable(p) == before.rt_pushable(p) by {
                assert(bit(self.rt.pushable_bitmap, (p - 1) as u32) == bit(
                    before.rt.pushable_bitmap,
                    (p - 1) as u32,
                ));
            }
            assert forall|c: QueueMembershipClass, other: ThreadId|
                c.valid() && other.slot != id.slot implies #[trigger] holds(self.list_of(c), other)
                == holds(before.list_of(c), other) by {
                if c == class {
                    holds_after_remove(list, at, other);
                }
            }
            assert forall|c: QueueMembershipClass, i: int|
                c.valid() && 0 <= i < self.list_of(c).len() implies c.fits(
                #[trigger] self.list_of(c)[i],
            ) by {
                if c == class {
                    let k = if i < at {
                        i
                    } else {
                        i + 1
                    };
                    assert(self.list_of(c)[i] == list[k]);
                    assert(before.record_ok(c, k));
                } else {
                    assert(before.record_ok(c, i));
                }
            }
            assert forall|c: QueueMembershipClass| c.valid() implies slot_free(
                #[trigger] self.list_of(c),
                id.slot,
            ) by {
                if c == class {
                    assert forall|i: int| 0 <= i < self.list_of(c).len() implies (
                    #[trigger] self.list_of(c)[i]).id.slot != id.slot by {
                        let k = if i < at {
                            i
                        } else {
                            i + 1
                        };
                        assert(self.list_of(c)[i] == list[k]);
                        assert(list[k].id.slot != list[at].id.slot);
                    }
                } else {
                    assert(slot_free(before.list_of(c), id.slot));
                }
            }
            Self::wf_after_slot_change(&before, self, id);
        }
        thread
    }

    /// Replaces a record in place.
    pub(crate) fn replace(&mut self, class: QueueMembershipClass, thread: QueuedThread)
        requires
            old(self).wf(),
            old(self).member(thread.id) == Some(class),
            class.fits(thread),
        ensures
            final(self).wf(),
            final(self).list_of(class) == old(self).list_of(class).update(
                index_of(old(self).list_of(class), thread.id),
                thread,
            ),
            class.valid(),
            final(self).only_list_changed(old(self), class),
            final(self).membership@ == old(self).membership@,
            final(self).same_ledger(old(self)),
            final(self).same_times(old(self)),
            final(self).same_counters(old(self)),
            final(self).same_rt_pushable(old(self)),
    {
        let ghost before = *self;
        let id = thread.id;
        proof {
            before.member_record(id);
            before.indexed_slot_is_free_elsewhere(id);
        }
        let ghost list = before.list_of(class);
        let ghost at = index_of(list, id);
        match class {
            QueueMembershipClass::Stop => {
                self.stop = Some(thread);
                assert(self.list_of(class) =~= list.update(at, thread));
            },
            QueueMembershipClass::Deadline => {
                self.deadline.update(thread);
            },
            QueueMembershipClass::DeadlineThrottled => {
                self.deadline.update_throttled(thread);
            },
            QueueMembershipClass::Realtime(priority) => {
                assert(before.rt.level(priority) == list);
                self.rt.update(priority, thread);
            },
            QueueMembershipClass::Fair => {
                self.fair.update(thread);
            },
            QueueMembershipClass::IdleFair => {
                self.idle_fair.update(thread);
            },
        }
        proof {
            assert forall|other: QueueMembershipClass| other.valid() && other != class implies
                #[trigger] self.list_of(other) == before.list_of(other) by {
                if let QueueMembershipClass::Realtime(q) = other {
                    if class is Realtime {
                        assert(self.rt.levels@[q - 1] == before.rt.levels@[q - 1]);
                    }
                }
            }
            assert forall|p: u8| 1 <= p <= 99 implies #[trigger] self.rt_pushable(p)
                == before.rt_pushable(p) by {
                assert(bit(self.rt.pushable_bitmap, (p - 1) as u32) == bit(
                    before.rt.pushable_bitmap,
                    (p - 1) as u32,
                ));
            }
            assert forall|c: QueueMembershipClass, other: ThreadId|
                c.valid() && other.slot != id.slot implies #[trigger] holds(self.list_of(c), other)
                == holds(before.list_of(c), other) by {
                if c == class {
                    holds_after_update(list, at, thread, other);
                }
            }
            holds_after_update(list, at, thread, id);
            assert forall|c: QueueMembershipClass, i: int|
                c.valid() && 0 <= i < self.list_of(c).len() implies c.fits(
                #[trigger] self.list_of(c)[i],
            ) by {
                if c == class {
                    if i != at {
                        assert(before.record_ok(c, i));
                    }
                } else {
                    assert(before.record_ok(c, i));
                }
            }
            assert forall|c: QueueMembershipClass| c.valid() && c != class implies slot_free(
                #[trigger] self.list_of(c),
                id.slot,
            ) by {
                assert(slot_free(before.list_of(c), id.slot));
            }
            Self::wf_after_slot_change(&before, self, id);
        }
    }
}

} // verus!
