//! The real-time class: one first-in-first-out list per fixed priority, with
//! bitmaps that summarise which lists matter.
use vstd::prelude::*;
use crate::ids::ThreadId;
use crate::scheduler::entity::{EnqueueReason, SchedulingEntity};
use crate::scheduler::policy::{RtPriority, SchedulePolicy};
use crate::scheduler::task::{
    QueuedThread, QueuedThreadSnapshot, distinct, holds, index_of, position,
};

verus! {

/// Number of fixed priorities.
pub const RT_PRIORITY_LEVELS: usize = 99;

/// Whether a bit of a summary is set.
pub open spec fn bit(bitmap: u128, index: u32) -> bool {
    (bitmap >> index) & 1u128 == 1u128
}

fn with_bit(bitmap: u128, index: u32) -> (result: u128)
    requires
        index < 128,
    ensures
        forall|j: u32| j < 128 ==> bit(result, j) == (j == index || bit(bitmap, j)),
{
    let result: u128 = bitmap | (1u128 << index);
    assert forall|j: u32| j < 128 implies bit(result, j) == (j == index || bit(bitmap, j)) by {
        assert((((bitmap | (1u128 << index)) >> j) & 1u128 == 1u128) == (j == index || ((bitmap
            >> j) & 1u128 == 1u128))) by (bit_vector)
            requires
                index < 128,
                j < 128,
        ;
    }
    result
}

fn without_bit(bitmap: u128, index: u32) -> (result: u128)
    requires
        index < 128,
    ensures
        forall|j: u32| j < 128 ==> bit(result, j) == (j != index && bit(bitmap, j)),
{
    let result: u128 = bitmap & !(1u128 << index);
    assert forall|j: u32| j < 128 implies bit(result, j) == (j != index && bit(bitmap, j)) by {
        assert((((bitmap & !(1u128 << index)) >> j) & 1u128 == 1u128) == (j != index && ((bitmap
            >> j) & 1u128 == 1u128))) by (bit_vector)
            requires
                index < 128,
                j < 128,
        ;
    }
    result
}

fn assign_bit(bitmap: u128, index: u32, value: bool) -> (result: u128)
    requires
        index < 128,
    ensures
        forall|j: u32|
            j < 128 ==> bit(result, j) == (if j == index {
                value
            } else {
                bit(bitmap, j)
            }),
{
    if value {
        with_bit(bitmap, index)
    } else {
        without_bit(bitmap, index)
    }
}

/// The highest priority whose bit is set: bit `n` stands for priority `n + 1`.
pub fn bitmap_highest_priority(bitmap: u128) -> (priority: Option<u8>)
    ensures
        match priority {
            Some(p) => 1 <= p <= 99 && bit(bitmap, (p - 1) as u32) && forall|j: u32|
                p <= j < 99 ==> !bit(bitmap, j),
            None => forall|j: u32| j < 99 ==> !bit(bitmap, j),
        },
{
    let mut priority: u8 = 99;
    while priority > 0
        invariant
            priority <= 99,
            forall|j: u32| priority <= j < 99 ==> !bit(bitmap, j),
        decreases priority,
    {
        let index: u32 = (priority - 1) as u32;
        if (bitmap >> index) & 1u128 == 1u128 {
            return Some(priority);
        }
        priority = priority - 1;
    }
    None
}

/// Whether some record of a list is exempt from the real-time quota.
pub open spec fn any_exempt(list: Seq<QueuedThread>) -> bool {
    exists|i: int| 0 <= i < list.len() && (#[trigger] list[i]).rt_quota_exempt
}

/// Whether some record of a list may be pushed to another CPU.
pub open spec fn any_pushable(list: Seq<QueuedThread>, current: Option<ThreadId>) -> bool {
    exists|i: int|
        0 <= i < list.len() && (#[trigger] list[i]).migration_capable && current != Some(list[i].id)
}

fn list_has_exempt(list: &Vec<QueuedThread>) -> (any: bool)
    ensures
        any == any_exempt(list@),
{
    let mut i: usize = 0;
    while i < list.len()
        invariant
            i <= list.len(),
            forall|j: int| 0 <= j < i ==> !(#[trigger] list@[j]).rt_quota_exempt,
        decreases list.len() - i,
    {
        if list[i].rt_quota_exempt {
            return true;
        }
        i = i + 1;
    }
    false
}

fn list_has_pushable(list: &Vec<QueuedThread>, current: Option<ThreadId>) -> (any: bool)
    ensures
        any == any_pushable(list@, current),
{
    let mut i: usize = 0;
    while i < list.len()
        invariant
            i <= list.len(),
            forall|j: int|
                0 <= j < i ==> !((#[trigger] list@[j]).migration_capable && current != Some(
                    list@[j].id,
                )),
        decreases list.len() - i,
    {
        let is_current = match current {
            Some(id) => id == list[i].id,
            None => false,
        };
        if list[i].migration_capable && !is_current {
            return true;
        }
        i = i + 1;
    }
    false
}

/// Runnable and running threads of the real-time class.
#[derive(Debug)]
pub struct RealtimeRunQueue {
    pub levels: Vec<Vec<QueuedThread>>,
    pub active_bitmap: u128,
    pub exempt_bitmap: u128,
    pub pushable_bitmap: u128,
}

impl RealtimeRunQueue {
    /// The list of a priority.
    pub open spec fn level(&self, priority: u8) -> Seq<QueuedThread> {
        self.levels@[priority - 1]@
    }

    pub open spec fn level_wf(&self, i: int) -> bool {
        &&& distinct(self.levels@[i]@)
        &&& forall|j: int|
            0 <= j < self.levels@[i]@.len() ==> (#[trigger] self.levels@[i]@[j]).active.policy.rt()
                == Some(RtPriority { value: (i + 1) as u8 })
        &&& bit(self.active_bitmap, i as u32) == (self.levels@[i]@.len() > 0)
        &&& bit(self.exempt_bitmap, i as u32) == any_exempt(self.levels@[i]@)
        &&& bit(self.pushable_bitmap, i as u32) ==> self.levels@[i]@.len() > 0
    }

    /// Every list holds its own priority only, and the summaries of active and
    /// exempt lists are exact.
    pub open spec fn wf(&self) -> bool {
        &&& self.levels@.len() == RT_PRIORITY_LEVELS
        &&& forall|i: int| 0 <= i < RT_PRIORITY_LEVELS ==> #[trigger] self.level_wf(i)
    }

    /// Only the list of `priority` and its summary bits differ.
    pub open spec fn same_but(&self, other: &Self, priority: u8) -> bool {
        &&& self.levels@.len() == other.levels@.len()
        &&& forall|i: int|
            0 <= i < RT_PRIORITY_LEVELS && i != priority - 1 ==> #[trigger] self.levels@[i]
                == other.levels@[i]
        &&& forall|j: u32|
            j < 99 && j != priority - 1 ==> #[trigger] bit(self.pushable_bitmap, j) == bit(
                other.pushable_bitmap,
                j,
            )
    }

    pub fn new() -> (queue: Self)
        ensures
            queue.wf(),
            forall|i: int| 0 <= i < RT_PRIORITY_LEVELS ==> (#[trigger] queue.levels@[i])@.len() == 0,
            queue.active_bitmap == 0,
            queue.exempt_bitmap == 0,
            queue.pushable_bitmap == 0,
    {
        let mut levels: Vec<Vec<QueuedThread>> = Vec::new();
        let mut i: usize = 0;
        while i < RT_PRIORITY_LEVELS
            invariant
                i <= RT_PRIORITY_LEVELS,
                levels@.len() == i,
                forall|j: int| 0 <= j < i ==> (#[trigger] levels@[j])@.len() == 0,
            decreases RT_PRIORITY_LEVELS - i,
        {
            levels.push(Vec::new());
            i = i + 1;
        }
        let queue = RealtimeRunQueue {
            levels,
            active_bitmap: 0,
            exempt_bitmap: 0,
            pushable_bitmap: 0,
        };
        assert forall|j: u32| j < 128 implies !#[trigger] bit(0u128, j) by {
            assert((0u128 >> j) & 1u128 != 1u128) by (bit_vector);
        }
        assert forall|j: int| 0 <= j < RT_PRIORITY_LEVELS implies #[trigger] queue.level_wf(j) by {
            assert(queue.levels@[j]@.len() == 0);
            assert(!bit(0u128, j as u32));
        }
        queue
    }

    /// Whether any list holds a thread.
    #[verifier::opaque]
    pub open spec fn occupied(&self) -> bool {
        exists|i: int| 0 <= i < RT_PRIORITY_LEVELS && (#[trigger] self.levels@[i])@.len() > 0
    }

    pub fn has_any_rt(&self) -> (any: bool)
        requires
            self.wf(),
        ensures
            any == self.occupied(),
    {
        proof {
            reveal(RealtimeRunQueue::occupied);
        }
        self.highest_rt_priority().is_some()
    }

    pub fn has_exempt_rt(&self) -> (any: bool)
        requires
            self.wf(),
        ensures
            any == exists|i: int| 0 <= i < RT_PRIORITY_LEVELS && any_exempt(#[trigger] self.levels@[i]@),
    {
        let highest = bitmap_highest_priority(self.exempt_bitmap);
        proof {
            match highest {
                Some(p) => {
                    assert(self.level_wf(p - 1));
                    assert(any_exempt(self.levels@[p - 1]@));
                },
                None => {
                    assert forall|i: int| 0 <= i < RT_PRIORITY_LEVELS implies !any_exempt(
                        #[trigger] self.levels@[i]@,
                    ) by {
                        assert(self.level_wf(i));
                        assert(!bit(self.exempt_bitmap, i as u32));
                    }
                },
            }
        }
        highest.is_some()
    }

    /// The most urgent priority with a thread, running ones counted.
    pub fn highest_rt_priority(&self) -> (priority: Option<u8>)
        requires
            self.wf(),
        ensures
            match priority {
                Some(p) => 1 <= p <= 99 && self.level(p).len() > 0 && forall|i: int|
                    p <= i < RT_PRIORITY_LEVELS ==> (#[trigger] self.levels@[i])@.len() == 0,
                None => forall|i: int|
                    0 <= i < RT_PRIORITY_LEVELS ==> (#[trigger] self.levels@[i])@.len() == 0,
            },
    {
        let highest = bitmap_highest_priority(self.active_bitmap);
        proof {
            assert forall|i: int| 0 <= i < RT_PRIORITY_LEVELS implies bit(
                self.active_bitmap,
                i as u32,
            ) == ((#[trigger] self.levels@[i])@.len() > 0) by {
                assert(self.level_wf(i));
            }
        }
        highest
    }

    /// Whether the last refresh found a thread that could be pushed away.
    pub fn has_pushable(&self) -> (any: bool)
        ensures
            any == exists|j: u32| j < 99 && #[trigger] bit(self.pushable_bitmap, j),
    {
        bitmap_highest_priority(self.pushable_bitmap).is_some()
    }

    /// Recomputes the pushable summary of one priority.
    pub fn refresh_pushable_priority(&mut self, priority: u8, current: Option<ThreadId>)
        requires
            old(self).wf(),
            1 <= priority <= 99,
        ensures
            final(self).levels == old(self).levels,
            final(self).active_bitmap == old(self).active_bitmap,
            final(self).exempt_bitmap == old(self).exempt_bitmap,
            forall|j: u32|
                j < 99 ==> #[trigger] bit(final(self).pushable_bitmap, j) == if j == priority - 1 {
                    any_pushable(old(self).level(priority), current)
                } else {
                    bit(old(self).pushable_bitmap, j)
                },
            final(self).wf(),
    {
        let index: usize = (priority - 1) as usize;
        let pushable = list_has_pushable(&self.levels[index], current);
        self.pushable_bitmap = assign_bit(self.pushable_bitmap, index as u32, pushable);
        assert forall|i: int| 0 <= i < RT_PRIORITY_LEVELS implies #[trigger] self.level_wf(i) by {
            assert(old(self).level_wf(i));
        }
    }

    pub fn count_at_priority(&self, priority: u8) -> (count: usize)
        requires
            self.wf(),
        ensures
            count == if 1 <= priority <= 99 {
                self.level(priority).len()
            } else {
                0
            },
    {
        if priority >= 1 && (priority as usize) <= RT_PRIORITY_LEVELS {
            self.levels[(priority - 1) as usize].len()
        } else {
            0
        }
    }

    /// Restores the exact summaries of one list after it changed.
    fn summarise(&mut self, index: usize)
        requires
            index < RT_PRIORITY_LEVELS,
            old(self).levels@.len() == RT_PRIORITY_LEVELS,
            forall|i: int|
                0 <= i < RT_PRIORITY_LEVELS && i != index ==> #[trigger] old(self).level_wf(i),
            distinct(old(self).levels@[index as int]@),
            forall|j: int|
                0 <= j < old(self).levels@[index as int]@.len() ==> (
                #[trigger] old(self).levels@[index as int]@[j]).active.policy.rt() == Some(
                    RtPriority { value: (index + 1) as u8 },
                ),
        ensures
            final(self).levels == old(self).levels,
            forall|j: u32|
                j < 99 && j != index ==> #[trigger] bit(final(self).pushable_bitmap, j) == bit(
                    old(self).pushable_bitmap,
                    j,
                ),
            bit(final(self).pushable_bitmap, index as u32) == (bit(
                old(self).pushable_bitmap,
                index as u32,
            ) && old(self).levels@[index as int]@.len() > 0),
            final(self).wf(),
    {
        let occupied = self.levels[index].len() > 0;
        let exempt = list_has_exempt(&self.levels[index]);
        self.active_bitmap = assign_bit(self.active_bitmap, index as u32, occupied);
        self.exempt_bitmap = assign_bit(self.exempt_bitmap, index as u32, exempt);
        if !occupied {
            self.pushable_bitmap = without_bit(self.pushable_bitmap, index as u32);
        }
        assert forall|i: int| 0 <= i < RT_PRIORITY_LEVELS implies #[trigger] self.level_wf(i) by {
            if i != index {
                assert(old(self).level_wf(i));
            }
        }
    }

    /// Links a thread: a preempted one at the head of its priority, any other
    /// at the tail.
    pub fn enqueue(&mut self, thread: QueuedThread, reason: EnqueueReason) -> (priority: u8)
        requires
            old(self).wf(),
            thread.active.policy.is_rt(),
            thread.active.policy.valid(),
            forall|j: int|
                0 <= j < old(self).level(thread.active.policy.rt()->0.value).len() ==> (
                #[trigger] old(self).level(thread.active.policy.rt()->0.value)[j]).id.slot
                    != thread.id.slot,
        ensures
            priority == thread.active.policy.rt()->0.value,
            1 <= priority <= 99,
            final(self).level(priority) == if reason == EnqueueReason::Preempted {
                seq![thread] + old(self).level(priority)
            } else {
                old(self).level(priority).push(thread)
            },
            final(self).same_but(old(self), priority),
            bit(final(self).pushable_bitmap, (priority - 1) as u32) == bit(
                old(self).pushable_bitmap,
                (priority - 1) as u32,
            ),
            final(self).wf(),
    {
        let priority: u8 = match thread.active.policy {
            SchedulePolicy::Fifo { priority } => priority.value,
            SchedulePolicy::RoundRobin { priority, .. } => priority.value,
            _ => 1,
        };
        let index: usize = (priority - 1) as usize;
        assert(self.level_wf(index as int));
        let ghost before = self.levels@[index as int]@;
        assert(priority == thread.active.policy.rt()->0.value);
        assert forall|j: int| 0 <= j < before.len() implies (#[trigger] before[j]).id.slot
            != thread.id.slot by {
            assert(old(self).level(thread.active.policy.rt()->0.value)[j] == before[j]);
        }
        match reason {
            EnqueueReason::Preempted => {
                self.levels[index].insert(0, thread);
                assert(self.levels@[index as int]@ =~= seq![thread] + before);
            },
            _ => {
                self.levels[index].push(thread);
            },
        }
        let ghost after = self.levels@[index as int]@;
        assert(distinct(after)) by {
            assert forall|i: int, j: int|
                0 <= i < after.len() && 0 <= j < after.len() && i != j implies (
            #[trigger] after[i]).id.slot != (#[trigger] after[j]).id.slot by {
                if reason == EnqueueReason::Preempted {
                    if i > 0 {
                        assert(after[i] == before[i - 1]);
                    }
                    if j > 0 {
                        assert(after[j] == before[j - 1]);
                    }
                }
            }
        }
        assert forall|j: int| 0 <= j < after.len() implies (#[trigger] after[j]).active.policy.rt()
            == Some(RtPriority { value: (index + 1) as u8 }) by {
            if reason == EnqueueReason::Preempted && j > 0 {
                assert(after[j] == before[j - 1]);
            }
        }
        assert forall|i: int| 0 <= i < RT_PRIORITY_LEVELS && i != index implies
            #[trigger] self.level_wf(i) by {
            assert(old(self).level_wf(i));
        }
        self.summarise(index);
        priority
    }

    /// Unlinks a thread.
    pub fn remove(&mut self, priority: u8, id: ThreadId) -> (removed: Option<QueuedThread>)
        requires
            old(self).wf(),
            1 <= priority <= 99,
        ensures
            removed is Some <==> holds(old(self).level(priority), id),
            removed matches Some(thread) ==> {
                &&& 0 <= index_of(old(self).level(priority), id) < old(self).level(priority).len()
                &&& thread == old(self).level(priority)[index_of(old(self).level(priority), id)]
                &&& thread.id == id
                &&& final(self).level(priority) == old(self).level(priority).remove(
                    index_of(old(self).level(priority), id),
                )
                &&& bit(final(self).pushable_bitmap, (priority - 1) as u32) == (bit(
                    old(self).pushable_bitmap,
                    (priority - 1) as u32,
                ) && final(self).level(priority).len() > 0)
            },
            removed is None ==> *final(self) == *old(self),
            final(self).same_but(old(self), priority),
            final(self).wf(),
    {
        let index: usize = (priority - 1) as usize;
        assert(self.level_wf(index as int));
        let found = position(&self.levels[index], id);
        match found {
            Some(at) => {
                let thread = self.levels[index].remove(at);
                assert forall|i: int| 0 <= i < RT_PRIORITY_LEVELS && i != index implies
                    #[trigger] self.level_wf(i) by {
                    assert(old(self).level_wf(i));
                }
                self.summarise(index);
                Some(thread)
            },
            None => None,
        }
    }

    /// The record of a thread.
    pub fn get(&self, priority: u8, id: ThreadId) -> (found: Option<QueuedThread>)
        requires
            self.wf(),
            1 <= priority <= 99,
        ensures
            found is Some <==> holds(self.level(priority), id),
            found matches Some(thread) ==> thread == self.level(priority)[index_of(
                self.level(priority),
                id,
            )] && thread.id == id,
    {
        let index: usize = (priority - 1) as usize;
        assert(self.level_wf(index as int));
        match position(&self.levels[index], id) {
            Some(at) => Some(self.levels[index][at]),
            None => None,
        }
    }

    /// Replaces the record of a thread in place.
    pub fn update(&mut self, priority: u8, thread: QueuedThread)
        requires
            old(self).wf(),
            1 <= priority <= 99,
            holds(old(self).level(priority), thread.id),
            thread.active.policy.rt() == Some(RtPriority { value: priority }),
        ensures
            final(self).level(priority) == old(self).level(priority).update(
                index_of(old(self).level(priority), thread.id),
                thread,
            ),
            final(self).same_but(old(self), priority),
            bit(final(self).pushable_bitmap, (priority - 1) as u32) == bit(
                old(self).pushable_bitmap,
                (priority - 1) as u32,
            ),
            final(self).wf(),
    {
        let index: usize = (priority - 1) as usize;
        assert(self.level_wf(index as int));
        let found = position(&self.levels[index], thread.id);
        if let Some(at) = found {
            self.levels[index].set(at, thread);
            assert forall|i: int| 0 <= i < RT_PRIORITY_LEVELS && i != index implies
                #[trigger] self.level_wf(i) by {
                assert(old(self).level_wf(i));
            }
            self.summarise(index);
        }
    }

    /// The thread to run next: the head of the most urgent list.
    pub fn select(&self) -> (selected: Option<QueuedThreadSnapshot>)
        requires
            self.wf(),
        ensures
            match selected {
                Some(snapshot) => exists|p: u8| #![trigger self.level(p)]
                    1 <= p <= 99 && self.level(p).len() > 0 && snapshot == self.level(p)[0].snapshot()
                        && forall|i: int|
                        p <= i < RT_PRIORITY_LEVELS ==> (#[trigger] self.levels@[i])@.len() == 0,
                None => forall|i: int|
                    0 <= i < RT_PRIORITY_LEVELS ==> (#[trigger] self.levels@[i])@.len() == 0,
            },
    {
        match self.highest_rt_priority() {
            Some(priority) => {
                let snapshot = self.levels[(priority - 1) as usize][0].to_snapshot();
                assert(snapshot == self.level(priority)[0].snapshot());
                Some(snapshot)
            },
            None => None,
        }
    }

    /// Returns a running thread to its list: a yielding one goes to the tail,
    /// any other keeps its place.
    pub fn put_prev_current(&mut self, priority: u8, id: ThreadId, reason: EnqueueReason) -> (entity: Option<SchedulingEntity>)
        requires
            old(self).wf(),
            1 <= priority <= 99,
        ensures
            entity is Some <==> holds(old(self).level(priority), id),
            ({
                let at = index_of(old(self).level(priority), id);
                let list = old(self).level(priority);
                entity matches Some(entity) ==> {
                    &&& entity == list[at].entity()
                    &&& final(self).level(priority) == if reason == EnqueueReason::Yield {
                        list.remove(at).push(list[at])
                    } else {
                        list
                    }
                }
            }),
            entity is None ==> *final(self) == *old(self),
            final(self).same_but(old(self), priority),
            bit(final(self).pushable_bitmap, (priority - 1) as u32) == bit(
                old(self).pushable_bitmap,
                (priority - 1) as u32,
            ),
            final(self).wf(),
    {
        let index: usize = (priority - 1) as usize;
        assert(self.level_wf(index as int));
        let found = position(&self.levels[index], id);
        match found {
            Some(at) => {
                let entity = self.levels[index][at].scheduling_entity();
                match reason {
                    EnqueueReason::Yield => {
                        let thread = self.levels[index].remove(at);
                        self.levels[index].push(thread);
                        assert forall|i: int| 0 <= i < RT_PRIORITY_LEVELS && i != index implies
                            #[trigger] self.level_wf(i) by {
                            assert(old(self).level_wf(i));
                        }
                        self.summarise(index);
                    },
                    _ => {},
                }
                Some(entity)
            },
            None => None,
        }
    }

    /// Ends an expired round-robin quantum: the thread gets a fresh one and, if
    /// it has peers, goes to the tail. Reports whether a peer should run.
    pub fn task_tick_round_robin(&mut self, priority: u8, id: ThreadId, policy: SchedulePolicy) -> (resched: Option<bool>)
        requires
            old(self).wf(),
            1 <= priority <= 99,
        ensures
            resched is Some <==> holds(old(self).level(priority), id),
            ({
                let list = old(self).level(priority);
                let at = index_of(list, id);
                let expired = list[at].entity() == (SchedulingEntity::RoundRobin {
                    remaining_quantum_ns: 0,
                });
                let renewed = QueuedThread {
                    active: list[at].active.with_effective(
                        match (list[at].entity(), policy) {
                            (
                                SchedulingEntity::RoundRobin { .. },
                                SchedulePolicy::RoundRobin { quantum_ns, .. },
                            ) => SchedulingEntity::RoundRobin { remaining_quantum_ns: quantum_ns },
                            (entity, _) => entity,
                        },
                    ),
                    ..list[at]
                };
                resched matches Some(resched) ==> {
                    &&& resched == (expired && list.len() > 1)
                    &&& final(self).level(priority) == if !expired {
                        list
                    } else if list.len() > 1 {
                        list.remove(at).push(renewed)
                    } else {
                        list.update(at, renewed)
                    }
                }
            }),
            resched is None ==> *final(self) == *old(self),
            final(self).same_but(old(self), priority),
            final(self).wf(),
    {
        let index: usize = (priority - 1) as usize;
        assert(self.level_wf(index as int));
        let found = position(&self.levels[index], id);
        match found {
            Some(at) => {
                let mut thread = self.levels[index][at];
                let mut entity = thread.scheduling_entity();
                if !entity.round_robin_quantum_expired() {
                    return Some(false);
                }
                entity.reset_round_robin_quantum(policy);
                thread.active.set_entity(entity);
                let has_peer = self.levels[index].len() > 1;
                if has_peer {
                    let _ = self.levels[index].remove(at);
                    self.levels[index].push(thread);
                } else {
                    self.levels[index].set(at, thread);
                }
                assert forall|i: int| 0 <= i < RT_PRIORITY_LEVELS && i != index implies
                    #[trigger] self.level_wf(i) by {
                    assert(old(self).level_wf(i));
                }
                self.summarise(index);
                Some(has_peer)
            },
            None => None,
        }
    }

    /// The first thread that passes a test, from the most urgent list down and
    /// in list order.
    pub fn find_first_matching<F: Fn(&QueuedThread) -> bool>(&self, test: F) -> (found: Option<QueuedThreadSnapshot>)
        requires
            self.wf(),
            forall|t: QueuedThread| call_requires(test, (&t,)),
        ensures
            match found {
                Some(snapshot) => exists|p: int, k: int| #![trigger self.levels@[p]@[k]]
                    0 <= p < RT_PRIORITY_LEVELS && 0 <= k < self.levels@[p]@.len() && snapshot
                        == self.levels@[p]@[k].snapshot() && call_ensures(
                        test,
                        (&self.levels@[p]@[k],),
                        true,
                    ) && (forall|j: int|
                        0 <= j < k ==> call_ensures(test, (&#[trigger] self.levels@[p]@[j],), false))
                        && (forall|q: int, j: int|
                        p < q < RT_PRIORITY_LEVELS && 0 <= j < self.levels@[q]@.len()
                            ==> call_ensures(test, (&#[trigger] self.levels@[q]@[j],), false)),
                None => forall|q: int, j: int|
                    0 <= q < RT_PRIORITY_LEVELS && 0 <= j < self.levels@[q]@.len() ==> call_ensures(
                        test,
                        (&#[trigger] self.levels@[q]@[j],),
                        false,
                    ),
            },
    {
        let mut above: usize = RT_PRIORITY_LEVELS;
        while above > 0
            invariant
                self.wf(),
                above <= RT_PRIORITY_LEVELS,
                forall|t: QueuedThread| call_requires(test, (&t,)),
                forall|q: int, j: int|
                    above <= q < RT_PRIORITY_LEVELS && 0 <= j < self.levels@[q]@.len()
                        ==> call_ensures(test, (&#[trigger] self.levels@[q]@[j],), false),
            decreases above,
        {
            let p: usize = above - 1;
            let mut k: usize = 0;
            while k < self.levels[p].len()
                invariant
                    self.wf(),
                    p < RT_PRIORITY_LEVELS,
                    p + 1 == above,
                    k <= self.levels@[p as int]@.len(),
                    forall|t: QueuedThread| call_requires(test, (&t,)),
                    forall|q: int, j: int|
                        above <= q < RT_PRIORITY_LEVELS && 0 <= j < self.levels@[q]@.len()
                            ==> call_ensures(test, (&#[trigger] self.levels@[q]@[j],), false),
                    forall|j: int|
                        0 <= j < k ==> call_ensures(
                            test,
                            (&#[trigger] self.levels@[p as int]@[j],),
                            false,
                        ),
                decreases self.levels@[p as int]@.len() - k,
            {
                if test(&self.levels[p][k]) {
                    return Some(self.levels[p][k].to_snapshot());
                }
                k = k + 1;
            }
            above = p;
        }
        None
    }
}

/// The class runs strictly by priority: what it selects has no thread of a more
/// urgent priority beside it.
pub proof fn rt_selection_is_by_priority(queue: RealtimeRunQueue, p: u8, q: u8)
    requires
        queue.wf(),
        1 <= p <= 99,
        1 <= q <= 99,
        queue.level(p).len() > 0,
        forall|i: int| p <= i < RT_PRIORITY_LEVELS ==> (#[trigger] queue.levels@[i])@.len() == 0,
        queue.level(q).len() > 0,
    ensures
        q <= p,
        queue.level(p)[0].active.policy.rt()->0.value == p,
{
    assert(queue.level_wf(p - 1));
    if q > p {
        assert(queue.levels@[q - 1]@.len() == 0);
    }
}

} // verus!
