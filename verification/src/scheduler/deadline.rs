//! The Deadline class: earliest absolute deadline first, with the bandwidth
//! ledger of one run queue.
use vstd::prelude::*;
use crate::ids::ThreadId;
use crate::scheduler::entity::SchedulingEntity;
use crate::scheduler::task::{
    QueuedThread, QueuedThreadSnapshot, distinct, due, due_of, earliest_where, first_due,
    first_due_is_admitted, first_where, holds, index_of, position, verdicts,
};

verus! {

/// Bandwidth of one run queue as other parties read it.
#[derive(Clone, Copy, Debug, PartialEq, Eq, Structural)]
pub struct DeadlineBandwidthSnapshot {
    pub this_bw_scaled: u64,
    pub running_bw_scaled: u64,
    pub max_bw_scaled: u64,
}

impl DeadlineBandwidthSnapshot {
    pub fn this_bw_scaled(&self) -> (bandwidth: u64)
        ensures
            bandwidth == self.this_bw_scaled,
    {
        self.this_bw_scaled
    }

    pub fn running_bw_scaled(&self) -> (bandwidth: u64)
        ensures
            bandwidth == self.running_bw_scaled,
    {
        self.running_bw_scaled
    }

    pub fn max_bw_scaled(&self) -> (bandwidth: u64)
        ensures
            bandwidth == self.max_bw_scaled,
    {
        self.max_bw_scaled
    }
}

/// Bandwidth assigned to a run queue and the part of it that is in use.
#[derive(Clone, Copy, Debug, PartialEq, Eq, Structural)]
pub struct DeadlineRunQueueBandwidth {
    pub this_bw_scaled: u64,
    pub running_bw_scaled: u64,
    pub max_bw_scaled: u64,
}

impl DeadlineRunQueueBandwidth {
    /// What is in use has been assigned.
    pub open spec fn wf(self) -> bool {
        self.running_bw_scaled <= self.this_bw_scaled
    }

    pub open spec fn can_add(self, utilization_scaled: u64) -> bool {
        self.this_bw_scaled + utilization_scaled <= u64::MAX
    }

    pub open spec fn can_remove(self, utilization_scaled: u64, active: bool) -> bool {
        &&& utilization_scaled <= self.this_bw_scaled
        &&& active ==> utilization_scaled <= self.running_bw_scaled
        &&& !active ==> self.running_bw_scaled <= self.this_bw_scaled - utilization_scaled
    }

    pub open spec fn added(self, utilization_scaled: u64, active: bool) -> Self {
        DeadlineRunQueueBandwidth {
            this_bw_scaled: (self.this_bw_scaled + utilization_scaled) as u64,
            running_bw_scaled: if active {
                (self.running_bw_scaled + utilization_scaled) as u64
            } else {
                self.running_bw_scaled
            },
            ..self
        }
    }

    pub open spec fn removed(self, utilization_scaled: u64, active: bool) -> Self {
        DeadlineRunQueueBandwidth {
            this_bw_scaled: (self.this_bw_scaled - utilization_scaled) as u64,
            running_bw_scaled: if active {
                (self.running_bw_scaled - utilization_scaled) as u64
            } else {
                self.running_bw_scaled
            },
            ..self
        }
    }

    pub fn new(max_bw_scaled: u64) -> (bandwidth: Self)
        ensures
            bandwidth == (DeadlineRunQueueBandwidth {
                this_bw_scaled: 0,
                running_bw_scaled: 0,
                max_bw_scaled,
            }),
            bandwidth.wf(),
    {
        DeadlineRunQueueBandwidth { this_bw_scaled: 0, running_bw_scaled: 0, max_bw_scaled }
    }

    pub fn add_reservation(&mut self, utilization_scaled: u64, active: bool)
        requires
            old(self).wf(),
            old(self).can_add(utilization_scaled),
        ensures
            *final(self) == old(self).added(utilization_scaled, active),
            final(self).wf(),
    {
        self.this_bw_scaled = self.this_bw_scaled + utilization_scaled;
        if active {
            self.running_bw_scaled = self.running_bw_scaled + utilization_scaled;
        }
    }

    pub fn remove_reservation(&mut self, utilization_scaled: u64, active: bool)
        requires
            old(self).wf(),
            old(self).can_remove(utilization_scaled, active),
        ensures
            *final(self) == old(self).removed(utilization_scaled, active),
            final(self).wf(),
    {
        self.this_bw_scaled = self.this_bw_scaled - utilization_scaled;
        if active {
            self.running_bw_scaled = self.running_bw_scaled - utilization_scaled;
        }
    }

    pub fn activate(&mut self, utilization_scaled: u64)
        requires
            old(self).wf(),
            old(self).running_bw_scaled + utilization_scaled <= old(self).this_bw_scaled,
        ensures
            *final(self) == (DeadlineRunQueueBandwidth {
                running_bw_scaled: (old(self).running_bw_scaled + utilization_scaled) as u64,
                ..*old(self)
            }),
            final(self).wf(),
    {
        self.running_bw_scaled = self.running_bw_scaled + utilization_scaled;
    }

    pub fn deactivate(&mut self, utilization_scaled: u64)
        requires
            old(self).wf(),
            utilization_scaled <= old(self).running_bw_scaled,
        ensures
            *final(self) == (DeadlineRunQueueBandwidth {
                running_bw_scaled: (old(self).running_bw_scaled - utilization_scaled) as u64,
                ..*old(self)
            }),
            final(self).wf(),
    {
        self.running_bw_scaled = self.running_bw_scaled - utilization_scaled;
    }

    pub fn snapshot(&self) -> (snapshot: DeadlineBandwidthSnapshot)
        ensures
            snapshot == (DeadlineBandwidthSnapshot {
                this_bw_scaled: self.this_bw_scaled,
                running_bw_scaled: self.running_bw_scaled,
                max_bw_scaled: self.max_bw_scaled,
            }),
    {
        DeadlineBandwidthSnapshot {
            this_bw_scaled: self.this_bw_scaled,
            running_bw_scaled: self.running_bw_scaled,
            max_bw_scaled: self.max_bw_scaled,
        }
    }
}

/// Taking a reservation back out restores the ledger.
pub proof fn removing_undoes_adding(ledger: DeadlineRunQueueBandwidth, utilization_scaled: u64, active: bool)
    requires
        ledger.wf(),
        ledger.can_add(utilization_scaled),
    ensures
        ledger.added(utilization_scaled, active).can_remove(utilization_scaled, active),
        ledger.added(utilization_scaled, active).removed(utilization_scaled, active) == ledger,
{
}

/// Every record competes with a well-formed Deadline entity that has a deadline.
pub open spec fn all_deadline(list: Seq<QueuedThread>) -> bool {
    forall|i: int| 0 <= i < list.len() ==> #[trigger] deadline_record(list[i])
}

pub open spec fn deadline_record(thread: QueuedThread) -> bool {
    &&& thread.entity() matches SchedulingEntity::Deadline(entity)
    &&& entity.wf()
    &&& entity.absolute_deadline is Some
}

/// Runnable, running and throttled threads of the Deadline class, and the
/// threads whose reservation this run queue carries.
#[derive(Debug)]
pub struct DeadlineRunQueue {
    pub entries: Vec<QueuedThread>,
    pub throttled: Vec<QueuedThread>,
    pub members: Vec<ThreadId>,
    pub member_capacity: usize,
    pub bandwidth: DeadlineRunQueueBandwidth,
}

impl DeadlineRunQueue {
    pub open spec fn wf(&self) -> bool {
        &&& distinct(self.entries@)
        &&& distinct(self.throttled@)
        &&& all_deadline(self.entries@)
        &&& self.bandwidth.wf()
        &&& self.members@.no_duplicates()
        &&& self.members@.len() <= self.member_capacity
    }

    /// The record to run next.
    pub open spec fn choice(&self) -> Option<int> {
        first_where(self.entries@, |t: QueuedThread| true)
    }

    pub fn new(max_bw_scaled: u64, thread_capacity: usize) -> (queue: Self)
        ensures
            queue.entries@ == Seq::<QueuedThread>::empty(),
            queue.throttled@ == Seq::<QueuedThread>::empty(),
            queue.members@ == Seq::<ThreadId>::empty(),
            queue.member_capacity == thread_capacity,
            queue.bandwidth == (DeadlineRunQueueBandwidth {
                this_bw_scaled: 0,
                running_bw_scaled: 0,
                max_bw_scaled,
            }),
            queue.wf(),
    {
        DeadlineRunQueue {
            entries: Vec::new(),
            throttled: Vec::new(),
            members: Vec::new(),
            member_capacity: thread_capacity,
            bandwidth: DeadlineRunQueueBandwidth::new(max_bw_scaled),
        }
    }

    /// Adds a runnable record.
    pub fn insert(&mut self, thread: QueuedThread)
        requires
            old(self).wf(),
            deadline_record(thread),
            forall|i: int|
                0 <= i < old(self).entries@.len() ==> (#[trigger] old(self).entries@[i]).id.slot
                    != thread.id.slot,
        ensures
            final(self).entries@ == old(self).entries@.push(thread),
            final(self).throttled == old(self).throttled,
            final(self).members == old(self).members,
            final(self).member_capacity == old(self).member_capacity,
            final(self).bandwidth == old(self).bandwidth,
            final(self).wf(),
    {
        self.entries.push(thread);
    }

    /// Takes the runnable record of `id` out.
    pub fn remove(&mut self, id: ThreadId) -> (removed: Option<QueuedThread>)
        requires
            old(self).wf(),
        ensures
            removed is Some <==> holds(old(self).entries@, id),
            removed matches Some(thread) ==> {
                &&& 0 <= index_of(old(self).entries@, id) < old(self).entries@.len()
                &&& thread == old(self).entries@[index_of(old(self).entries@, id)]
                &&& thread.id == id
                &&& final(self).entries@ == old(self).entries@.remove(
                    index_of(old(self).entries@, id),
                )
            },
            removed is None ==> final(self).entries == old(self).entries,
            final(self).throttled == old(self).throttled,
            final(self).members == old(self).members,
            final(self).member_capacity == old(self).member_capacity,
            final(self).bandwidth == old(self).bandwidth,
            final(self).wf(),
    {
        match position(&self.entries, id) {
            Some(i) => Some(self.entries.remove(i)),
            None => None,
        }
    }

    /// The runnable record of `id`.
    pub fn get(&self, id: ThreadId) -> (found: Option<QueuedThread>)
        requires
            self.wf(),
        ensures
            found is Some <==> holds(self.entries@, id),
            found matches Some(thread) ==> thread == self.entries@[index_of(self.entries@, id)]
                && thread.id == id,
    {
        match position(&self.entries, id) {
            Some(i) => Some(self.entries[i]),
            None => None,
        }
    }

    /// Replaces a runnable record in place.
    pub fn update(&mut self, thread: QueuedThread)
        requires
            old(self).wf(),
            holds(old(self).entries@, thread.id),
            deadline_record(thread),
        ensures
            final(self).entries@ == old(self).entries@.update(
                index_of(old(self).entries@, thread.id),
                thread,
            ),
            final(self).throttled == old(self).throttled,
            final(self).members == old(self).members,
            final(self).member_capacity == old(self).member_capacity,
            final(self).bandwidth == old(self).bandwidth,
            final(self).wf(),
    {
        if let Some(i) = position(&self.entries, thread.id) {
            self.entries.set(i, thread);
        }
    }

    fn first_position(&self) -> (found: Option<usize>)
        ensures
            match found {
                Some(i) => i < self.entries@.len() && self.choice() == Some(i as int),
                None => self.choice() is None && self.entries@.len() == 0,
            },
    {
        let test = |thread: &QueuedThread| -> (r: bool)
            ensures
                r,
            { true };
        let found = earliest_where(&self.entries, test);
        proof {
            let mask = choose|admitted: Seq<bool>|
                #[trigger] verdicts(self.entries@, test, admitted) && match found {
                    Some(i) => i < self.entries@.len() && first_due(
                        self.entries@,
                        admitted,
                        self.entries@.len() as int,
                    ) == Some(i as int),
                    None => first_due(self.entries@, admitted, self.entries@.len() as int) is None,
                };
            let expected = |t: QueuedThread| true;
            assert(mask =~= Seq::new(self.entries@.len(), |i: int| expected(self.entries@[i])));
            first_due_is_admitted(self.entries@, mask, self.entries@.len() as int);
            if self.entries@.len() > 0 && found is None {
                assert(!mask[0]);
            }
        }
        found
    }

    /// The record with the earliest deadline.
    pub fn first(&self) -> (first: Option<QueuedThread>)
        ensures
            first is Some <==> self.entries@.len() > 0,
            first matches Some(thread) ==> self.choice() is Some && 0 <= self.choice()->0
                < self.entries@.len() && thread == self.entries@[self.choice()->0],
    {
        match self.first_position() {
            Some(i) => Some(self.entries[i]),
            None => None,
        }
    }

    pub fn earliest_deadline_ns(&self) -> (deadline: Option<u64>)
        requires
            self.wf(),
        ensures
            deadline == if self.entries@.len() > 0 {
                Some(due(self.entries@[self.choice()->0]))
            } else {
                None
            },
    {
        match self.first_position() {
            Some(i) => Some(due_of(&self.entries[i])),
            None => None,
        }
    }

    /// Whether some queued thread is marked as pushable.
    pub fn has_pushable(&self) -> (any: bool)
        ensures
            any == exists|i: int| 0 <= i < self.entries@.len() && (#[trigger] self.entries@[i]).pushable,
    {
        let mut i: usize = 0;
        while i < self.entries.len()
            invariant
                i <= self.entries.len(),
                forall|j: int| 0 <= j < i ==> !(#[trigger] self.entries@[j]).pushable,
            decreases self.entries.len() - i,
        {
            if self.entries[i].pushable {
                return true;
            }
            i = i + 1;
        }
        false
    }

    /// The first thread in deadline order that passes a test.
    pub fn find_first_matching<F: Fn(&QueuedThread) -> bool>(&self, test: F) -> (found: Option<QueuedThreadSnapshot>)
        requires
            forall|i: int|
                0 <= i < self.entries@.len() ==> call_requires(test, (&#[trigger] self.entries@[i],)),
        ensures
            exists|admitted: Seq<bool>|
                #[trigger] verdicts(self.entries@, test, admitted) && found == match first_due(
                    self.entries@,
                    admitted,
                    self.entries@.len() as int,
                ) {
                    Some(i) => Some(self.entries@[i].snapshot()),
                    None => None,
                },
    {
        match earliest_where(&self.entries, test) {
            Some(i) => Some(self.entries[i].to_snapshot()),
            None => None,
        }
    }

    /// Keeps a thread whose budget is spent until it is replenished.
    pub fn install_throttled(&mut self, thread: QueuedThread)
        requires
            old(self).wf(),
            forall|i: int|
                0 <= i < old(self).throttled@.len() ==> (#[trigger] old(self).throttled@[i]).id.slot
                    != thread.id.slot,
        ensures
            final(self).throttled@ == old(self).throttled@.push(thread),
            final(self).entries == old(self).entries,
            final(self).members == old(self).members,
            final(self).member_capacity == old(self).member_capacity,
            final(self).bandwidth == old(self).bandwidth,
            final(self).wf(),
    {
        self.throttled.push(thread);
    }

    pub fn take_throttled(&mut self, id: ThreadId) -> (removed: Option<QueuedThread>)
        requires
            old(self).wf(),
        ensures
            removed is Some <==> holds(old(self).throttled@, id),
            removed matches Some(thread) ==> {
                &&& 0 <= index_of(old(self).throttled@, id) < old(self).throttled@.len()
                &&& thread == old(self).throttled@[index_of(old(self).throttled@, id)]
                &&& thread.id == id
                &&& final(self).throttled@ == old(self).throttled@.remove(
                    index_of(old(self).throttled@, id),
                )
            },
            removed is None ==> final(self).throttled == old(self).throttled,
            final(self).entries == old(self).entries,
            final(self).members == old(self).members,
            final(self).member_capacity == old(self).member_capacity,
            final(self).bandwidth == old(self).bandwidth,
            final(self).wf(),
    {
        match position(&self.throttled, id) {
            Some(i) => Some(self.throttled.remove(i)),
            None => None,
        }
    }

    pub fn throttled(&self, id: ThreadId) -> (found: Option<QueuedThread>)
        requires
            self.wf(),
        ensures
            found is Some <==> holds(self.throttled@, id),
            found matches Some(thread) ==> thread == self.throttled@[index_of(self.throttled@, id)]
                && thread.id == id,
    {
        match position(&self.throttled, id) {
            Some(i) => Some(self.throttled[i]),
            None => None,
        }
    }

    /// Replaces a throttled record in place.
    pub fn update_throttled(&mut self, thread: QueuedThread)
        requires
            old(self).wf(),
            holds(old(self).throttled@, thread.id),
        ensures
            final(self).throttled@ == old(self).throttled@.update(
                index_of(old(self).throttled@, thread.id),
                thread,
            ),
            final(self).entries == old(self).entries,
            final(self).members == old(self).members,
            final(self).member_capacity == old(self).member_capacity,
            final(self).bandwidth == old(self).bandwidth,
            final(self).wf(),
    {
        if let Some(i) = position(&self.throttled, thread.id) {
            self.throttled.set(i, thread);
        }
    }

    fn member_position(&self, id: ThreadId) -> (found: Option<usize>)
        ensures
            found is Some <==> self.members@.contains(id),
            found matches Some(i) ==> i < self.members@.len() && self.members@[i as int] == id,
    {
        let mut i: usize = 0;
        while i < self.members.len()
            invariant
                i <= self.members.len(),
                forall|j: int| 0 <= j < i ==> self.members@[j] != id,
            decreases self.members.len() - i,
        {
            if self.members[i] == id {
                return Some(i);
            }
            i = i + 1;
        }
        None
    }

    pub fn members_are_empty(&self) -> (empty: bool)
        ensures
            empty == (self.members@.len() == 0),
    {
        self.members.len() == 0
    }

    pub fn is_member(&self, id: ThreadId) -> (member: bool)
        ensures
            member == self.members@.contains(id),
    {
        self.member_position(id).is_some()
    }

    /// Registers a reservation holder; reports whether it is new.
    pub fn register_member(&mut self, id: ThreadId) -> (registered: bool)
        requires
            old(self).wf(),
            old(self).members@.contains(id) || old(self).members@.len() < old(self).member_capacity,
        ensures
            registered == !old(self).members@.contains(id),
            final(self).members@ == if registered {
                old(self).members@.push(id)
            } else {
                old(self).members@
            },
            final(self).entries == old(self).entries,
            final(self).throttled == old(self).throttled,
            final(self).member_capacity == old(self).member_capacity,
            final(self).bandwidth == old(self).bandwidth,
            final(self).wf(),
    {
        if self.member_position(id).is_some() {
            return false;
        }
        self.members.push(id);
        true
    }

    /// Forgets a reservation holder.
    pub fn unregister_member(&mut self, id: ThreadId)
        requires
            old(self).wf(),
        ensures
            forall|other: ThreadId|
                final(self).members@.contains(other) <==> old(self).members@.contains(other) && other
                    != id,
            final(self).members@.len() == old(self).members@.len() - if old(self).members@.contains(
                id,
            ) {
                1int
            } else {
                0int
            },
            final(self).entries == old(self).entries,
            final(self).throttled == old(self).throttled,
            final(self).member_capacity == old(self).member_capacity,
            final(self).bandwidth == old(self).bandwidth,
            final(self).wf(),
    {
        let ghost before = self.members@;
        if let Some(i) = self.member_position(id) {
            let _ = self.members.remove(i);
            proof {
                let after = self.members@;
                assert forall|other: ThreadId| after.contains(other) <==> before.contains(other)
                    && other != id by {
                    if after.contains(other) {
                        let k = choose|k: int| 0 <= k < after.len() && after[k] == other;
                        if k < i {
                            assert(before[k] == other);
                        } else {
                            assert(before[k + 1] == other);
                        }
                    }
                    if before.contains(other) && other != id {
                        let k = choose|k: int| 0 <= k < before.len() && before[k] == other;
                        if k < i {
                            assert(after[k] == other);
                        } else {
                            assert(after[k - 1] == other);
                        }
                    }
                }
            }
        }
    }
}

} // verus!
