//! The graph of priority inheritance: who waits for which mutex, and whose
//! urgency its owner is lent.
use vstd::prelude::*;
use crate::error::{PiWaitStateError, TaskError, ThreadState};
use crate::ids::{CpuId, ThreadId};
use crate::system::task_system::{TaskSystem, with_record};
use crate::thread::pi::{
    PiDonation, PiMutexId, PiWaitEntry, PiWaitKey, PiWaitRegistration, PiWaitState, first_entry_of,
    has_key, key_index,
};
use crate::thread::record::{ThreadPiState, ThreadRecord};

verus! {

/// What a thread lends to the owner of the mutex that it waits for.
pub open spec fn donation_of(record: &ThreadRecord) -> PiDonation {
    PiDonation {
        policy: record.policy.effective,
        root: match record.pi.donor {
            Some(donor) => donor,
            None => record.id,
        },
        boost_urgency: record.policy.urgency,
        waiter: record.id,
    }
}

/// Entries with one taken out and another put in.
pub open spec fn exchanged(entries: Seq<PiWaitEntry>, old_top: Option<PiWaitEntry>, new_top: Option<PiWaitEntry>) -> Seq<PiWaitEntry> {
    let kept = match old_top {
        Some(entry) => entries.remove(key_index(entries, entry.key)),
        None => entries,
    };
    match new_top {
        Some(entry) => kept.push(entry),
        None => kept,
    }
}

/// The record that waits for a mutex, or for none.
pub open spec fn waiting_for(record: ThreadRecord, registration: Option<PiWaitRegistration>) -> ThreadRecord {
    ThreadRecord { pi: ThreadPiState { blocked_on: registration, ..record.pi }, ..record }
}

/// The record with another state of its wait.
pub open spec fn with_wait(record: ThreadRecord, wait: PiWaitState) -> ThreadRecord {
    ThreadRecord { pi: ThreadPiState { wait, ..record.pi }, ..record }
}

/// The record with other donors.
pub open spec fn donors_become(after: ThreadRecord, before: ThreadRecord, entries: Seq<PiWaitEntry>) -> bool {
    &&& after.pi.donors.entries@ == entries
    &&& after == (ThreadRecord {
        pi: ThreadPiState { donors: after.pi.donors, ..before.pi },
        ..before
    })
}

/// The first of two entries, where there are any.
pub open spec fn earlier(a: Option<PiWaitEntry>, b: Option<PiWaitEntry>) -> Option<PiWaitEntry> {
    match (a, b) {
        (Some(x), Some(y)) => Some(
            if y.key.before(x.key) {
                y
            } else {
                x
            },
        ),
        (Some(x), None) => Some(x),
        (None, other) => other,
    }
}

/// A waiter that is about to get another key.
#[derive(Clone, Copy, Debug, PartialEq, Eq, Structural)]
pub struct PiWaiterRekey {
    pub waiter: ThreadId,
    pub registration: PiWaitRegistration,
    pub new_key: PiWaitKey,
}

impl TaskSystem {
    /// One mutex changed.
    pub open spec fn mutex_becomes(&self, before: &Self, id: PiMutexId, owner: u64, entries: Seq<PiWaitEntry>) -> bool {
        &&& self.mutexes@.len() == before.mutexes@.len()
        &&& forall|i: int|
            0 <= i < self.mutexes@.len() && i != id.value - 1 ==> (#[trigger] self.mutexes@[i])
                == before.mutexes@[i]
        &&& self.mutex(id).owner == owner
        &&& self.mutex(id).generation == before.mutex(id).generation
        &&& self.mutex(id).waiters.entries@ == entries
        &&& self.slots@ == before.slots@
        &&& self.cpus@ == before.cpus@
        &&& self.config == before.config
        &&& self.free_slots@ == before.free_slots@
        &&& self.root_domain == before.root_domain
        &&& self.exited@ == before.exited@
        &&& self.task_work == before.task_work
    }

    pub(crate) fn insert_waiter(&mut self, id: PiMutexId, entry: PiWaitEntry)
        requires
            old(self).wf(),
            old(self).has_mutex(id),
            !has_key(old(self).mutex(id).waiters.entries@, entry.key),
        ensures
            final(self).mutex_becomes(
                old(self),
                id,
                old(self).mutex(id).owner,
                old(self).mutex(id).waiters.entries@.push(entry),
            ),
            final(self).wf(),
    {
        let ghost before = *self;
        assert(id.value <= self.mutexes.len());
        let at: usize = (id.value - 1) as usize;
        assert(before.mutexes@[at as int].wf());
        self.mutexes[at].waiters.insert(entry.key, entry.donation);
        proof {
            self.mutexes_stay_wf(&before, at as int);
        }
    }

    pub(crate) fn remove_waiter(&mut self, id: PiMutexId, key: PiWaitKey)
        requires
            old(self).wf(),
            old(self).has_mutex(id),
            has_key(old(self).mutex(id).waiters.entries@, key),
        ensures
            final(self).mutex_becomes(
                old(self),
                id,
                old(self).mutex(id).owner,
                old(self).mutex(id).waiters.entries@.remove(
                    key_index(old(self).mutex(id).waiters.entries@, key),
                ),
            ),
            !has_key(final(self).mutex(id).waiters.entries@, key),
            final(self).wf(),
    {
        let ghost before = *self;
        assert(id.value <= self.mutexes.len());
        let at: usize = (id.value - 1) as usize;
        assert(before.mutexes@[at as int].wf());
        let _ = self.mutexes[at].waiters.remove(key);
        proof {
            self.mutexes_stay_wf(&before, at as int);
        }
    }

    pub(crate) fn set_owner_word(&mut self, id: PiMutexId, owner: u64)
        requires
            old(self).wf(),
            old(self).has_mutex(id),
        ensures
            final(self).mutex_becomes(
                old(self),
                id,
                owner,
                old(self).mutex(id).waiters.entries@,
            ),
            final(self).wf(),
    {
        let ghost before = *self;
        assert(id.value <= self.mutexes.len());
        let at: usize = (id.value - 1) as usize;
        assert(before.mutexes@[at as int].wf());
        self.mutexes[at].owner = owner;
        proof {
            self.mutexes_stay_wf(&before, at as int);
        }
    }

    proof fn mutexes_stay_wf(&self, before: &Self, at: int)
        requires
            before.wf(),
            self.mutexes@.len() == before.mutexes@.len(),
            0 <= at < self.mutexes@.len(),
            self.mutexes@ == before.mutexes@.update(at, self.mutexes@[at]),
            self.mutexes@[at].wf(),
            self.mutexes@[at].generation == before.mutexes@[at].generation,
        ensures
            crate::system::task_system::mutexes_wf(self.mutexes@),
    {
        assert forall|i: int| 0 <= i < self.mutexes@.len() implies (
        #[trigger] self.mutexes@[i]).wf() && self.mutexes@[i].generation == i + 1 by {
            assert(before.mutexes@[i].wf());
        }
    }

    /// Why the entry that a mutex contributes to the donors of its owner cannot
    /// be exchanged.
    pub open spec fn top_change_error(&self, owner: ThreadId, old_top: Option<PiWaitEntry>, new_top: Option<PiWaitEntry>) -> Option<TaskError> {
        match self.record(owner) {
            None => Some(TaskError::StaleThreadId),
            Some(record) => {
                let donors = record.pi.donors.entries@;
                if (old_top matches Some(entry) && self.record(entry.donation.waiter) is None) || (
                new_top matches Some(entry) && self.record(entry.donation.waiter) is None) {
                    Some(TaskError::InvalidPiState)
                } else if record.lifecycle == ThreadState::Exited {
                    Some(TaskError::InvalidPiWaitState(PiWaitStateError::ExitedParticipant))
                } else if Self::same_top(&record, old_top, new_top) {
                    None
                } else if record.policy.dispatch_generation == u64::MAX {
                    Some(TaskError::InvalidConfiguration)
                } else if old_top matches Some(entry) && !has_key(donors, entry.key) {
                    Some(TaskError::InvalidPiState)
                } else if new_top matches Some(entry) && has_key(donors, entry.key) && !(old_top
                    is Some && old_top->0.key == entry.key) {
                    Some(TaskError::InvalidPiState)
                } else {
                    None
                }
            },
        }
    }

    /// Whether the owner is lent the same as before.
    pub open spec fn same_top(record: &ThreadRecord, old_top: Option<PiWaitEntry>, new_top: Option<PiWaitEntry>) -> bool {
        let donors = record.pi.donors.entries@;
        &&& old_top matches Some(from)
        &&& new_top matches Some(to)
        &&& from.key == to.key
        &&& has_key(donors, from.key)
        &&& donors[key_index(donors, from.key)].donation == to.donation
    }

    /// Whom the owner will inherit from.
    pub open spec fn prospective_top(record: &ThreadRecord, old_top: Option<PiWaitEntry>, new_top: Option<PiWaitEntry>) -> Option<PiWaitEntry> {
        let excluded = match old_top {
            Some(entry) => Some(entry.key),
            None => None,
        };
        earlier(first_entry_of(record.pi.donors.entries@, excluded), new_top)
    }

    /// The system after the entry that a mutex contributes to the donors of its
    /// owner was exchanged.
    pub open spec fn lock_top_replaced(
        &self,
        before: &Self,
        owner: ThreadId,
        old_top: Option<PiWaitEntry>,
        new_top: Option<PiWaitEntry>,
        now_ns: u64,
        by: CpuId,
        result: Result<(), TaskError>,
    ) -> bool {
        let record = before.record(owner)->0;
        match before.top_change_error(owner, old_top, new_top) {
            Some(error) => result == Err::<(), TaskError>(error) && *self == *before,
            None => if Self::same_top(&record, old_top, new_top) {
                result == Ok::<(), TaskError>(()) && *self == *before
            } else {
                exists|computed: TaskSystem, outcome: Result<bool, TaskError>|
                    #[trigger] computed.inheritance_computed(
                        before,
                        owner,
                        Self::prospective_top(&record, old_top, new_top),
                        now_ns,
                        by,
                        outcome,
                    ) && match outcome {
                        Err(error) => result == Err::<(), TaskError>(error) && *self == computed,
                        Ok(_) => result == Ok::<(), TaskError>(()) && self.donors_exchanged(
                            &computed,
                            owner,
                            exchanged(record.pi.donors.entries@, old_top, new_top),
                        ),
                    }
            },
        }
    }

    /// The donors of one thread changed.
    pub open spec fn donors_exchanged(&self, before: &Self, owner: ThreadId, entries: Seq<PiWaitEntry>) -> bool {
        &&& self.record(owner) is Some
        &&& donors_become(self.record(owner)->0, before.record(owner)->0, entries)
        &&& self.only_thread(before, self.record(owner)->0)
    }

    fn check_top_change(&self, owner: ThreadId, old_top: Option<PiWaitEntry>, new_top: Option<PiWaitEntry>) -> (check: Result<(bool, Option<PiWaitEntry>), TaskError>)
        requires
            self.wf(),
        ensures
            match self.top_change_error(owner, old_top, new_top) {
                Some(error) => check == Err::<(bool, Option<PiWaitEntry>), TaskError>(error),
                None => check == Ok::<(bool, Option<PiWaitEntry>), TaskError>(
                    (
                        Self::same_top(&(self.record(owner)->0), old_top, new_top),
                        Self::prospective_top(&(self.record(owner)->0), old_top, new_top),
                    ),
                ),
            },
    {
        let record = match self.thread_record(owner) {
            Ok(record) => record,
            Err(error) => {
                return Err(error);
            },
        };
        if let Some(entry) = old_top {
            if !self.is_registered(entry.donation.waiter) {
                return Err(TaskError::InvalidPiState);
            }
        }
        if let Some(entry) = new_top {
            if !self.is_registered(entry.donation.waiter) {
                return Err(TaskError::InvalidPiState);
            }
        }
        if record.lifecycle == ThreadState::Exited {
            return Err(TaskError::InvalidPiWaitState(PiWaitStateError::ExitedParticipant));
        }
        let excluded = match old_top {
            Some(entry) => Some(entry.key),
            None => None,
        };
        let remaining = record.pi.donors.first_entry_excluding(excluded);
        let prospective = match (remaining, new_top) {
            (Some(current), Some(candidate)) => Some(
                if candidate.key.precedes(current.key) {
                    candidate
                } else {
                    current
                },
            ),
            (Some(current), None) => Some(current),
            (None, candidate) => candidate,
        };
        let mut replaces = false;
        if let (Some(from), Some(to)) = (old_top, new_top) {
            if from.key == to.key {
                replaces = true;
                if let Some(donation) = record.pi.donors.donation(from.key) {
                    if donation.same_source(&to.donation) {
                        return Ok((true, prospective));
                    }
                }
            }
        }
        if record.policy.dispatch_generation == u64::MAX {
            return Err(TaskError::InvalidConfiguration);
        }
        if let Some(entry) = old_top {
            if !record.pi.donors.contains(entry.key) {
                return Err(TaskError::InvalidPiState);
            }
        }
        if let Some(entry) = new_top {
            if !replaces && record.pi.donors.contains(entry.key) {
                return Err(TaskError::InvalidPiState);
            }
        }
        Ok((false, prospective))
    }

    fn exchange_donors(&mut self, owner: ThreadId, old_top: Option<PiWaitEntry>, new_top: Option<PiWaitEntry>)
        requires
            old(self).wf(),
            old(self).record(owner) is Some,
            old_top matches Some(entry) ==> has_key(
                (old(self).record(owner)->0).pi.donors.entries@,
                entry.key,
            ),
            new_top matches Some(entry) ==> has_key(
                (old(self).record(owner)->0).pi.donors.entries@,
                entry.key,
            ) ==> old_top is Some && old_top->0.key == entry.key,
        ensures
            final(self).donors_exchanged(
                old(self),
                owner,
                exchanged((old(self).record(owner)->0).pi.donors.entries@, old_top, new_top),
            ),
            final(self).wf(),
    {
        let ghost before = *self;
        let mut record = self.take_record(owner);
        let ghost start = record;
        let ghost entries = record.pi.donors.entries@;
        if let Some(entry) = old_top {
            let _ = record.pi.donors.remove(entry.key);
        }
        if let Some(entry) = new_top {
            proof {
                let kept = record.pi.donors.entries@;
                if has_key(kept, entry.key) {
                    let i = key_index(kept, entry.key);
                    assert(kept[i].key == entry.key);
                    if old_top is Some {
                        let at = key_index(entries, old_top->0.key);
                        let j = if i < at {
                            i
                        } else {
                            i + 1
                        };
                        assert(kept[i] == entries[j]);
                        assert(entries[j].key == entry.key);
                        assert(has_key(entries, entry.key));
                    }
                }
            }
            record.pi.donors.insert(entry.key, entry.donation);
        }
        proof {
            assert(new_top matches Some(entry) ==> entry == (PiWaitEntry {
                key: entry.key,
                donation: entry.donation,
            }));
        }
        self.put_record(record);
        proof {
            assert(self.slots@ =~= with_record(before.slots@, record));
            assert(donors_become(record, start, exchanged(entries, old_top, new_top)));
        }
    }

    /// Exchanges the entry that a mutex contributes to the donors of its owner,
    /// and computes anew what the owner inherits.
    pub(crate) fn replace_owner_lock_top(
        &mut self,
        owner: ThreadId,
        old_top: Option<PiWaitEntry>,
        new_top: Option<PiWaitEntry>,
        now_ns: u64,
        by: CpuId,
    ) -> (result: Result<(), TaskError>)
        requires
            old(self).wf(),
        ensures
            final(self).lock_top_replaced(
                old(self),
                owner,
                old_top,
                new_top,
                now_ns,
                by,
                result,
            ),
            final(self).wf(),
    {
        let (same, prospective) = match self.check_top_change(owner, old_top, new_top) {
            Ok(checked) => checked,
            Err(error) => {
                return Err(error);
            },
        };
        if same {
            return Ok(());
        }
        let ghost before = *self;
        let outcome = self.recompute_pi_owner(owner, prospective, now_ns, by);
        let ghost computed = *self;
        proof {
            assert(computed.inheritance_computed(
                &before,
                owner,
                prospective,
                now_ns,
                by,
                outcome,
            ));
            inheritance_keeps_donors(&computed, &before, owner, prospective, now_ns, by, outcome);
        }
        match outcome {
            Ok(_) => {
                self.exchange_donors(owner, old_top, new_top);
                Ok(())
            },
            Err(error) => Err(error),
        }
    }
}

/// Computing what a thread inherits leaves the graph as it is.
pub proof fn inheritance_keeps_donors(
    after: &TaskSystem,
    before: &TaskSystem,
    thread: ThreadId,
    top: Option<PiWaitEntry>,
    now_ns: u64,
    by: CpuId,
    result: Result<bool, TaskError>,
)
    requires
        before.wf(),
        before.record(thread) is Some,
        after.inheritance_computed(before, thread, top, now_ns, by, result),
    ensures
        after.record(thread) is Some,
        (after.record(thread)->0).pi.donors == (before.record(thread)->0).pi.donors,
        (after.record(thread)->0).pi.blocked_on == (before.record(thread)->0).pi.blocked_on,
        (after.record(thread)->0).pi.wait == (before.record(thread)->0).pi.wait,
        (after.record(thread)->0).lifecycle == (before.record(thread)->0).lifecycle,
        (after.record(thread)->0).id == thread,
        after.cpus@.len() == before.cpus@.len(),
        after.mutexes@ == before.mutexes@,
        forall|other: ThreadId|
            other != thread ==> #[trigger] after.record(other) == before.record(other),
{
    reveal(TaskSystem::inheritance_computed);
    assert(before.slots@[thread.slot as int].wf_at(thread.slot as int));
    assert forall|other: ThreadId| other != thread implies #[trigger] after.record(other)
        == before.record(other) by {
        if other.slot == thread.slot {
            assert(other.generation != thread.generation);
        }
    }
}

} // verus!
