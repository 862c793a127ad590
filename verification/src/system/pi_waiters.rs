//! Threads that enter and leave the queues of mutexes, and what that means for
//! the chains of owners behind them.
use vstd::prelude::*;
use crate::error::TaskError;
use crate::ids::{CpuId, ThreadId};
use crate::system::pi_graph::{waiting_for, with_wait};
use crate::system::task_system::{TaskSystem, with_record};
use crate::thread::pi::{
    PiDonation, PiMutexId, PiWaitEntry, PiWaitKey, PiWaitRegistration, distinct_keys, has_key,
    key_index,
};
use crate::thread::record::ThreadRecord;

verus! {

/// What became of a waiter whose urgency may have changed: the owner of the
/// mutex that it waits for, and whether its place changed.
#[derive(Clone, Copy, Debug, PartialEq, Eq, Structural)]
pub struct PiWaiterRefresh {
    pub owner: Option<ThreadId>,
    pub changed: bool,
}

/// Taking out what was put in last restores the entries.
pub proof fn dropping_the_last(entries: Seq<PiWaitEntry>, entry: PiWaitEntry)
    requires
        distinct_keys(entries.push(entry)),
    ensures
        has_key(entries.push(entry), entry.key),
        entries.push(entry).remove(key_index(entries.push(entry), entry.key)) == entries,
{
    let pushed = entries.push(entry);
    assert(pushed[entries.len() as int].key == entry.key);
    let at = key_index(pushed, entry.key);
    assert(0 <= at < pushed.len() && pushed[at].key == entry.key);
    assert(at == entries.len());
    assert(pushed.remove(at) =~= entries);
}

impl TaskSystem {
    pub open spec fn entries(&self, lock: PiMutexId) -> Seq<PiWaitEntry> {
        self.mutex(lock).waiters.entries@
    }

    /// A waiter left the queue of a mutex again.
    pub open spec fn waiter_withdrawn(&self, before: &Self, lock: PiMutexId, waiter: ThreadId, key: PiWaitKey) -> bool {
        exists|dropped: TaskSystem|
            #[trigger] dropped.mutex_becomes(
                before,
                lock,
                before.mutex(lock).owner,
                before.entries(lock).remove(key_index(before.entries(lock), key)),
            ) && self.only_thread(&dropped, waiting_for(before.record(waiter)->0, None))
    }

    /// A waiter stands in the queue of a mutex, and says so.
    pub open spec fn waiter_queued(&self, before: &Self, lock: PiMutexId, waiter: ThreadId, registration: PiWaitRegistration, donation: PiDonation) -> bool {
        exists|queued: TaskSystem|
            #[trigger] queued.mutex_becomes(
                before,
                lock,
                before.mutex(lock).owner,
                before.entries(lock).push(PiWaitEntry { key: registration.key, donation }),
            ) && self.only_thread(
                &queued,
                waiting_for(before.record(waiter)->0, Some(registration)),
            )
    }

    /// The system after a waiter entered the queue of a mutex, or could not.
    pub open spec fn waiter_inserted(
        &self,
        before: &Self,
        lock: PiMutexId,
        owner: Option<ThreadId>,
        waiter: ThreadId,
        registration: PiWaitRegistration,
        donation: PiDonation,
        now_ns: u64,
        by: CpuId,
        result: Result<(), TaskError>,
    ) -> bool {
        if (before.record(waiter)->0).pi.blocked_on is Some || has_key(
            before.entries(lock),
            registration.key,
        ) {
            result == Err::<(), TaskError>(TaskError::InvalidPiState) && *self == *before
        } else {
            exists|queued: TaskSystem, published: TaskSystem|
                #[trigger] queued.waiter_queued(before, lock, waiter, registration, donation)
                    && #[trigger] published.top_published(
                    &queued,
                    owner,
                    before.mutex(lock).waiters.top(),
                    queued.mutex(lock).waiters.top(),
                    None,
                    now_ns,
                    by,
                    result,
                ) && if result is Ok {
                    *self == published
                } else {
                    self.waiter_withdrawn(&published, lock, waiter, registration.key)
                }
        }
    }

    fn queue_waiter(&mut self, lock: PiMutexId, waiter: ThreadId, registration: PiWaitRegistration, donation: PiDonation)
        requires
            old(self).wf(),
            old(self).has_mutex(lock),
            old(self).record(waiter) is Some,
            !has_key(old(self).entries(lock), registration.key),
        ensures
            final(self).waiter_queued(old(self), lock, waiter, registration, donation),
            final(self).record(waiter) is Some,
            final(self).mutexes@.len() == old(self).mutexes@.len(),
            final(self).cpus@.len() == old(self).cpus@.len(),
            final(self).entries(lock) == old(self).entries(lock).push(
                PiWaitEntry { key: registration.key, donation },
            ),
            final(self).wf(),
    {
        let ghost before = *self;
        self.insert_waiter(lock, PiWaitEntry { key: registration.key, donation });
        let ghost queued = *self;
        let mut record = self.take_record(waiter);
        record.pi.blocked_on = Some(registration);
        self.put_record(record);
        assert(self.slots@ =~= with_record(queued.slots@, record));
        assert(queued.mutex_becomes(
            &before,
            lock,
            before.mutex(lock).owner,
            before.entries(lock).push(PiWaitEntry { key: registration.key, donation }),
        ));
    }

    fn withdraw_waiter(&mut self, lock: PiMutexId, waiter: ThreadId, key: PiWaitKey)
        requires
            old(self).wf(),
            old(self).has_mutex(lock),
            old(self).record(waiter) is Some,
            has_key(old(self).entries(lock), key),
        ensures
            final(self).waiter_withdrawn(old(self), lock, waiter, key),
            final(self).wf(),
    {
        let ghost before = *self;
        self.remove_waiter(lock, key);
        let ghost dropped = *self;
        let mut record = self.take_record(waiter);
        record.pi.blocked_on = None;
        self.put_record(record);
        assert(self.slots@ =~= with_record(dropped.slots@, record));
        assert(dropped.mutex_becomes(
            &before,
            lock,
            before.mutex(lock).owner,
            before.entries(lock).remove(key_index(before.entries(lock), key)),
        ));
    }

    /// Puts a waiter in the queue of a mutex.
    pub(crate) fn insert_lock_waiter(
        &mut self,
        lock: PiMutexId,
        owner: Option<ThreadId>,
        waiter: ThreadId,
        registration: PiWaitRegistration,
        donation: PiDonation,
        now_ns: u64,
        by: CpuId,
    ) -> (result: Result<(), TaskError>)
        requires
            old(self).wf(),
            old(self).has_mutex(lock),
            old(self).record(waiter) is Some,
        ensures
            final(self).waiter_inserted(
                old(self),
                lock,
                owner,
                waiter,
                registration,
                donation,
                now_ns,
                by,
                result,
            ),
            final(self).mutexes@.len() == old(self).mutexes@.len(),
            final(self).cpus@.len() == old(self).cpus@.len(),
            final(self).record(waiter) is Some,
            final(self).wf(),
    {
        let ghost before = *self;
        assert(lock.value <= self.mutexes.len());
        let at: usize = (lock.value - 1) as usize;
        assert(before.mutexes@[at as int].wf());
        let blocked = match self.thread_record(waiter) {
            Ok(record) => record.pi.blocked_on.is_some(),
            Err(_) => true,
        };
        if blocked || self.mutexes[at].waiters.contains(registration.key) {
            return Err(TaskError::InvalidPiState);
        }
        let old_top = self.mutexes[at].waiters.first_entry();
        self.queue_waiter(lock, waiter, registration, donation);
        let ghost queued = *self;
        let new_top = self.mutexes[at].waiters.first_entry();
        let result = self.publish_lock_top_change(owner, old_top, new_top, None, now_ns, by);
        let ghost published = *self;
        proof {
            assert(published.top_published(
                &queued,
                owner,
                before.mutex(lock).waiters.top(),
                queued.mutex(lock).waiters.top(),
                None,
                now_ns,
                by,
                result,
            ));
            assert(queued.mutexes@[at as int].wf());
            dropping_the_last(
                before.entries(lock),
                PiWaitEntry { key: registration.key, donation },
            );
        }
        if result.is_err() {
            self.withdraw_waiter(lock, waiter, registration.key);
        }
        result
    }

    /// The wait of a thread for a mutex, if it is the one meant.
    pub open spec fn registered_wait(&self, lock: PiMutexId, waiter: ThreadId, generation: u64) -> Option<PiWaitRegistration> {
        match (self.record(waiter)->0).pi.blocked_on {
            Some(registration) => if registration.generation == generation && has_key(
                self.entries(lock),
                registration.key,
            ) {
                Some(registration)
            } else {
                None
            },
            None => None,
        }
    }

    /// The record whose wait is over.
    pub open spec fn wait_over(record: ThreadRecord, generation: u64) -> ThreadRecord {
        with_wait(waiting_for(record, None), record.pi.wait.without_top(generation))
    }

    /// The system after a waiter left the queue of a mutex, or could not.
    pub open spec fn waiter_removed(
        &self,
        before: &Self,
        lock: PiMutexId,
        owner: Option<ThreadId>,
        waiter: ThreadId,
        generation: u64,
        now_ns: u64,
        by: CpuId,
        result: Result<PiWaitRegistration, TaskError>,
    ) -> bool {
        match before.registered_wait(lock, waiter, generation) {
            None => result == Err::<PiWaitRegistration, TaskError>(TaskError::InvalidPiState)
                && *self == *before,
            Some(registration) => {
                let entries = before.entries(lock);
                let at = key_index(entries, registration.key);
                exists|dropped: TaskSystem, published: TaskSystem, outcome: Result<(), TaskError>|
                    #[trigger] dropped.mutex_becomes(
                        before,
                        lock,
                        before.mutex(lock).owner,
                        entries.remove(at),
                    ) && #[trigger] published.top_published(
                        &dropped,
                        owner,
                        before.mutex(lock).waiters.top(),
                        dropped.mutex(lock).waiters.top(),
                        None,
                        now_ns,
                        by,
                        outcome,
                    ) && match outcome {
                        Ok(_) => result == Ok::<PiWaitRegistration, TaskError>(registration)
                            && self.only_thread(
                            &published,
                            Self::wait_over(published.record(waiter)->0, generation),
                        ),
                        Err(error) => result == Err::<PiWaitRegistration, TaskError>(error)
                            && self.mutex_becomes(
                            &published,
                            lock,
                            published.mutex(lock).owner,
                            entries.remove(at).push(entries[at]),
                        ),
                    }
            },
        }
    }

    fn end_wait(&mut self, waiter: ThreadId, generation: u64)
        requires
            old(self).wf(),
            old(self).record(waiter) is Some,
        ensures
            final(self).only_thread(
                old(self),
                Self::wait_over(old(self).record(waiter)->0, generation),
            ),
            final(self).record(waiter) is Some,
            final(self).wf(),
    {
        let ghost before = *self;
        let mut record = self.take_record(waiter);
        record.pi.blocked_on = None;
        record.pi.wait.clear_top(generation);
        self.put_record(record);
        assert(self.slots@ =~= with_record(before.slots@, record));
    }

    /// Takes a waiter out of the queue of a mutex.
    pub(crate) fn remove_lock_waiter(
        &mut self,
        lock: PiMutexId,
        owner: Option<ThreadId>,
        waiter: ThreadId,
        generation: u64,
        now_ns: u64,
        by: CpuId,
    ) -> (result: Result<PiWaitRegistration, TaskError>)
        requires
            old(self).wf(),
            old(self).has_mutex(lock),
            old(self).record(waiter) is Some,
        ensures
            final(self).waiter_removed(
                old(self),
                lock,
                owner,
                waiter,
                generation,
                now_ns,
                by,
                result,
            ),
            final(self).mutexes@.len() == old(self).mutexes@.len(),
            final(self).cpus@.len() == old(self).cpus@.len(),
            final(self).record(waiter) is Some,
            final(self).wf(),
    {
        let ghost before = *self;
        assert(lock.value <= self.mutexes.len());
        let at: usize = (lock.value - 1) as usize;
        assert(before.mutexes@[at as int].wf());
        let registration = match self.thread_record(waiter) {
            Ok(record) => match record.pi.blocked_on {
                Some(registration) => registration,
                None => {
                    return Err(TaskError::InvalidPiState);
                },
            },
            Err(_) => {
                return Err(TaskError::InvalidPiState);
            },
        };
        if registration.generation != generation {
            return Err(TaskError::InvalidPiState);
        }
        let donation = match self.mutexes[at].waiters.donation(registration.key) {
            Some(donation) => donation,
            None => {
                return Err(TaskError::InvalidPiState);
            },
        };
        let old_top = self.mutexes[at].waiters.first_entry();
        self.remove_waiter(lock, registration.key);
        let ghost dropped = *self;
        let new_top = self.mutexes[at].waiters.first_entry();
        let outcome = self.publish_lock_top_change(owner, old_top, new_top, None, now_ns, by);
        let ghost published = *self;
        proof {
            let entries = before.entries(lock);
            let index = key_index(entries, registration.key);
            assert(dropped.mutex_becomes(
                &before,
                lock,
                before.mutex(lock).owner,
                entries.remove(index),
            ));
            assert(published.top_published(
                &dropped,
                owner,
                before.mutex(lock).waiters.top(),
                dropped.mutex(lock).waiters.top(),
                None,
                now_ns,
                by,
                outcome,
            ));
            assert(entries[index].key == registration.key);
            assert(entries[index] == (PiWaitEntry { key: registration.key, donation }));
            assert(published.mutex(lock) == dropped.mutex(lock));
            assert(dropped.record(waiter) is Some);
            assert(published.record(waiter) is Some);
        }
        match outcome {
            Ok(_) => {
                self.end_wait(waiter, generation);
                Ok(registration)
            },
            Err(error) => {
                self.insert_waiter(lock, PiWaitEntry { key: registration.key, donation });
                Err(error)
            },
        }
    }
}

} // verus!
