//! Operations on priority-inheriting mutexes.
use vstd::prelude::*;
use crate::error::{PiWaitStateError, TaskError};
use crate::ids::{CpuId, ThreadId};
use crate::system::pi_graph::{PiWaiterRekey, donation_of, waiting_for};
use crate::system::pi_waiters::{PiWaiterRefresh, dropping_the_last};
use crate::system::task_system::{TaskSystem, with_record};
use crate::thread::pi::{
    PiDonation, PiMutexId, PiWaitEntry, PiWaitKey, PiWaitRegistration, distinct_keys, has_key,
    key_index, named_owner, owner_from_word,
};
use crate::thread::record::ThreadRecord;

verus! {

/// The key of a waiter after its urgency changed.
pub open spec fn rekeyed(record: &ThreadRecord, registration: PiWaitRegistration) -> PiWaitKey {
    PiWaitKey {
        urgency: record.policy.urgency,
        sequence: registration.key.sequence,
        thread: record.id,
    }
}

impl TaskSystem {
    /// The threads that a waiter lends for are known.
    pub open spec fn donation_known(&self, record: &ThreadRecord) -> bool {
        record.pi.donor matches Some(root) ==> root == record.id || self.record(root) is Some
    }

    /// What a thread lends.
    pub(crate) fn pi_donation(&self, record: &ThreadRecord) -> (donation: Result<PiDonation, TaskError>)
        ensures
            donation == if self.donation_known(record) {
                Ok(donation_of(record))
            } else {
                Err(TaskError::StaleThreadId)
            },
    {
        let root = match record.pi.donor {
            Some(root) => root,
            None => record.id,
        };
        if root != record.id && !self.is_registered(root) {
            return Err(TaskError::StaleThreadId);
        }
        Ok(PiDonation::new(record.policy.effective, root, record.policy.urgency, record.id))
    }

    /// The entries of a mutex with one of them under another key.
    pub open spec fn rekeyed_entries(entries: Seq<PiWaitEntry>, key: PiWaitKey, entry: PiWaitEntry) -> Seq<PiWaitEntry> {
        entries.remove(key_index(entries, key)).push(entry)
    }

    /// The system after a waiter got the place that its urgency gives it.
    pub open spec fn waiter_rekeyed(
        &self,
        before: &Self,
        waiter: ThreadId,
        registration: PiWaitRegistration,
        now_ns: u64,
        by: CpuId,
        result: Result<PiWaiterRefresh, TaskError>,
    ) -> bool {
        let record = before.record(waiter)->0;
        let lock = registration.lock;
        let entries = before.entries(lock);
        let new_key = rekeyed(&record, registration);
        let owner = named_owner(before.mutex(lock).owner);
        exists|moved: TaskSystem, published: TaskSystem, outcome: Result<(), TaskError>|
            #[trigger] moved.mutex_becomes(
                before,
                lock,
                before.mutex(lock).owner,
                Self::rekeyed_entries(
                    entries,
                    registration.key,
                    PiWaitEntry { key: new_key, donation: donation_of(&record) },
                ),
            ) && #[trigger] published.top_published(
                &moved,
                owner,
                before.mutex(lock).waiters.top(),
                moved.mutex(lock).waiters.top(),
                Some(PiWaiterRekey { waiter, registration, new_key }),
                now_ns,
                by,
                outcome,
            ) && match outcome {
                Ok(_) => result == Ok::<PiWaiterRefresh, TaskError>(
                    PiWaiterRefresh { owner, changed: true },
                ) && self.only_thread(
                    &published,
                    waiting_for(
                        published.record(waiter)->0,
                        Some(PiWaitRegistration { key: new_key, ..registration }),
                    ),
                ),
                Err(error) => result == Err::<PiWaiterRefresh, TaskError>(error)
                    && self.mutex_becomes(
                    &published,
                    lock,
                    published.mutex(lock).owner,
                    Self::rekeyed_entries(
                        entries,
                        registration.key,
                        entries[key_index(entries, registration.key)],
                    ),
                ),
            }
    }

    /// The system after the place of a waiter was looked at.
    pub open spec fn waiter_refreshed(&self, before: &Self, waiter: ThreadId, now_ns: u64, by: CpuId, result: Result<PiWaiterRefresh, TaskError>) -> bool {
        let record = before.record(waiter)->0;
        if !before.donation_known(&record) {
            result == Err::<PiWaiterRefresh, TaskError>(TaskError::StaleThreadId) && *self
                == *before
        } else {
            match record.pi.blocked_on {
                None => result == Ok::<PiWaiterRefresh, TaskError>(
                    PiWaiterRefresh { owner: None, changed: false },
                ) && *self == *before,
                Some(registration) => {
                    let entries = before.entries(registration.lock);
                    let at = key_index(entries, registration.key);
                    if !before.has_mutex(registration.lock) || !has_key(entries, registration.key) {
                        result == Err::<PiWaiterRefresh, TaskError>(TaskError::InvalidPiState)
                            && *self == *before
                    } else if record.policy.urgency == registration.key.urgency && donation_of(
                        &record,
                    ) == entries[at].donation {
                        result == Ok::<PiWaiterRefresh, TaskError>(
                            PiWaiterRefresh {
                                owner: named_owner(before.mutex(registration.lock).owner),
                                changed: false,
                            },
                        ) && *self == *before
                    } else if has_key(entries.remove(at), rekeyed(&record, registration)) {
                        result == Err::<PiWaiterRefresh, TaskError>(TaskError::InvalidPiState)
                            && *self == *before
                    } else {
                        self.waiter_rekeyed(before, waiter, registration, now_ns, by, result)
                    }
                },
            }
        }
    }

    fn move_waiter(&mut self, lock: PiMutexId, key: PiWaitKey, entry: PiWaitEntry)
        requires
            old(self).wf(),
            old(self).has_mutex(lock),
            has_key(old(self).entries(lock), key),
            !has_key(
                old(self).entries(lock).remove(key_index(old(self).entries(lock), key)),
                entry.key,
            ),
        ensures
            final(self).mutex_becomes(
                old(self),
                lock,
                old(self).mutex(lock).owner,
                Self::rekeyed_entries(old(self).entries(lock), key, entry),
            ),
            final(self).wf(),
    {
        self.remove_waiter(lock, key);
        self.insert_waiter(lock, entry);
    }

    fn rekey_waiter(&mut self, waiter: ThreadId, registration: PiWaitRegistration, donation: PiDonation, new_key: PiWaitKey, now_ns: u64, by: CpuId) -> (result: Result<PiWaiterRefresh, TaskError>)
        requires
            old(self).wf(),
            old(self).record(waiter) is Some,
            old(self).has_mutex(registration.lock),
            has_key(old(self).entries(registration.lock), registration.key),
            new_key == rekeyed(&(old(self).record(waiter)->0), registration),
            donation == donation_of(&(old(self).record(waiter)->0)),
            !has_key(
                old(self).entries(registration.lock).remove(
                    key_index(old(self).entries(registration.lock), registration.key),
                ),
                new_key,
            ),
        ensures
            final(self).waiter_rekeyed(old(self), waiter, registration, now_ns, by, result),
            final(self).words_kept(old(self)),
            final(self).cpus@.len() == old(self).cpus@.len(),
            forall|thread: ThreadId|
                (#[trigger] final(self).record(thread)) is Some == old(self).record(thread) is Some,
            final(self).wf(),
    {
        let ghost before = *self;
        let lock = registration.lock;
        assert(lock.value <= self.mutexes.len());
        let at: usize = (lock.value - 1) as usize;
        assert(before.mutexes@[at as int].wf());
        let owner = owner_from_word(self.mutexes[at].owner);
        let old_top = self.mutexes[at].waiters.first_entry();
        let old_donation = self.mutexes[at].waiters.donation(registration.key).unwrap();
        let entry = PiWaitEntry { key: new_key, donation };
        self.move_waiter(lock, registration.key, entry);
        let ghost moved = *self;
        let new_top = self.mutexes[at].waiters.first_entry();
        let rekey = PiWaiterRekey { waiter, registration, new_key };
        let outcome = self.publish_lock_top_change(
            owner,
            old_top,
            new_top,
            Some(rekey),
            now_ns,
            by,
        );
        let ghost published = *self;
        let ghost entries = before.entries(lock);
        let ghost index = key_index(entries, registration.key);
        proof {
            assert(moved.mutex_becomes(
                &before,
                lock,
                before.mutex(lock).owner,
                Self::rekeyed_entries(entries, registration.key, entry),
            ));
            assert(published.top_published(
                &moved,
                owner,
                before.mutex(lock).waiters.top(),
                moved.mutex(lock).waiters.top(),
                Some(rekey),
                now_ns,
                by,
                outcome,
            ));
            assert(entries[index].key == registration.key);
            assert(entries[index] == (PiWaitEntry { key: registration.key, donation: old_donation }));
            assert(published.mutex(lock) == moved.mutex(lock));
            assert(moved.mutexes@[at as int].wf());
            dropping_the_last(entries.remove(index), entry);
            assert(moved.record(waiter) is Some);
            assert(published.record(waiter) is Some);
        }
        match outcome {
            Ok(_) => {
                let mut record = self.take_record(waiter);
                record.pi.blocked_on = Some(PiWaitRegistration { key: new_key, ..registration });
                self.put_record(record);
                proof {
                    assert(self.slots@ =~= with_record(published.slots@, record));
                    assert forall|thread: ThreadId| (#[trigger] self.record(thread)) is Some
                        == before.record(thread) is Some by {
                        assert(published.record(thread) is Some == moved.record(thread) is Some);
                    }
                }
                Ok(PiWaiterRefresh { owner, changed: true })
            },
            Err(error) => {
                let restored = PiWaitEntry { key: registration.key, donation: old_donation };
                proof {
                    without_key(entries, registration.key);
                }
                self.move_waiter(lock, new_key, restored);
                proof {
                    assert forall|thread: ThreadId| (#[trigger] self.record(thread)) is Some
                        == before.record(thread) is Some by {
                        assert(published.record(thread) is Some == moved.record(thread) is Some);
                    }
                }
                Err(error)
            },
        }
    }

    /// Gives a waiter the place that its urgency gives it.
    pub(crate) fn refresh_blocked_waiter_key(&mut self, waiter: ThreadId, now_ns: u64, by: CpuId) -> (result: Result<PiWaiterRefresh, TaskError>)
        requires
            old(self).wf(),
            old(self).record(waiter) is Some,
        ensures
            final(self).waiter_refreshed(old(self), waiter, now_ns, by, result),
            final(self).words_kept(old(self)),
            final(self).cpus@.len() == old(self).cpus@.len(),
            forall|thread: ThreadId|
                (#[trigger] final(self).record(thread)) is Some == old(self).record(thread) is Some,
            final(self).wf(),
    {
        let record = match self.thread_record(waiter) {
            Ok(record) => record,
            Err(error) => {
                return Err(error);
            },
        };
        let donation = match self.pi_donation(record) {
            Ok(donation) => donation,
            Err(error) => {
                return Err(error);
            },
        };
        let registration = match record.pi.blocked_on {
            Some(registration) => registration,
            None => {
                return Ok(PiWaiterRefresh { owner: None, changed: false });
            },
        };
        if registration.lock.value == 0 || registration.lock.value > self.mutexes.len() as u64 {
            return Err(TaskError::InvalidPiState);
        }
        let at: usize = (registration.lock.value - 1) as usize;
        assert(self.mutexes@[at as int].wf());
        let old_donation = match self.mutexes[at].waiters.donation(registration.key) {
            Some(donation) => donation,
            None => {
                return Err(TaskError::InvalidPiState);
            },
        };
        if record.policy.urgency == registration.key.urgency && donation.same_source(
            &old_donation,
        ) {
            return Ok(
                PiWaiterRefresh {
                    owner: owner_from_word(self.mutexes[at].owner),
                    changed: false,
                },
            );
        }
        let new_key = PiWaitKey::new(
            record.policy.urgency,
            registration.key.sequence,
            record.id,
        );
        if new_key != registration.key && self.mutexes[at].waiters.contains(new_key) {
            proof {
                other_key_remains(
                    self.mutexes@[at as int].waiters.entries@,
                    registration.key,
                    new_key,
                );
            }
            return Err(TaskError::InvalidPiState);
        }
        proof {
            only_old_keys_remain(
                self.mutexes@[at as int].waiters.entries@,
                registration.key,
                new_key,
            );
        }
        self.rekey_waiter(waiter, registration, donation, new_key, now_ns, by)
    }

    /// The system after a chain of owners was followed, at most `left` steps.
    pub open spec fn chain_walked(
        &self,
        before: &Self,
        current: ThreadId,
        origin: Option<PiMutexId>,
        top: ThreadId,
        left: nat,
        limit: usize,
        now_ns: u64,
        by: CpuId,
        result: Result<(), TaskError>,
    ) -> bool
        decreases left,
    {
        if left == 0 {
            result == Err::<(), TaskError>(TaskError::PiChainLimit { limit }) && *self == *before
        } else {
            match before.record(current) {
                None => result == Err::<(), TaskError>(TaskError::StaleThreadId) && *self
                    == *before,
                Some(record) => if record.exiting {
                    result == Err::<(), TaskError>(
                        TaskError::InvalidPiWaitState(PiWaitStateError::ExitedParticipant),
                    ) && *self == *before
                } else if origin is Some && record.pi.blocked_on is Some
                    && record.pi.blocked_on->0.lock == origin->0 {
                    result == Err::<(), TaskError>(TaskError::PiCycle) && *self == *before
                } else {
                    exists|mid: TaskSystem, refresh: Result<PiWaiterRefresh, TaskError>|
                        #[trigger] mid.waiter_refreshed(before, current, now_ns, by, refresh)
                            && match refresh {
                            Err(error) => result == Err::<(), TaskError>(error) && *self == mid,
                            Ok(step) => match step.owner {
                                None => result == Ok::<(), TaskError>(()) && *self == mid,
                                Some(owner) => if !step.changed && origin is None {
                                    result == Ok::<(), TaskError>(()) && *self == mid
                                } else if owner == top {
                                    result == Err::<(), TaskError>(TaskError::PiCycle) && *self
                                        == mid
                                } else if left == 1 {
                                    result == Err::<(), TaskError>(
                                        TaskError::PiChainLimit { limit },
                                    ) && *self == mid
                                } else {
                                    self.chain_walked(
                                        &mid,
                                        owner,
                                        origin,
                                        top,
                                        (left - 1) as nat,
                                        limit,
                                        now_ns,
                                        by,
                                        result,
                                    )
                                },
                            },
                        }
                },
            }
        }
    }

    /// Follows a chain of owners, each of which waits for a mutex of the next.
    pub(crate) fn recompute_pi_chain_bounded(
        &mut self,
        current: ThreadId,
        origin: Option<PiMutexId>,
        top: ThreadId,
        left: usize,
        limit: usize,
        now_ns: u64,
        by: CpuId,
    ) -> (result: Result<(), TaskError>)
        requires
            old(self).wf(),
        ensures
            final(self).chain_walked(
                old(self),
                current,
                origin,
                top,
                left as nat,
                limit,
                now_ns,
                by,
                result,
            ),
            final(self).words_kept(old(self)),
            final(self).cpus@.len() == old(self).cpus@.len(),
            forall|thread: ThreadId|
                (#[trigger] final(self).record(thread)) is Some == old(self).record(thread) is Some,
            final(self).wf(),
        decreases left,
    {
        if left == 0 {
            return Err(TaskError::PiChainLimit { limit });
        }
        let ghost before = *self;
        let (exiting, blocked_on) = match self.thread_record(current) {
            Ok(record) => (record.exiting, record.pi.blocked_on),
            Err(error) => {
                return Err(error);
            },
        };
        if exiting {
            return Err(TaskError::InvalidPiWaitState(PiWaitStateError::ExitedParticipant));
        }
        if let (Some(origin), Some(registration)) = (origin, blocked_on) {
            if registration.lock == origin {
                return Err(TaskError::PiCycle);
            }
        }
        let refresh = self.refresh_blocked_waiter_key(current, now_ns, by);
        let ghost mid = *self;
        assert(mid.waiter_refreshed(&before, current, now_ns, by, refresh));
        let step = match refresh {
            Ok(step) => step,
            Err(error) => {
                return Err(error);
            },
        };
        if !step.changed && origin.is_none() {
            return Ok(());
        }
        let owner = match step.owner {
            Some(owner) => owner,
            None => {
                return Ok(());
            },
        };
        if owner == top {
            return Err(TaskError::PiCycle);
        }
        if left == 1 {
            return Err(TaskError::PiChainLimit { limit });
        }
        self.recompute_pi_chain_bounded(owner, origin, top, left - 1, limit, now_ns, by)
    }
}

/// Taking out a key leaves no entry under it.
proof fn without_key(entries: Seq<PiWaitEntry>, key: PiWaitKey)
    requires
        distinct_keys(entries),
        has_key(entries, key),
    ensures
        !has_key(entries.remove(key_index(entries, key)), key),
{
    let at = key_index(entries, key);
    assert(entries[at].key == key);
    let kept = entries.remove(at);
    assert forall|i: int| 0 <= i < kept.len() implies (#[trigger] kept[i]).key != key by {
        let j = if i < at {
            i
        } else {
            i + 1
        };
        assert(kept[i] == entries[j]);
        assert(entries[j].key != entries[at].key);
    }
}

/// Another key is still there.
proof fn other_key_remains(entries: Seq<PiWaitEntry>, key: PiWaitKey, other: PiWaitKey)
    requires
        distinct_keys(entries),
        has_key(entries, key),
        has_key(entries, other),
        key != other,
    ensures
        has_key(entries.remove(key_index(entries, key)), other),
{
    let at = key_index(entries, key);
    let from = key_index(entries, other);
    assert(entries[at].key == key && entries[from].key == other);
    let kept = entries.remove(at);
    let to = if from < at {
        from
    } else {
        from - 1
    };
    assert(kept[to] == entries[from]);
    assert(kept[to].key == other);
}

/// No other key came in.
proof fn only_old_keys_remain(entries: Seq<PiWaitEntry>, key: PiWaitKey, other: PiWaitKey)
    requires
        distinct_keys(entries),
        has_key(entries, key),
        key == other || !has_key(entries, other),
    ensures
        !has_key(entries.remove(key_index(entries, key)), other),
{
    if key == other {
        without_key(entries, key);
    } else {
        let at = key_index(entries, key);
        assert(entries[at].key == key);
        let kept = entries.remove(at);
        assert forall|i: int| 0 <= i < kept.len() implies (#[trigger] kept[i]).key != other by {
            let j = if i < at {
                i
            } else {
                i + 1
            };
            assert(kept[i] == entries[j]);
        }
    }
}

} // verus!
