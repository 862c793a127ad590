//! Handing priority-inheriting mutexes from owner to owner.
use vstd::prelude::*;
use crate::error::TaskError;
use crate::ids::{CpuId, ThreadId};
use crate::system::pi_chain::replacing_keeps_graph;
use crate::system::pi_graph::with_wait;
use crate::system::pi_mutex::PiLockStep;
use crate::system::task_system::{TaskSystem, with_record};
use crate::system::wake::WakeResult;
use crate::system::waking::waking_keeps_mutexes;
use crate::thread::pi::{
    OWNER_HAS_WAITERS, PiMutexAcquire, PiMutexId, PiMutexRef, PiWaitEntry, PiWaitRegistration,
    PiWaitState, PiWaitToken, can_own, has_key, named_owner, owner_word, word_of,
};
use crate::time::MonotonicInstant;

verus! {

/// A wait that was granted.
pub open spec fn granted_wait(wait: PiWaitState, generation: u64) -> PiWaitState {
    if wait.generation == generation {
        PiWaitState {
            granted_generation: generation,
            ..wait.without_selection(generation).without_top(generation)
        }
    } else {
        wait
    }
}

/// The ownership word of a thread behind which others wait, or none.
pub open spec fn owning_word(owner: ThreadId, entries: Seq<PiWaitEntry>) -> u64 {
    word_of(owner, entries.len() > 0) as u64
}

impl TaskSystem {
    /// Whether a thread waits for a mutex in a way that can still be granted.
    pub open spec fn can_be_granted(&self, thread: ThreadId, lock: PiMutexId) -> bool {
        &&& self.record(thread) matches Some(record)
        &&& record.pi.blocked_on matches Some(registration)
        &&& registration.lock == lock
        &&& record.pi.wait.open(registration.generation)
    }

    /// The waiter to which an owner hands a mutex, if it can.
    pub open spec fn release_choice(&self, lock: PiMutexId, owner: ThreadId) -> Result<PiWaitEntry, TaskError> {
        if self.record(owner) is None {
            Err(TaskError::StaleThreadId)
        } else if !self.has_mutex(lock) || named_owner(self.mutex(lock).owner) != Some(owner)
            || self.mutex(lock).owner < OWNER_HAS_WAITERS {
            Err(TaskError::InvalidPiState)
        } else {
            match self.mutex(lock).waiters.top() {
                None => Err(TaskError::InvalidPiState),
                Some(entry) => if !self.can_be_granted(entry.donation.waiter, lock) || !has_key(
                    (self.record(owner)->0).pi.donors.entries@,
                    entry.key,
                ) {
                    Err(TaskError::InvalidPiState)
                } else {
                    Ok(entry)
                },
            }
        }
    }

    fn grantable(&self, thread: ThreadId, lock: PiMutexId) -> (can: bool)
        requires
            self.wf(),
        ensures
            can == self.can_be_granted(thread, lock),
    {
        match self.thread_record(thread) {
            Ok(record) => match record.pi.blocked_on {
                Some(registration) => registration.lock == lock && record.pi.wait.can_grant(
                    registration.generation,
                ),
                None => false,
            },
            Err(_) => false,
        }
    }

    fn choose_successor(&self, lock: PiMutexId, owner: ThreadId) -> (choice: Result<PiWaitEntry, TaskError>)
        requires
            self.wf(),
        ensures
            choice == self.release_choice(lock, owner),
    {
        let record = match self.thread_record(owner) {
            Ok(record) => record,
            Err(error) => {
                return Err(error);
            },
        };
        if lock.value == 0 || lock.value > self.mutexes.len() as u64 {
            return Err(TaskError::InvalidPiState);
        }
        let core = &self.mutexes[(lock.value - 1) as usize];
        let snapshot = core.owner_snapshot();
        if !core.is_owned_by(owner) || !snapshot.has_waiters() {
            return Err(TaskError::InvalidPiState);
        }
        let entry = match core.waiters.first_entry() {
            Some(entry) => entry,
            None => {
                return Err(TaskError::InvalidPiState);
            },
        };
        if !self.grantable(entry.donation.waiter, lock) || !record.pi.donors.contains(entry.key) {
            return Err(TaskError::InvalidPiState);
        }
        Ok(entry)
    }

    /// The system after a mutex was taken from its owner for a waiter: what the
    /// waiter lent is taken back, the mutex has no owner until the waiter
    /// claims it, and the waiter is woken.
    pub open spec fn handed_off(
        &self,
        before: &Self,
        lock: PiMutexId,
        owner: ThreadId,
        entry: PiWaitEntry,
        now_ns: u64,
        monotonic_now: MonotonicInstant,
        by: CpuId,
        result: Result<(), TaskError>,
    ) -> bool {
        exists|returned: TaskSystem, outcome: Result<(), TaskError>|
            #[trigger] returned.lock_top_replaced(
                before,
                owner,
                Some(entry),
                None,
                now_ns,
                by,
                outcome,
            ) && match outcome {
                Err(error) => result == Err::<(), TaskError>(error) && *self == returned,
                Ok(_) => exists|freed: TaskSystem, cleaned: TaskSystem, walk: Result<(), TaskError>|
                    #[trigger] freed.mutex_becomes(
                        &returned,
                        lock,
                        OWNER_HAS_WAITERS,
                        returned.entries(lock),
                    ) && #[trigger] cleaned.chain_cleaned(
                        &freed,
                        owner,
                        entry.donation.waiter,
                        now_ns,
                        by,
                        walk,
                    ) && cleaned.wf() && self.woken(
                        &cleaned,
                        entry.donation.waiter,
                        None,
                        by,
                        now_ns,
                        monotonic_now,
                    ) && result == match cleaned.wake_outcome(
                        entry.donation.waiter,
                        None,
                        now_ns,
                    ).0 {
                        WakeResult::Notified => Ok::<(), TaskError>(()),
                        WakeResult::AlreadyPending => Ok(()),
                        _ => Err(TaskError::InvalidPiState),
                    },
            }
    }

    fn hand_off(
        &mut self,
        lock: PiMutexId,
        owner: ThreadId,
        entry: PiWaitEntry,
        now_ns: u64,
        monotonic_now: MonotonicInstant,
        by: CpuId,
    ) -> (result: Result<(), TaskError>)
        requires
            old(self).wf(),
            old(self).has_mutex(lock),
        ensures
            final(self).handed_off(
                old(self),
                lock,
                owner,
                entry,
                now_ns,
                monotonic_now,
                by,
                result,
            ),
            result is Ok ==> final(self).mutex(lock).owner == OWNER_HAS_WAITERS,
            final(self).wf(),
    {
        let ghost before = *self;
        let outcome = self.replace_owner_lock_top(owner, Some(entry), None, now_ns, by);
        let ghost returned = *self;
        proof {
            assert(returned.lock_top_replaced(
                &before,
                owner,
                Some(entry),
                None,
                now_ns,
                by,
                outcome,
            ));
            replacing_keeps_graph(
                &returned,
                &before,
                owner,
                Some(entry),
                None,
                now_ns,
                by,
                outcome,
            );
        }
        if let Err(error) = outcome {
            return Err(error);
        }
        self.set_owner_word(lock, OWNER_HAS_WAITERS);
        let ghost freed = *self;
        let waiter = entry.donation.waiter;
        let walk = self.recompute_pi_cleanup_chain(owner, waiter, now_ns, by);
        let ghost cleaned = *self;
        proof {
            assert(freed.mutex_becomes(
                &returned,
                lock,
                OWNER_HAS_WAITERS,
                returned.entries(lock),
            ));
            assert(cleaned.chain_cleaned(&freed, owner, waiter, now_ns, by, walk));
        }
        let woken = self.wake_thread_direct(waiter, None, by, now_ns, monotonic_now);
        proof {
            waking_keeps_mutexes(&cleaned, self, waiter, None, by, now_ns, monotonic_now);
            assert(cleaned.mutexes@[lock.value - 1].owner == freed.mutexes@[lock.value - 1].owner);
        }
        match woken {
            WakeResult::Notified | WakeResult::AlreadyPending => Ok(()),
            WakeResult::Exited | WakeResult::Unavailable => Err(TaskError::InvalidPiState),
        }
    }

    /// The system after a contended mutex was released to its first waiter.
    pub open spec fn mutex_released(&self, before: &Self, lock: PiMutexId, owner: ThreadId, now_ns: u64, monotonic_now: MonotonicInstant, by: CpuId, result: Result<(), TaskError>) -> bool {
        match before.release_choice(lock, owner) {
            Err(error) => result == Err::<(), TaskError>(error) && *self == *before,
            Ok(entry) => {
                &&& self.handed_off(
                    before,
                    lock,
                    owner,
                    entry,
                    now_ns,
                    monotonic_now,
                    by,
                    result,
                )
                &&& result is Ok ==> self.mutex(lock).owner == OWNER_HAS_WAITERS
            },
        }
    }

    /// Gives up a mutex for which others wait: the first of them is woken to
    /// claim it.
    pub fn pi_mutex_release(&mut self, lock: PiMutexRef, owner: ThreadId, now_ns: u64, monotonic_now: MonotonicInstant, by: CpuId) -> (result: Result<(), TaskError>)
        requires
            old(self).wf(),
        ensures
            final(self).mutex_released(
                old(self),
                lock.id,
                owner,
                now_ns,
                monotonic_now,
                by,
                result,
            ),
            final(self).wf(),
    {
        match self.choose_successor(lock.id, owner) {
            Err(error) => Err(error),
            Ok(entry) => self.hand_off(lock.id, owner, entry, now_ns, monotonic_now, by),
        }
    }

    /// Whether a waiter can claim the mutex that it waits for: the mutex has no
    /// owner, and the waiter is the first in line.
    pub open spec fn can_claim(&self, token: PiWaitToken) -> bool {
        &&& self.has_mutex(token.lock)
        &&& self.mutex(token.lock).owner == OWNER_HAS_WAITERS
        &&& self.record(token.thread) matches Some(record)
        &&& can_own(token.thread)
        &&& record.pi.blocked_on matches Some(registration)
        &&& registration.lock == token.lock
        &&& registration.generation == token.generation
        &&& self.mutex(token.lock).waiters.top() matches Some(entry)
        &&& entry.key == registration.key
        &&& record.pi.wait.open(token.generation)
    }

    fn may_claim(&self, token: PiWaitToken) -> (may: bool)
        requires
            self.wf(),
        ensures
            may == self.can_claim(token),
    {
        let lock = token.lock;
        if lock.value == 0 || lock.value > self.mutexes.len() as u64 {
            return false;
        }
        let core = &self.mutexes[(lock.value - 1) as usize];
        if !core.owner_snapshot().is_ownerless() {
            return false;
        }
        let record = match self.thread_record(token.thread) {
            Ok(record) => record,
            Err(_) => {
                return false;
            },
        };
        if owner_word(token.thread).is_err() {
            return false;
        }
        let registration = match record.pi.blocked_on {
            Some(registration) => registration,
            None => {
                return false;
            },
        };
        let first = match core.waiters.first() {
            Some(first) => first,
            None => {
                return false;
            },
        };
        registration.lock == lock && registration.generation == token.generation && first
            == registration.key && record.pi.wait.can_grant(token.generation)
    }

    /// The system after a waiter that left the queue of a mutex became its
    /// owner: it is lent what the next in line has, the mutex names it, its wait
    /// is granted, and the owners behind it are looked at.
    pub open spec fn ownership_taken(&self, before: &Self, token: PiWaitToken, now_ns: u64, by: CpuId) -> bool {
        let lock = token.lock;
        let top = before.mutex(lock).waiters.top();
        exists|lent: TaskSystem, named: TaskSystem, granted: TaskSystem, loan: Result<(), TaskError>, walk: Result<(), TaskError>|
            #[trigger] lent.lent_to(before, token.thread, top, now_ns, by, loan)
                && #[trigger] named.mutex_becomes(
                &lent,
                lock,
                owning_word(token.thread, before.entries(lock)),
                before.entries(lock),
            ) && #[trigger] granted.only_thread(
                &named,
                with_wait(
                    named.record(token.thread)->0,
                    granted_wait((named.record(token.thread)->0).pi.wait, token.generation),
                ),
            ) && #[trigger] self.chain_cleaned(
                &granted,
                token.thread,
                token.thread,
                now_ns,
                by,
                walk,
            )
    }

    /// A new owner was lent to by the first in line, if there is one.
    pub open spec fn lent_to(&self, before: &Self, owner: ThreadId, top: Option<PiWaitEntry>, now_ns: u64, by: CpuId, outcome: Result<(), TaskError>) -> bool {
        if top is None {
            outcome == Ok::<(), TaskError>(()) && *self == *before
        } else {
            self.lock_top_replaced(before, owner, None, top, now_ns, by, outcome)
        }
    }

    fn take_ownership(&mut self, token: PiWaitToken, now_ns: u64, by: CpuId)
        requires
            old(self).wf(),
            old(self).has_mutex(token.lock),
            old(self).record(token.thread) is Some,
            can_own(token.thread),
        ensures
            final(self).ownership_taken(old(self), token, now_ns, by),
            final(self).wf(),
    {
        let ghost before = *self;
        let lock = token.lock;
        assert(lock.value <= self.mutexes.len());
        let at: usize = (lock.value - 1) as usize;
        let top = self.mutexes[at].waiters.first_entry();
        let waits = !self.mutexes[at].waiters.is_empty();
        let loan = match top {
            Some(_) => self.replace_owner_lock_top(token.thread, None, top, now_ns, by),
            None => Ok(()),
        };
        let ghost lent = *self;
        proof {
            assert(lent.lent_to(&before, token.thread, top, now_ns, by, loan));
            if top is Some {
                replacing_keeps_graph(
                    &lent,
                    &before,
                    token.thread,
                    None,
                    top,
                    now_ns,
                    by,
                    loan,
                );
            }
            assert(lent.mutexes@ == before.mutexes@);
        }
        let word: u64 = token.thread.as_u64() + if waits {
            OWNER_HAS_WAITERS
        } else {
            0
        };
        self.set_owner_word(lock, word);
        let ghost named = *self;
        assert(named.mutex_becomes(
            &lent,
            lock,
            owning_word(token.thread, before.entries(lock)),
            before.entries(lock),
        ));
        let mut record = self.take_record(token.thread);
        let _ = record.pi.wait.grant(token.generation);
        self.put_record(record);
        let ghost granted = *self;
        proof {
            assert(granted.slots@ =~= with_record(named.slots@, record));
            assert(granted.only_thread(
                &named,
                with_wait(
                    named.record(token.thread)->0,
                    granted_wait((named.record(token.thread)->0).pi.wait, token.generation),
                ),
            ));
        }
        let walk = self.recompute_pi_cleanup_chain(token.thread, token.thread, now_ns, by);
        assert(self.chain_cleaned(&granted, token.thread, token.thread, now_ns, by, walk));
    }

    /// The system after the waiter to whom a mutex was released took it.
    pub open spec fn mutex_claimed(&self, before: &Self, token: PiWaitToken, now_ns: u64, by: CpuId, result: Result<(), TaskError>) -> bool {
        if !before.can_claim(token) {
            result == Err::<(), TaskError>(TaskError::InvalidPiState) && *self == *before
        } else {
            exists|left: TaskSystem, outcome: Result<PiWaitRegistration, TaskError>|
                #[trigger] left.waiter_removed(
                    before,
                    token.lock,
                    None,
                    token.thread,
                    token.generation,
                    now_ns,
                    by,
                    outcome,
                ) && match outcome {
                    Err(error) => result == Err::<(), TaskError>(error) && *self == left,
                    Ok(_) => result == Ok::<(), TaskError>(()) && self.ownership_taken(
                        &left,
                        token,
                        now_ns,
                        by,
                    ),
                }
        }
    }

    /// Takes a mutex that was handed to the waiter.
    pub fn pi_mutex_claim(&mut self, token: PiWaitToken, now_ns: u64, by: CpuId) -> (result: Result<(), TaskError>)
        requires
            old(self).wf(),
        ensures
            final(self).mutex_claimed(old(self), token, now_ns, by, result),
            final(self).wf(),
    {
        if !self.may_claim(token) {
            return Err(TaskError::InvalidPiState);
        }
        let ghost before = *self;
        let outcome = self.remove_lock_waiter(
            token.lock,
            None,
            token.thread,
            token.generation,
            now_ns,
            by,
        );
        let ghost left = *self;
        assert(left.waiter_removed(
            &before,
            token.lock,
            None,
            token.thread,
            token.generation,
            now_ns,
            by,
            outcome,
        ));
        match outcome {
            Err(error) => Err(error),
            Ok(_) => {
                self.take_ownership(token, now_ns, by);
                Ok(())
            },
        }
    }
}

/// A mutex that waits to be claimed is locked, and nobody's.
proof fn unclaimed_is_locked(system: &TaskSystem, lock: PiMutexId, thread: ThreadId)
    requires
        system.mutex(lock).owner == OWNER_HAS_WAITERS,
    ensures
        system.mutex(lock).locked(),
        named_owner(system.mutex(lock).owner) != Some(thread),
        system.mutex(lock).acquisition(thread) != Ok::<_, TaskError>(PiMutexAcquire::Acquired),
        system.lock_step(lock, thread) != PiLockStep::Acquire,
{
}

/// A mutex that was released to a waiter stays locked until the waiter claims
/// it: nobody owns it, and nobody can take it in between.
pub proof fn handoffs_keep_the_mutex_locked(before: &TaskSystem, after: &TaskSystem, lock: PiMutexId, owner: ThreadId, now_ns: u64, monotonic_now: MonotonicInstant, by: CpuId, thread: ThreadId)
    requires
        before.wf(),
        after.mutex_released(before, lock, owner, now_ns, monotonic_now, by, Ok(())),
    ensures
        after.mutex(lock).locked(),
        named_owner(after.mutex(lock).owner) != Some(thread),
        after.mutex(lock).acquisition(thread) != Ok::<_, TaskError>(PiMutexAcquire::Acquired),
        after.lock_step(lock, thread) != PiLockStep::Acquire,
{
    unclaimed_is_locked(after, lock, thread);
}

} // verus!
