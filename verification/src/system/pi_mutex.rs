//! Locking, waiting for, releasing and claiming priority-inheriting mutexes.
use vstd::prelude::*;
use crate::error::{PiWaitStateError, TaskError, ThreadState};
use crate::ids::{CpuId, ThreadId};
use crate::system::pi_graph::{donation_of, with_wait};
use crate::system::task_system::{TaskSystem, with_record};
use crate::thread::pi::{
    OWNER_HAS_WAITERS, PiDonation, PiMutexId, PiMutexRef, PiWaitKey, PiWaitRegistration,
    PiWaitState, PiWaitToken, can_own, named_owner, owner_from_word, word_of,
};
use crate::thread::record::ThreadRecord;

verus! {

/// What a thread that wants a mutex gets.
#[derive(Clone, Copy, Debug, PartialEq, Eq, Structural)]
pub enum PiMutexLockResult {
    Acquired,
    Waiting(PiWaitToken),
}

/// What a thread that wants a mutex has to do.
#[derive(Clone, Copy, Debug, PartialEq, Eq, Structural)]
pub enum PiLockStep {
    Refused(TaskError),
    Acquire,
    Wait { owner: Option<ThreadId> },
}

pub open spec fn wait_error(error: PiWaitStateError) -> TaskError {
    TaskError::InvalidPiWaitState(error)
}

/// The ownership word of a mutex for which nobody waits any more.
pub open spec fn quiet_word(owner: Option<ThreadId>) -> u64 {
    match owner {
        Some(owner) => owner.packed() as u64,
        None => 0,
    }
}

/// The ownership word that says that somebody waits.
pub open spec fn marked_word(word: u64) -> u64 {
    if word < OWNER_HAS_WAITERS {
        (word + OWNER_HAS_WAITERS) as u64
    } else {
        word
    }
}

/// A wait that has just begun.
pub open spec fn begun_wait(wait: PiWaitState) -> PiWaitState {
    PiWaitState {
        generation: (wait.generation + 1) as u64,
        top_generation: 0,
        selected_generation: 0,
        granted_generation: 0,
    }
}

impl TaskSystem {
    /// What a thread that wants a mutex has to do.
    pub open spec fn lock_step(&self, lock: PiMutexId, waiter: ThreadId) -> PiLockStep {
        if !self.has_mutex(lock) {
            PiLockStep::Refused(TaskError::InvalidPiState)
        } else {
            match self.record(waiter) {
                None => PiLockStep::Refused(TaskError::StaleThreadId),
                Some(record) => if record.exiting || record.lifecycle == ThreadState::Exited {
                    PiLockStep::Refused(wait_error(PiWaitStateError::ExitedParticipant))
                } else if record.pi.blocked_on is Some {
                    PiLockStep::Refused(wait_error(PiWaitStateError::WaiterAlreadyBlocked))
                } else if !self.donation_known(&record) {
                    PiLockStep::Refused(TaskError::StaleThreadId)
                } else {
                    self.word_step(lock, &record)
                },
            }
        }
    }

    /// The same, by the ownership word.
    pub open spec fn word_step(&self, lock: PiMutexId, record: &ThreadRecord) -> PiLockStep {
        let word = self.mutex(lock).owner;
        let owner = named_owner(word);
        let waits = self.entries(lock).len() > 0;
        if word == 0 {
            if waits {
                PiLockStep::Refused(wait_error(PiWaitStateError::StaleSchedulerOwnership))
            } else if can_own(record.id) {
                PiLockStep::Acquire
            } else {
                PiLockStep::Refused(TaskError::InvalidPiState)
            }
        } else if owner == Some(record.id) {
            PiLockStep::Refused(wait_error(PiWaitStateError::WaiterOwnsLock))
        } else if (word >= OWNER_HAS_WAITERS) != waits {
            PiLockStep::Refused(wait_error(PiWaitStateError::StaleSchedulerOwnership))
        } else if owner matches Some(owner) && (self.record(owner) is None || (self.record(
            owner,
        )->0).exiting) {
            PiLockStep::Refused(wait_error(PiWaitStateError::ExitedParticipant))
        } else if record.pi.wait.generation == u64::MAX {
            PiLockStep::Refused(TaskError::InvalidPiState)
        } else {
            PiLockStep::Wait { owner }
        }
    }

    fn plan_lock(&self, lock: PiMutexId, waiter: ThreadId) -> (step: PiLockStep)
        requires
            self.wf(),
        ensures
            step == self.lock_step(lock, waiter),
    {
        if lock.value == 0 || lock.value > self.mutexes.len() as u64 {
            return PiLockStep::Refused(TaskError::InvalidPiState);
        }
        let record = match self.thread_record(waiter) {
            Ok(record) => record,
            Err(error) => {
                return PiLockStep::Refused(error);
            },
        };
        if record.exiting || record.lifecycle == ThreadState::Exited {
            return PiLockStep::Refused(
                TaskError::InvalidPiWaitState(PiWaitStateError::ExitedParticipant),
            );
        }
        if record.pi.blocked_on.is_some() {
            return PiLockStep::Refused(
                TaskError::InvalidPiWaitState(PiWaitStateError::WaiterAlreadyBlocked),
            );
        }
        if let Err(error) = self.pi_donation(record) {
            return PiLockStep::Refused(error);
        }
        let core = &self.mutexes[(lock.value - 1) as usize];
        let snapshot = core.owner_snapshot();
        let waits = !core.waiters.is_empty();
        if snapshot.is_unlocked() {
            if waits {
                return PiLockStep::Refused(
                    TaskError::InvalidPiWaitState(PiWaitStateError::StaleSchedulerOwnership),
                );
            }
            return match crate::thread::pi::owner_word(record.id) {
                Ok(_) => PiLockStep::Acquire,
                Err(error) => PiLockStep::Refused(error),
            };
        }
        let owner = snapshot.owner();
        if let Some(owner) = owner {
            if owner == record.id {
                return PiLockStep::Refused(
                    TaskError::InvalidPiWaitState(PiWaitStateError::WaiterOwnsLock),
                );
            }
        }
        if snapshot.has_waiters() != waits {
            return PiLockStep::Refused(
                TaskError::InvalidPiWaitState(PiWaitStateError::StaleSchedulerOwnership),
            );
        }
        if let Some(owner) = owner {
            let gone = match self.thread_record(owner) {
                Ok(held) => held.exiting,
                Err(_) => true,
            };
            if gone {
                return PiLockStep::Refused(
                    TaskError::InvalidPiWaitState(PiWaitStateError::ExitedParticipant),
                );
            }
        }
        if record.pi.wait.generation == u64::MAX {
            return PiLockStep::Refused(TaskError::InvalidPiState);
        }
        PiLockStep::Wait { owner }
    }

    /// The mutex says that somebody waits, and a wait has begun.
    pub open spec fn wait_begun(&self, before: &Self, lock: PiMutexId, waiter: ThreadId) -> bool {
        let record = before.record(waiter)->0;
        exists|marked: TaskSystem|
            #[trigger] marked.mutex_becomes(
                before,
                lock,
                marked_word(before.mutex(lock).owner),
                before.entries(lock),
            ) && self.only_thread(&marked, with_wait(record, begun_wait(record.pi.wait)))
    }

    fn begin_wait(&mut self, lock: PiMutexId, waiter: ThreadId) -> (generation: u64)
        requires
            old(self).wf(),
            old(self).has_mutex(lock),
            old(self).record(waiter) is Some,
            (old(self).record(waiter)->0).pi.wait.generation < u64::MAX,
        ensures
            final(self).wait_begun(old(self), lock, waiter),
            generation == (old(self).record(waiter)->0).pi.wait.generation + 1,
            final(self).record(waiter) is Some,
            final(self).mutexes@.len() == old(self).mutexes@.len(),
            final(self).cpus@.len() == old(self).cpus@.len(),
            final(self).wf(),
    {
        let ghost before = *self;
        assert(lock.value <= self.mutexes.len());
        let word: u64 = self.mutexes[(lock.value - 1) as usize].owner;
        let marked: u64 = if word < OWNER_HAS_WAITERS {
            word + OWNER_HAS_WAITERS
        } else {
            word
        };
        self.set_owner_word(lock, marked);
        let ghost noted = *self;
        let mut record = self.take_record(waiter);
        let generation: u64 = match record.pi.wait.begin() {
            Ok(generation) => generation,
            Err(_) => 0,
        };
        self.put_record(record);
        assert(self.slots@ =~= with_record(noted.slots@, record));
        assert(noted.mutex_becomes(
            &before,
            lock,
            marked_word(before.mutex(lock).owner),
            before.entries(lock),
        ));
        generation
    }

    /// The system after a waiter entered the queue of a mutex. A mutex that has
    /// no waiters then does not say that it has.
    pub open spec fn lock_queued(
        &self,
        before: &Self,
        lock: PiMutexId,
        owner: Option<ThreadId>,
        waiter: ThreadId,
        registration: PiWaitRegistration,
        donation: PiDonation,
        now_ns: u64,
        by: CpuId,
        result: Result<(), TaskError>,
    ) -> bool {
        exists|tried: TaskSystem|
            #[trigger] tried.waiter_inserted(
                before,
                lock,
                owner,
                waiter,
                registration,
                donation,
                now_ns,
                by,
                result,
            ) && if result is Err && tried.entries(lock).len() == 0 {
                self.mutex_becomes(&tried, lock, quiet_word(owner), tried.entries(lock))
            } else {
                *self == tried
            }
    }

    fn queue_for_lock(
        &mut self,
        lock: PiMutexId,
        owner: Option<ThreadId>,
        waiter: ThreadId,
        registration: PiWaitRegistration,
        donation: PiDonation,
        now_ns: u64,
        by: CpuId,
    ) -> (result: Result<(), TaskError>)
        requires
            old(self).wf(),
            old(self).has_mutex(lock),
            old(self).record(waiter) is Some,
        ensures
            final(self).lock_queued(
                old(self),
                lock,
                owner,
                waiter,
                registration,
                donation,
                now_ns,
                by,
                result,
            ),
            final(self).mutexes@.len() == old(self).mutexes@.len(),
            final(self).cpus@.len() == old(self).cpus@.len(),
            final(self).record(waiter) is Some,
            final(self).wf(),
    {
        let result = self.insert_lock_waiter(
            lock,
            owner,
            waiter,
            registration,
            donation,
            now_ns,
            by,
        );
        assert(lock.value <= self.mutexes.len());
        if result.is_err() && self.mutexes[(lock.value - 1) as usize].waiters.is_empty() {
            self.quiet_mutex(lock, owner);
        }
        result
    }

    fn quiet_mutex(&mut self, lock: PiMutexId, owner: Option<ThreadId>)
        requires
            old(self).wf(),
            old(self).has_mutex(lock),
        ensures
            final(self).mutex_becomes(
                old(self),
                lock,
                quiet_word(owner),
                old(self).entries(lock),
            ),
            final(self).wf(),
    {
        let word: u64 = match owner {
            Some(owner) => owner.as_u64(),
            None => 0,
        };
        self.set_owner_word(lock, word);
    }

    /// Why a wait cannot be given up.
    pub open spec fn unregister_error(&self, lock: PiMutexId, waiter: ThreadId, generation: u64, keep_selected: bool) -> bool {
        let word = self.mutex(lock).owner;
        ||| !self.has_mutex(lock)
        ||| self.record(waiter) is None
        ||| word < OWNER_HAS_WAITERS
        ||| self.registered_wait(lock, waiter, generation) is None
        ||| (self.registered_wait(lock, waiter, generation)->0).lock != lock
        ||| keep_selected && word == OWNER_HAS_WAITERS && self.mutex(lock).waiters.top() is Some
            && (self.mutex(lock).waiters.top()->0).key == (self.registered_wait(
            lock,
            waiter,
            generation,
        )->0).key
    }

    /// The system after a wait was given up. The selected waiter of a mutex
    /// without owner may have to keep its wait.
    pub open spec fn waiter_unregistered(
        &self,
        before: &Self,
        lock: PiMutexId,
        waiter: ThreadId,
        generation: u64,
        keep_selected: bool,
        now_ns: u64,
        by: CpuId,
        result: Result<Option<ThreadId>, TaskError>,
    ) -> bool {
        let owner = named_owner(before.mutex(lock).owner);
        if before.unregister_error(lock, waiter, generation, keep_selected) {
            result == Err::<Option<ThreadId>, TaskError>(TaskError::InvalidPiState) && *self
                == *before
        } else {
            exists|removed: TaskSystem, outcome: Result<PiWaitRegistration, TaskError>|
                #[trigger] removed.waiter_removed(
                    before,
                    lock,
                    owner,
                    waiter,
                    generation,
                    now_ns,
                    by,
                    outcome,
                ) && match outcome {
                    Err(error) => result == Err::<Option<ThreadId>, TaskError>(error) && *self
                        == removed,
                    Ok(_) => result == Ok::<Option<ThreadId>, TaskError>(owner)
                        && if removed.entries(lock).len() == 0 {
                        self.mutex_becomes(&removed, lock, quiet_word(owner), removed.entries(lock))
                    } else {
                        *self == removed
                    },
                }
        }
    }

    fn check_unregister(&self, lock: PiMutexId, waiter: ThreadId, generation: u64, keep_selected: bool) -> (refused: bool)
        requires
            self.wf(),
        ensures
            refused == self.unregister_error(lock, waiter, generation, keep_selected),
    {
        if lock.value == 0 || lock.value > self.mutexes.len() as u64 {
            return true;
        }
        let core = &self.mutexes[(lock.value - 1) as usize];
        assert(self.mutexes@[lock.value - 1].wf());
        let snapshot = core.owner_snapshot();
        let record = match self.thread_record(waiter) {
            Ok(record) => record,
            Err(_) => {
                return true;
            },
        };
        if !snapshot.has_waiters() {
            return true;
        }
        let registration = match record.pi.blocked_on {
            Some(registration) => registration,
            None => {
                return true;
            },
        };
        if registration.generation != generation || !core.waiters.contains(registration.key)
            || registration.lock != lock {
            return true;
        }
        if keep_selected && snapshot.is_ownerless() {
            if let Some(first) = core.waiters.first() {
                if first == registration.key {
                    return true;
                }
            }
        }
        false
    }

    /// Gives up a wait.
    fn remove_registered_waiter(&mut self, lock: PiMutexId, waiter: ThreadId, generation: u64, keep_selected: bool, now_ns: u64, by: CpuId) -> (result: Result<Option<ThreadId>, TaskError>)
        requires
            old(self).wf(),
        ensures
            final(self).waiter_unregistered(
                old(self),
                lock,
                waiter,
                generation,
                keep_selected,
                now_ns,
                by,
                result,
            ),
            final(self).mutexes@.len() == old(self).mutexes@.len(),
            final(self).cpus@.len() == old(self).cpus@.len(),
            final(self).wf(),
    {
        if self.check_unregister(lock, waiter, generation, keep_selected) {
            return Err(TaskError::InvalidPiState);
        }
        let ghost before = *self;
        assert(lock.value <= self.mutexes.len());
        let at: usize = (lock.value - 1) as usize;
        let owner = owner_from_word(self.mutexes[at].owner);
        let outcome = self.remove_lock_waiter(lock, owner, waiter, generation, now_ns, by);
        let ghost removed = *self;
        assert(removed.waiter_removed(
            &before,
            lock,
            owner,
            waiter,
            generation,
            now_ns,
            by,
            outcome,
        ));
        match outcome {
            Ok(_) => {
                assert(lock.value <= self.mutexes.len());
                if self.mutexes[at].waiters.is_empty() {
                    self.quiet_mutex(lock, owner);
                }
                Ok(owner)
            },
            Err(error) => Err(error),
        }
    }

    /// The system after the owners behind a mutex were looked at without a
    /// bound but the number of threads.
    pub open spec fn chain_cleaned(&self, before: &Self, start: ThreadId, top: ThreadId, now_ns: u64, by: CpuId, result: Result<(), TaskError>) -> bool {
        self.chain_walked(
            before,
            start,
            None,
            top,
            before.config.thread_capacity as nat,
            before.config.thread_capacity,
            now_ns,
            by,
            result,
        )
    }

    pub(crate) fn recompute_pi_cleanup_chain(&mut self, start: ThreadId, top: ThreadId, now_ns: u64, by: CpuId) -> (result: Result<(), TaskError>)
        requires
            old(self).wf(),
        ensures
            final(self).chain_cleaned(old(self), start, top, now_ns, by, result),
            final(self).words_kept(old(self)),
            final(self).cpus@.len() == old(self).cpus@.len(),
            forall|thread: ThreadId|
                (#[trigger] final(self).record(thread)) is Some == old(self).record(thread) is Some,
            final(self).wf(),
    {
        let limit: usize = self.config.thread_capacity;
        self.recompute_pi_chain_bounded(start, None, top, limit, limit, now_ns, by)
    }

    /// The system after a wait that closed a cycle, or a chain that is too long,
    /// was taken back.
    pub open spec fn wait_rolled_back(&self, before: &Self, lock: PiMutexId, waiter: ThreadId, generation: u64, now_ns: u64, by: CpuId) -> bool {
        exists|left: TaskSystem, outcome: Result<Option<ThreadId>, TaskError>|
            #[trigger] left.waiter_unregistered(
                before,
                lock,
                waiter,
                generation,
                false,
                now_ns,
                by,
                outcome,
            ) && match outcome {
                Ok(Some(owner)) => exists|cleaned: Result<(), TaskError>|
                    #[trigger] self.chain_cleaned(&left, owner, waiter, now_ns, by, cleaned),
                _ => *self == left,
            }
    }

    fn roll_back_wait(&mut self, lock: PiMutexId, waiter: ThreadId, generation: u64, now_ns: u64, by: CpuId)
        requires
            old(self).wf(),
        ensures
            final(self).wait_rolled_back(old(self), lock, waiter, generation, now_ns, by),
            final(self).wf(),
    {
        let ghost before = *self;
        let outcome = self.remove_registered_waiter(lock, waiter, generation, false, now_ns, by);
        let ghost left = *self;
        assert(left.waiter_unregistered(
            &before,
            lock,
            waiter,
            generation,
            false,
            now_ns,
            by,
            outcome,
        ));
        if let Ok(Some(owner)) = outcome {
            let cleaned = self.recompute_pi_cleanup_chain(owner, waiter, now_ns, by);
            assert(self.chain_cleaned(&left, owner, waiter, now_ns, by, cleaned));
        }
    }

    /// The system after the chain behind a new waiter was followed.
    pub open spec fn lock_chained(&self, before: &Self, lock: PiMutexId, owner: Option<ThreadId>, waiter: ThreadId, generation: u64, now_ns: u64, by: CpuId, result: Result<(), TaskError>) -> bool {
        match owner {
            None => result == Ok::<(), TaskError>(()) && *self == *before,
            Some(owner) => exists|walked: TaskSystem|
                #[trigger] walked.chain_walked(
                    before,
                    owner,
                    Some(lock),
                    waiter,
                    before.config.pi_chain_limit as nat,
                    before.config.pi_chain_limit,
                    now_ns,
                    by,
                    result,
                ) && if result is Ok {
                    *self == walked
                } else {
                    self.wait_rolled_back(&walked, lock, waiter, generation, now_ns, by)
                },
        }
    }

    fn follow_chain(&mut self, lock: PiMutexId, owner: Option<ThreadId>, waiter: ThreadId, generation: u64, now_ns: u64, by: CpuId) -> (result: Result<(), TaskError>)
        requires
            old(self).wf(),
        ensures
            final(self).lock_chained(
                old(self),
                lock,
                owner,
                waiter,
                generation,
                now_ns,
                by,
                result,
            ),
            final(self).wf(),
    {
        let ghost before = *self;
        let owner = match owner {
            Some(owner) => owner,
            None => {
                return Ok(());
            },
        };
        let limit: usize = self.config.pi_chain_limit;
        let result = self.recompute_pi_chain_bounded(
            owner,
            Some(lock),
            waiter,
            limit,
            limit,
            now_ns,
            by,
        );
        let ghost walked = *self;
        assert(walked.chain_walked(
            &before,
            owner,
            Some(lock),
            waiter,
            limit as nat,
            limit,
            now_ns,
            by,
            result,
        ));
        if result.is_err() {
            self.roll_back_wait(lock, waiter, generation, now_ns, by);
        }
        result
    }

    /// The system after a thread that has to wait for a mutex began to.
    pub open spec fn lock_waited(
        &self,
        before: &Self,
        lock: PiMutexId,
        owner: Option<ThreadId>,
        waiter: ThreadId,
        sequence: u64,
        now_ns: u64,
        by: CpuId,
        result: Result<PiMutexLockResult, TaskError>,
    ) -> bool {
        let record = before.record(waiter)->0;
        let generation = (record.pi.wait.generation + 1) as u64;
        let registration = PiWaitRegistration {
            lock,
            key: PiWaitKey { urgency: record.policy.urgency, sequence, thread: waiter },
            generation,
        };
        exists|begun: TaskSystem, queued: TaskSystem, entered: Result<(), TaskError>|
            #[trigger] begun.wait_begun(before, lock, waiter) && #[trigger] queued.lock_queued(
                &begun,
                lock,
                owner,
                waiter,
                registration,
                donation_of(&record),
                now_ns,
                by,
                entered,
            ) && match entered {
                Err(error) => result == Err::<PiMutexLockResult, TaskError>(error) && *self
                    == queued,
                Ok(_) => exists|followed: Result<(), TaskError>|
                    #[trigger] self.lock_chained(
                        &queued,
                        lock,
                        owner,
                        waiter,
                        generation,
                        now_ns,
                        by,
                        followed,
                    ) && result == match followed {
                        Err(error) => Err::<PiMutexLockResult, TaskError>(error),
                        Ok(_) => Ok(
                            PiMutexLockResult::Waiting(
                                PiWaitToken {
                                    thread: waiter,
                                    initial_owner: owner,
                                    generation,
                                    lock,
                                },
                            ),
                        ),
                    },
            }
    }

    fn wait_for_lock(&mut self, lock: PiMutexId, owner: Option<ThreadId>, waiter: ThreadId, sequence: u64, now_ns: u64, by: CpuId) -> (result: Result<PiMutexLockResult, TaskError>)
        requires
            old(self).wf(),
            old(self).has_mutex(lock),
            old(self).record(waiter) is Some,
            old(self).donation_known(&(old(self).record(waiter)->0)),
            (old(self).record(waiter)->0).pi.wait.generation < u64::MAX,
        ensures
            final(self).lock_waited(
                old(self),
                lock,
                owner,
                waiter,
                sequence,
                now_ns,
                by,
                result,
            ),
            final(self).wf(),
    {
        let ghost before = *self;
        assert(before.slots@[waiter.slot as int].wf_at(waiter.slot as int));
        let (donation, urgency) = match self.thread_record(waiter) {
            Ok(record) => match self.pi_donation(record) {
                Ok(donation) => (donation, record.policy.urgency),
                Err(error) => {
                    return Err(error);
                },
            },
            Err(error) => {
                return Err(error);
            },
        };
        let generation: u64 = self.begin_wait(lock, waiter);
        let ghost begun = *self;
        let registration = PiWaitRegistration {
            lock,
            key: PiWaitKey::new(urgency, sequence, waiter),
            generation,
        };
        let entered = self.queue_for_lock(
            lock,
            owner,
            waiter,
            registration,
            donation,
            now_ns,
            by,
        );
        let ghost queued = *self;
        assert(begun.wait_begun(&before, lock, waiter));
        assert(queued.lock_queued(
            &begun,
            lock,
            owner,
            waiter,
            registration,
            donation,
            now_ns,
            by,
            entered,
        ));
        if let Err(error) = entered {
            return Err(error);
        }
        let followed = self.follow_chain(lock, owner, waiter, generation, now_ns, by);
        assert(self.lock_chained(&queued, lock, owner, waiter, generation, now_ns, by, followed));
        match followed {
            Err(error) => Err(error),
            Ok(_) => Ok(
                PiMutexLockResult::Waiting(
                    PiWaitToken { thread: waiter, initial_owner: owner, generation, lock },
                ),
            ),
        }
    }

    /// The system after a thread took a contended mutex or queued up for it.
    pub open spec fn slowly_locked(&self, before: &Self, lock: PiMutexId, waiter: ThreadId, sequence: u64, now_ns: u64, by: CpuId, result: Result<PiMutexLockResult, TaskError>) -> bool {
        match before.lock_step(lock, waiter) {
            PiLockStep::Refused(error) => result == Err::<PiMutexLockResult, TaskError>(error)
                && *self == *before,
            PiLockStep::Acquire => result == Ok::<PiMutexLockResult, TaskError>(
                PiMutexLockResult::Acquired,
            ) && self.mutex_becomes(
                before,
                lock,
                word_of(waiter, false) as u64,
                before.entries(lock),
            ),
            PiLockStep::Wait { owner } => self.lock_waited(
                before,
                lock,
                owner,
                waiter,
                sequence,
                now_ns,
                by,
                result,
            ),
        }
    }

    /// Takes a mutex that is free, or waits for it: the waiter enters its queue,
    /// and the owners behind it inherit. A wait that would close a cycle of
    /// owners is refused.
    pub fn pi_mutex_lock_slow(&mut self, lock: PiMutexRef, waiter: ThreadId, sequence: u64, now_ns: u64, by: CpuId) -> (result: Result<PiMutexLockResult, TaskError>)
        requires
            old(self).wf(),
        ensures
            final(self).slowly_locked(old(self), lock.id, waiter, sequence, now_ns, by, result),
            final(self).wf(),
    {
        assert(self.record(waiter) is Some ==> self.slots@[waiter.slot as int].wf_at(
            waiter.slot as int,
        ));
        match self.plan_lock(lock.id, waiter) {
            PiLockStep::Refused(error) => Err(error),
            PiLockStep::Acquire => {
                self.set_owner_word(lock.id, waiter.as_u64());
                Ok(PiMutexLockResult::Acquired)
            },
            PiLockStep::Wait { owner } => self.wait_for_lock(
                lock.id,
                owner,
                waiter,
                sequence,
                now_ns,
                by,
            ),
        }
    }

    /// The system after a thread gave up its wait for a mutex.
    pub open spec fn wait_cancelled(&self, before: &Self, token: PiWaitToken, now_ns: u64, by: CpuId, result: Result<(), TaskError>) -> bool {
        exists|left: TaskSystem, outcome: Result<Option<ThreadId>, TaskError>|
            #[trigger] left.waiter_unregistered(
                before,
                token.lock,
                token.thread,
                token.generation,
                true,
                now_ns,
                by,
                outcome,
            ) && match outcome {
                Err(error) => result == Err::<(), TaskError>(error) && *self == left,
                Ok(None) => result == Ok::<(), TaskError>(()) && *self == left,
                Ok(Some(owner)) => self.chain_cleaned(
                    &left,
                    owner,
                    token.thread,
                    now_ns,
                    by,
                    result,
                ),
            }
    }

    /// Gives up a wait. A waiter to which the mutex was handed may not.
    pub fn pi_wait_cancel(&mut self, token: PiWaitToken, now_ns: u64, by: CpuId) -> (result: Result<(), TaskError>)
        requires
            old(self).wf(),
        ensures
            final(self).wait_cancelled(old(self), token, now_ns, by, result),
            final(self).wf(),
    {
        let ghost before = *self;
        let outcome = self.remove_registered_waiter(
            token.lock,
            token.thread,
            token.generation,
            true,
            now_ns,
            by,
        );
        let ghost left = *self;
        assert(left.waiter_unregistered(
            &before,
            token.lock,
            token.thread,
            token.generation,
            true,
            now_ns,
            by,
            outcome,
        ));
        match outcome {
            Err(error) => Err(error),
            Ok(None) => Ok(()),
            Ok(Some(owner)) => self.recompute_pi_cleanup_chain(owner, token.thread, now_ns, by),
        }
    }
}

} // verus!
