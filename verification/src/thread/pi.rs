//! Priority-inheriting mutexes: ownership word, waiter order and wait
//! generations.
use vstd::prelude::*;
use crate::error::{PiWaitStateError, TaskError};
use crate::ids::{CpuId, ThreadId, thread_id_packing_is_injective};
use crate::scheduler::entity::SchedulingUrgency;
use crate::scheduler::policy::SchedulePolicy;

verus! {

/// Bit of the ownership word that says that somebody waits.
pub const OWNER_HAS_WAITERS: u64 = 0x8000_0000_0000_0000;

/// Identity of a mutex, unique among all that have been referred to.
#[derive(Clone, Copy, Debug, PartialEq, Eq, Structural)]
pub struct PiMutexId {
    pub value: u64,
}

impl PiMutexId {
    pub fn get(self) -> (value: u64)
        ensures
            value == self.value,
    {
        self.value
    }
}

/// Position of a waiter in the queue of a mutex.
#[derive(Clone, Copy, Debug, PartialEq, Eq, Structural)]
pub struct PiWaitKey {
    pub urgency: SchedulingUrgency,
    pub sequence: u64,
    pub thread: ThreadId,
}

impl PiWaitKey {
    /// Greater urgency first, then the earlier arrival.
    pub open spec fn before(self, other: PiWaitKey) -> bool {
        if self.urgency.before(other.urgency) {
            true
        } else if other.urgency.before(self.urgency) {
            false
        } else if self.sequence != other.sequence {
            self.sequence < other.sequence
        } else {
            self.thread.packed() < other.thread.packed()
        }
    }

    pub fn new(urgency: SchedulingUrgency, sequence: u64, thread: ThreadId) -> (key: Self)
        ensures
            key == (PiWaitKey { urgency, sequence, thread }),
    {
        PiWaitKey { urgency, sequence, thread }
    }

    pub fn precedes(&self, other: PiWaitKey) -> (precedes: bool)
        ensures
            precedes == self.before(other),
    {
        if self.urgency.precedes(other.urgency) {
            true
        } else if other.urgency.precedes(self.urgency) {
            false
        } else if self.sequence != other.sequence {
            self.sequence < other.sequence
        } else {
            self.thread.as_u64() < other.thread.as_u64()
        }
    }
}

/// What a waiter lends to the thread it waits for. `root` is the thread at the
/// end of the chain from which the policy comes.
#[derive(Clone, Copy, Debug, PartialEq, Eq, Structural)]
pub struct PiDonation {
    pub policy: SchedulePolicy,
    pub root: ThreadId,
    pub boost_urgency: SchedulingUrgency,
    pub waiter: ThreadId,
}

impl PiDonation {
    pub fn new(policy: SchedulePolicy, root: ThreadId, boost_urgency: SchedulingUrgency, waiter: ThreadId) -> (donation: Self)
        ensures
            donation == (PiDonation { policy, root, boost_urgency, waiter }),
    {
        PiDonation { policy, root, boost_urgency, waiter }
    }

    pub fn waiter(&self) -> (waiter: ThreadId)
        ensures
            waiter == self.waiter,
    {
        self.waiter
    }

    /// Whether two donations lend the same thing on behalf of the same threads.
    pub fn same_source(&self, other: &PiDonation) -> (same: bool)
        ensures
            same == (*self == *other),
    {
        *self == *other
    }
}

/// A waiter and what it lends.
#[derive(Clone, Copy, Debug, PartialEq, Eq, Structural)]
pub struct PiWaitEntry {
    pub key: PiWaitKey,
    pub donation: PiDonation,
}

/// Index of the first entry among the first `n`, other than an excluded key.
pub open spec fn first_waiter(entries: Seq<PiWaitEntry>, excluded: Option<PiWaitKey>, n: int) -> Option<int>
    decreases n,
{
    if n <= 0 {
        None
    } else {
        let best = first_waiter(entries, excluded, n - 1);
        if excluded == Some(entries[n - 1].key) {
            best
        } else if best is None || entries[n - 1].key.before(entries[best->0].key) {
            Some(n - 1)
        } else {
            best
        }
    }
}

/// Whether some entry has a key.
pub open spec fn has_key(entries: Seq<PiWaitEntry>, key: PiWaitKey) -> bool {
    exists|i: int| 0 <= i < entries.len() && (#[trigger] entries[i]).key == key
}

pub open spec fn key_index(entries: Seq<PiWaitEntry>, key: PiWaitKey) -> int {
    choose|i: int| 0 <= i < entries.len() && (#[trigger] entries[i]).key == key
}

pub open spec fn distinct_keys(entries: Seq<PiWaitEntry>) -> bool {
    forall|i: int, j: int|
        0 <= i < entries.len() && 0 <= j < entries.len() && i != j ==> (#[trigger] entries[i]).key
            != (#[trigger] entries[j]).key
}

/// The entry that comes first, other than an excluded key.
pub open spec fn first_entry_of(entries: Seq<PiWaitEntry>, excluded: Option<PiWaitKey>) -> Option<PiWaitEntry> {
    match first_waiter(entries, excluded, entries.len() as int) {
        Some(i) => Some(entries[i]),
        None => None,
    }
}

proof fn first_waiter_in_range(entries: Seq<PiWaitEntry>, excluded: Option<PiWaitKey>, n: int)
    requires
        0 <= n <= entries.len(),
    ensures
        first_waiter(entries, excluded, n) matches Some(i) ==> 0 <= i < n && excluded != Some(
            entries[i].key,
        ),
        first_waiter(entries, excluded, n) is None ==> forall|i: int|
            0 <= i < n ==> excluded == Some((#[trigger] entries[i]).key),
    decreases n,
{
    if n > 0 {
        first_waiter_in_range(entries, excluded, n - 1);
    }
}

/// No waiter is ahead of the first one: it has the greatest urgency, and of
/// those with the same urgency it came first. Deadlines are compared on a
/// counter that wraps; without them the order has no cycles.
pub proof fn the_first_waiter_is_ahead_of_all(entries: Seq<PiWaitEntry>, n: int, i: int, j: int)
    requires
        0 <= n <= entries.len(),
        forall|k: int| 0 <= k < entries.len() ==> (#[trigger] entries[k]).key.urgency.rank != 1,
        first_waiter(entries, None, n) == Some(i),
        0 <= j < n,
    ensures
        0 <= i < n,
        !entries[j].key.before(entries[i].key),
    decreases n,
{
    first_waiter_in_range(entries, None, n);
    if n > 0 {
        first_waiter_in_range(entries, None, n - 1);
        match first_waiter(entries, None, n - 1) {
            Some(k) => {
                if j < n - 1 {
                    the_first_waiter_is_ahead_of_all(entries, n - 1, k, j);
                }
            },
            None => {},
        }
    }
}

/// Waiters of a mutex, or donors of a thread.
#[derive(Debug)]
pub struct PiWaitTree {
    pub entries: Vec<PiWaitEntry>,
}

impl PiWaitTree {
    pub open spec fn wf(&self) -> bool {
        distinct_keys(self.entries@)
    }

    pub open spec fn top(&self) -> Option<PiWaitEntry> {
        first_entry_of(self.entries@, None)
    }

    pub fn new() -> (tree: Self)
        ensures
            tree.entries@ == Seq::<PiWaitEntry>::empty(),
            tree.wf(),
    {
        PiWaitTree { entries: Vec::new() }
    }

    pub fn is_empty(&self) -> (empty: bool)
        ensures
            empty == (self.entries@.len() == 0),
    {
        self.entries.len() == 0
    }

    fn find(&self, key: PiWaitKey) -> (found: Option<usize>)
        requires
            self.wf(),
        ensures
            found is Some <==> has_key(self.entries@, key),
            found matches Some(i) ==> i < self.entries@.len() && i == key_index(self.entries@, key)
                && self.entries@[i as int].key == key,
    {
        let mut i: usize = 0;
        while i < self.entries.len()
            invariant
                self.wf(),
                i <= self.entries.len(),
                forall|j: int| 0 <= j < i ==> (#[trigger] self.entries@[j]).key != key,
            decreases self.entries.len() - i,
        {
            if self.entries[i].key == key {
                proof {
                    assert(self.entries@[i as int].key == key);
                    let k = key_index(self.entries@, key);
                    assert(0 <= k < self.entries@.len() && self.entries@[k].key == key);
                }
                return Some(i);
            }
            i = i + 1;
        }
        None
    }

    pub fn contains(&self, key: PiWaitKey) -> (found: bool)
        requires
            self.wf(),
        ensures
            found == has_key(self.entries@, key),
    {
        self.find(key).is_some()
    }

    pub fn donation(&self, key: PiWaitKey) -> (donation: Option<PiDonation>)
        requires
            self.wf(),
        ensures
            donation == if has_key(self.entries@, key) {
                Some(self.entries@[key_index(self.entries@, key)].donation)
            } else {
                None
            },
    {
        match self.find(key) {
            Some(at) => Some(self.entries[at].donation),
            None => None,
        }
    }

    pub fn insert(&mut self, key: PiWaitKey, donation: PiDonation)
        requires
            old(self).wf(),
            !has_key(old(self).entries@, key),
        ensures
            final(self).entries@ == old(self).entries@.push(PiWaitEntry { key, donation }),
            final(self).wf(),
    {
        let ghost before = self.entries@;
        self.entries.push(PiWaitEntry { key, donation });
        proof {
            assert forall|i: int, j: int|
                0 <= i < self.entries@.len() && 0 <= j < self.entries@.len() && i != j implies (
            #[trigger] self.entries@[i]).key != (#[trigger] self.entries@[j]).key by {
                if i < before.len() {
                    assert(before[i].key != key);
                }
                if j < before.len() {
                    assert(before[j].key != key);
                }
            }
        }
    }

    pub fn remove(&mut self, key: PiWaitKey) -> (donation: Option<PiDonation>)
        requires
            old(self).wf(),
        ensures
            donation is Some <==> has_key(old(self).entries@, key),
            donation matches Some(removed) ==> {
                let at = key_index(old(self).entries@, key);
                &&& removed == old(self).entries@[at].donation
                &&& final(self).entries@ == old(self).entries@.remove(at)
                &&& !has_key(final(self).entries@, key)
            },
            donation is None ==> *final(self) == *old(self),
            final(self).wf(),
    {
        match self.find(key) {
            Some(at) => {
                let ghost before = self.entries@;
                let entry = self.entries.remove(at);
                proof {
                    assert forall|i: int| 0 <= i < self.entries@.len() implies (
                    #[trigger] self.entries@[i]).key != key by {
                        let k = if i < at {
                            i
                        } else {
                            i + 1
                        };
                        assert(self.entries@[i] == before[k]);
                        assert(before[k].key != before[at as int].key);
                    }
                }
                Some(entry.donation)
            },
            None => None,
        }
    }

    /// The entry that comes first among all but one.
    pub fn first_entry_excluding(&self, excluded: Option<PiWaitKey>) -> (first: Option<PiWaitEntry>)
        ensures
            first == first_entry_of(self.entries@, excluded),
    {
        let mut best: Option<usize> = None;
        let mut i: usize = 0;
        while i < self.entries.len()
            invariant
                i <= self.entries.len(),
                best matches Some(b) ==> b < i,
                first_waiter(self.entries@, excluded, i as int) == match best {
                    Some(b) => Some(b as int),
                    None => None,
                },
            decreases self.entries.len() - i,
        {
            let key = self.entries[i].key;
            let skipped = match excluded {
                Some(other) => other == key,
                None => false,
            };
            if !skipped {
                let better = match best {
                    Some(b) => key.precedes(self.entries[b].key),
                    None => true,
                };
                if better {
                    best = Some(i);
                }
            }
            i = i + 1;
        }
        match best {
            Some(b) => Some(self.entries[b]),
            None => None,
        }
    }

    pub fn first_entry(&self) -> (first: Option<PiWaitEntry>)
        ensures
            first == self.top(),
            first is Some <==> self.entries@.len() > 0,
            first matches Some(entry) ==> has_key(self.entries@, entry.key),
    {
        proof {
            first_waiter_in_range(self.entries@, None, self.entries@.len() as int);
            if let Some(i) = first_waiter(self.entries@, None, self.entries@.len() as int) {
                assert(self.entries@[i].key == self.top()->0.key);
            }
            if self.entries@.len() > 0 {
                assert(self.entries@[0].key == self.entries@[0].key);
            }
        }
        self.first_entry_excluding(None)
    }

    pub fn first(&self) -> (first: Option<PiWaitKey>)
        ensures
            first == match self.top() {
                Some(entry) => Some(entry.key),
                None => None,
            },
    {
        match self.first_entry() {
            Some(entry) => Some(entry.key),
            None => None,
        }
    }
}

/// The ownership word of an owner.
pub open spec fn word_of(owner: ThreadId, has_waiters: bool) -> int {
    owner.packed() + if has_waiters {
        OWNER_HAS_WAITERS as int
    } else {
        0
    }
}

/// Whether a thread identity fits the ownership word.
pub open spec fn can_own(thread: ThreadId) -> bool {
    0 < thread.packed() < OWNER_HAS_WAITERS
}

pub fn owner_word(thread: ThreadId) -> (word: Result<u64, TaskError>)
    ensures
        word is Ok <==> can_own(thread),
        word matches Ok(raw) ==> raw == thread.packed(),
        word matches Err(error) ==> error == TaskError::InvalidPiState,
{
    let raw: u64 = thread.as_u64();
    if raw == 0 || raw >= OWNER_HAS_WAITERS {
        return Err(TaskError::InvalidPiState);
    }
    Ok(raw)
}

/// The owner that a word names.
pub open spec fn named_owner(word: u64) -> Option<ThreadId> {
    let raw = if word >= OWNER_HAS_WAITERS {
        (word - OWNER_HAS_WAITERS) as int
    } else {
        word as int
    };
    if raw == 0 {
        None
    } else {
        Some(
            ThreadId {
                slot: (raw % 0x1_0000_0000) as u32,
                generation: (raw / 0x1_0000_0000) as u32,
            },
        )
    }
}

pub fn owner_from_word(word: u64) -> (owner: Option<ThreadId>)
    ensures
        owner == named_owner(word),
{
    let raw: u64 = if word >= OWNER_HAS_WAITERS {
        word - OWNER_HAS_WAITERS
    } else {
        word
    };
    if raw == 0 {
        None
    } else {
        Some(
            ThreadId {
                slot: (raw % 0x1_0000_0000) as u32,
                generation: (raw / 0x1_0000_0000) as u32,
            },
        )
    }
}

/// The word names the owner it was made for.
pub proof fn owner_word_round_trip(owner: ThreadId, has_waiters: bool)
    requires
        can_own(owner),
    ensures
        0 <= word_of(owner, has_waiters) <= u64::MAX,
        named_owner(word_of(owner, has_waiters) as u64) == Some(owner),
        (word_of(owner, has_waiters) >= OWNER_HAS_WAITERS) == has_waiters,
{
    let named = named_owner(word_of(owner, has_waiters) as u64)->0;
    thread_id_packing_is_injective(named, owner);
}

/// Outcome of an attempt to take a mutex without waiting.
#[derive(Clone, Copy, Debug, PartialEq, Eq, Structural)]
pub enum PiMutexAcquire {
    Acquired,
    Contended,
}

#[derive(Clone, Copy, Debug, PartialEq, Eq, Structural)]
pub struct PiMutexOwnerSnapshot {
    pub word: u64,
    pub owner: Option<ThreadId>,
}

impl PiMutexOwnerSnapshot {
    pub fn owner(self) -> (owner: Option<ThreadId>)
        ensures
            owner == self.owner,
    {
        self.owner
    }

    pub fn is_unlocked(self) -> (unlocked: bool)
        ensures
            unlocked == (self.word == 0),
    {
        self.word == 0
    }

    /// Released to a waiter that has yet to claim it.
    pub fn is_ownerless(self) -> (ownerless: bool)
        ensures
            ownerless == (self.word == OWNER_HAS_WAITERS),
    {
        self.word == OWNER_HAS_WAITERS
    }

    pub fn has_waiters(self) -> (waiters: bool)
        ensures
            waiters == (self.word >= OWNER_HAS_WAITERS),
    {
        self.word >= OWNER_HAS_WAITERS
    }
}

/// A mutex that lends the urgency of its waiters to its owner.
#[derive(Debug)]
pub struct PiMutexCore {
    pub owner: u64,
    pub generation: u64,
    pub waiters: PiWaitTree,
}

/// A mutex as the scheduler refers to it.
#[derive(Clone, Copy, Debug, PartialEq, Eq, Structural)]
pub struct PiMutexRef {
    pub id: PiMutexId,
}

impl PiMutexRef {
    pub fn id(self) -> (id: PiMutexId)
        ensures
            id == self.id,
    {
        self.id
    }
}

impl PiMutexCore {
    pub open spec fn wf(&self) -> bool {
        self.waiters.wf()
    }

    /// The mutex has an owner or waits to be claimed.
    pub open spec fn locked(&self) -> bool {
        self.owner != 0
    }

    /// A free mutex.
    pub fn new() -> (core: Self)
        ensures
            !core.locked(),
            core.owner == 0,
            core.generation == 0,
            core.waiters.entries@ == Seq::<PiWaitEntry>::empty(),
            core.wf(),
    {
        PiMutexCore { owner: 0, generation: 0, waiters: PiWaitTree::new() }
    }

    /// What an attempt to take the mutex at once comes to.
    pub open spec fn acquisition(self, current: ThreadId) -> Result<PiMutexAcquire, TaskError> {
        if !can_own(current) {
            Err(TaskError::InvalidPiState)
        } else if self.owner == 0 {
            Ok(PiMutexAcquire::Acquired)
        } else if named_owner(self.owner) == Some(current) {
            Err(TaskError::InvalidPiWaitState(PiWaitStateError::WaiterOwnsLock))
        } else {
            Ok(PiMutexAcquire::Contended)
        }
    }

    /// Takes a free mutex.
    pub fn try_acquire(&mut self, current: ThreadId) -> (result: Result<PiMutexAcquire, TaskError>)
        ensures
            result == old(self).acquisition(current),
            *final(self) == if result == Ok::<_, TaskError>(PiMutexAcquire::Acquired) {
                PiMutexCore { owner: word_of(current, false) as u64, ..*old(self) }
            } else {
                *old(self)
            },
    {
        let word: u64 = match owner_word(current) {
            Ok(word) => word,
            Err(error) => {
                return Err(error);
            },
        };
        if self.owner == 0 {
            self.owner = word;
            return Ok(PiMutexAcquire::Acquired);
        }
        match owner_from_word(self.owner) {
            Some(owner) => if owner == current {
                Err(TaskError::InvalidPiWaitState(PiWaitStateError::WaiterOwnsLock))
            } else {
                Ok(PiMutexAcquire::Contended)
            },
            None => Ok(PiMutexAcquire::Contended),
        }
    }

    /// Releases a mutex for which nobody waits. `false` says that somebody
    /// does.
    pub fn try_release(&mut self, current: ThreadId) -> (result: Result<bool, TaskError>)
        ensures
            result == if !can_own(current) {
                Err(TaskError::InvalidPiState)
            } else if old(self).owner == word_of(current, false) {
                Ok(true)
            } else if named_owner(old(self).owner) == Some(current) {
                Ok(false)
            } else {
                Err(TaskError::InvalidPiState)
            },
            *final(self) == if result == Ok::<_, TaskError>(true) {
                PiMutexCore { owner: 0, ..*old(self) }
            } else {
                *old(self)
            },
    {
        let word: u64 = match owner_word(current) {
            Ok(word) => word,
            Err(error) => {
                return Err(error);
            },
        };
        if self.owner == word {
            self.owner = 0;
            return Ok(true);
        }
        match owner_from_word(self.owner) {
            Some(owner) => if owner == current {
                Ok(false)
            } else {
                Err(TaskError::InvalidPiState)
            },
            None => Err(TaskError::InvalidPiState),
        }
    }

    pub fn is_owned_by(&self, current: ThreadId) -> (owned: bool)
        ensures
            owned == (named_owner(self.owner) == Some(current)),
    {
        match owner_from_word(self.owner) {
            Some(owner) => owner == current,
            None => false,
        }
    }

    /// Whether the mutex has an owner or waits to be claimed.
    pub fn is_locked(&self) -> (locked: bool)
        ensures
            locked == self.locked(),
    {
        self.owner != 0
    }

    /// Refers to the mutex; the first reference draws an identity from
    /// `next_generation`.
    pub fn mutex_ref(&mut self, next_generation: &mut u64) -> (result: Result<PiMutexRef, TaskError>)
        ensures
            result == if old(self).generation != 0 {
                Ok(PiMutexRef { id: PiMutexId { value: old(self).generation } })
            } else if *old(next_generation) == 0 || *old(next_generation) == u64::MAX {
                Err(TaskError::InvalidPiState)
            } else {
                Ok(PiMutexRef { id: PiMutexId { value: *old(next_generation) } })
            },
            *final(self) == match result {
                Ok(reference) => PiMutexCore { generation: reference.id.value, ..*old(self) },
                Err(_) => *old(self),
            },
            *final(next_generation) == if old(self).generation == 0 && result is Ok {
                (*old(next_generation) + 1) as u64
            } else {
                *old(next_generation)
            },
    {
        if self.generation != 0 {
            return Ok(PiMutexRef { id: PiMutexId { value: self.generation } });
        }
        let allocated: u64 = *next_generation;
        if allocated == 0 || allocated == u64::MAX {
            return Err(TaskError::InvalidPiState);
        }
        *next_generation = allocated + 1;
        self.generation = allocated;
        Ok(PiMutexRef { id: PiMutexId { value: allocated } })
    }

    pub fn owner_snapshot(&self) -> (snapshot: PiMutexOwnerSnapshot)
        ensures
            snapshot == (PiMutexOwnerSnapshot {
                word: self.owner,
                owner: named_owner(self.owner),
            }),
    {
        PiMutexOwnerSnapshot { word: self.owner, owner: owner_from_word(self.owner) }
    }

    /// Takes a mutex that was seen free.
    pub fn try_acquire_snapshot(&mut self, snapshot: PiMutexOwnerSnapshot, current: ThreadId) -> (result: Result<bool, TaskError>)
        requires
            snapshot.word == 0,
        ensures
            result == if can_own(current) {
                Ok(old(self).owner == 0)
            } else {
                Err(TaskError::InvalidPiState)
            },
            *final(self) == if result == Ok::<_, TaskError>(true) {
                PiMutexCore { owner: word_of(current, false) as u64, ..*old(self) }
            } else {
                *old(self)
            },
    {
        let word: u64 = match owner_word(current) {
            Ok(word) => word,
            Err(error) => {
                return Err(error);
            },
        };
        if self.owner == snapshot.word {
            self.owner = word;
            Ok(true)
        } else {
            Ok(false)
        }
    }

    /// Sets the waiters bit of a word that has not changed since it was seen.
    pub fn try_mark_waiters(&mut self, snapshot: PiMutexOwnerSnapshot) -> (marked: bool)
        ensures
            marked == (old(self).owner == snapshot.word),
            *final(self) == if marked && snapshot.word < OWNER_HAS_WAITERS {
                PiMutexCore { owner: (snapshot.word + OWNER_HAS_WAITERS) as u64, ..*old(self) }
            } else {
                *old(self)
            },
    {
        if self.owner != snapshot.word {
            return false;
        }
        if snapshot.word < OWNER_HAS_WAITERS {
            self.owner = snapshot.word + OWNER_HAS_WAITERS;
        }
        true
    }

    pub fn publish_owner(&mut self, owner: ThreadId, has_waiters: bool)
        requires
            can_own(owner),
        ensures
            *final(self) == (PiMutexCore {
                owner: word_of(owner, has_waiters) as u64,
                ..*old(self)
            }),
    {
        self.owner = owner.as_u64() + if has_waiters {
            OWNER_HAS_WAITERS
        } else {
            0
        };
    }

    /// Releases the mutex to its first waiter.
    pub fn publish_ownerless(&mut self)
        ensures
            *final(self) == (PiMutexCore { owner: OWNER_HAS_WAITERS, ..*old(self) }),
    {
        self.owner = OWNER_HAS_WAITERS;
    }

    pub fn clear_waiters_bit(&mut self, owner: ThreadId) -> (result: Result<(), TaskError>)
        ensures
            result == if can_own(owner) {
                Ok::<(), TaskError>(())
            } else {
                Err(TaskError::InvalidPiState)
            },
            *final(self) == if result is Ok {
                PiMutexCore { owner: word_of(owner, false) as u64, ..*old(self) }
            } else {
                *old(self)
            },
    {
        match owner_word(owner) {
            Ok(word) => {
                self.owner = word;
                Ok(())
            },
            Err(error) => Err(error),
        }
    }
}

/// What a waiter holds while it waits.
#[derive(Clone, Copy, Debug, PartialEq, Eq, Structural)]
pub struct PiWaitToken {
    pub thread: ThreadId,
    pub initial_owner: Option<ThreadId>,
    pub generation: u64,
    pub lock: PiMutexId,
}

/// A thread's place in the queue of a mutex.
#[derive(Clone, Copy, Debug, PartialEq, Eq, Structural)]
pub struct PiWaitRegistration {
    pub lock: PiMutexId,
    pub key: PiWaitKey,
    pub generation: u64,
}

/// Wait generations of one thread; zero stands for none.
#[derive(Clone, Copy, Debug, PartialEq, Eq, Structural)]
pub struct PiWaitState {
    pub generation: u64,
    pub top_generation: u64,
    pub selected_generation: u64,
    pub granted_generation: u64,
}

impl PiWaitState {
    /// Whether a wait is the current one and not yet granted.
    pub open spec fn open(self, generation: u64) -> bool {
        self.generation == generation && self.granted_generation != generation
    }

    pub open spec fn without_selection(self, generation: u64) -> Self {
        PiWaitState {
            selected_generation: if self.selected_generation == generation {
                0
            } else {
                self.selected_generation
            },
            ..self
        }
    }

    pub open spec fn without_top(self, generation: u64) -> Self {
        PiWaitState {
            top_generation: if self.top_generation == generation {
                0
            } else {
                self.top_generation
            },
            ..self
        }
    }

    pub fn new() -> (state: Self)
        ensures
            state == (PiWaitState {
                generation: 0,
                top_generation: 0,
                selected_generation: 0,
                granted_generation: 0,
            }),
    {
        PiWaitState {
            generation: 0,
            top_generation: 0,
            selected_generation: 0,
            granted_generation: 0,
        }
    }

    /// Starts a new wait.
    pub fn begin(&mut self) -> (result: Result<u64, TaskError>)
        ensures
            result == if old(self).generation < u64::MAX {
                Ok((old(self).generation + 1) as u64)
            } else {
                Err(TaskError::InvalidPiState)
            },
            *final(self) == (PiWaitState {
                generation: match result {
                    Ok(generation) => generation,
                    Err(_) => old(self).generation,
                },
                top_generation: 0,
                selected_generation: 0,
                granted_generation: 0,
            }),
    {
        self.selected_generation = 0;
        self.top_generation = 0;
        self.granted_generation = 0;
        if self.generation == u64::MAX {
            return Err(TaskError::InvalidPiState);
        }
        self.generation = self.generation + 1;
        Ok(self.generation)
    }

    pub fn select(&mut self, generation: u64) -> (result: Result<(), TaskError>)
        ensures
            result == if old(self).open(generation) {
                Ok::<(), TaskError>(())
            } else {
                Err(TaskError::InvalidPiState)
            },
            *final(self) == if result is Ok {
                PiWaitState { selected_generation: generation, ..*old(self) }
            } else {
                *old(self)
            },
    {
        if !self.can_grant(generation) {
            return Err(TaskError::InvalidPiState);
        }
        self.selected_generation = generation;
        Ok(())
    }

    pub fn clear_selection(&mut self, generation: u64)
        ensures
            *final(self) == old(self).without_selection(generation),
    {
        if self.selected_generation == generation {
            self.selected_generation = 0;
        }
    }

    pub fn mark_top(&mut self, generation: u64) -> (result: Result<(), TaskError>)
        ensures
            result == if old(self).open(generation) {
                Ok::<(), TaskError>(())
            } else {
                Err(TaskError::InvalidPiState)
            },
            *final(self) == if result is Ok {
                PiWaitState { top_generation: generation, ..*old(self) }
            } else {
                *old(self)
            },
    {
        if !self.can_grant(generation) {
            return Err(TaskError::InvalidPiState);
        }
        self.top_generation = generation;
        Ok(())
    }

    pub fn clear_top(&mut self, generation: u64)
        ensures
            *final(self) == old(self).without_top(generation),
    {
        if self.top_generation == generation {
            self.top_generation = 0;
        }
    }

    /// Completes a wait.
    pub fn grant(&mut self, generation: u64) -> (result: Result<(), TaskError>)
        ensures
            result == if old(self).generation == generation {
                Ok::<(), TaskError>(())
            } else {
                Err(TaskError::InvalidPiState)
            },
            *final(self) == if result is Ok {
                PiWaitState {
                    granted_generation: generation,
                    ..old(self).without_selection(generation).without_top(generation)
                }
            } else {
                *old(self)
            },
    {
        if self.generation != generation {
            return Err(TaskError::InvalidPiState);
        }
        self.clear_selection(generation);
        self.clear_top(generation);
        self.granted_generation = generation;
        Ok(())
    }

    pub fn can_grant(&self, generation: u64) -> (can: bool)
        ensures
            can == self.open(generation),
    {
        self.generation == generation && self.granted_generation != generation
    }

    pub fn can_select(&self, generation: u64) -> (can: bool)
        ensures
            can == (self.open(generation) && self.selected_generation != generation),
    {
        self.can_grant(generation) && self.selected_generation != generation
    }

    pub fn is_granted(&self, generation: u64) -> (granted: bool)
        ensures
            granted == (self.granted_generation == generation),
    {
        self.granted_generation == generation
    }

    pub fn is_selected(&self, generation: u64) -> (selected: bool)
        ensures
            selected == (self.selected_generation == generation),
    {
        self.selected_generation == generation
    }

    pub fn is_top(&self, generation: u64) -> (top: bool)
        ensures
            top == (self.top_generation == generation),
    {
        self.top_generation == generation
    }
}

impl PiWaitToken {
    pub fn thread_id(&self) -> (thread: ThreadId)
        ensures
            thread == self.thread,
    {
        self.thread
    }

    /// Whether the wait has been completed, by the waiter's wait state.
    pub fn is_granted(&self, state: &PiWaitState) -> (granted: bool)
        ensures
            granted == (state.granted_generation == self.generation),
    {
        state.is_granted(self.generation)
    }

    pub fn is_selected(&self, state: &PiWaitState) -> (selected: bool)
        ensures
            selected == (state.selected_generation == self.generation),
    {
        state.is_selected(self.generation)
    }

    /// Whether the mutex has been released to this waiter.
    pub fn can_claim(&self, state: &PiWaitState, snapshot: PiMutexOwnerSnapshot) -> (can: bool)
        ensures
            can == (state.selected_generation == self.generation && snapshot.word
                == OWNER_HAS_WAITERS),
    {
        self.is_selected(state) && snapshot.is_ownerless()
    }

    pub fn is_top_waiter(&self, state: &PiWaitState) -> (top: bool)
        ensures
            top == (state.top_generation == self.generation),
    {
        state.is_top(self.generation)
    }

    pub fn initial_owner(&self) -> (owner: Option<ThreadId>)
        ensures
            owner == self.initial_owner,
    {
        self.initial_owner
    }

    /// Whether spinning may pay off: the first owner seen is executing, by the
    /// CPU that fences it.
    pub fn initial_owner_is_on_cpu(&self, owner_fence: Option<CpuId>) -> (on_cpu: bool)
        ensures
            on_cpu == (self.initial_owner is Some && owner_fence is Some),
    {
        self.initial_owner.is_some() && owner_fence.is_some()
    }
}

/// Releasing an uncontended mutex undoes taking it.
pub proof fn release_undoes_acquire(thread: ThreadId)
    requires
        can_own(thread),
    ensures
        named_owner(word_of(thread, false) as u64) == Some(thread),
        word_of(thread, false) != 0,
{
    owner_word_round_trip(thread, false);
}

/// Once granted, a wait cannot be selected or granted again.
pub proof fn grants_are_final(state: PiWaitState, generation: u64)
    ensures
        !(PiWaitState { granted_generation: generation, ..state }).open(generation),
{
}

} // verus!
