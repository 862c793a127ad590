//! Per-CPU queue of task deadlines.
use vstd::prelude::*;
use crate::ids::ThreadId;
use crate::time::{MonotonicDeadline, MonotonicInstant};

verus! {

/// What a deadline is for.
#[derive(Clone, Copy, Debug, PartialEq, Eq, Structural)]
pub enum TaskDeadlineKind {
    /// The end of a timed wait.
    Wait,
    /// The next budget of a throttled Deadline thread.
    Replenish,
    /// The end of an idle Deadline reservation's claim on bandwidth.
    Inactive,
}

/// Why a deadline cannot be armed.
#[derive(Clone, Copy, Debug, PartialEq, Eq, Structural)]
pub enum TaskDeadlineError {
    Capacity,
    GenerationExhausted,
    KindMismatch,
}

/// One arming of one node.
#[derive(Clone, Copy, Debug, PartialEq, Eq, Structural)]
pub struct TaskDeadlineToken {
    pub node: u64,
    pub generation: u64,
}

/// The timer that a thread owns for one kind of deadline. `identity` is unique
/// among all nodes; zero stands for a node that could not be given one.
#[derive(Clone, Copy, Debug, PartialEq, Eq, Structural)]
pub struct TaskDeadlineNode {
    pub thread: ThreadId,
    pub kind: TaskDeadlineKind,
    pub identity: u64,
    pub generation: u64,
}

impl TaskDeadlineNode {
    pub fn new(thread: ThreadId, kind: TaskDeadlineKind, identity: u64) -> (node: Self)
        ensures
            node == (TaskDeadlineNode { thread, kind, identity, generation: 0 }),
    {
        TaskDeadlineNode { thread, kind, identity, generation: 0 }
    }
}

/// An armed deadline.
#[derive(Clone, Copy, Debug, PartialEq, Eq, Structural)]
pub struct TimerEntry {
    pub deadline: MonotonicDeadline,
    pub thread: ThreadId,
    pub token: TaskDeadlineToken,
    pub kind: TaskDeadlineKind,
}

/// Proof of an arming, by which it can be cancelled.
#[derive(Clone, Copy, Debug, PartialEq, Eq, Structural)]
pub struct TaskDeadlineRegistration {
    pub entry: TimerEntry,
}

impl TaskDeadlineRegistration {
    pub fn thread(&self) -> (thread: ThreadId)
        ensures
            thread == self.entry.thread,
    {
        self.entry.thread
    }

    pub fn deadline(&self) -> (deadline: MonotonicDeadline)
        ensures
            deadline == self.entry.deadline,
    {
        self.entry.deadline
    }
}

/// A deadline that has passed.
#[derive(Clone, Copy, Debug, PartialEq, Eq, Structural)]
pub struct ExpiredTaskDeadline {
    pub entry: TimerEntry,
}

#[derive(Clone, Copy, Debug, PartialEq, Eq, Structural)]
pub struct TaskDeadlineExpireRequest {
    pub now: MonotonicInstant,
    pub batch_limit: usize,
}

impl TaskDeadlineExpireRequest {
    pub fn new(now: MonotonicInstant, batch_limit: usize) -> (request: Self)
        ensures
            request == (TaskDeadlineExpireRequest { now, batch_limit }),
    {
        TaskDeadlineExpireRequest { now, batch_limit }
    }
}

/// Summary of one bounded expiration pass.
#[derive(Clone, Copy, Debug, PartialEq, Eq, Structural)]
pub struct TaskDeadlineExpireBatch {
    pub processed: usize,
    pub expired: usize,
    pub pending: bool,
    pub next_deadline: Option<MonotonicDeadline>,
}

impl TaskDeadlineExpireBatch {
    pub fn processed(&self) -> (processed: usize)
        ensures
            processed == self.processed,
    {
        self.processed
    }

    pub fn expired(&self) -> (expired: usize)
        ensures
            expired == self.expired,
    {
        self.expired
    }

    pub fn pending(&self) -> (pending: bool)
        ensures
            pending == self.pending,
    {
        self.pending
    }

    pub fn next_deadline(&self) -> (deadline: Option<MonotonicDeadline>)
        ensures
            deadline == self.next_deadline,
    {
        self.next_deadline
    }
}

/// `a` fires before `b`: earlier deadline, then lower token.
pub open spec fn fires_before(a: TimerEntry, b: TimerEntry) -> bool {
    if a.deadline.ns != b.deadline.ns {
        a.deadline.ns < b.deadline.ns
    } else if a.token.node != b.token.node {
        a.token.node < b.token.node
    } else {
        a.token.generation < b.token.generation
    }
}

/// The entry of the first `n` that fires first.
pub open spec fn first_to_fire(entries: Seq<TimerEntry>, n: int) -> int
    decreases n,
{
    if n <= 1 {
        0
    } else {
        let best = first_to_fire(entries, n - 1);
        if fires_before(entries[n - 1], entries[best]) {
            n - 1
        } else {
            best
        }
    }
}

/// The entry that fires first.
pub open spec fn next_to_fire(entries: Seq<TimerEntry>) -> int {
    first_to_fire(entries, entries.len() as int)
}

/// Number of entries of a kind.
pub open spec fn kind_count(entries: Seq<TimerEntry>, kind: TaskDeadlineKind) -> nat
    decreases entries.len(),
{
    if entries.len() == 0 {
        0
    } else {
        kind_count(entries.drop_last(), kind) + if entries.last().kind == kind {
            1nat
        } else {
            0nat
        }
    }
}

/// The entries that a pass takes out, in firing order.
pub open spec fn fired(entries: Seq<TimerEntry>, now: MonotonicInstant, budget: nat) -> Seq<TimerEntry>
    decreases budget,
{
    if budget == 0 || entries.len() == 0 || now.ns < entries[next_to_fire(entries)].deadline.ns {
        Seq::empty()
    } else {
        let at = next_to_fire(entries);
        seq![entries[at]] + fired(entries.remove(at), now, (budget - 1) as nat)
    }
}

/// The entries that a pass leaves.
pub open spec fn unfired(entries: Seq<TimerEntry>, now: MonotonicInstant, budget: nat) -> Seq<TimerEntry>
    decreases budget,
{
    if budget == 0 || entries.len() == 0 || now.ns < entries[next_to_fire(entries)].deadline.ns {
        entries
    } else {
        unfired(entries.remove(next_to_fire(entries)), now, (budget - 1) as nat)
    }
}

pub proof fn first_to_fire_is_first(entries: Seq<TimerEntry>, n: int)
    requires
        0 < n <= entries.len(),
    ensures
        0 <= first_to_fire(entries, n) < n,
        forall|i: int|
            0 <= i < n ==> !fires_before(#[trigger] entries[i], entries[first_to_fire(entries, n)]),
    decreases n,
{
    if n > 1 {
        first_to_fire_is_first(entries, n - 1);
    }
}

/// A kind's count after one entry left.
pub proof fn kind_count_after_remove(entries: Seq<TimerEntry>, at: int, kind: TaskDeadlineKind)
    requires
        0 <= at < entries.len(),
    ensures
        kind_count(entries, kind) == kind_count(entries.remove(at), kind) + if entries[at].kind
            == kind {
            1nat
        } else {
            0nat
        },
    decreases entries.len(),
{
    let shorter = entries.remove(at);
    if at == entries.len() - 1 {
        assert(shorter =~= entries.drop_last());
    } else {
        kind_count_after_remove(entries.drop_last(), at, kind);
        assert(shorter.drop_last() =~= entries.drop_last().remove(at));
        assert(shorter.last() == entries.last());
    }
}

proof fn kind_count_after_push(entries: Seq<TimerEntry>, entry: TimerEntry, kind: TaskDeadlineKind)
    ensures
        kind_count(entries.push(entry), kind) == kind_count(entries, kind) + if entry.kind == kind {
            1nat
        } else {
            0nat
        },
{
    assert(entries.push(entry).drop_last() =~= entries);
}

/// Armed deadlines of one CPU. Every kind has room for one deadline of every
/// thread.
#[derive(Debug)]
pub struct TaskDeadlineQueue {
    pub entries: Vec<TimerEntry>,
    pub capacity_per_class: usize,
    pub waits: usize,
    pub replenishments: usize,
    pub inactivities: usize,
}

impl TaskDeadlineQueue {
    pub open spec fn count_of(&self, kind: TaskDeadlineKind) -> usize {
        match kind {
            TaskDeadlineKind::Wait => self.waits,
            TaskDeadlineKind::Replenish => self.replenishments,
            TaskDeadlineKind::Inactive => self.inactivities,
        }
    }

    /// No node is armed twice, and the counters are exact and within capacity.
    pub open spec fn wf(&self) -> bool {
        &&& forall|i: int, j: int|
            0 <= i < self.entries@.len() && 0 <= j < self.entries@.len() && i != j ==> (
            #[trigger] self.entries@[i]).token.node != (#[trigger] self.entries@[j]).token.node
        &&& forall|kind: TaskDeadlineKind|
            #[trigger] self.count_of(kind) == kind_count(self.entries@, kind)
        &&& forall|kind: TaskDeadlineKind| #[trigger] self.count_of(kind) <= self.capacity_per_class
    }

    /// Whether a node is armed.
    pub open spec fn armed(&self, identity: u64) -> bool {
        exists|i: int| 0 <= i < self.entries@.len() && (#[trigger] self.entries@[i]).token.node
            == identity
    }

    pub open spec fn place_of(&self, identity: u64) -> int {
        choose|i: int| 0 <= i < self.entries@.len() && (#[trigger] self.entries@[i]).token.node
            == identity
    }

    /// What is left besides the arming of a node.
    pub open spec fn without(&self, identity: u64) -> Seq<TimerEntry> {
        if self.armed(identity) {
            self.entries@.remove(self.place_of(identity))
        } else {
            self.entries@
        }
    }

    /// A queue with room for `capacity` deadlines of each kind.
    pub fn new(capacity: usize) -> (queue: Self)
        ensures
            queue.entries@ == Seq::<TimerEntry>::empty(),
            queue.capacity_per_class == capacity,
            queue.wf(),
    {
        TaskDeadlineQueue {
            entries: Vec::new(),
            capacity_per_class: capacity,
            waits: 0,
            replenishments: 0,
            inactivities: 0,
        }
    }

    fn position_of(&self, identity: u64) -> (found: Option<usize>)
        requires
            self.wf(),
        ensures
            found is Some <==> self.armed(identity),
            found matches Some(i) ==> i < self.entries@.len() && i == self.place_of(identity)
                && self.entries@[i as int].token.node == identity,
    {
        let mut i: usize = 0;
        while i < self.entries.len()
            invariant
                self.wf(),
                i <= self.entries.len(),
                forall|j: int| 0 <= j < i ==> (#[trigger] self.entries@[j]).token.node != identity,
            decreases self.entries.len() - i,
        {
            if self.entries[i].token.node == identity {
                proof {
                    let k = self.place_of(identity);
                    assert(self.entries@[i as int].token.node == identity);
                    assert(0 <= k < self.entries@.len() && self.entries@[k].token.node == identity);
                }
                return Some(i);
            }
            i = i + 1;
        }
        None
    }

    fn count(&self, kind: TaskDeadlineKind) -> (count: usize)
        ensures
            count == self.count_of(kind),
    {
        match kind {
            TaskDeadlineKind::Wait => self.waits,
            TaskDeadlineKind::Replenish => self.replenishments,
            TaskDeadlineKind::Inactive => self.inactivities,
        }
    }

    fn take_at(&mut self, at: usize) -> (entry: TimerEntry)
        requires
            old(self).wf(),
            at < old(self).entries@.len(),
        ensures
            entry == old(self).entries@[at as int],
            final(self).entries@ == old(self).entries@.remove(at as int),
            final(self).capacity_per_class == old(self).capacity_per_class,
            final(self).wf(),
    {
        let ghost before = *self;
        proof {
            assert forall|kind: TaskDeadlineKind| #[trigger] before.count_of(kind) == kind_count(
                before.entries@.remove(at as int),
                kind,
            ) + if before.entries@[at as int].kind == kind {
                1nat
            } else {
                0nat
            } by {
                kind_count_after_remove(before.entries@, at as int, kind);
            }
            assert(before.count_of(before.entries@[at as int].kind) > 0);
        }
        let entry = self.entries.remove(at);
        match entry.kind {
            TaskDeadlineKind::Wait => {
                self.waits = self.waits - 1;
            },
            TaskDeadlineKind::Replenish => {
                self.replenishments = self.replenishments - 1;
            },
            TaskDeadlineKind::Inactive => {
                self.inactivities = self.inactivities - 1;
            },
        }
        proof {
            assert forall|kind: TaskDeadlineKind| #[trigger] self.count_of(kind) == kind_count(
                self.entries@,
                kind,
            ) by {
                assert(before.count_of(kind) == kind_count(self.entries@, kind)
                    + if entry.kind == kind {
                    1nat
                } else {
                    0nat
                });
            }
            assert forall|kind: TaskDeadlineKind| #[trigger] self.count_of(kind)
                <= self.capacity_per_class by {
                assert(before.count_of(kind) <= before.capacity_per_class);
            }
        }
        entry
    }

    fn put(&mut self, entry: TimerEntry)
        requires
            old(self).wf(),
            !old(self).armed(entry.token.node),
            old(self).count_of(entry.kind) < old(self).capacity_per_class,
        ensures
            final(self).entries@ == old(self).entries@.push(entry),
            final(self).capacity_per_class == old(self).capacity_per_class,
            final(self).wf(),
    {
        let ghost before = *self;
        self.entries.push(entry);
        match entry.kind {
            TaskDeadlineKind::Wait => {
                self.waits = self.waits + 1;
            },
            TaskDeadlineKind::Replenish => {
                self.replenishments = self.replenishments + 1;
            },
            TaskDeadlineKind::Inactive => {
                self.inactivities = self.inactivities + 1;
            },
        }
        proof {
            assert forall|kind: TaskDeadlineKind| #[trigger] self.count_of(kind) == kind_count(
                self.entries@,
                kind,
            ) by {
                assert(before.count_of(kind) == kind_count(before.entries@, kind));
                kind_count_after_push(before.entries@, entry, kind);
            }
            assert forall|kind: TaskDeadlineKind| #[trigger] self.count_of(kind)
                <= self.capacity_per_class by {
                assert(before.count_of(kind) <= before.capacity_per_class);
            }
            assert forall|i: int, j: int|
                0 <= i < self.entries@.len() && 0 <= j < self.entries@.len() && i != j implies (
            #[trigger] self.entries@[i]).token.node != (#[trigger] self.entries@[j]).token.node by {
                if i == before.entries@.len() {
                    assert(before.entries@[j].token.node != entry.token.node);
                }
                if j == before.entries@.len() {
                    assert(before.entries@[i].token.node != entry.token.node);
                }
            }
        }
    }

    /// Arms a node, replacing its previous deadline. A refused request changes
    /// neither queue nor node.
    pub fn arm(&mut self, node: &mut TaskDeadlineNode, deadline: MonotonicDeadline, kind: TaskDeadlineKind) -> (result: Result<TaskDeadlineRegistration, TaskDeadlineError>)
        requires
            old(self).wf(),
            old(self).armed(old(node).identity) ==> old(self).entries@[old(self).place_of(
                old(node).identity,
            )].kind == old(node).kind,
        ensures
            result is Err <==> old(node).kind != kind || old(node).identity == 0 || (!old(self).armed(old(node).identity) && old(self).count_of(kind) == old(self).capacity_per_class)
                || old(node).generation == u64::MAX,
            result matches Err(error) ==> {
                &&& error == if old(node).kind != kind {
                    TaskDeadlineError::KindMismatch
                } else if old(node).identity != 0 && !old(self).armed(old(node).identity) && old(self).count_of(kind) == old(self).capacity_per_class {
                    TaskDeadlineError::Capacity
                } else {
                    TaskDeadlineError::GenerationExhausted
                }
                &&& *final(self) == *old(self)
                &&& *final(node) == *old(node)
            },
            result matches Ok(registration) ==> {
                &&& *final(node) == (TaskDeadlineNode {
                    generation: (old(node).generation + 1) as u64,
                    ..*old(node)
                })
                &&& registration.entry == (TimerEntry {
                    deadline,
                    thread: old(node).thread,
                    token: TaskDeadlineToken {
                        node: old(node).identity,
                        generation: final(node).generation,
                    },
                    kind,
                })
                &&& final(self).entries@ == old(self).without(old(node).identity).push(
                    registration.entry,
                )
            },
            final(self).capacity_per_class == old(self).capacity_per_class,
            final(self).wf(),
    {
        if node.kind != kind {
            return Err(TaskDeadlineError::KindMismatch);
        }
        let identity: u64 = node.identity;
        if identity == 0 {
            return Err(TaskDeadlineError::GenerationExhausted);
        }
        let replaced = self.position_of(identity);
        if self.count(kind) == self.capacity_per_class && replaced.is_none() {
            return Err(TaskDeadlineError::Capacity);
        }
        if node.generation == u64::MAX {
            return Err(TaskDeadlineError::GenerationExhausted);
        }
        node.generation = node.generation + 1;
        let entry = TimerEntry {
            deadline,
            thread: node.thread,
            token: TaskDeadlineToken { node: identity, generation: node.generation },
            kind,
        };
        let ghost before = *self;
        if let Some(at) = replaced {
            let _ = self.take_at(at);
            proof {
                kind_count_after_remove(before.entries@, at as int, kind);
                assert(self.count_of(kind) == kind_count(self.entries@, kind));
                assert(before.count_of(kind) == kind_count(before.entries@, kind));
                assert(before.count_of(kind) <= before.capacity_per_class);
                assert forall|i: int| 0 <= i < self.entries@.len() implies (
                #[trigger] self.entries@[i]).token.node != identity by {
                    let k = if i < at {
                        i
                    } else {
                        i + 1
                    };
                    assert(self.entries@[i] == before.entries@[k]);
                    assert(before.entries@[k].token.node != before.entries@[at as int].token.node);
                }
            }
        }
        proof {
            assert(before.count_of(kind) <= before.capacity_per_class);
        }
        self.put(entry);
        Ok(TaskDeadlineRegistration { entry })
    }

    /// Whether a registration is still armed.
    pub open spec fn registered(&self, registration: TaskDeadlineRegistration) -> bool {
        let entry = registration.entry;
        self.armed(entry.token.node) && {
            let found = self.entries@[self.place_of(entry.token.node)];
            found.thread == entry.thread && found.token == entry.token && found.kind == entry.kind
        }
    }

    /// Disarms a registration; reports whether it was still armed.
    pub fn cancel(&mut self, registration: &TaskDeadlineRegistration) -> (cancelled: bool)
        requires
            old(self).wf(),
        ensures
            cancelled == old(self).registered(*registration),
            final(self).entries@ == if cancelled {
                old(self).without(registration.entry.token.node)
            } else {
                old(self).entries@
            },
            final(self).capacity_per_class == old(self).capacity_per_class,
            final(self).wf(),
    {
        self.begin_cancel(registration).is_some()
    }

    /// Takes a registration out so that it can be put back.
    pub fn begin_cancel(&mut self, registration: &TaskDeadlineRegistration) -> (taken: Option<TimerEntry>)
        requires
            old(self).wf(),
        ensures
            taken is Some <==> old(self).registered(*registration),
            taken matches Some(entry) ==> {
                &&& entry == old(self).entries@[old(self).place_of(registration.entry.token.node)]
                &&& final(self).entries@ == old(self).without(registration.entry.token.node)
                &&& !final(self).armed(entry.token.node)
                &&& final(self).count_of(entry.kind) < final(self).capacity_per_class
            },
            taken is None ==> *final(self) == *old(self),
            final(self).capacity_per_class == old(self).capacity_per_class,
            final(self).wf(),
    {
        let wanted = registration.entry;
        match self.position_of(wanted.token.node) {
            Some(at) => {
                let found = self.entries[at];
                if found.thread == wanted.thread && found.token == wanted.token && found.kind
                    == wanted.kind {
                    let ghost before = *self;
                    let entry = self.take_at(at);
                    proof {
                        kind_count_after_remove(before.entries@, at as int, entry.kind);
                        assert(self.count_of(entry.kind) == kind_count(self.entries@, entry.kind));
                        assert(before.count_of(entry.kind) == kind_count(
                            before.entries@,
                            entry.kind,
                        ));
                        assert(before.count_of(entry.kind) <= before.capacity_per_class);
                        assert forall|i: int| 0 <= i < self.entries@.len() implies (
                        #[trigger] self.entries@[i]).token.node != entry.token.node by {
                            let k = if i < at {
                                i
                            } else {
                                i + 1
                            };
                            assert(self.entries@[i] == before.entries@[k]);
                            assert(before.entries@[k].token.node
                                != before.entries@[at as int].token.node);
                        }
                    }
                    Some(entry)
                } else {
                    None
                }
            },
            None => None,
        }
    }

    /// Puts back what a cancellation took out.
    pub fn restore_cancelled(&mut self, entry: TimerEntry)
        requires
            old(self).wf(),
            !old(self).armed(entry.token.node),
            old(self).count_of(entry.kind) < old(self).capacity_per_class,
        ensures
            final(self).entries@ == old(self).entries@.push(entry),
            final(self).capacity_per_class == old(self).capacity_per_class,
            final(self).wf(),
    {
        self.put(entry);
    }

    fn first_position(&self) -> (found: Option<usize>)
        ensures
            found is Some <==> self.entries@.len() > 0,
            found matches Some(i) ==> i < self.entries@.len() && i == next_to_fire(self.entries@),
    {
        if self.entries.len() == 0 {
            return None;
        }
        let mut best: usize = 0;
        let mut i: usize = 1;
        while i < self.entries.len()
            invariant
                1 <= i <= self.entries.len(),
                best < i,
                best == first_to_fire(self.entries@, i as int),
            decreases self.entries.len() - i,
        {
            let a = self.entries[i];
            let b = self.entries[best];
            let before = if a.deadline.ns != b.deadline.ns {
                a.deadline.ns < b.deadline.ns
            } else if a.token.node != b.token.node {
                a.token.node < b.token.node
            } else {
                a.token.generation < b.token.generation
            };
            if before {
                best = i;
            }
            i = i + 1;
        }
        Some(best)
    }

    /// The deadline that fires first.
    pub fn next_deadline(&self) -> (deadline: Option<MonotonicDeadline>)
        ensures
            deadline == if self.entries@.len() > 0 {
                Some(self.entries@[next_to_fire(self.entries@)].deadline)
            } else {
                None
            },
    {
        match self.first_position() {
            Some(at) => Some(self.entries[at].deadline),
            None => None,
        }
    }

    /// Whether the first deadline has passed.
    pub fn has_immediately_actionable_entry(&self, now: MonotonicInstant) -> (due: bool)
        ensures
            due == (self.entries@.len() > 0 && now.ns
                >= self.entries@[next_to_fire(self.entries@)].deadline.ns),
    {
        match self.first_position() {
            Some(at) => now.reached(self.entries[at].deadline),
            None => false,
        }
    }

    /// Appends passed deadlines to `output` in firing order, at most the
    /// request's batch and at most up to `room` records in all.
    pub fn expire(&mut self, request: TaskDeadlineExpireRequest, output: &mut Vec<ExpiredTaskDeadline>, room: usize) -> (batch: TaskDeadlineExpireBatch)
        requires
            old(self).wf(),
            old(output)@.len() <= room,
        ensures
            ({
                let budget = if request.batch_limit < room - old(output)@.len() {
                    request.batch_limit as int
                } else {
                    room - old(output)@.len()
                } as nat;
                let gone = fired(old(self).entries@, request.now, budget);
                &&& final(self).entries@ == unfired(old(self).entries@, request.now, budget)
                &&& final(output)@ == old(output)@ + Seq::new(
                    gone.len(),
                    |i: int| ExpiredTaskDeadline { entry: gone[i] },
                )
                &&& batch.processed == gone.len()
                &&& batch.expired == gone.len()
                &&& gone.len() <= budget
            }),
            batch.pending == (final(self).entries@.len() > 0 && request.now.ns
                >= final(self).entries@[next_to_fire(final(self).entries@)].deadline.ns),
            batch.next_deadline == if final(self).entries@.len() > 0 {
                Some(final(self).entries@[next_to_fire(final(self).entries@)].deadline)
            } else {
                None
            },
            final(self).capacity_per_class == old(self).capacity_per_class,
            final(self).wf(),
    {
        let space: usize = room - output.len();
        let budget: usize = if request.batch_limit < space {
            request.batch_limit
        } else {
            space
        };
        let ghost start = self.entries@;
        let ghost before = output@;
        let ghost gone = fired(start, request.now, budget as nat);
        let mut processed: usize = 0;
        while processed < budget
            invariant_except_break
                self.wf(),
                processed <= budget,
                self.capacity_per_class == old(self).capacity_per_class,
                gone == fired(start, request.now, budget as nat),
                processed <= gone.len(),
                gone.skip(processed as int) == fired(
                    self.entries@,
                    request.now,
                    (budget - processed) as nat,
                ),
                unfired(start, request.now, budget as nat) == unfired(
                    self.entries@,
                    request.now,
                    (budget - processed) as nat,
                ),
                output@ == before + Seq::new(
                    processed as nat,
                    |i: int| ExpiredTaskDeadline { entry: gone[i] },
                ),
            ensures
                self.wf(),
                self.capacity_per_class == old(self).capacity_per_class,
                processed == gone.len(),
                processed <= budget,
                self.entries@ == unfired(start, request.now, budget as nat),
                output@ == before + Seq::new(
                    processed as nat,
                    |i: int| ExpiredTaskDeadline { entry: gone[i] },
                ),
            decreases budget - processed,
        {
            let at = match self.first_position() {
                Some(at) => at,
                None => {
                    assert(gone.skip(processed as int).len() == 0);
                    break;
                },
            };
            if !request.now.reached(self.entries[at].deadline) {
                assert(gone.skip(processed as int).len() == 0);
                break;
            }
            let ghost rest = self.entries@;
            let entry = self.take_at(at);
            output.push(ExpiredTaskDeadline { entry });
            proof {
                let tail = fired(self.entries@, request.now, (budget - processed - 1) as nat);
                assert(gone.skip(processed as int) == seq![entry] + tail);
                assert(gone.skip(processed as int)[0] == gone[processed as int]);
                assert(gone[processed as int] == entry);
                assert(gone.skip(processed + 1) =~= gone.skip(processed as int).skip(1));
                assert((seq![entry] + tail).skip(1) =~= tail);
                assert(output@ =~= before + Seq::new(
                    (processed + 1) as nat,
                    |i: int| ExpiredTaskDeadline { entry: gone[i] },
                ));
            }
            processed = processed + 1;
        }
        let (pending, next_deadline) = self.next_wakeup(request);
        TaskDeadlineExpireBatch { processed, expired: processed, pending, next_deadline }
    }

    fn next_wakeup(&self, request: TaskDeadlineExpireRequest) -> (wakeup: (bool, Option<MonotonicDeadline>))
        ensures
            wakeup.0 == (self.entries@.len() > 0 && request.now.ns
                >= self.entries@[next_to_fire(self.entries@)].deadline.ns),
            wakeup.1 == if self.entries@.len() > 0 {
                Some(self.entries@[next_to_fire(self.entries@)].deadline)
            } else {
                None
            },
    {
        match self.first_position() {
            Some(at) => (
                request.now.reached(self.entries[at].deadline),
                Some(self.entries[at].deadline),
            ),
            None => (false, None),
        }
    }

    /// Deadlines of each kind that the queue has room for.
    pub fn capacity(&self) -> (capacity: usize)
        ensures
            capacity == self.capacity_per_class,
    {
        self.capacity_per_class
    }

    pub fn len(&self) -> (len: usize)
        ensures
            len == self.entries@.len(),
    {
        self.entries.len()
    }

    pub fn is_empty(&self) -> (empty: bool)
        ensures
            empty == (self.entries@.len() == 0),
    {
        self.entries.len() == 0
    }
}

/// A pass takes out only what is due, and what it leaves in spite of a
/// remaining budget is not due.
pub proof fn expiration_is_exact(entries: Seq<TimerEntry>, now: MonotonicInstant, budget: nat)
    ensures
        forall|i: int|
            0 <= i < fired(entries, now, budget).len() ==> now.ns >= (#[trigger] fired(
                entries,
                now,
                budget,
            )[i]).deadline.ns,
        fired(entries, now, budget).len() < budget ==> forall|i: int|
            0 <= i < unfired(entries, now, budget).len() ==> now.ns < (#[trigger] unfired(
                entries,
                now,
                budget,
            )[i]).deadline.ns,
        fired(entries, now, budget).len() + unfired(entries, now, budget).len() == entries.len(),
    decreases budget,
{
    if entries.len() > 0 {
        first_to_fire_is_first(entries, entries.len() as int);
        let at = next_to_fire(entries);
        if budget == 0 {
        } else if now.ns < entries[at].deadline.ns {
            assert forall|i: int| 0 <= i < entries.len() implies now.ns < (
            #[trigger] entries[i]).deadline.ns by {
                assert(!fires_before(entries[i], entries[at]));
            }
        } else {
            expiration_is_exact(entries.remove(at), now, (budget - 1) as nat);
            let tail = fired(entries.remove(at), now, (budget - 1) as nat);
            assert forall|i: int| 0 <= i < fired(entries, now, budget).len() implies now.ns >= (
            #[trigger] fired(entries, now, budget)[i]).deadline.ns by {
                if i > 0 {
                    assert(fired(entries, now, budget)[i] == tail[i - 1]);
                }
            }
        }
    }
}

/// Putting a cancelled deadline back restores the set of armed deadlines.
pub proof fn restoring_undoes_cancelling(queue: TaskDeadlineQueue, registration: TaskDeadlineRegistration)
    requires
        queue.wf(),
        queue.registered(registration),
    ensures
        ({
            let at = queue.place_of(registration.entry.token.node);
            queue.without(registration.entry.token.node).push(queue.entries@[at]).to_multiset()
                == queue.entries@.to_multiset()
        }),
{
    let at = queue.place_of(registration.entry.token.node);
    let entries = queue.entries@;
    assert(0 <= at < entries.len());
    broadcast use vstd::seq_lib::group_to_multiset_ensures;

    assert(entries.remove(at).push(entries[at]).to_multiset() =~= entries.to_multiset());
}

} // verus!
