//! Run-queue records and the order in which deadline-ordered classes visit
//! them.
use vstd::prelude::*;
use crate::ids::ThreadId;
use crate::scheduler::entity::SchedulingEntity;
use crate::scheduler::policy::SchedulePolicy;
use crate::time::{circular_before, circular_distance, wrapping_before};

verus! {

/// Policy and entity under which a thread currently competes. An inherited
/// entity masks the thread's own until the inheritance ends.
#[derive(Clone, Copy, Debug, PartialEq, Eq, Structural)]
pub struct ActiveSchedulingState {
    pub policy: SchedulePolicy,
    pub base_entity: SchedulingEntity,
    pub inherited: Option<SchedulingEntity>,
}

impl ActiveSchedulingState {
    pub open spec fn effective(self) -> SchedulingEntity {
        match self.inherited {
            Some(entity) => entity,
            None => self.base_entity,
        }
    }

    pub open spec fn with_effective(self, entity: SchedulingEntity) -> ActiveSchedulingState {
        match self.inherited {
            Some(_) => ActiveSchedulingState { inherited: Some(entity), ..self },
            None => ActiveSchedulingState { base_entity: entity, ..self },
        }
    }

    pub open spec fn wf(self) -> bool {
        &&& self.policy.valid()
        &&& self.base_entity.wf()
        &&& self.effective().wf()
        &&& self.effective().serves(self.policy)
    }

    pub fn new(policy: SchedulePolicy, entity: SchedulingEntity) -> (active: Self)
        ensures
            active == (ActiveSchedulingState { policy, base_entity: entity, inherited: None }),
    {
        ActiveSchedulingState { policy, base_entity: entity, inherited: None }
    }

    pub fn policy(&self) -> (policy: SchedulePolicy)
        ensures
            policy == self.policy,
    {
        self.policy
    }

    pub fn entity(&self) -> (entity: SchedulingEntity)
        ensures
            entity == self.effective(),
    {
        match self.inherited {
            Some(entity) => entity,
            None => self.base_entity,
        }
    }

    pub fn base_entity(&self) -> (entity: SchedulingEntity)
        ensures
            entity == self.base_entity,
    {
        self.base_entity
    }

    pub fn uses_inherited_entity(&self) -> (inherited: bool)
        ensures
            inherited == (self.inherited is Some),
    {
        self.inherited.is_some()
    }

    /// Tests `wf`.
    pub fn is_consistent(&self) -> (consistent: bool)
        ensures
            consistent == self.wf(),
    {
        self.policy.validate().is_ok() && self.base_entity.is_consistent()
            && self.entity().is_consistent() && self.entity().belongs_to(self.policy)
    }

    /// Replaces the entity in effect.
    pub fn set_entity(&mut self, entity: SchedulingEntity)
        ensures
            *final(self) == old(self).with_effective(entity),
            final(self).effective() == entity,
    {
        match self.inherited {
            Some(_) => {
                self.inherited = Some(entity);
            },
            None => {
                self.base_entity = entity;
            },
        }
    }

    pub fn replace_base_entity(&mut self, entity: SchedulingEntity)
        ensures
            *final(self) == (ActiveSchedulingState { base_entity: entity, ..*old(self) }),
    {
        self.base_entity = entity;
    }

    /// Ends an inheritance.
    pub fn use_base_entity(&mut self, policy: SchedulePolicy)
        ensures
            *final(self) == (ActiveSchedulingState { policy, inherited: None, ..*old(self) }),
    {
        self.policy = policy;
        self.inherited = None;
    }

    /// Starts or replaces an inheritance.
    pub fn inherit(&mut self, policy: SchedulePolicy, entity: SchedulingEntity)
        ensures
            *final(self) == (ActiveSchedulingState {
                policy,
                inherited: Some(entity),
                ..*old(self)
            }),
    {
        self.policy = policy;
        self.inherited = Some(entity);
    }
}

/// Facts about a thread that its CPU reads without the thread's lock.
#[derive(Clone, Copy, Debug, PartialEq, Eq, Structural)]
pub struct RqTaskMetadata {
    pub deadline_donor: Option<ThreadId>,
    pub deadline_bandwidth_scaled: u64,
    pub policy_generation: u64,
}

/// One thread as a run queue holds it.
#[derive(Clone, Copy, Debug, PartialEq, Eq, Structural)]
pub struct QueuedThread {
    pub id: ThreadId,
    pub active: ActiveSchedulingState,
    pub rt_quota_exempt: bool,
    pub migration_capable: bool,
    pub metadata: RqTaskMetadata,
    pub sequence: u64,
    pub balance_scan_epoch: u64,
    pub pushable: bool,
}

/// What a caller outside the run queue sees of a queued thread.
#[derive(Clone, Copy, Debug, PartialEq, Eq, Structural)]
pub struct QueuedThreadSnapshot {
    pub id: ThreadId,
    pub policy: SchedulePolicy,
    pub entity: SchedulingEntity,
    pub base_entity: SchedulingEntity,
    pub rt_quota_exempt: bool,
    pub migration_capable: bool,
    pub metadata: RqTaskMetadata,
}

/// A thread selected to run next. Real-time and Deadline threads stay linked in
/// their class while they run; the others leave it.
#[derive(Clone, Copy, Debug, PartialEq, Eq, Structural)]
pub enum PickedThread {
    Linked(QueuedThreadSnapshot),
    Owned(QueuedThread),
}

impl QueuedThread {
    pub open spec fn entity(self) -> SchedulingEntity {
        self.active.effective()
    }

    pub open spec fn snapshot(self) -> QueuedThreadSnapshot {
        QueuedThreadSnapshot {
            id: self.id,
            policy: self.active.policy,
            entity: self.active.effective(),
            base_entity: self.active.base_entity,
            rt_quota_exempt: self.rt_quota_exempt,
            migration_capable: self.migration_capable,
            metadata: self.metadata,
        }
    }

    pub fn new(
        id: ThreadId,
        active: ActiveSchedulingState,
        rt_quota_exempt: bool,
        migration_capable: bool,
        metadata: RqTaskMetadata,
    ) -> (thread: Self)
        ensures
            thread == (QueuedThread {
                id,
                active,
                rt_quota_exempt,
                migration_capable,
                metadata,
                sequence: 0,
                balance_scan_epoch: 0,
                pushable: false,
            }),
    {
        QueuedThread {
            id,
            active,
            rt_quota_exempt,
            migration_capable,
            metadata,
            sequence: 0,
            balance_scan_epoch: 0,
            pushable: false,
        }
    }

    pub fn scheduling_entity(&self) -> (entity: SchedulingEntity)
        ensures
            entity == self.entity(),
    {
        self.active.entity()
    }

    pub fn to_snapshot(&self) -> (snapshot: QueuedThreadSnapshot)
        ensures
            snapshot == self.snapshot(),
    {
        QueuedThreadSnapshot {
            id: self.id,
            policy: self.active.policy(),
            entity: self.active.entity(),
            base_entity: self.active.base_entity(),
            rt_quota_exempt: self.rt_quota_exempt,
            migration_capable: self.migration_capable,
            metadata: self.metadata,
        }
    }
}

impl PickedThread {
    pub open spec fn thread_id(self) -> ThreadId {
        match self {
            PickedThread::Linked(snapshot) => snapshot.id,
            PickedThread::Owned(thread) => thread.id,
        }
    }

    pub open spec fn thread_policy(self) -> SchedulePolicy {
        match self {
            PickedThread::Linked(snapshot) => snapshot.policy,
            PickedThread::Owned(thread) => thread.active.policy,
        }
    }

    pub fn id(&self) -> (id: ThreadId)
        ensures
            id == self.thread_id(),
    {
        match self {
            PickedThread::Linked(snapshot) => snapshot.id,
            PickedThread::Owned(thread) => thread.id,
        }
    }

    pub fn policy(&self) -> (policy: SchedulePolicy)
        ensures
            policy == self.thread_policy(),
    {
        match self {
            PickedThread::Linked(snapshot) => snapshot.policy,
            PickedThread::Owned(thread) => thread.active.policy,
        }
    }

    pub fn rt_quota_exempt(&self) -> (exempt: bool)
        ensures
            exempt == match *self {
                PickedThread::Linked(snapshot) => snapshot.rt_quota_exempt,
                PickedThread::Owned(thread) => thread.rt_quota_exempt,
            },
    {
        match self {
            PickedThread::Linked(snapshot) => snapshot.rt_quota_exempt,
            PickedThread::Owned(thread) => thread.rt_quota_exempt,
        }
    }

    pub fn metadata(&self) -> (metadata: RqTaskMetadata)
        ensures
            metadata == match *self {
                PickedThread::Linked(snapshot) => snapshot.metadata,
                PickedThread::Owned(thread) => thread.metadata,
            },
    {
        match self {
            PickedThread::Linked(snapshot) => snapshot.metadata,
            PickedThread::Owned(thread) => thread.metadata,
        }
    }
}

/// Whether some record of the list is that of `id`.
pub open spec fn holds(list: Seq<QueuedThread>, id: ThreadId) -> bool {
    exists|i: int| 0 <= i < list.len() && (#[trigger] list[i]).id == id
}

/// Where the record of `id` stands.
pub open spec fn index_of(list: Seq<QueuedThread>, id: ThreadId) -> int {
    choose|i: int| 0 <= i < list.len() && (#[trigger] list[i]).id == id
}

/// No two records share a registry slot.
pub open spec fn distinct(list: Seq<QueuedThread>) -> bool {
    forall|i: int, j: int|
        0 <= i < list.len() && 0 <= j < list.len() && i != j ==> (#[trigger] list[i]).id.slot != (
        #[trigger] list[j]).id.slot
}

/// In a list of distinct records a thread stands in one place.
pub proof fn index_of_is_unique(list: Seq<QueuedThread>, id: ThreadId, i: int)
    requires
        distinct(list),
        0 <= i < list.len(),
        list[i].id == id,
    ensures
        index_of(list, id) == i,
        holds(list, id),
{
    let j = index_of(list, id);
    assert(0 <= j < list.len() && list[j].id == id);
}

pub proof fn holds_after_push(list: Seq<QueuedThread>, thread: QueuedThread, id: ThreadId)
    ensures
        holds(list.push(thread), id) <==> holds(list, id) || thread.id == id,
{
    let longer = list.push(thread);
    if holds(list, id) {
        let i = index_of(list, id);
        assert(longer[i].id == id);
    }
    if thread.id == id {
        assert(longer[list.len() as int].id == id);
    }
    if holds(longer, id) {
        let i = index_of(longer, id);
        if i < list.len() {
            assert(list[i].id == id);
        }
    }
}

pub proof fn holds_after_prepend(list: Seq<QueuedThread>, thread: QueuedThread, id: ThreadId)
    ensures
        holds(seq![thread] + list, id) <==> holds(list, id) || thread.id == id,
{
    let longer = seq![thread] + list;
    if holds(list, id) {
        let i = index_of(list, id);
        assert(longer[i + 1].id == id);
    }
    if thread.id == id {
        assert(longer[0].id == id);
    }
    if holds(longer, id) {
        let i = index_of(longer, id);
        if i > 0 {
            assert(list[i - 1].id == id);
        }
    }
}

pub proof fn holds_after_remove(list: Seq<QueuedThread>, at: int, id: ThreadId)
    requires
        distinct(list),
        0 <= at < list.len(),
    ensures
        holds(list.remove(at), id) <==> holds(list, id) && id != list[at].id,
{
    let shorter = list.remove(at);
    if holds(shorter, id) {
        let i = index_of(shorter, id);
        if i < at {
            assert(list[i].id == id);
        } else {
            assert(list[i + 1].id == id);
        }
    }
    if holds(list, id) && id != list[at].id {
        let i = index_of(list, id);
        if i < at {
            assert(shorter[i].id == id);
        } else {
            assert(shorter[i - 1].id == id);
        }
    }
}

pub proof fn holds_after_update(list: Seq<QueuedThread>, at: int, thread: QueuedThread, id: ThreadId)
    requires
        0 <= at < list.len(),
        thread.id == list[at].id,
    ensures
        holds(list.update(at, thread), id) <==> holds(list, id),
{
    let changed = list.update(at, thread);
    if holds(list, id) {
        let i = index_of(list, id);
        assert(changed[i].id == id);
    }
    if holds(changed, id) {
        let i = index_of(changed, id);
        assert(list[i].id == id);
    }
}

/// Where the record of `id` stands, if the list has one.
pub fn position(list: &Vec<QueuedThread>, id: ThreadId) -> (position: Option<usize>)
    requires
        distinct(list@),
    ensures
        position is Some <==> holds(list@, id),
        position matches Some(i) ==> i < list@.len() && i == index_of(list@, id) && list@[i as int].id
            == id,
{
    let mut i: usize = 0;
    while i < list.len()
        invariant
            i <= list.len(),
            distinct(list@),
            forall|j: int| 0 <= j < i ==> (#[trigger] list@[j]).id != id,
        decreases list.len() - i,
    {
        if list[i].id == id {
            proof {
                index_of_is_unique(list@, id, i as int);
            }
            return Some(i);
        }
        i = i + 1;
    }
    None
}

/// The point by which deadline-ordered classes order their records.
pub open spec fn due(thread: QueuedThread) -> u64 {
    match thread.entity() {
        SchedulingEntity::Fair(fair) => fair.virtual_deadline,
        SchedulingEntity::Deadline(deadline) => match deadline.absolute_deadline {
            Some(due) => due,
            None => 0,
        },
        _ => 0,
    }
}

/// `a` is visited before `b`: earlier deadline, then earlier arrival.
pub open spec fn ahead(a: QueuedThread, b: QueuedThread) -> bool {
    circular_before(due(a), due(b)) || (due(a) == due(b) && a.sequence < b.sequence)
}

/// The record to visit first among the admitted ones of the first `n`.
pub open spec fn first_due(list: Seq<QueuedThread>, admitted: Seq<bool>, n: int) -> Option<int>
    decreases n,
{
    if n <= 0 {
        None
    } else {
        let earlier = first_due(list, admitted, n - 1);
        if !admitted[n - 1] {
            earlier
        } else if earlier is Some && !ahead(list[n - 1], list[earlier->0]) {
            earlier
        } else {
            Some(n - 1)
        }
    }
}

/// The visit order restricted to what a test admits.
pub open spec fn first_where(list: Seq<QueuedThread>, test: spec_fn(QueuedThread) -> bool) -> Option<int> {
    first_due(list, Seq::new(list.len(), |i: int| test(list[i])), list.len() as int)
}

pub fn due_of(thread: &QueuedThread) -> (result: u64)
    ensures
        result == due(*thread),
{
    match thread.active.entity() {
        SchedulingEntity::Fair(fair) => fair.virtual_deadline,
        SchedulingEntity::Deadline(deadline) => match deadline.absolute_deadline {
            Some(due) => due,
            None => 0,
        },
        _ => 0,
    }
}

pub fn is_ahead(a: &QueuedThread, b: &QueuedThread) -> (result: bool)
    ensures
        result == ahead(*a, *b),
{
    let x: u64 = due_of(a);
    let y: u64 = due_of(b);
    wrapping_before(x, y) || (x == y && a.sequence < b.sequence)
}

/// `admitted` is an outcome of running a test on every record.
pub open spec fn verdicts<F: Fn(&QueuedThread) -> bool>(
    list: Seq<QueuedThread>,
    test: F,
    admitted: Seq<bool>,
) -> bool {
    &&& admitted.len() == list.len()
    &&& forall|i: int| 0 <= i < list.len() ==> call_ensures(test, (&list[i],), #[trigger] admitted[i])
}

/// The first record in visit order that passes a test.
pub fn earliest_where<F: Fn(&QueuedThread) -> bool>(list: &Vec<QueuedThread>, test: F) -> (found: Option<usize>)
    requires
        forall|i: int| 0 <= i < list@.len() ==> call_requires(test, (&#[trigger] list@[i],)),
    ensures
        exists|admitted: Seq<bool>|
            #[trigger] verdicts(list@, test, admitted) && match found {
                Some(i) => i < list@.len() && first_due(list@, admitted, list@.len() as int) == Some(
                    i as int,
                ),
                None => first_due(list@, admitted, list@.len() as int) is None,
            },
{
    let ghost mut admitted: Seq<bool> = Seq::empty();
    let mut best: Option<usize> = None;
    let mut i: usize = 0;
    while i < list.len()
        invariant
            i <= list.len(),
            forall|j: int| 0 <= j < list@.len() ==> call_requires(test, (&#[trigger] list@[j],)),
            admitted.len() == i,
            forall|j: int|
                0 <= j < i ==> call_ensures(test, (&list@[j],), #[trigger] admitted[j]),
            match best {
                Some(b) => b < i && first_due(list@, admitted, i as int) == Some(b as int),
                None => first_due(list@, admitted, i as int) is None,
            },
        decreases list.len() - i,
    {
        let passes = test(&list[i]);
        proof {
            let longer = admitted.push(passes);
            first_due_reads_a_prefix(list@, admitted, longer, i as int);
            admitted = longer;
        }
        if passes {
            best = match best {
                Some(b) => if is_ahead(&list[i], &list[b]) {
                    Some(i)
                } else {
                    Some(b)
                },
                None => Some(i),
            };
        }
        i = i + 1;
    }
    assert(verdicts(list@, test, admitted));
    best
}

proof fn first_due_reads_a_prefix(list: Seq<QueuedThread>, a: Seq<bool>, b: Seq<bool>, n: int)
    requires
        n <= a.len(),
        n <= b.len(),
        forall|i: int| 0 <= i < n ==> a[i] == b[i],
    ensures
        first_due(list, a, n) == first_due(list, b, n),
    decreases n,
{
    if n > 0 {
        first_due_reads_a_prefix(list, a, b, n - 1);
    }
}

/// What is found is an admitted record.
pub proof fn first_due_is_admitted(list: Seq<QueuedThread>, admitted: Seq<bool>, n: int)
    requires
        n <= admitted.len(),
    ensures
        first_due(list, admitted, n) matches Some(i) ==> 0 <= i < n && admitted[i],
        first_due(list, admitted, n) is None ==> forall|i: int| 0 <= i < n ==> !#[trigger] admitted[i],
    decreases n,
{
    if n > 0 {
        first_due_is_admitted(list, admitted, n - 1);
    }
}

/// All deadlines lie within a quarter of the counter range of `base`.
pub open spec fn within_quarter(list: Seq<QueuedThread>, base: u64) -> bool {
    forall|i: int|
        0 <= i < list.len() ==> -0x4000_0000_0000_0000 <= circular_distance(
            due(#[trigger] list[i]),
            base,
        ) < 0x4000_0000_0000_0000
}

/// Among deadlines that span less than half the counter range, no admitted
/// record is ahead of the one visited first, wherever the counter wraps.
pub proof fn first_due_is_a_minimum(list: Seq<QueuedThread>, admitted: Seq<bool>, n: int, base: u64, j: int)
    requires
        within_quarter(list, base),
        0 <= j < n <= list.len(),
        n <= admitted.len(),
        admitted[j],
    ensures
        first_due(list, admitted, n) is Some,
        !ahead(list[j], list[first_due(list, admitted, n)->0]),
    decreases n,
{
    first_due_is_admitted(list, admitted, n - 1);
    let x = list[n - 1];
    assert(-0x4000_0000_0000_0000 <= circular_distance(due(x), base) < 0x4000_0000_0000_0000);
    if j < n - 1 {
        first_due_is_a_minimum(list, admitted, n - 1, base, j);
        let b = list[first_due(list, admitted, n - 1)->0];
        assert(-0x4000_0000_0000_0000 <= circular_distance(due(b), base) < 0x4000_0000_0000_0000);
        assert(-0x4000_0000_0000_0000 <= circular_distance(due(list[j]), base) < 0x4000_0000_0000_0000);
    } else if first_due(list, admitted, n - 1) is Some {
        let b = list[first_due(list, admitted, n - 1)->0];
        assert(-0x4000_0000_0000_0000 <= circular_distance(due(b), base) < 0x4000_0000_0000_0000);
    }
}

} // verus!
