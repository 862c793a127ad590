//! What holds of priority inheritance.
use vstd::prelude::*;
use crate::error::{TaskError, ThreadState};
use crate::ids::{CpuId, ThreadId};
use crate::scheduler::entity::SchedulingEntity;
use crate::scheduler::policy::SchedulePolicy;
use crate::scheduler::run_queue::RunQueue;
use crate::system::inherit::{InheritanceStep, heir, resolved, told_of_change};
use crate::system::affinity::shown;
use crate::system::pi::rekeyed;
use crate::system::pi_chain::top_key_changes;
use crate::system::pi_graph::{PiWaiterRekey, donation_of, exchanged, waiting_for, with_wait};
use crate::system::pi_handoff::{granted_wait, owning_word};
use crate::system::pi_mutex::{PiMutexLockResult, begun_wait, marked_word, quiet_word};
use crate::system::pi_waiters::PiWaiterRefresh;
use crate::system::restate::{position_of, record_restated, restated, state_at};
use crate::system::task_system::{TaskSystem, with_queue};
use crate::thread::pi::{
    OWNER_HAS_WAITERS, PiMutexAcquire, PiMutexCore, PiMutexId, PiWaitEntry, PiWaitKey,
    PiWaitRegistration, PiWaitState, PiWaitToken, can_own, first_entry_of, first_waiter, has_key,
    key_index, named_owner, owner_word_round_trip, word_of,
};
use crate::thread::record::ThreadRecord;
use crate::time::circular_distance;

verus! {

/// The real-time priority of a policy, and nothing for any other.
pub open spec fn priority_in(policy: SchedulePolicy) -> Option<u8> {
    match policy {
        SchedulePolicy::Fifo { priority } => Some(priority.value),
        SchedulePolicy::RoundRobin { priority, .. } => Some(priority.value),
        _ => None,
    }
}

/// Whether a thread runs as its donor does: with the donor's reservation, with
/// the donor's real-time priority, or with the donor's niceness and mode. A
/// thread that takes turns goes on taking them, with the quantum of its own.
pub open spec fn runs_as(policy: SchedulePolicy, base: SchedulePolicy, donor: SchedulePolicy) -> bool {
    match donor {
        SchedulePolicy::Deadline(reservation) => policy == SchedulePolicy::Deadline(reservation),
        SchedulePolicy::Fair { nice, mode } => policy == (SchedulePolicy::Fair { nice, mode }),
        SchedulePolicy::KernelStop => false,
        _ => {
            &&& priority_in(policy) == priority_in(donor)
            &&& priority_in(policy) is Some
            &&& policy is RoundRobin <==> base is RoundRobin
            &&& policy is RoundRobin ==> policy->quantum_ns == base->quantum_ns
        },
    }
}

/// Who inherits runs as its donor does: it has the donor's class and, within
/// it, the donor's reservation, priority, or niceness and mode.
pub proof fn heirs_run_as_their_donors(base: SchedulePolicy, entity: SchedulingEntity, top: Option<PiWaitEntry>)
    ensures
        ({
            let update = resolved(base, entity, top);
            &&& update.donor is Some ==> top is Some && runs_as(
                update.policy,
                base,
                top->0.donation.policy,
            )
            &&& update.donor is Some ==> update.policy.class() == top->0.donation.policy.class()
            &&& update.donor is Some ==> update.policy.rt() == top->0.donation.policy.rt()
            &&& update.deadline_donor is Some <==> update.donor is Some
                && top->0.donation.policy is Deadline
            &&& update.deadline_donor is Some ==> update.deadline_donor == update.donor
        }),
{
}

/// A thread inherits whenever somebody more urgent waits for it, except that
/// the class of a stopper and of a Deadline thread is never lowered.
pub proof fn urgent_waiters_are_inherited_from(base: SchedulePolicy, entity: SchedulingEntity, top: PiWaitEntry)
    requires
        top.donation.boost_urgency.rank < entity.urgency(base).rank || (
        top.donation.boost_urgency.rank == entity.urgency(base).rank && base.class().rank() >= 2
            && top.donation.boost_urgency.value < entity.urgency(base).value),
    ensures
        ({
            let update = resolved(base, entity, Some(top));
            let donor = top.donation.policy;
            &&& donor is Deadline ==> update.donor == Some(top.donation.root)
            &&& priority_in(donor) is Some && !(base is KernelStop || base is Deadline)
                ==> update.donor == Some(top.donation.root)
            &&& donor is Fair && base is Fair ==> update.donor == Some(top.donation.root)
            &&& donor is KernelStop ==> update.donor is None && update.policy == base
        }),
{
}

/// Among real-time threads the priority decides: the owner of a mutex inherits
/// from a waiter of a higher priority and from no other.
pub proof fn realtime_owners_inherit_higher_priorities(base: SchedulePolicy, entity: SchedulingEntity, top: PiWaitEntry, waiter: SchedulingEntity)
    requires
        base.valid(),
        top.donation.policy.valid(),
        priority_in(base) is Some,
        priority_in(top.donation.policy) is Some,
        top.donation.boost_urgency == waiter.urgency(top.donation.policy),
    ensures
        ({
            let update = resolved(base, entity, Some(top));
            let own = priority_in(base)->0;
            let offered = priority_in(top.donation.policy)->0;
            &&& update.donor is Some <==> offered > own
            &&& priority_in(update.policy) == Some(
                if offered > own {
                    offered
                } else {
                    own
                },
            )
        }),
{
}

/// A thread for which nobody waits, or nobody more urgent, runs as itself.
pub proof fn nobody_inherits_from_the_less_urgent(base: SchedulePolicy, entity: SchedulingEntity, top: PiWaitEntry)
    ensures
        resolved(base, entity, None).policy == base,
        resolved(base, entity, None).donor is None,
        top.donation.boost_urgency.rank > entity.urgency(base).rank || top.donation.boost_urgency
            == entity.urgency(base) ==> resolved(base, entity, Some(top)).donor is None
            && resolved(base, entity, Some(top)).policy == base,
{
}

/// What is inherited is in force: after it was computed, the thread runs as its
/// donor or, without one, as itself. Its own policy is kept.
pub proof fn inheritance_is_in_force(before: &TaskSystem, after: &TaskSystem, thread: ThreadId, top: Option<PiWaitEntry>, now_ns: u64, by: CpuId, result: Result<bool, TaskError>)
    requires
        before.wf(),
        before.record(thread) is Some,
        after.inheritance_computed(before, thread, top, now_ns, by, result),
        result is Ok,
    ensures
        after.record(thread) is Some,
        ({
            let was = before.record(thread)->0;
            let new = after.record(thread)->0;
            &&& new.policy.base == was.policy.base
            &&& new.lifecycle == was.lifecycle
            &&& new.placement == was.placement
            &&& new.pi.donor is None ==> new.policy.effective == was.policy.base
                && new.pi.deadline_donor is None
            &&& new.pi.donor is Some ==> top is Some && new.pi.donor == Some(top->0.donation.root)
                && runs_as(new.policy.effective, was.policy.base, top->0.donation.policy)
            &&& top is None ==> new.pi.donor is None
        }),
{
    reveal(TaskSystem::inheritance_computed);
    assert(before.slots@[thread.slot as int].wf_at(thread.slot as int));
    let record = before.record(thread)->0;
    let owner = record.placement.task_cpu->0;
    let (settled, reschedule, step) = choose|
        settled: TaskSystem,
        reschedule: bool,
        step: InheritanceStep,
    |
        #[trigger] settled.charged_on(before, owner, now_ns, reschedule)
            && #[trigger] settled.inheritance_step(thread, owner, top, now_ns, step) && match step {
            InheritanceStep::Refused(error) => result == Err::<bool, TaskError>(error) && *after
                == settled,
            InheritanceStep::Unchanged => result == Ok::<bool, TaskError>(false) && *after
                == settled,
            InheritanceStep::Change { update, next } => result == Ok::<bool, TaskError>(true)
                && after.inheritance_applied(&settled, thread, owner, update, next, by),
        };
    let queue = settled.cpu(owner).queue();
    let state = state_at(&queue, &record, position_of(&record, owner))->0;
    heirs_run_as_their_donors(record.policy.base, state.base_entity, top);
    if let InheritanceStep::Change { update, next } = step {
        let inherits = heir(record, update);
        let position = position_of(&inherits, owner);
        let held = choose|queue: RunQueue|
            #[trigger] restated(&queue, &settled.cpu(owner).queue(), &inherits, position, next)
                && after.relinked(
                &settled,
                record_restated(inherits, position, next),
                settled.cpus@.update(
                    owner.index as int,
                    told_of_change(shown(with_queue(settled.cpu(owner), queue)), position, by),
                ),
                settled.root_domain,
            );
        assert(after.record(thread) == Some(record_restated(inherits, position, next)));
    }
}

/// Keys whose deadlines lie within half the range of the counter.
pub open spec fn keys_comparable(entries: Seq<PiWaitEntry>, base: u64) -> bool {
    forall|i: int|
        0 <= i < entries.len() ==> (#[trigger] entries[i]).key.urgency.rank == 1 ==> (
        -0x4000_0000_0000_0000 <= circular_distance(entries[i].key.urgency.value, base)
            < 0x4000_0000_0000_0000)
}

/// Whether one waiter goes before another: by class, within a class by deadline
/// or rank, and among equals by arrival.
pub open spec fn goes_first(a: PiWaitKey, b: PiWaitKey) -> bool {
    &&& a.urgency.rank <= b.urgency.rank
    &&& a.urgency.rank == b.urgency.rank && a.urgency.rank != 1 ==> a.urgency.value
        <= b.urgency.value
    &&& a.urgency.rank == 1 && b.urgency.rank == 1 ==> circular_distance(
        a.urgency.value,
        b.urgency.value,
    ) <= 0
    &&& a.urgency == b.urgency ==> a.sequence <= b.sequence
}

/// The first waiter is the most urgent one, and of equals the one that came
/// first.
pub proof fn the_most_urgent_waits_in_front(entries: Seq<PiWaitEntry>, excluded: Option<PiWaitKey>, base: u64, n: int, j: int)
    requires
        0 <= n <= entries.len(),
        0 <= j < n,
        keys_comparable(entries, base),
        excluded != Some(entries[j].key),
    ensures
        first_waiter(entries, excluded, n) matches Some(i) && 0 <= i < n && excluded != Some(
            entries[i].key,
        ) && goes_first(entries[i].key, entries[j].key),
    decreases n,
{
    if n > 1 {
        if j < n - 1 {
            the_most_urgent_waits_in_front(entries, excluded, base, n - 1, j);
        }
        first_waiter_is_admitted(entries, excluded, n - 1);
        if first_waiter(entries, excluded, n - 1) is Some {
            let i = first_waiter(entries, excluded, n - 1)->0;
            if excluded != Some(entries[n - 1].key) && j < n - 1 {
                let (a, b, c) = (entries[i].key, entries[j].key, entries[n - 1].key);
                assert(goes_first(a, b));
            }
        }
    }
}

proof fn first_waiter_is_admitted(entries: Seq<PiWaitEntry>, excluded: Option<PiWaitKey>, n: int)
    requires
        0 <= n <= entries.len(),
    ensures
        first_waiter(entries, excluded, n) matches Some(i) ==> 0 <= i < n && excluded != Some(
            entries[i].key,
        ),
    decreases n,
{
    if n > 0 {
        first_waiter_is_admitted(entries, excluded, n - 1);
    }
}

/// An owner inherits from the most urgent of all that wait for it: those at the
/// head of its mutexes, the one that left not counted and the new one counted.
pub proof fn owners_inherit_from_the_most_urgent(record: ThreadRecord, old_top: Option<PiWaitEntry>, new_top: Option<PiWaitEntry>, base: u64, j: int)
    requires
        keys_comparable(record.pi.donors.entries@, base),
        new_top matches Some(entry) ==> keys_comparable(seq![entry], base),
        0 <= j < record.pi.donors.entries@.len(),
    ensures
        ({
            let donors = record.pi.donors.entries@;
            let top = TaskSystem::prospective_top(&record, old_top, new_top);
            &&& new_top matches Some(entry) ==> top is Some && goes_first(top->0.key, entry.key)
            &&& !(old_top is Some && donors[j].key == old_top->0.key) ==> top is Some
                && goes_first(top->0.key, donors[j].key)
            &&& top matches Some(entry) ==> new_top == Some(entry) || (exists|i: int|
                0 <= i < donors.len() && #[trigger] donors[i] == entry && !(old_top is Some
                    && entry.key == old_top->0.key))
        }),
{
    let donors = record.pi.donors.entries@;
    let excluded = match old_top {
        Some(entry) => Some(entry.key),
        None => None,
    };
    let n = donors.len() as int;
    first_waiter_is_admitted(donors, excluded, n);
    if excluded != Some(donors[j].key) {
        the_most_urgent_waits_in_front(donors, excluded, base, n, j);
    }
    let held = first_entry_of(donors, excluded);
    if held is Some {
        let i = first_waiter(donors, excluded, n)->0;
        assert(donors[i] == held->0);
    }
    if let Some(entry) = new_top {
        assert(seq![entry][0] == entry);
    }
}

/// The waiters that an owner knows change by the two that are exchanged, and
/// by no other.
pub proof fn donors_are_exchanged(entries: Seq<PiWaitEntry>, old_top: Option<PiWaitEntry>, new_top: Option<PiWaitEntry>, entry: PiWaitEntry)
    requires
        old_top matches Some(from) ==> has_key(entries, from.key),
    ensures
        new_top matches Some(to) ==> exchanged(entries, old_top, new_top).contains(to),
        entries.contains(entry) && !(old_top is Some && entry.key == old_top->0.key) ==> exchanged(
            entries,
            old_top,
            new_top,
        ).contains(entry),
        exchanged(entries, old_top, new_top).contains(entry) ==> entries.contains(entry) || new_top
            == Some(entry),
        old_top is None && new_top is None ==> exchanged(entries, old_top, new_top) == entries,
        exchanged(entries, old_top, new_top).len() == entries.len() + (if new_top is Some {
            1int
        } else {
            0
        }) - (if old_top is Some {
            1int
        } else {
            0
        }),
{
    let kept = match old_top {
        Some(from) => entries.remove(key_index(entries, from.key)),
        None => entries,
    };
    let after = exchanged(entries, old_top, new_top);
    if let Some(to) = new_top {
        assert(after[after.len() - 1] == to);
    }
    if let Some(from) = old_top {
        let at = key_index(entries, from.key);
        assert(0 <= at < entries.len() && entries[at].key == from.key) by {
            let i = choose|i: int| 0 <= i < entries.len() && (#[trigger] entries[i]).key
                == from.key;
            assert(entries[i].key == from.key);
        }
        if entries.contains(entry) && entry.key != from.key {
            let i = choose|i: int| 0 <= i < entries.len() && entries[i] == entry;
            if i < at {
                assert(kept[i] == entry);
                assert(after[i] == entry);
            } else {
                assert(kept[i - 1] == entry);
                assert(after[i - 1] == entry);
            }
        }
        if after.contains(entry) {
            let i = choose|i: int| 0 <= i < after.len() && after[i] == entry;
            if i < kept.len() {
                if i < at {
                    assert(entries[i] == entry);
                } else {
                    assert(entries[i + 1] == entry);
                }
            }
        }
    } else {
        if entries.contains(entry) {
            let i = choose|i: int| 0 <= i < entries.len() && entries[i] == entry;
            assert(after[i] == entry);
        }
        if after.contains(entry) {
            let i = choose|i: int| 0 <= i < after.len() && after[i] == entry;
            if i < entries.len() {
                assert(entries[i] == entry);
            }
        }
    }
}

/// A waiter passes on what it inherits itself, in the name of the thread that
/// gave it; its place among equals is kept when its urgency changes.
pub proof fn inheritance_is_passed_on(record: ThreadRecord, registration: PiWaitRegistration)
    ensures
        donation_of(&record).policy == record.policy.effective,
        donation_of(&record).boost_urgency == record.policy.urgency,
        donation_of(&record).waiter == record.id,
        record.pi.donor is Some ==> Some(donation_of(&record).root) == record.pi.donor,
        record.pi.donor is None ==> donation_of(&record).root == record.id,
        rekeyed(&record, registration).sequence == registration.key.sequence,
        rekeyed(&record, registration).urgency == record.policy.urgency,
        rekeyed(&record, registration).thread == record.id,
{
}

/// A free mutex is taken at once; the owner may not take it again; anybody else
/// has to wait.
pub proof fn mutexes_have_one_owner(mutex: PiMutexCore, owner: ThreadId, other: ThreadId, has_waiters: bool)
    requires
        can_own(owner),
        can_own(other),
        other != owner,
    ensures
        mutex.owner == 0 ==> mutex.acquisition(owner) == Ok::<PiMutexAcquire, TaskError>(
            PiMutexAcquire::Acquired,
        ),
        mutex.owner == word_of(owner, has_waiters) ==> mutex.acquisition(owner) is Err,
        mutex.owner == word_of(owner, has_waiters) ==> mutex.acquisition(other) == Ok::<
            PiMutexAcquire,
            TaskError,
        >(PiMutexAcquire::Contended),
        mutex.locked() <==> mutex.owner != 0,
        word_of(owner, has_waiters) != 0,
{
    owner_word_round_trip(owner, has_waiters);
}

/// A word that is marked names the same owner, and one without waiters names it
/// without the mark.
pub proof fn marks_keep_the_owner(word: u64, owner: ThreadId)
    requires
        can_own(owner),
    ensures
        named_owner(marked_word(word)) == named_owner(word),
        marked_word(word) >= OWNER_HAS_WAITERS,
        marked_word(marked_word(word)) == marked_word(word),
        named_owner(quiet_word(Some(owner))) == Some(owner),
        quiet_word(Some(owner)) < OWNER_HAS_WAITERS,
        quiet_word(None) == 0,
{
    owner_word_round_trip(owner, false);
}

/// Every wait is told apart from those before, and begins neither chosen nor
/// granted. A wait that was granted is not open any more.
pub proof fn waits_are_told_apart(wait: PiWaitState, generation: u64)
    requires
        wait.generation < u64::MAX,
    ensures
        begun_wait(wait).generation == wait.generation + 1,
        begun_wait(wait).open((wait.generation + 1) as u64),
        !begun_wait(wait).open(wait.generation),
        begun_wait(wait).top_generation == 0 && begun_wait(wait).selected_generation == 0,
        !granted_wait(wait, generation).open(generation),
        wait.generation != generation ==> granted_wait(wait, generation) == wait,
        granted_wait(wait, generation).generation == wait.generation,
{
}

/// A mutex is released to its most urgent waiter, and only by its owner.
pub proof fn releases_go_to_the_most_urgent(system: &TaskSystem, lock: PiMutexId, owner: ThreadId, base: u64, j: int)
    requires
        keys_comparable(system.entries(lock), base),
        0 <= j < system.entries(lock).len(),
    ensures
        system.release_choice(lock, owner) matches Ok(entry) ==> {
            &&& named_owner(system.mutex(lock).owner) == Some(owner)
            &&& system.entries(lock).contains(entry)
            &&& goes_first(entry.key, system.entries(lock)[j].key)
        },
{
    let entries = system.entries(lock);
    the_most_urgent_waits_in_front(entries, None, base, entries.len() as int, j);
}

/// Only the most urgent waiter can claim a mutex that was released, and only
/// while nobody owns it.
pub proof fn claims_are_for_the_most_urgent(system: &TaskSystem, token: PiWaitToken, base: u64, j: int)
    requires
        system.can_claim(token),
        keys_comparable(system.entries(token.lock), base),
        0 <= j < system.entries(token.lock).len(),
    ensures
        named_owner(system.mutex(token.lock).owner) is None,
        system.mutex(token.lock).locked(),
        (system.record(token.thread)->0).pi.blocked_on is Some,
        goes_first(
            ((system.record(token.thread)->0).pi.blocked_on->0).key,
            system.entries(token.lock)[j].key,
        ),
{
    let entries = system.entries(token.lock);
    the_most_urgent_waits_in_front(entries, None, base, entries.len() as int, j);
}

/// The same mutexes have the same owners.
pub open spec fn owners_kept(after: &TaskSystem, before: &TaskSystem) -> bool {
    &&& after.mutexes@.len() == before.mutexes@.len()
    &&& forall|i: int|
        0 <= i < before.mutexes@.len() ==> (#[trigger] after.mutexes@[i]).owner
            == before.mutexes@[i].owner
}

proof fn lending_keeps_owners(
    after: &TaskSystem,
    before: &TaskSystem,
    owner: ThreadId,
    old_top: Option<PiWaitEntry>,
    new_top: Option<PiWaitEntry>,
    now_ns: u64,
    by: CpuId,
    result: Result<(), TaskError>,
)
    requires
        after.lock_top_replaced(before, owner, old_top, new_top, now_ns, by, result),
    ensures
        owners_kept(after, before),
{
    reveal(TaskSystem::inheritance_computed);
}

proof fn publishing_keeps_owners(
    after: &TaskSystem,
    before: &TaskSystem,
    owner: Option<ThreadId>,
    old_top: Option<PiWaitEntry>,
    new_top: Option<PiWaitEntry>,
    rekey: Option<PiWaiterRekey>,
    now_ns: u64,
    by: CpuId,
    result: Result<(), TaskError>,
)
    requires
        after.top_published(before, owner, old_top, new_top, rekey, now_ns, by, result),
    ensures
        owners_kept(after, before),
{
    reveal(TaskSystem::lent_through);
    reveal(TaskSystem::marks_moved);
    if before.top_mark_error(old_top, new_top, rekey) is None {
        let (lent, outcome) = choose|lent: TaskSystem, outcome: Result<(), TaskError>|
            #[trigger] lent.lent_through(before, owner, old_top, new_top, now_ns, by, outcome)
                && result == outcome && if outcome is Err {
                *after == lent
            } else if top_key_changes(old_top, new_top) {
                after.marks_moved(
                    &lent,
                    before.marker_of(old_top, rekey)->Ok_0,
                    before.marker_of(new_top, rekey)->Ok_0,
                )
            } else {
                *after == lent
            };
        if let Some(owner) = owner {
            lending_keeps_owners(&lent, before, owner, old_top, new_top, now_ns, by, outcome);
        }
        assert(after.mutexes@ == lent.mutexes@);
    }
}

proof fn refreshing_keeps_owners(before: &TaskSystem, after: &TaskSystem, waiter: ThreadId, now_ns: u64, by: CpuId, result: Result<PiWaiterRefresh, TaskError>)
    requires
        after.waiter_refreshed(before, waiter, now_ns, by, result),
    ensures
        owners_kept(after, before),
{
    if *after != *before {
        let record = before.record(waiter)->0;
        let registration = record.pi.blocked_on->0;
        let lock = registration.lock;
        let entries = before.entries(lock);
        let new_key = rekeyed(&record, registration);
        let owner = named_owner(before.mutex(lock).owner);
        let moves = TaskSystem::rekeyed_entries(
            entries,
            registration.key,
            PiWaitEntry { key: new_key, donation: donation_of(&record) },
        );
        let restores = TaskSystem::rekeyed_entries(
            entries,
            registration.key,
            entries[key_index(entries, registration.key)],
        );
        let rekey = Some(PiWaiterRekey { waiter, registration, new_key });
        let (moved, published, outcome) = choose|
            moved: TaskSystem,
            published: TaskSystem,
            outcome: Result<(), TaskError>,
        |
            #[trigger] moved.mutex_becomes(before, lock, before.mutex(lock).owner, moves)
                && #[trigger] published.top_published(
                &moved,
                owner,
                before.mutex(lock).waiters.top(),
                moved.mutex(lock).waiters.top(),
                rekey,
                now_ns,
                by,
                outcome,
            ) && match outcome {
                Ok(_) => result == Ok::<PiWaiterRefresh, TaskError>(
                    PiWaiterRefresh { owner, changed: true },
                ) && after.only_thread(
                    &published,
                    waiting_for(
                        published.record(waiter)->0,
                        Some(PiWaitRegistration { key: new_key, ..registration }),
                    ),
                ),
                Err(error) => result == Err::<PiWaiterRefresh, TaskError>(error)
                    && after.mutex_becomes(
                    &published,
                    lock,
                    published.mutex(lock).owner,
                    restores,
                ),
            };
        publishing_keeps_owners(
            &published,
            &moved,
            owner,
            before.mutex(lock).waiters.top(),
            moved.mutex(lock).waiters.top(),
            rekey,
            now_ns,
            by,
            outcome,
        );
        assert(owners_kept(&moved, before));
        assert(owners_kept(after, &published));
    }
}

/// Passing inheritance along a chain of waits changes no owner.
pub proof fn walking_keeps_owners(
    before: &TaskSystem,
    after: &TaskSystem,
    current: ThreadId,
    origin: Option<PiMutexId>,
    top: ThreadId,
    left: nat,
    limit: usize,
    now_ns: u64,
    by: CpuId,
    result: Result<(), TaskError>,
)
    requires
        after.chain_walked(before, current, origin, top, left, limit, now_ns, by, result),
    ensures
        owners_kept(after, before),
    decreases left,
{
    if *after != *before {
        let (mid, refresh) = choose|mid: TaskSystem, refresh: Result<PiWaiterRefresh, TaskError>|
            #[trigger] mid.waiter_refreshed(before, current, now_ns, by, refresh) && match refresh {
                Err(error) => result == Err::<(), TaskError>(error) && *after == mid,
                Ok(step) => match step.owner {
                    None => result == Ok::<(), TaskError>(()) && *after == mid,
                    Some(owner) => if !step.changed && origin is None {
                        result == Ok::<(), TaskError>(()) && *after == mid
                    } else if owner == top {
                        result == Err::<(), TaskError>(TaskError::PiCycle) && *after == mid
                    } else if left == 1 {
                        result == Err::<(), TaskError>(TaskError::PiChainLimit { limit })
                            && *after == mid
                    } else {
                        after.chain_walked(
                            &mid,
                            owner,
                            origin,
                            top,
                            (left - 1) as nat,
                            limit,
                            now_ns,
                            by,
                            result,
                        )
                    },
                },
            };
        refreshing_keeps_owners(before, &mid, current, now_ns, by, refresh);
        if let Ok(step) = refresh {
            if let Some(owner) = step.owner {
                if !(!step.changed && origin is None) && owner != top && left != 1 {
                    walking_keeps_owners(
                        &mid,
                        after,
                        owner,
                        origin,
                        top,
                        (left - 1) as nat,
                        limit,
                        now_ns,
                        by,
                        result,
                    );
                }
            }
        }
    }
}

/// Whoever claims a mutex owns it.
pub proof fn claimed_mutexes_are_owned(before: &TaskSystem, after: &TaskSystem, token: PiWaitToken, now_ns: u64, by: CpuId, result: Result<(), TaskError>)
    requires
        after.mutex_claimed(before, token, now_ns, by, result),
        token.lock.value > 0,
    ensures
        result is Ok ==> before.can_claim(token) && named_owner(after.mutex(token.lock).owner)
            == Some(token.thread),
        !before.can_claim(token) ==> result is Err && *after == *before,
{
    if before.can_claim(token) && result is Ok {
        let (left, outcome) = choose|left: TaskSystem, outcome: Result<PiWaitRegistration, TaskError>|
            #[trigger] left.waiter_removed(
                before,
                token.lock,
                None,
                token.thread,
                token.generation,
                now_ns,
                by,
                outcome,
            ) && match outcome {
                Err(error) => result == Err::<(), TaskError>(error) && *after == left,
                Ok(_) => result == Ok::<(), TaskError>(()) && after.ownership_taken(
                    &left,
                    token,
                    now_ns,
                    by,
                ),
            };
        removing_keeps_owners(
            before,
            &left,
            token.lock,
            None,
            token.thread,
            token.generation,
            now_ns,
            by,
            outcome,
        );
        let lock = token.lock;
        let top = left.mutex(lock).waiters.top();
        let word = owning_word(token.thread, left.entries(lock));
        owner_word_round_trip(token.thread, left.entries(lock).len() > 0);
        let (lent, titled, granted, loan, walk) = choose|
            lent: TaskSystem,
            titled: TaskSystem,
            granted: TaskSystem,
            loan: Result<(), TaskError>,
            walk: Result<(), TaskError>,
        |
            #[trigger] lent.lent_to(&left, token.thread, top, now_ns, by, loan)
                && #[trigger] titled.mutex_becomes(&lent, lock, word, left.entries(lock))
                && #[trigger] granted.only_thread(
                &titled,
                with_wait(
                    titled.record(token.thread)->0,
                    granted_wait((titled.record(token.thread)->0).pi.wait, token.generation),
                ),
            ) && #[trigger] after.chain_cleaned(
                &granted,
                token.thread,
                token.thread,
                now_ns,
                by,
                walk,
            );
        if top is Some {
            lending_keeps_owners(&lent, &left, token.thread, None, top, now_ns, by, loan);
        }
        assert(titled.mutex(lock).owner == word);
        walking_keeps_owners(
            &granted,
            after,
            token.thread,
            None,
            token.thread,
            granted.config.thread_capacity as nat,
            granted.config.thread_capacity,
            now_ns,
            by,
            walk,
        );
        assert(after.mutexes@[lock.value - 1].owner == granted.mutexes@[lock.value - 1].owner);
    }
}

proof fn removing_keeps_owners(
    before: &TaskSystem,
    after: &TaskSystem,
    lock: PiMutexId,
    owner: Option<ThreadId>,
    waiter: ThreadId,
    generation: u64,
    now_ns: u64,
    by: CpuId,
    result: Result<PiWaitRegistration, TaskError>,
)
    requires
        after.waiter_removed(before, lock, owner, waiter, generation, now_ns, by, result),
    ensures
        owners_kept(after, before),
{
    if let Some(registration) = before.registered_wait(lock, waiter, generation) {
        let entries = before.entries(lock);
        let at = key_index(entries, registration.key);
        let (dropped, published, outcome) = choose|
            dropped: TaskSystem,
            published: TaskSystem,
            outcome: Result<(), TaskError>,
        |
            #[trigger] dropped.mutex_becomes(
                before,
                lock,
                before.mutex(lock).owner,
                entries.remove(at),
            ) && #[trigger] published.top_published(
                &dropped,
                owner,
                before.mutex(lock).waiters.top(),
                dropped.mutex(lock).waiters.top(),
                None,
                now_ns,
                by,
                outcome,
            ) && match outcome {
                Ok(_) => result == Ok::<PiWaitRegistration, TaskError>(registration)
                    && after.only_thread(
                    &published,
                    TaskSystem::wait_over(published.record(waiter)->0, generation),
                ),
                Err(error) => result == Err::<PiWaitRegistration, TaskError>(error)
                    && after.mutex_becomes(
                    &published,
                    lock,
                    published.mutex(lock).owner,
                    entries.remove(at).push(entries[at]),
                ),
            };
        publishing_keeps_owners(
            &published,
            &dropped,
            owner,
            before.mutex(lock).waiters.top(),
            dropped.mutex(lock).waiters.top(),
            None,
            now_ns,
            by,
            outcome,
        );
        assert(owners_kept(&dropped, before));
        assert(owners_kept(after, &published));
    }
}

/// A thread gets a mutex at once if and only if nobody owns it and nobody
/// waits for it; then it is the owner.
pub proof fn free_mutexes_are_taken(before: &TaskSystem, after: &TaskSystem, lock: PiMutexId, waiter: ThreadId, sequence: u64, now_ns: u64, by: CpuId, result: Result<PiMutexLockResult, TaskError>)
    requires
        before.wf(),
        after.slowly_locked(before, lock, waiter, sequence, now_ns, by, result),
        can_own(waiter),
    ensures
        result == Ok::<PiMutexLockResult, TaskError>(PiMutexLockResult::Acquired) ==> before.mutex(
            lock,
        ).owner == 0 && before.entries(lock).len() == 0 && named_owner(after.mutex(lock).owner)
            == Some(waiter),
        result matches Ok(PiMutexLockResult::Waiting(token)) ==> token.thread == waiter
            && token.lock == lock && before.mutex(lock).owner != 0 && named_owner(
            before.mutex(lock).owner,
        ) != Some(waiter) && token.initial_owner == named_owner(before.mutex(lock).owner)
            && token.generation == (before.record(waiter)->0).pi.wait.generation + 1,
        before.has_mutex(lock) && before.mutex(lock).owner == 0 && before.entries(lock).len() == 0
            && before.record(waiter) is Some && !(before.record(waiter)->0).exiting
            && (before.record(waiter)->0).lifecycle != ThreadState::Exited && (before.record(
            waiter,
        )->0).pi.blocked_on is None && (before.record(waiter)->0).pi.donor is None ==> result
            == Ok::<PiMutexLockResult, TaskError>(PiMutexLockResult::Acquired),
{
    owner_word_round_trip(waiter, false);
    if before.record(waiter) is Some {
        assert(before.slots@[waiter.slot as int].wf_at(waiter.slot as int));
    }
}

/// A wait that would close a circle is refused: nobody may wait for a thread
/// that waits for it.
pub proof fn circles_of_waits_are_refused(
    before: &TaskSystem,
    after: &TaskSystem,
    current: ThreadId,
    lock: PiMutexId,
    top: ThreadId,
    left: nat,
    limit: usize,
    now_ns: u64,
    by: CpuId,
    result: Result<(), TaskError>,
)
    requires
        after.chain_walked(before, current, Some(lock), top, left, limit, now_ns, by, result),
        before.record(current) matches Some(record) && record.pi.blocked_on matches Some(
            registration,
        ) && (registration.lock == lock || named_owner(before.mutex(registration.lock).owner)
            == Some(top)),
    ensures
        result is Err,
{
}

/// A chain of waits that is longer than allowed is refused.
pub proof fn long_chains_are_refused(
    before: &TaskSystem,
    after: &TaskSystem,
    current: ThreadId,
    lock: PiMutexId,
    top: ThreadId,
    limit: usize,
    now_ns: u64,
    by: CpuId,
    result: Result<(), TaskError>,
)
    requires
        before.record(current) matches Some(record) && record.pi.blocked_on matches Some(
            registration,
        ) && named_owner(before.mutex(registration.lock).owner) is Some,
    ensures
        after.chain_walked(before, current, Some(lock), top, 1, limit, now_ns, by, result)
            ==> result is Err,
        after.chain_walked(before, current, Some(lock), top, 0, limit, now_ns, by, result)
            ==> result == Err::<(), TaskError>(TaskError::PiChainLimit { limit }),
{
    reveal_with_fuel(TaskSystem::chain_walked, 2);
}

} // verus!
