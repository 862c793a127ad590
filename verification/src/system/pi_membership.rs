//! Waiting for a mutex and what is inherited from it leave every thread on one
//! run queue at most.
use vstd::prelude::*;
use crate::error::TaskError;
use crate::ids::{CpuId, ThreadId};
use crate::scheduler::run_queue::RunQueue;
use crate::scheduler::task::ActiveSchedulingState;
use crate::system::affinity::shown;
use crate::system::inherit::{InheritanceStep, heir, told_of_change};
use crate::system::membership::{
    elsewhere_kept, joined_only, members_kept, sound_after, sound_when_kept, sound_when_placed,
    waking_is_sound,
};
use crate::system::pi::rekeyed;
use crate::system::pi_chain::top_key_changes;
use crate::system::pi_graph::{PiWaiterRekey, donation_of, exchanged, waiting_for, with_wait};
use crate::system::pi_handoff::{granted_wait, owning_word};
use crate::system::pi_mutex::{PiLockStep, PiMutexLockResult, begun_wait, marked_word, quiet_word};
use crate::system::pi_waiters::PiWaiterRefresh;
use crate::system::restate::{SchedulePosition, can_restate, position_of, record_restated, restated};
use crate::system::task_system::{TaskSystem, ThreadSlot, with_queue, with_record};
use crate::thread::pi::{
    OWNER_HAS_WAITERS, PiDonation, PiMutexId, PiWaitEntry, PiWaitKey, PiWaitRegistration,
    PiWaitState, PiWaitToken, has_key, key_index, named_owner, word_of,
};
use crate::thread::record::ThreadRecord;
use crate::time::MonotonicInstant;

verus! {

/// Every record bears the name of its slot.
pub open spec fn named(slots: Seq<ThreadSlot>) -> bool {
    forall|i: int|
        0 <= i < slots.len() ==> ((#[trigger] slots[i]).record matches Some(record) ==> record.id
            == (ThreadId { slot: i as u32, generation: slots[i].generation }))
}

impl TaskSystem {
    /// Run queues, records and CPUs are in order.
    #[verifier::opaque]
    pub open spec fn orderly(&self) -> bool {
        &&& self.queues_sound()
        &&& named(self.slots@)
        &&& self.cpus@.len() <= u32::MAX
    }

    /// The same threads are known, and there are as many CPUs.
    pub open spec fn peopled_as(&self, before: &Self) -> bool {
        &&& self.cpus@.len() == before.cpus@.len()
        &&& forall|thread: ThreadId|
            (#[trigger] self.record(thread)) is Some == before.record(thread) is Some
    }
}

pub(crate) proof fn bears_its_name(system: &TaskSystem, thread: ThreadId)
    requires
        system.orderly(),
        system.record(thread) is Some,
    ensures
        (system.record(thread)->0).id == thread,
{
    reveal(TaskSystem::orderly);
}

/// A well-formed system with sound run queues is in order.
pub(crate) proof fn orderly_when_wf(system: &TaskSystem)
    requires
        system.wf(),
        system.queues_sound(),
    ensures
        system.orderly(),
{
    reveal(TaskSystem::orderly);
    assert forall|i: int| 0 <= i < system.slots@.len() implies ((
    #[trigger] system.slots@[i]).record matches Some(record) ==> record.id == (ThreadId {
        slot: i as u32,
        generation: system.slots@[i].generation,
    })) by {
        assert(system.slots@[i].wf_at(i));
    }
}

/// A record in place of another of the same thread keeps the names.
pub(crate) proof fn named_after(before: &TaskSystem, after: &TaskSystem, record: ThreadRecord)
    requires
        before.orderly(),
        before.record(record.id) is Some,
        after.slots@ == with_record(before.slots@, record),
        after.cpus@.len() == before.cpus@.len(),
    ensures
        named(after.slots@),
        after.record(record.id) == Some(record),
        after.peopled_as(before),
{
    reveal(TaskSystem::orderly);
    let id = record.id;
    assert(before.slots@[id.slot as int].generation == id.generation);
    assert forall|thread: ThreadId| (#[trigger] after.record(thread)) is Some == before.record(
        thread,
    ) is Some by {
        if thread.slot == id.slot && thread.generation != id.generation {
            assert(after.slots@[id.slot as int].generation == id.generation);
        }
    }
}

pub(crate) proof fn orderly_record(before: &TaskSystem, after: &TaskSystem, record: ThreadRecord)
    requires
        before.orderly(),
        before.record(record.id) matches Some(held) && held.placement.queued_on()
            == record.placement.queued_on(),
        after.slots@ == with_record(before.slots@, record),
        members_kept(after.cpus@, before.cpus@),
    ensures
        after.orderly(),
        after.record(record.id) == Some(record),
        after.peopled_as(before),
{
    reveal(TaskSystem::orderly);
    named_after(before, after, record);
    sound_when_placed(before, after, record);
}

pub(crate) proof fn orderly_kept(before: &TaskSystem, after: &TaskSystem)
    requires
        before.orderly(),
        after.slots@ == before.slots@,
        members_kept(after.cpus@, before.cpus@),
    ensures
        after.orderly(),
        after.peopled_as(before),
{
    reveal(TaskSystem::orderly);
    sound_when_kept(before, after);
}

/// Another scheduling state leaves a thread in its run queue.
pub(crate) proof fn restating_keeps(after: &RunQueue, before: &RunQueue, record: &ThreadRecord, position: SchedulePosition, active: ActiveSchedulingState)
    requires
        restated(after, before, record, position, active),
        can_restate(before, record, position, active),
    ensures
        joined_only(after.membership@, before.membership@, record.id),
        position == SchedulePosition::Resting ==> after.membership@ == before.membership@,
{
    reveal(can_restate);
    reveal(restated);
}

/// What a thread inherits leaves it where it is.
pub proof fn inheriting_is_sound(before: &TaskSystem, after: &TaskSystem, thread: ThreadId, top: Option<PiWaitEntry>, now_ns: u64, by: CpuId, result: Result<bool, TaskError>)
    requires
        before.orderly(),
        before.record(thread) is Some,
        after.inheritance_computed(before, thread, top, now_ns, by, result),
    ensures
        after.orderly(),
        after.peopled_as(before),
{
    reveal(TaskSystem::inheritance_computed);
    reveal(TaskSystem::orderly);
    let record = before.record(thread)->0;
    assert(before.slots@[thread.slot as int].record == Some(record));
    if let Some(owner) = record.placement.task_cpu {
        if before.has_cpu(owner) && before.online(owner) {
            let (settled, reschedule, step) = choose|
                settled: TaskSystem,
                reschedule: bool,
                step: InheritanceStep,
            |
                #[trigger] settled.charged_on(before, owner, now_ns, reschedule)
                    && #[trigger] settled.inheritance_step(thread, owner, top, now_ns, step)
                    && match step {
                    InheritanceStep::Refused(error) => result == Err::<bool, TaskError>(error)
                        && *after == settled,
                    InheritanceStep::Unchanged => result == Ok::<bool, TaskError>(false)
                        && *after == settled,
                    InheritanceStep::Change { update, next } => result == Ok::<bool, TaskError>(
                        true,
                    ) && after.inheritance_applied(&settled, thread, owner, update, next, by),
                };
            assert(members_kept(settled.cpus@, before.cpus@));
            orderly_kept(before, &settled);
            if let InheritanceStep::Change { update, next } = step {
                let inherits = heir(record, update);
                let position = position_of(&inherits, owner);
                let queue = choose|queue: RunQueue|
                    #[trigger] restated(
                        &queue,
                        &settled.cpu(owner).queue(),
                        &inherits,
                        position,
                        next,
                    ) && after.relinked(
                        &settled,
                        record_restated(inherits, position, next),
                        settled.cpus@.update(
                            owner.index as int,
                            told_of_change(
                                shown(with_queue(settled.cpu(owner), queue)),
                                position,
                                by,
                            ),
                        ),
                        settled.root_domain,
                    );
                restating_keeps(&queue, &settled.cpu(owner).queue(), &inherits, position, next);
                named_after(&settled, after, record_restated(inherits, position, next));
                if position == SchedulePosition::Resting {
                    assert(members_kept(after.cpus@, settled.cpus@));
                    sound_when_placed(&settled, after, record_restated(inherits, position, next));
                } else {
                    assert(elsewhere_kept(after.cpus@, settled.cpus@, owner));
                    sound_after(
                        &settled,
                        after,
                        owner,
                        record_restated(inherits, position, next),
                    );
                }
            }
        }
    }
}

proof fn replacing_top_is_sound(before: &TaskSystem, after: &TaskSystem, owner: ThreadId, old_top: Option<PiWaitEntry>, new_top: Option<PiWaitEntry>, now_ns: u64, by: CpuId, result: Result<(), TaskError>)
    requires
        before.orderly(),
        after.lock_top_replaced(before, owner, old_top, new_top, now_ns, by, result),
    ensures
        after.orderly(),
        after.peopled_as(before),
{
    if before.top_change_error(owner, old_top, new_top) is None {
        let record = before.record(owner)->0;
        if !TaskSystem::same_top(&record, old_top, new_top) {
            let top = TaskSystem::prospective_top(&record, old_top, new_top);
            let entries = exchanged(record.pi.donors.entries@, old_top, new_top);
            let (computed, outcome) = choose|computed: TaskSystem, outcome: Result<bool, TaskError>|
                #[trigger] computed.inheritance_computed(before, owner, top, now_ns, by, outcome)
                    && match outcome {
                    Err(error) => result == Err::<(), TaskError>(error) && *after == computed,
                    Ok(_) => result == Ok::<(), TaskError>(()) && after.donors_exchanged(
                        &computed,
                        owner,
                        entries,
                    ),
                };
            inheriting_is_sound(before, &computed, owner, top, now_ns, by, outcome);
            if outcome is Ok {
                assert(computed.record(owner) is Some);
                bears_its_name(&computed, owner);
                assert(members_kept(after.cpus@, computed.cpus@));
                orderly_record(&computed, after, after.record(owner)->0);
            }
        }
    }
}

proof fn noting_is_sound(before: &TaskSystem, after: &TaskSystem, thread: ThreadId, record: ThreadRecord)
    requires
        before.orderly(),
        before.record(thread) matches Some(held) && record.id == held.id && record.placement
            == held.placement,
        after.only_thread(before, record),
    ensures
        after.orderly(),
        after.peopled_as(before),
{
    assert(members_kept(after.cpus@, before.cpus@));
    bears_its_name(before, thread);
    orderly_record(before, after, record);
}

proof fn publishing_is_sound(
    before: &TaskSystem,
    after: &TaskSystem,
    owner: Option<ThreadId>,
    old_top: Option<PiWaitEntry>,
    new_top: Option<PiWaitEntry>,
    rekey: Option<PiWaiterRekey>,
    now_ns: u64,
    by: CpuId,
    result: Result<(), TaskError>,
)
    requires
        before.orderly(),
        after.top_published(before, owner, old_top, new_top, rekey, now_ns, by, result),
    ensures
        after.orderly(),
        after.peopled_as(before),
{
    reveal(TaskSystem::lent_through);
    if before.top_mark_error(old_top, new_top, rekey) is None {
        let (lent, outcome) = choose|lent: TaskSystem, outcome: Result<(), TaskError>|
            #[trigger] lent.lent_through(before, owner, old_top, new_top, now_ns, by, outcome)
                && result == outcome && if outcome is Err {
                *after == lent
            } else if top_key_changes(old_top, new_top) {
                after.marks_moved(
                    &lent,
                    before.marker_of(old_top, rekey)->Ok_0,
                    before.marker_of(new_top, rekey)->Ok_0,
                )
            } else {
                *after == lent
            };
        if let Some(owner) = owner {
            replacing_top_is_sound(before, &lent, owner, old_top, new_top, now_ns, by, outcome);
        }
        if outcome is Ok && top_key_changes(old_top, new_top) {
            let from = before.marker_of(old_top, rekey)->Ok_0;
            let to = before.marker_of(new_top, rekey)->Ok_0;
            if let Some(entry) = old_top {
                bears_its_name(before, entry.donation.waiter);
            }
            if let Some(entry) = new_top {
                bears_its_name(before, entry.donation.waiter);
            }
            if let Some((thread, _)) = from {
                assert(lent.record(thread) is Some == before.record(thread) is Some);
            }
            if let Some((thread, _)) = to {
                assert(lent.record(thread) is Some == before.record(thread) is Some);
            }
            moving_marks_is_sound(&lent, after, from, to);
        }
    }
}

proof fn moving_marks_is_sound(before: &TaskSystem, after: &TaskSystem, from: Option<(ThreadId, u64)>, to: Option<(ThreadId, u64)>)
    requires
        before.orderly(),
        from matches Some(marker) ==> before.record(marker.0) is Some,
        to matches Some(marker) ==> before.record(marker.0) is Some,
        after.marks_moved(before, from, to),
    ensures
        after.orderly(),
        after.peopled_as(before),
{
    reveal(TaskSystem::marks_moved);
    let cleared = choose|cleared: TaskSystem|
        #[trigger] cleared.top_cleared(before, from) && after.top_marked(&cleared, to);
    if let Some((thread, generation)) = from {
        let record = before.record(thread)->0;
        noting_is_sound(
            before,
            &cleared,
            thread,
            with_wait(record, record.pi.wait.without_top(generation)),
        );
    }
    if let Some((thread, generation)) = to {
        assert(cleared.record(thread) is Some == before.record(thread) is Some);
        let record = cleared.record(thread)->0;
        noting_is_sound(
            &cleared,
            after,
            thread,
            with_wait(
                record,
                if record.pi.wait.open(generation) {
                    PiWaitState {
                        top_generation: generation,
                        ..record.pi.wait
                    }
                } else {
                    record.pi.wait
                },
            ),
        );
    }
}

proof fn changing_mutex_is_sound(before: &TaskSystem, after: &TaskSystem, lock: PiMutexId, owner: u64, entries: Seq<PiWaitEntry>)
    requires
        before.orderly(),
        after.mutex_becomes(before, lock, owner, entries),
    ensures
        after.orderly(),
        after.peopled_as(before),
{
    assert(members_kept(after.cpus@, before.cpus@));
    orderly_kept(before, after);
}

proof fn inserting_is_sound(
    before: &TaskSystem,
    after: &TaskSystem,
    lock: PiMutexId,
    owner: Option<ThreadId>,
    waiter: ThreadId,
    registration: PiWaitRegistration,
    donation: PiDonation,
    now_ns: u64,
    by: CpuId,
    result: Result<(), TaskError>,
)
    requires
        before.orderly(),
        before.record(waiter) is Some,
        after.waiter_inserted(
            before,
            lock,
            owner,
            waiter,
            registration,
            donation,
            now_ns,
            by,
            result,
        ),
    ensures
        after.orderly(),
        after.peopled_as(before),
{
    if (before.record(waiter)->0).pi.blocked_on is None && !has_key(
        before.entries(lock),
        registration.key,
    ) {
        let (queued, published) = choose|queued: TaskSystem, published: TaskSystem|
            #[trigger] queued.waiter_queued(before, lock, waiter, registration, donation)
                && #[trigger] published.top_published(
                &queued,
                owner,
                before.mutex(lock).waiters.top(),
                queued.mutex(lock).waiters.top(),
                None,
                now_ns,
                by,
                result,
            ) && if result is Ok {
                *after == published
            } else {
                after.waiter_withdrawn(&published, lock, waiter, registration.key)
            };
        let entries = before.entries(lock).push(PiWaitEntry { key: registration.key, donation });
        let held = choose|held: TaskSystem|
            #[trigger] held.mutex_becomes(before, lock, before.mutex(lock).owner, entries)
                && queued.only_thread(
                &held,
                waiting_for(before.record(waiter)->0, Some(registration)),
            );
        changing_mutex_is_sound(before, &held, lock, before.mutex(lock).owner, entries);
        noting_is_sound(
            &held,
            &queued,
            waiter,
            waiting_for(before.record(waiter)->0, Some(registration)),
        );
        publishing_is_sound(
            &queued,
            &published,
            owner,
            before.mutex(lock).waiters.top(),
            queued.mutex(lock).waiters.top(),
            None,
            now_ns,
            by,
            result,
        );
        if result is Err {
            assert(queued.record(waiter) is Some == before.record(waiter) is Some);
            assert(published.record(waiter) is Some == queued.record(waiter) is Some);
            withdrawing_is_sound(&published, after, lock, waiter, registration);
        }
    }
}

proof fn withdrawing_is_sound(before: &TaskSystem, after: &TaskSystem, lock: PiMutexId, waiter: ThreadId, registration: PiWaitRegistration)
    requires
        before.orderly(),
        before.record(waiter) is Some,
        after.waiter_withdrawn(before, lock, waiter, registration.key),
    ensures
        after.orderly(),
        after.peopled_as(before),
{
    let entries = before.entries(lock).remove(
        key_index(before.entries(lock), registration.key),
    );
    let dropped = choose|dropped: TaskSystem|
        #[trigger] dropped.mutex_becomes(before, lock, before.mutex(lock).owner, entries)
            && after.only_thread(&dropped, waiting_for(before.record(waiter)->0, None));
    changing_mutex_is_sound(before, &dropped, lock, before.mutex(lock).owner, entries);
    noting_is_sound(&dropped, after, waiter, waiting_for(before.record(waiter)->0, None));
}

proof fn removing_is_sound(
    before: &TaskSystem,
    after: &TaskSystem,
    lock: PiMutexId,
    owner: Option<ThreadId>,
    waiter: ThreadId,
    generation: u64,
    now_ns: u64,
    by: CpuId,
    result: Result<PiWaitRegistration, TaskError>,
)
    requires
        before.orderly(),
        before.record(waiter) is Some,
        after.waiter_removed(before, lock, owner, waiter, generation, now_ns, by, result),
    ensures
        after.orderly(),
        after.peopled_as(before),
{
    if let Some(registration) = before.registered_wait(lock, waiter, generation) {
        let entries = before.entries(lock);
        let at = key_index(entries, registration.key);
        let (dropped, published, outcome) = choose|
            dropped: TaskSystem,
            published: TaskSystem,
            outcome: Result<(), TaskError>,
        |
            #[trigger] dropped.mutex_becomes(
                before,
                lock,
                before.mutex(lock).owner,
                entries.remove(at),
            ) && #[trigger] published.top_published(
                &dropped,
                owner,
                before.mutex(lock).waiters.top(),
                dropped.mutex(lock).waiters.top(),
                None,
                now_ns,
                by,
                outcome,
            ) && match outcome {
                Ok(_) => result == Ok::<PiWaitRegistration, TaskError>(registration)
                    && after.only_thread(
                    &published,
                    TaskSystem::wait_over(published.record(waiter)->0, generation),
                ),
                Err(error) => result == Err::<PiWaitRegistration, TaskError>(error)
                    && after.mutex_becomes(
                    &published,
                    lock,
                    published.mutex(lock).owner,
                    entries.remove(at).push(entries[at]),
                ),
            };
        changing_mutex_is_sound(
            before,
            &dropped,
            lock,
            before.mutex(lock).owner,
            entries.remove(at),
        );
        publishing_is_sound(
            &dropped,
            &published,
            owner,
            before.mutex(lock).waiters.top(),
            dropped.mutex(lock).waiters.top(),
            None,
            now_ns,
            by,
            outcome,
        );
        assert(dropped.record(waiter) is Some == before.record(waiter) is Some);
        assert(published.record(waiter) is Some == dropped.record(waiter) is Some);
        if outcome is Ok {
            noting_is_sound(
                &published,
                after,
                waiter,
                TaskSystem::wait_over(published.record(waiter)->0, generation),
            );
        } else {
            changing_mutex_is_sound(
                &published,
                after,
                lock,
                published.mutex(lock).owner,
                entries.remove(at).push(entries[at]),
            );
        }
    }
}

proof fn rekeying_is_sound(
    before: &TaskSystem,
    after: &TaskSystem,
    waiter: ThreadId,
    registration: PiWaitRegistration,
    now_ns: u64,
    by: CpuId,
    result: Result<PiWaiterRefresh, TaskError>,
)
    requires
        before.orderly(),
        before.record(waiter) is Some,
        after.waiter_rekeyed(before, waiter, registration, now_ns, by, result),
    ensures
        after.orderly(),
        after.peopled_as(before),
{
    let record = before.record(waiter)->0;
    let lock = registration.lock;
    let entries = before.entries(lock);
    let new_key = rekeyed(&record, registration);
    let owner = named_owner(before.mutex(lock).owner);
    let moves = TaskSystem::rekeyed_entries(
        entries,
        registration.key,
        PiWaitEntry { key: new_key, donation: donation_of(&record) },
    );
    let restores = TaskSystem::rekeyed_entries(
        entries,
        registration.key,
        entries[key_index(entries, registration.key)],
    );
    let rekey = Some(PiWaiterRekey { waiter, registration, new_key });
    let (moved, published, outcome) = choose|
        moved: TaskSystem,
        published: TaskSystem,
        outcome: Result<(), TaskError>,
    |
        #[trigger] moved.mutex_becomes(before, lock, before.mutex(lock).owner, moves)
            && #[trigger] published.top_published(
            &moved,
            owner,
            before.mutex(lock).waiters.top(),
            moved.mutex(lock).waiters.top(),
            rekey,
            now_ns,
            by,
            outcome,
        ) && match outcome {
            Ok(_) => result == Ok::<PiWaiterRefresh, TaskError>(
                PiWaiterRefresh { owner, changed: true },
            ) && after.only_thread(
                &published,
                waiting_for(
                    published.record(waiter)->0,
                    Some(PiWaitRegistration { key: new_key, ..registration }),
                ),
            ),
            Err(error) => result == Err::<PiWaiterRefresh, TaskError>(error)
                && after.mutex_becomes(
                &published,
                lock,
                published.mutex(lock).owner,
                restores,
            ),
        };
    changing_mutex_is_sound(before, &moved, lock, before.mutex(lock).owner, moves);
    publishing_is_sound(
        &moved,
        &published,
        owner,
        before.mutex(lock).waiters.top(),
        moved.mutex(lock).waiters.top(),
        rekey,
        now_ns,
        by,
        outcome,
    );
    assert(moved.record(waiter) is Some == before.record(waiter) is Some);
    assert(published.record(waiter) is Some == moved.record(waiter) is Some);
    if outcome is Ok {
        noting_is_sound(
            &published,
            after,
            waiter,
            waiting_for(
                published.record(waiter)->0,
                Some(PiWaitRegistration { key: new_key, ..registration }),
            ),
        );
    } else {
        changing_mutex_is_sound(&published, after, lock, published.mutex(lock).owner, restores);
    }
}

/// A new place among the waiters of a mutex leaves every thread on one run
/// queue at most.
pub proof fn refreshing_is_sound(before: &TaskSystem, after: &TaskSystem, waiter: ThreadId, now_ns: u64, by: CpuId, result: Result<PiWaiterRefresh, TaskError>)
    requires
        before.orderly(),
        before.record(waiter) is Some,
        after.waiter_refreshed(before, waiter, now_ns, by, result),
    ensures
        after.orderly(),
        after.peopled_as(before),
{
    if *after != *before {
        let registration = (before.record(waiter)->0).pi.blocked_on->0;
        rekeying_is_sound(before, after, waiter, registration, now_ns, by, result);
    }
}

/// What is inherited along a chain of waits leaves every thread on one run
/// queue at most.
pub proof fn walking_is_sound(
    before: &TaskSystem,
    after: &TaskSystem,
    current: ThreadId,
    origin: Option<PiMutexId>,
    top: ThreadId,
    left: nat,
    limit: usize,
    now_ns: u64,
    by: CpuId,
    result: Result<(), TaskError>,
)
    requires
        before.orderly(),
        after.chain_walked(before, current, origin, top, left, limit, now_ns, by, result),
    ensures
        after.orderly(),
        after.peopled_as(before),
    decreases left,
{
    if *after != *before {
        let (mid, refresh) = choose|mid: TaskSystem, refresh: Result<PiWaiterRefresh, TaskError>|
            #[trigger] mid.waiter_refreshed(before, current, now_ns, by, refresh) && match refresh {
                Err(error) => result == Err::<(), TaskError>(error) && *after == mid,
                Ok(step) => match step.owner {
                    None => result == Ok::<(), TaskError>(()) && *after == mid,
                    Some(owner) => if !step.changed && origin is None {
                        result == Ok::<(), TaskError>(()) && *after == mid
                    } else if owner == top {
                        result == Err::<(), TaskError>(TaskError::PiCycle) && *after == mid
                    } else if left == 1 {
                        result == Err::<(), TaskError>(TaskError::PiChainLimit { limit })
                            && *after == mid
                    } else {
                        after.chain_walked(
                            &mid,
                            owner,
                            origin,
                            top,
                            (left - 1) as nat,
                            limit,
                            now_ns,
                            by,
                            result,
                        )
                    },
                },
            };
        refreshing_is_sound(before, &mid, current, now_ns, by, refresh);
        if let Ok(step) = refresh {
            if let Some(owner) = step.owner {
                if !(!step.changed && origin is None) && owner != top && left != 1 {
                    walking_is_sound(
                        &mid,
                        after,
                        owner,
                        origin,
                        top,
                        (left - 1) as nat,
                        limit,
                        now_ns,
                        by,
                        result,
                    );
                    assert(after.peopled_as(before)) by {
                        assert forall|thread: ThreadId| (#[trigger] after.record(thread)) is Some
                            == before.record(thread) is Some by {
                            assert(mid.record(thread) is Some == before.record(thread) is Some);
                        }
                    }
                }
            }
        }
    }
}

proof fn unregistering_is_sound(
    before: &TaskSystem,
    after: &TaskSystem,
    lock: PiMutexId,
    waiter: ThreadId,
    generation: u64,
    keep_selected: bool,
    now_ns: u64,
    by: CpuId,
    result: Result<Option<ThreadId>, TaskError>,
)
    requires
        before.orderly(),
        after.waiter_unregistered(
            before,
            lock,
            waiter,
            generation,
            keep_selected,
            now_ns,
            by,
            result,
        ),
    ensures
        after.orderly(),
        after.peopled_as(before),
{
    let owner = named_owner(before.mutex(lock).owner);
    if !before.unregister_error(lock, waiter, generation, keep_selected) {
        let (removed, outcome) = choose|
            removed: TaskSystem,
            outcome: Result<PiWaitRegistration, TaskError>,
        |
            #[trigger] removed.waiter_removed(
                before,
                lock,
                owner,
                waiter,
                generation,
                now_ns,
                by,
                outcome,
            ) && match outcome {
                Err(error) => result == Err::<Option<ThreadId>, TaskError>(error) && *after
                    == removed,
                Ok(_) => result == Ok::<Option<ThreadId>, TaskError>(owner)
                    && if removed.entries(lock).len() == 0 {
                    after.mutex_becomes(
                        &removed,
                        lock,
                        quiet_word(owner),
                        removed.entries(lock),
                    )
                } else {
                    *after == removed
                },
            };
        removing_is_sound(before, &removed, lock, owner, waiter, generation, now_ns, by, outcome);
        if outcome is Ok && removed.entries(lock).len() == 0 {
            changing_mutex_is_sound(
                &removed,
                after,
                lock,
                quiet_word(owner),
                removed.entries(lock),
            );
            peopled_through(before, &removed, after);
        }
    }
}

pub(crate) proof fn peopled_through(before: &TaskSystem, mid: &TaskSystem, after: &TaskSystem)
    requires
        mid.peopled_as(before),
        after.peopled_as(mid),
    ensures
        after.peopled_as(before),
{
    assert forall|thread: ThreadId| (#[trigger] after.record(thread)) is Some == before.record(
        thread,
    ) is Some by {
        assert(mid.record(thread) is Some == before.record(thread) is Some);
    }
}

pub(crate) proof fn cleaning_is_sound(before: &TaskSystem, after: &TaskSystem, start: ThreadId, top: ThreadId, now_ns: u64, by: CpuId, result: Result<(), TaskError>)
    requires
        before.orderly(),
        after.chain_cleaned(before, start, top, now_ns, by, result),
    ensures
        after.orderly(),
        after.peopled_as(before),
{
    walking_is_sound(
        before,
        after,
        start,
        None,
        top,
        before.config.thread_capacity as nat,
        before.config.thread_capacity,
        now_ns,
        by,
        result,
    );
}

/// A wait that is given up leaves every thread on one run queue at most.
pub proof fn cancelling_is_sound(before: &TaskSystem, after: &TaskSystem, token: PiWaitToken, now_ns: u64, by: CpuId, result: Result<(), TaskError>)
    requires
        before.orderly(),
        after.wait_cancelled(before, token, now_ns, by, result),
    ensures
        after.orderly(),
{
    let (left, outcome) = choose|left: TaskSystem, outcome: Result<Option<ThreadId>, TaskError>|
        #[trigger] left.waiter_unregistered(
            before,
            token.lock,
            token.thread,
            token.generation,
            true,
            now_ns,
            by,
            outcome,
        ) && match outcome {
            Err(error) => result == Err::<(), TaskError>(error) && *after == left,
            Ok(None) => result == Ok::<(), TaskError>(()) && *after == left,
            Ok(Some(owner)) => after.chain_cleaned(
                &left,
                owner,
                token.thread,
                now_ns,
                by,
                result,
            ),
        };
    unregistering_is_sound(
        before,
        &left,
        token.lock,
        token.thread,
        token.generation,
        true,
        now_ns,
        by,
        outcome,
    );
    if let Ok(Some(owner)) = outcome {
        cleaning_is_sound(&left, after, owner, token.thread, now_ns, by, result);
    }
}

proof fn rolling_back_is_sound(before: &TaskSystem, after: &TaskSystem, lock: PiMutexId, waiter: ThreadId, generation: u64, now_ns: u64, by: CpuId)
    requires
        before.orderly(),
        after.wait_rolled_back(before, lock, waiter, generation, now_ns, by),
    ensures
        after.orderly(),
{
    let (left, outcome) = choose|left: TaskSystem, outcome: Result<Option<ThreadId>, TaskError>|
        #[trigger] left.waiter_unregistered(
            before,
            lock,
            waiter,
            generation,
            false,
            now_ns,
            by,
            outcome,
        ) && match outcome {
            Ok(Some(owner)) => exists|cleaned: Result<(), TaskError>|
                #[trigger] after.chain_cleaned(&left, owner, waiter, now_ns, by, cleaned),
            _ => *after == left,
        };
    unregistering_is_sound(before, &left, lock, waiter, generation, false, now_ns, by, outcome);
    if let Ok(Some(owner)) = outcome {
        let cleaned = choose|cleaned: Result<(), TaskError>|
            #[trigger] after.chain_cleaned(&left, owner, waiter, now_ns, by, cleaned);
        cleaning_is_sound(&left, after, owner, waiter, now_ns, by, cleaned);
    }
}

proof fn chaining_is_sound(before: &TaskSystem, after: &TaskSystem, lock: PiMutexId, owner: Option<ThreadId>, waiter: ThreadId, generation: u64, now_ns: u64, by: CpuId, result: Result<(), TaskError>)
    requires
        before.orderly(),
        after.lock_chained(before, lock, owner, waiter, generation, now_ns, by, result),
    ensures
        after.orderly(),
{
    if let Some(owner) = owner {
        let walked = choose|walked: TaskSystem|
            #[trigger] walked.chain_walked(
                before,
                owner,
                Some(lock),
                waiter,
                before.config.pi_chain_limit as nat,
                before.config.pi_chain_limit,
                now_ns,
                by,
                result,
            ) && if result is Ok {
                *after == walked
            } else {
                after.wait_rolled_back(&walked, lock, waiter, generation, now_ns, by)
            };
        walking_is_sound(
            before,
            &walked,
            owner,
            Some(lock),
            waiter,
            before.config.pi_chain_limit as nat,
            before.config.pi_chain_limit,
            now_ns,
            by,
            result,
        );
        if result is Err {
            rolling_back_is_sound(&walked, after, lock, waiter, generation, now_ns, by);
        }
    }
}

proof fn queueing_is_sound(
    before: &TaskSystem,
    after: &TaskSystem,
    lock: PiMutexId,
    owner: Option<ThreadId>,
    waiter: ThreadId,
    registration: PiWaitRegistration,
    donation: PiDonation,
    now_ns: u64,
    by: CpuId,
    result: Result<(), TaskError>,
)
    requires
        before.orderly(),
        before.record(waiter) is Some,
        after.lock_queued(
            before,
            lock,
            owner,
            waiter,
            registration,
            donation,
            now_ns,
            by,
            result,
        ),
    ensures
        after.orderly(),
{
    let tried = choose|tried: TaskSystem|
        #[trigger] tried.waiter_inserted(
            before,
            lock,
            owner,
            waiter,
            registration,
            donation,
            now_ns,
            by,
            result,
        ) && if result is Err && tried.entries(lock).len() == 0 {
            after.mutex_becomes(&tried, lock, quiet_word(owner), tried.entries(lock))
        } else {
            *after == tried
        };
    inserting_is_sound(
        before,
        &tried,
        lock,
        owner,
        waiter,
        registration,
        donation,
        now_ns,
        by,
        result,
    );
    if result is Err && tried.entries(lock).len() == 0 {
        changing_mutex_is_sound(&tried, after, lock, quiet_word(owner), tried.entries(lock));
    }
}

proof fn beginning_is_sound(before: &TaskSystem, after: &TaskSystem, lock: PiMutexId, waiter: ThreadId)
    requires
        before.orderly(),
        before.record(waiter) is Some,
        after.wait_begun(before, lock, waiter),
    ensures
        after.orderly(),
        after.peopled_as(before),
{
    let record = before.record(waiter)->0;
    let word = marked_word(before.mutex(lock).owner);
    let marked = choose|marked: TaskSystem|
        #[trigger] marked.mutex_becomes(before, lock, word, before.entries(lock))
            && after.only_thread(&marked, with_wait(record, begun_wait(record.pi.wait)));
    changing_mutex_is_sound(before, &marked, lock, word, before.entries(lock));
    noting_is_sound(&marked, after, waiter, with_wait(record, begun_wait(record.pi.wait)));
    peopled_through(before, &marked, after);
}

/// An attempt to take a mutex leaves every thread on one run queue at most.
pub proof fn locking_is_sound(before: &TaskSystem, after: &TaskSystem, lock: PiMutexId, waiter: ThreadId, sequence: u64, now_ns: u64, by: CpuId, result: Result<PiMutexLockResult, TaskError>)
    requires
        before.orderly(),
        after.slowly_locked(before, lock, waiter, sequence, now_ns, by, result),
    ensures
        after.orderly(),
{
    match before.lock_step(lock, waiter) {
        PiLockStep::Refused(_) => {},
        PiLockStep::Acquire => {
            changing_mutex_is_sound(
                before,
                after,
                lock,
                word_of(waiter, false) as u64,
                before.entries(lock),
            );
        },
        PiLockStep::Wait { owner } => {
            let record = before.record(waiter)->0;
            let generation = (record.pi.wait.generation + 1) as u64;
            let registration = PiWaitRegistration {
                lock,
                key: PiWaitKey {
                    urgency: record.policy.urgency,
                    sequence,
                    thread: waiter,
                },
                generation,
            };
            let donation = donation_of(&record);
            let (begun, queued, entered) = choose|
                begun: TaskSystem,
                queued: TaskSystem,
                entered: Result<(), TaskError>,
            |
                #[trigger] begun.wait_begun(before, lock, waiter) && #[trigger] queued.lock_queued(
                    &begun,
                    lock,
                    owner,
                    waiter,
                    registration,
                    donation,
                    now_ns,
                    by,
                    entered,
                ) && match entered {
                    Err(error) => result == Err::<PiMutexLockResult, TaskError>(error) && *after
                        == queued,
                    Ok(_) => exists|followed: Result<(), TaskError>|
                        #[trigger] after.lock_chained(
                            &queued,
                            lock,
                            owner,
                            waiter,
                            generation,
                            now_ns,
                            by,
                            followed,
                        ),
                };
            beginning_is_sound(before, &begun, lock, waiter);
            assert(begun.record(waiter) is Some == before.record(waiter) is Some);
            queueing_is_sound(
                &begun,
                &queued,
                lock,
                owner,
                waiter,
                registration,
                donation,
                now_ns,
                by,
                entered,
            );
            if entered is Ok {
                let followed = choose|followed: Result<(), TaskError>|
                    #[trigger] after.lock_chained(
                        &queued,
                        lock,
                        owner,
                        waiter,
                        generation,
                        now_ns,
                        by,
                        followed,
                    );
                chaining_is_sound(
                    &queued,
                    after,
                    lock,
                    owner,
                    waiter,
                    generation,
                    now_ns,
                    by,
                    followed,
                );
            }
        },
    }
}

/// A mutex that is handed on leaves every thread on one run queue at most.
pub proof fn releasing_is_sound(before: &TaskSystem, after: &TaskSystem, lock: PiMutexId, owner: ThreadId, now_ns: u64, monotonic_now: MonotonicInstant, by: CpuId, result: Result<(), TaskError>)
    requires
        before.orderly(),
        after.mutex_released(before, lock, owner, now_ns, monotonic_now, by, result),
    ensures
        after.queues_sound(),
{
    reveal(TaskSystem::orderly);
    if let Ok(entry) = before.release_choice(lock, owner) {
        let (returned, outcome) = choose|returned: TaskSystem, outcome: Result<(), TaskError>|
            #[trigger] returned.lock_top_replaced(
                before,
                owner,
                Some(entry),
                None,
                now_ns,
                by,
                outcome,
            ) && match outcome {
                Err(error) => result == Err::<(), TaskError>(error) && *after == returned,
                Ok(_) => exists|freed: TaskSystem, cleaned: TaskSystem, walk: Result<(), TaskError>|
                    #[trigger] freed.mutex_becomes(
                        &returned,
                        lock,
                        OWNER_HAS_WAITERS,
                        returned.entries(lock),
                    ) && #[trigger] cleaned.chain_cleaned(
                        &freed,
                        owner,
                        entry.donation.waiter,
                        now_ns,
                        by,
                        walk,
                    ) && cleaned.wf() && after.woken(
                        &cleaned,
                        entry.donation.waiter,
                        None,
                        by,
                        now_ns,
                        monotonic_now,
                    ),
            };
        replacing_top_is_sound(before, &returned, owner, Some(entry), None, now_ns, by, outcome);
        if outcome is Ok {
            let (freed, cleaned, walk) = choose|
                freed: TaskSystem,
                cleaned: TaskSystem,
                walk: Result<(), TaskError>,
            |
                #[trigger] freed.mutex_becomes(
                    &returned,
                    lock,
                    OWNER_HAS_WAITERS,
                    returned.entries(lock),
                ) && #[trigger] cleaned.chain_cleaned(
                    &freed,
                    owner,
                    entry.donation.waiter,
                    now_ns,
                    by,
                    walk,
                ) && cleaned.wf() && after.woken(
                    &cleaned,
                    entry.donation.waiter,
                    None,
                    by,
                    now_ns,
                    monotonic_now,
                );
            changing_mutex_is_sound(
                &returned,
                &freed,
                lock,
                OWNER_HAS_WAITERS,
                returned.entries(lock),
            );
            cleaning_is_sound(&freed, &cleaned, owner, entry.donation.waiter, now_ns, by, walk);
            waking_is_sound(
                &cleaned,
                after,
                entry.donation.waiter,
                None,
                by,
                now_ns,
                monotonic_now,
            );
        }
    }
}

/// A waiter that takes over a mutex leaves every thread on one run queue at
/// most.
pub proof fn claiming_is_sound(before: &TaskSystem, after: &TaskSystem, token: PiWaitToken, now_ns: u64, by: CpuId, result: Result<(), TaskError>)
    requires
        before.orderly(),
        after.mutex_claimed(before, token, now_ns, by, result),
    ensures
        after.orderly(),
{
    if before.can_claim(token) {
        let (left, outcome) = choose|left: TaskSystem, outcome: Result<PiWaitRegistration, TaskError>|
            #[trigger] left.waiter_removed(
                before,
                token.lock,
                None,
                token.thread,
                token.generation,
                now_ns,
                by,
                outcome,
            ) && match outcome {
                Err(error) => result == Err::<(), TaskError>(error) && *after == left,
                Ok(_) => result == Ok::<(), TaskError>(()) && after.ownership_taken(
                    &left,
                    token,
                    now_ns,
                    by,
                ),
            };
        removing_is_sound(
            before,
            &left,
            token.lock,
            None,
            token.thread,
            token.generation,
            now_ns,
            by,
            outcome,
        );
        if outcome is Ok {
            assert(left.record(token.thread) is Some == before.record(token.thread) is Some);
            taking_over_is_sound(&left, after, token, now_ns, by);
        }
    }
}

proof fn taking_over_is_sound(before: &TaskSystem, after: &TaskSystem, token: PiWaitToken, now_ns: u64, by: CpuId)
    requires
        before.orderly(),
        before.record(token.thread) is Some,
        after.ownership_taken(before, token, now_ns, by),
    ensures
        after.orderly(),
{
    let lock = token.lock;
    let top = before.mutex(lock).waiters.top();
    let word = owning_word(token.thread, before.entries(lock));
    let (lent, titled, granted, loan, walk) = choose|
        lent: TaskSystem,
        titled: TaskSystem,
        granted: TaskSystem,
        loan: Result<(), TaskError>,
        walk: Result<(), TaskError>,
    |
        #[trigger] lent.lent_to(before, token.thread, top, now_ns, by, loan)
            && #[trigger] titled.mutex_becomes(&lent, lock, word, before.entries(lock))
            && #[trigger] granted.only_thread(
            &titled,
            with_wait(
                titled.record(token.thread)->0,
                granted_wait(
                    (titled.record(token.thread)->0).pi.wait,
                    token.generation,
                ),
            ),
        ) && #[trigger] after.chain_cleaned(
            &granted,
            token.thread,
            token.thread,
            now_ns,
            by,
            walk,
        );
    if top is Some {
        replacing_top_is_sound(before, &lent, token.thread, None, top, now_ns, by, loan);
    }
    assert(lent.record(token.thread) is Some == before.record(token.thread) is Some);
    changing_mutex_is_sound(&lent, &titled, lock, word, before.entries(lock));
    assert(titled.record(token.thread) is Some == lent.record(token.thread) is Some);
    let record = titled.record(token.thread)->0;
    noting_is_sound(
        &titled,
        &granted,
        token.thread,
        with_wait(
            record,
            granted_wait(record.pi.wait, token.generation),
        ),
    );
    cleaning_is_sound(&granted, after, token.thread, token.thread, now_ns, by, walk);
}

} // verus!
