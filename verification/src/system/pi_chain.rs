//! Waiters of mutexes, and the chains of owners that they lend to.
use vstd::prelude::*;
use crate::error::TaskError;
use crate::ids::{CpuId, ThreadId};
use crate::system::pi_graph::{PiWaiterRekey, inheritance_keeps_donors, with_wait};
use crate::system::task_system::{TaskSystem, with_record};
use crate::thread::pi::PiWaitEntry;

verus! {

/// The keys of the first waiters differ.
pub open spec fn top_key_changes(old_top: Option<PiWaitEntry>, new_top: Option<PiWaitEntry>) -> bool {
    match (old_top, new_top) {
        (Some(from), Some(to)) => from.key != to.key,
        (None, None) => false,
        _ => true,
    }
}

impl TaskSystem {
    /// The wait of a thread that is first in line, or why there is none.
    pub open spec fn marker_of(&self, top: Option<PiWaitEntry>, rekey: Option<PiWaiterRekey>) -> Result<Option<(ThreadId, u64)>, TaskError> {
        match top {
            None => Ok(None),
            Some(entry) => match self.record(entry.donation.waiter) {
                None => Err(TaskError::InvalidPiState),
                Some(record) => if rekey is Some && rekey->0.waiter == record.id && (entry.key
                    == rekey->0.registration.key || entry.key == rekey->0.new_key) {
                    Ok(Some((record.id, rekey->0.registration.generation)))
                } else {
                    match record.pi.blocked_on {
                        Some(registration) => if registration.key == entry.key {
                            Ok(Some((record.id, registration.generation)))
                        } else {
                            Err(TaskError::InvalidPiState)
                        },
                        None => Err(TaskError::InvalidPiState),
                    }
                },
            },
        }
    }

    fn find_marker(&self, top: Option<PiWaitEntry>, rekey: Option<PiWaiterRekey>) -> (marker: Result<Option<(ThreadId, u64)>, TaskError>)
        requires
            self.wf(),
        ensures
            marker == self.marker_of(top, rekey),
            marker matches Ok(Some((thread, _))) ==> self.record(thread) is Some,
    {
        let entry = match top {
            Some(entry) => entry,
            None => {
                return Ok(None);
            },
        };
        let record = match self.thread_record(entry.donation.waiter) {
            Ok(record) => record,
            Err(_) => {
                return Err(TaskError::InvalidPiState);
            },
        };
        if let Some(rekey) = rekey {
            if rekey.waiter == record.id && (entry.key == rekey.registration.key || entry.key
                == rekey.new_key) {
                return Ok(Some((record.id, rekey.registration.generation)));
            }
        }
        match record.pi.blocked_on {
            Some(registration) => if registration.key == entry.key {
                Ok(Some((record.id, registration.generation)))
            } else {
                Err(TaskError::InvalidPiState)
            },
            None => Err(TaskError::InvalidPiState),
        }
    }

    /// Why the first waiter of a mutex cannot change.
    pub open spec fn top_mark_error(&self, old_top: Option<PiWaitEntry>, new_top: Option<PiWaitEntry>, rekey: Option<PiWaiterRekey>) -> Option<TaskError> {
        if !top_key_changes(old_top, new_top) {
            None
        } else {
            match (self.marker_of(old_top, rekey), self.marker_of(new_top, rekey)) {
                (Err(error), _) => Some(error),
                (_, Err(error)) => Some(error),
                (Ok(_), Ok(Some((thread, generation)))) => if (self.record(
                    thread,
                )->0).pi.wait.open(generation) {
                    None
                } else {
                    Some(TaskError::InvalidPiState)
                },
                (Ok(_), Ok(None)) => None,
            }
        }
    }

    /// A wait is no longer the first in line.
    pub open spec fn top_cleared(&self, before: &Self, marker: Option<(ThreadId, u64)>) -> bool {
        match marker {
            Some((thread, generation)) => {
                let record = before.record(thread)->0;
                self.only_thread(before, with_wait(record, record.pi.wait.without_top(generation)))
            },
            None => *self == *before,
        }
    }

    /// A wait is the first in line.
    pub open spec fn top_marked(&self, before: &Self, marker: Option<(ThreadId, u64)>) -> bool {
        match marker {
            Some((thread, generation)) => {
                let record = before.record(thread)->0;
                self.only_thread(
                    before,
                    with_wait(
                        record,
                        if record.pi.wait.open(generation) {
                            crate::thread::pi::PiWaitState {
                                top_generation: generation,
                                ..record.pi.wait
                            }
                        } else {
                            record.pi.wait
                        },
                    ),
                )
            },
            None => *self == *before,
        }
    }

    /// The system after the first waiter of a mutex changed.
    pub open spec fn top_published(
        &self,
        before: &Self,
        owner: Option<ThreadId>,
        old_top: Option<PiWaitEntry>,
        new_top: Option<PiWaitEntry>,
        rekey: Option<PiWaiterRekey>,
        now_ns: u64,
        by: CpuId,
        result: Result<(), TaskError>,
    ) -> bool {
        match before.top_mark_error(old_top, new_top, rekey) {
            Some(error) => result == Err::<(), TaskError>(error) && *self == *before,
            None => exists|lent: TaskSystem, outcome: Result<(), TaskError>|
                #[trigger] lent.lent_through(
                    before,
                    owner,
                    old_top,
                    new_top,
                    now_ns,
                    by,
                    outcome,
                ) && result == outcome && if outcome is Err {
                    *self == lent
                } else if top_key_changes(old_top, new_top) {
                    self.marks_moved(
                        &lent,
                        before.marker_of(old_top, rekey)->Ok_0,
                        before.marker_of(new_top, rekey)->Ok_0,
                    )
                } else {
                    *self == lent
                },
        }
    }

    /// One wait is no longer the first in line, another one is.
    #[verifier::opaque]
    pub open spec fn marks_moved(&self, before: &Self, from: Option<(ThreadId, u64)>, to: Option<(ThreadId, u64)>) -> bool {
        exists|cleared: TaskSystem|
            #[trigger] cleared.top_cleared(before, from) && self.top_marked(&cleared, to)
    }

    /// The owner of a mutex, if it has one, was lent to.
    #[verifier::opaque]
    pub open spec fn lent_through(
        &self,
        before: &Self,
        owner: Option<ThreadId>,
        old_top: Option<PiWaitEntry>,
        new_top: Option<PiWaitEntry>,
        now_ns: u64,
        by: CpuId,
        outcome: Result<(), TaskError>,
    ) -> bool {
        match owner {
            Some(owner) => self.lock_top_replaced(
                before,
                owner,
                old_top,
                new_top,
                now_ns,
                by,
                outcome,
            ),
            None => outcome == Ok::<(), TaskError>(()) && *self == *before,
        }
    }

    fn clear_top_of(&mut self, marker: Option<(ThreadId, u64)>)
        requires
            old(self).wf(),
            marker matches Some((thread, _)) ==> old(self).record(thread) is Some,
        ensures
            final(self).top_cleared(old(self), marker),
            final(self).keeps_graph(old(self)),
            final(self).wf(),
    {
        let ghost before = *self;
        if let Some((thread, generation)) = marker {
            let mut record = self.take_record(thread);
            record.pi.wait.clear_top(generation);
            self.put_record(record);
            proof {
                assert(self.slots@ =~= with_record(before.slots@, record));
            }
        }
    }

    fn mark_top_of(&mut self, marker: Option<(ThreadId, u64)>)
        requires
            old(self).wf(),
            marker matches Some((thread, _)) ==> old(self).record(thread) is Some,
        ensures
            final(self).top_marked(old(self), marker),
            final(self).keeps_graph(old(self)),
            final(self).wf(),
    {
        let ghost before = *self;
        if let Some((thread, generation)) = marker {
            let mut record = self.take_record(thread);
            let _ = record.pi.wait.mark_top(generation);
            self.put_record(record);
            proof {
                assert(self.slots@ =~= with_record(before.slots@, record));
            }
        }
    }

    /// Only what a thread inherits, from whom, and whether its wait comes first
    /// may differ.
    pub open spec fn keeps_graph(&self, before: &Self) -> bool {
        &&& self.cpus@.len() == before.cpus@.len()
        &&& self.mutexes@ == before.mutexes@
        &&& forall|thread: ThreadId|
            (#[trigger] self.record(thread)) is Some == before.record(thread) is Some
        &&& forall|thread: ThreadId|
            (#[trigger] self.record(thread)) is Some ==> (self.record(thread)->0).pi.blocked_on
                == (before.record(thread)->0).pi.blocked_on && (self.record(
                thread,
            )->0).lifecycle == (before.record(thread)->0).lifecycle
    }

    /// Finds the waits whose marks a change of the first waiter moves.
    fn find_markers(&self, old_top: Option<PiWaitEntry>, new_top: Option<PiWaitEntry>, rekey: Option<PiWaiterRekey>) -> (result: Result<(Option<(ThreadId, u64)>, Option<(ThreadId, u64)>), TaskError>)
        requires
            self.wf(),
            top_key_changes(old_top, new_top),
        ensures
            match self.top_mark_error(old_top, new_top, rekey) {
                Some(error) => result == Err::<(Option<(ThreadId, u64)>, Option<(ThreadId, u64)>), TaskError>(error),
                None => result == Ok::<_, TaskError>(
                    (
                        self.marker_of(old_top, rekey)->Ok_0,
                        self.marker_of(new_top, rekey)->Ok_0,
                    ),
                ),
            },
            result matches Ok((from, to)) ==> {
                &&& from matches Some((thread, _)) ==> self.record(thread) is Some
                &&& to matches Some((thread, _)) ==> self.record(thread) is Some
            },
    {
        let from = match self.find_marker(old_top, rekey) {
            Ok(marker) => marker,
            Err(error) => {
                return Err(error);
            },
        };
        let to = match self.find_marker(new_top, rekey) {
            Ok(marker) => marker,
            Err(error) => {
                return Err(error);
            },
        };
        if let Some((thread, generation)) = to {
            let open = match self.thread_record(thread) {
                Ok(record) => record.pi.wait.can_grant(generation),
                Err(_) => false,
            };
            if !open {
                return Err(TaskError::InvalidPiState);
            }
        }
        Ok((from, to))
    }

    /// Lends to the owner of a mutex, if it has one.
    fn lend_through(
        &mut self,
        owner: Option<ThreadId>,
        old_top: Option<PiWaitEntry>,
        new_top: Option<PiWaitEntry>,
        now_ns: u64,
        by: CpuId,
    ) -> (outcome: Result<(), TaskError>)
        requires
            old(self).wf(),
        ensures
            final(self).lent_through(old(self), owner, old_top, new_top, now_ns, by, outcome),
            final(self).keeps_graph(old(self)),
            final(self).wf(),
    {
        proof {
            reveal(TaskSystem::lent_through);
        }
        let ghost before = *self;
        match owner {
            Some(owner) => {
                let outcome = self.replace_owner_lock_top(owner, old_top, new_top, now_ns, by);
                proof {
                    replacing_keeps_graph(
                        self,
                        &before,
                        owner,
                        old_top,
                        new_top,
                        now_ns,
                        by,
                        outcome,
                    );
                }
                outcome
            },
            None => Ok(()),
        }
    }

    /// Takes the mark off one wait and puts it on another.
    fn move_marks(&mut self, from: Option<(ThreadId, u64)>, to: Option<(ThreadId, u64)>)
        requires
            old(self).wf(),
            from matches Some((thread, _)) ==> old(self).record(thread) is Some,
            to matches Some((thread, _)) ==> old(self).record(thread) is Some,
        ensures
            final(self).marks_moved(old(self), from, to),
            final(self).keeps_graph(old(self)),
            final(self).wf(),
    {
        self.clear_top_of(from);
        let ghost cleared = *self;
        self.mark_top_of(to);
        proof {
            assert(cleared.top_cleared(old(self), from) && self.top_marked(&cleared, to));
            reveal(TaskSystem::marks_moved);
        }
    }

    /// Lets the first waiter of a mutex change: its owner is lent to anew, and
    /// the waits are marked.
    pub(crate) fn publish_lock_top_change(
        &mut self,
        owner: Option<ThreadId>,
        old_top: Option<PiWaitEntry>,
        new_top: Option<PiWaitEntry>,
        rekey: Option<PiWaiterRekey>,
        now_ns: u64,
        by: CpuId,
    ) -> (result: Result<(), TaskError>)
        requires
            old(self).wf(),
        ensures
            final(self).top_published(
                old(self),
                owner,
                old_top,
                new_top,
                rekey,
                now_ns,
                by,
                result,
            ),
            final(self).keeps_graph(old(self)),
            final(self).wf(),
    {
        let ghost before = *self;
        let changes = match (old_top, new_top) {
            (Some(from), Some(to)) => from.key != to.key,
            (None, None) => false,
            _ => true,
        };
        if !changes {
            return self.lend_through(owner, old_top, new_top, now_ns, by);
        }
        let (from, to) = match self.find_markers(old_top, new_top, rekey) {
            Ok(markers) => markers,
            Err(error) => {
                return Err(error);
            },
        };
        let outcome = self.lend_through(owner, old_top, new_top, now_ns, by);
        let ghost lent = *self;
        assert(lent.lent_through(&before, owner, old_top, new_top, now_ns, by, outcome));
        if outcome.is_err() {
            return outcome;
        }
        self.move_marks(from, to);
        assert(self.marks_moved(
            &lent,
            before.marker_of(old_top, rekey)->Ok_0,
            before.marker_of(new_top, rekey)->Ok_0,
        ));
        outcome
    }
}

/// Lending to an owner leaves every wait and every mutex as it is.
pub proof fn replacing_keeps_graph(
    after: &TaskSystem,
    before: &TaskSystem,
    owner: ThreadId,
    old_top: Option<PiWaitEntry>,
    new_top: Option<PiWaitEntry>,
    now_ns: u64,
    by: CpuId,
    result: Result<(), TaskError>,
)
    requires
        before.wf(),
        after.lock_top_replaced(before, owner, old_top, new_top, now_ns, by, result),
    ensures
        after.keeps_graph(before),
{
    if before.top_change_error(owner, old_top, new_top) is None && !TaskSystem::same_top(
        &(before.record(owner)->0),
        old_top,
        new_top,
    ) {
        let top = TaskSystem::prospective_top(&(before.record(owner)->0), old_top, new_top);
        let entries = crate::system::pi_graph::exchanged(
            (before.record(owner)->0).pi.donors.entries@,
            old_top,
            new_top,
        );
        let (computed, outcome) = choose|computed: TaskSystem, outcome: Result<bool, TaskError>|
            #[trigger] computed.inheritance_computed(before, owner, top, now_ns, by, outcome)
                && match outcome {
                Err(error) => result == Err::<(), TaskError>(error) && *after == computed,
                Ok(_) => result == Ok::<(), TaskError>(()) && after.donors_exchanged(
                    &computed,
                    owner,
                    entries,
                ),
            };
        inheritance_keeps_donors(&computed, before, owner, top, now_ns, by, outcome);
        assert(before.slots@[owner.slot as int].wf_at(owner.slot as int));
        assert((computed.record(owner)->0).lifecycle == (before.record(owner)->0).lifecycle);
        assert((computed.record(owner)->0).id == owner);
        assert forall|thread: ThreadId| (#[trigger] after.record(thread)) is Some == before.record(
            thread,
        ) is Some by {
            if thread != owner {
                assert(computed.record(thread) == before.record(thread));
                if thread.slot == owner.slot {
                    assert(thread.generation != owner.generation);
                }
            }
        }
        assert forall|thread: ThreadId| (#[trigger] after.record(thread)) is Some implies (
        after.record(thread)->0).pi.blocked_on == (before.record(thread)->0).pi.blocked_on && (
        after.record(thread)->0).lifecycle == (before.record(thread)->0).lifecycle by {
            if thread != owner {
                assert(computed.record(thread) == before.record(thread));
                if thread.slot == owner.slot {
                    assert(thread.generation != owner.generation);
                }
            }
        }
    }
}

} // verus!
