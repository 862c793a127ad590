//! What a scan for threads that may leave a CPU offers as a whole.
use vstd::prelude::*;
use crate::ids::ThreadId;
use crate::scheduler::balance::{marked, movable, none_movable};
use crate::scheduler::entity::{EnqueueReason, FairEntity};
use crate::scheduler::run_queue::{QueueMembershipClass, RunQueue};
use crate::scheduler::task::{QueuedThread, QueuedThreadSnapshot, holds, index_of};

verus! {

/// The classes whose threads a scan offers, in the order in which it does.
pub open spec fn scan_rank(class: QueueMembershipClass) -> int {
    match class {
        QueueMembershipClass::Deadline => 0,
        QueueMembershipClass::Realtime(_) => 1,
        QueueMembershipClass::Fair => 2,
        _ => 3,
    }
}

/// Whether a caller's test gives every thread one answer.
pub open spec fn decides<F: Fn(&QueuedThread) -> bool>(may_migrate: F) -> bool {
    forall|thread: QueuedThread|
        !(#[trigger] call_ensures(may_migrate, (&thread,), true) && call_ensures(
            may_migrate,
            (&thread,),
            false,
        ))
}

impl RunQueue {
    /// No thread bears the mark of a scan that has not begun.
    pub open spec fn marks_in_step(&self) -> bool {
        forall|class: QueueMembershipClass, i: int|
            class.valid() && 0 <= i < self.list_of(class).len() ==> (#[trigger] self.list_of(
                class,
            )[i]).balance_scan_epoch <= self.balance_scan_epoch
    }
}

/// A run of offers of one scan: `states[i + 1]` is `states[i]` after it offered
/// `offered[i]`.
pub open spec fn scan<F: Fn(&QueuedThread) -> bool>(
    states: Seq<RunQueue>,
    offered: Seq<QueuedThreadSnapshot>,
    may_migrate: F,
    epoch: u64,
) -> bool {
    &&& states.len() == offered.len() + 1
    &&& forall|i: int| 0 <= i < states.len() ==> (#[trigger] states[i]).wf()
    &&& forall|i: int|
        0 <= i < offered.len() ==> #[trigger] offers_at(states, offered, may_migrate, epoch, i)
}

pub open spec fn offers_at<F: Fn(&QueuedThread) -> bool>(
    states: Seq<RunQueue>,
    offered: Seq<QueuedThreadSnapshot>,
    may_migrate: F,
    epoch: u64,
    i: int,
) -> bool {
    states[i + 1].offers(&states[i], may_migrate, epoch, Some(offered[i]))
}

/// Where the thread stands that a run queue offers next.
pub open spec fn offer_place<F: Fn(&QueuedThread) -> bool>(
    after: RunQueue,
    before: RunQueue,
    may_migrate: F,
    epoch: u64,
    offer: QueuedThreadSnapshot,
    class: QueueMembershipClass,
    at: int,
) -> bool {
    let list = before.list_of(class);
    &&& before.is_next_candidate(may_migrate, epoch, class, at)
    &&& class.valid()
    &&& offer == list[at].snapshot()
    &&& after.list_of(class) == list.update(at, marked(list[at], epoch))
    &&& after.only_list_changed(&before, class)
}

proof fn place_of<F: Fn(&QueuedThread) -> bool>(states: Seq<RunQueue>, offered: Seq<QueuedThreadSnapshot>, may_migrate: F, epoch: u64, i: int) -> (place: (QueueMembershipClass, int))
    requires
        scan(states, offered, may_migrate, epoch),
        0 <= i < offered.len(),
    ensures
        offer_place(states[i + 1], states[i], may_migrate, epoch, offered[i], place.0, place.1),
        scan_rank(place.0) < 3,
        0 <= place.1 < states[i].list_of(place.0).len(),
        states[i + 1].membership@ == states[i].membership@,
        states[i + 1].current == states[i].current,
        states[i + 1].nr_running == states[i].nr_running,
        states[i + 1].linked() == states[i].linked(),
{
    assert(offers_at(states, offered, may_migrate, epoch, i));
    let (class, at) = choose|class: QueueMembershipClass, at: int|
        #[trigger] states[i].is_next_candidate(may_migrate, epoch, class, at) && offer_place(
            states[i + 1],
            states[i],
            may_migrate,
            epoch,
            offered[i],
            class,
            at,
        );
    (class, at)
}

/// A record of a scan is what it was, or it is that with the mark of the scan.
pub open spec fn touched(after: QueuedThread, before: QueuedThread, epoch: u64) -> bool {
    after == before || after == marked(before, epoch)
}

/// In a scan every record stays in its place, and all that changes is its mark.
proof fn records_stay<F: Fn(&QueuedThread) -> bool>(states: Seq<RunQueue>, offered: Seq<QueuedThreadSnapshot>, may_migrate: F, epoch: u64, i: int, j: int, class: QueueMembershipClass, at: int)
    requires
        scan(states, offered, may_migrate, epoch),
        0 <= i <= j < states.len(),
        class.valid(),
    ensures
        states[j].list_of(class).len() == states[i].list_of(class).len(),
        states[j].linked() == states[i].linked(),
        states[j].membership@ == states[i].membership@,
        states[j].nr_running == states[i].nr_running,
        0 <= at < states[i].list_of(class).len() ==> touched(
            states[j].list_of(class)[at],
            states[i].list_of(class)[at],
            epoch,
        ),
    decreases j - i,
{
    if i < j {
        records_stay(states, offered, may_migrate, epoch, i, j - 1, class, at);
        let place = place_of(states, offered, may_migrate, epoch, j - 1);
        if class != place.0 {
            assert(states[j].list_of(class) == states[j - 1].list_of(class));
        }
    }
}

/// The records of one thread stand in one place.
proof fn one_place(queue: RunQueue, a: QueueMembershipClass, i: int, b: QueueMembershipClass, j: int)
    requires
        queue.wf(),
        a.valid(),
        b.valid(),
        0 <= i < queue.list_of(a).len(),
        0 <= j < queue.list_of(b).len(),
        queue.list_of(a)[i].id == queue.list_of(b)[j].id,
    ensures
        a == b,
        i == j,
{
    assert(queue.record_ok(a, i));
    assert(queue.record_ok(b, j));
    queue.lists_are_distinct(a);
}

/// A scan offers no thread twice.
pub proof fn scans_do_not_repeat<F: Fn(&QueuedThread) -> bool>(states: Seq<RunQueue>, offered: Seq<QueuedThreadSnapshot>, may_migrate: F, epoch: u64, i: int, j: int)
    requires
        scan(states, offered, may_migrate, epoch),
        0 <= i < j < offered.len(),
    ensures
        offered[i].id != offered[j].id,
{
    let first = place_of(states, offered, may_migrate, epoch, i);
    let second = place_of(states, offered, may_migrate, epoch, j);
    records_stay(states, offered, may_migrate, epoch, i + 1, j, first.0, first.1);
    if offered[i].id == offered[j].id {
        one_place(states[j], first.0, first.1, second.0, second.1);
    }
}

/// What a scan offers waits in the Deadline, a real-time or the fair class, is
/// not what the CPU runs, and is accepted by the caller's test.
pub proof fn scans_offer_what_may_leave<F: Fn(&QueuedThread) -> bool>(states: Seq<RunQueue>, offered: Seq<QueuedThreadSnapshot>, may_migrate: F, epoch: u64, i: int)
    requires
        scan(states, offered, may_migrate, epoch),
        0 <= i < offered.len(),
    ensures
        exists|class: QueueMembershipClass|
            scan_rank(class) < 3 && class.valid() && holds(
                #[trigger] states[0].list_of(class),
                offered[i].id,
            ),
        states[0].linked() != Some(offered[i].id),
        exists|thread: QueuedThread|
            #[trigger] call_ensures(may_migrate, (&thread,), true) && thread.snapshot()
                == offered[i],
{
    let (class, at) = place_of(states, offered, may_migrate, epoch, i);
    records_stay(states, offered, may_migrate, epoch, 0, i, class, at);
    assert(states[0].list_of(class)[at].id == offered[i].id);
    assert(holds(states[0].list_of(class), offered[i].id));
    let thread = states[i].list_of(class)[at];
    assert(movable(may_migrate, states[i].linked(), epoch, thread, true));
    assert(call_ensures(may_migrate, (&thread,), true) && thread.snapshot() == offered[i]);
}

/// Whether a thread of a class is refused now, and is so later.
proof fn refusals_last<F: Fn(&QueuedThread) -> bool>(states: Seq<RunQueue>, offered: Seq<QueuedThreadSnapshot>, may_migrate: F, epoch: u64, i: int, j: int, class: QueueMembershipClass, at: int)
    requires
        scan(states, offered, may_migrate, epoch),
        decides(may_migrate),
        0 <= i <= j < states.len(),
        class.valid(),
        0 <= at < states[i].list_of(class).len(),
        movable(may_migrate, states[i].linked(), epoch, states[i].list_of(class)[at], false),
    ensures
        !movable(may_migrate, states[j].linked(), epoch, states[j].list_of(class)[at], true),
{
    records_stay(states, offered, may_migrate, epoch, i, j, class, at);
}

/// A scan offers Deadline threads first, then real-time ones, then fair ones.
pub proof fn scans_go_by_class<F: Fn(&QueuedThread) -> bool>(states: Seq<RunQueue>, offered: Seq<QueuedThreadSnapshot>, may_migrate: F, epoch: u64, i: int, j: int, first: QueueMembershipClass, second: QueueMembershipClass)
    requires
        scan(states, offered, may_migrate, epoch),
        decides(may_migrate),
        0 <= i < j < offered.len(),
        states[0].member(offered[i].id) == Some(first),
        states[0].member(offered[j].id) == Some(second),
    ensures
        scan_rank(first) <= scan_rank(second) < 3,
{
    let early = place_of(states, offered, may_migrate, epoch, i);
    let late = place_of(states, offered, may_migrate, epoch, j);
    records_stay(states, offered, may_migrate, epoch, 0, i, early.0, early.1);
    records_stay(states, offered, may_migrate, epoch, 0, j, late.0, late.1);
    records_stay(states, offered, may_migrate, epoch, i, j, late.0, late.1);
    assert(states[0].record_ok(early.0, early.1));
    assert(states[0].record_ok(late.0, late.1));
    assert(first == early.0 && second == late.0);
    if scan_rank(second) < scan_rank(first) {
        let linked = states[i].linked();
        let list = states[i].list_of(second);
        assert(none_movable(may_migrate, linked, epoch, list)) by {
            if let QueueMembershipClass::Realtime(p) = second {
                assert(list == states[i].rt.levels@[p - 1]@);
            }
        }
        assert(movable(may_migrate, linked, epoch, list[late.1], false));
        refusals_last(states, offered, may_migrate, epoch, i, j, second, late.1);
    }
}

/// A record that bears the mark of the scan at its end, and did not when it
/// began, was offered.
proof fn marks_come_from_offers<F: Fn(&QueuedThread) -> bool>(states: Seq<RunQueue>, offered: Seq<QueuedThreadSnapshot>, may_migrate: F, epoch: u64, j: int, class: QueueMembershipClass, at: int) -> (i: int)
    requires
        scan(states, offered, may_migrate, epoch),
        0 <= j < states.len(),
        class.valid(),
        0 <= at < states[0].list_of(class).len(),
        states[0].list_of(class)[at].balance_scan_epoch != epoch,
        states[j].list_of(class)[at].balance_scan_epoch == epoch,
    ensures
        0 <= i < offered.len(),
        offered[i].id == states[0].list_of(class)[at].id,
    decreases j,
{
    records_stay(states, offered, may_migrate, epoch, 0, j - 1, class, at);
    if states[j - 1].list_of(class)[at].balance_scan_epoch == epoch {
        marks_come_from_offers(states, offered, may_migrate, epoch, j - 1, class, at)
    } else {
        let place = place_of(states, offered, may_migrate, epoch, j - 1);
        if class != place.0 {
            assert(states[j].list_of(class) == states[j - 1].list_of(class));
        }
        assert(class == place.0 && at == place.1);
        j - 1
    }
}

/// A scan ends only when every thread that may leave was offered: one that
/// waits in the Deadline, a real-time or the fair class, does not run, and that
/// the caller's test does not refuse. Nothing but marks has changed by then.
pub proof fn scans_are_complete<F: Fn(&QueuedThread) -> bool>(before: RunQueue, states: Seq<RunQueue>, offered: Seq<QueuedThreadSnapshot>, may_migrate: F, epoch: u64, class: QueueMembershipClass, at: int)
    requires
        before.marks_in_step(),
        epoch == before.balance_scan_epoch + 1,
        scan(states, offered, may_migrate, epoch),
        states[0] == (RunQueue { balance_scan_epoch: epoch, ..before }),
        states.last().offers(&states.last(), may_migrate, epoch, None),
        class.valid(),
        scan_rank(class) < 3,
        0 <= at < before.list_of(class).len(),
        before.linked() != Some(before.list_of(class)[at].id),
        !call_ensures(may_migrate, (&before.list_of(class)[at],), false),
    ensures
        exists|i: int|
            0 <= i < offered.len() && (#[trigger] offered[i]).id == before.list_of(class)[at].id,
        states.last().membership@ == before.membership@,
        states.last().nr_running == before.nr_running,
{
    let last = states.len() - 1;
    let thread = before.list_of(class)[at];
    assert(states[0].list_of(class) == before.list_of(class));
    records_stay(states, offered, may_migrate, epoch, 0, last, class, at);
    let list = states[last].list_of(class);
    assert(none_movable(may_migrate, states[last].linked(), epoch, list)) by {
        if let QueueMembershipClass::Realtime(p) = class {
            assert(list == states[last].rt.levels@[p - 1]@);
        }
    }
    assert(movable(may_migrate, states[last].linked(), epoch, list[at], false));
    assert(thread.balance_scan_epoch != epoch);
    let i = marks_come_from_offers(states, offered, may_migrate, epoch, last, class, at);
    assert(offered[i].id == thread.id);
}

/// The beginning of a scan and each of its offers keep the marks in step.
pub proof fn scanning_keeps_marks_in_step<F: Fn(&QueuedThread) -> bool>(before: RunQueue, after: RunQueue, may_migrate: F, candidate: Option<QueuedThreadSnapshot>)
    requires
        before.marks_in_step(),
        after.offers(&before, may_migrate, before.balance_scan_epoch, candidate),
    ensures
        after.marks_in_step(),
        before.balance_scan_epoch < u64::MAX ==> (RunQueue {
            balance_scan_epoch: (before.balance_scan_epoch + 1) as u64,
            ..before
        }).marks_in_step(),
{
    let begun = RunQueue {
        balance_scan_epoch: (before.balance_scan_epoch + 1) as u64,
        ..before
    };
    assert forall|class: QueueMembershipClass, i: int|
        class.valid() && 0 <= i < after.list_of(class).len() implies (#[trigger] after.list_of(
        class,
    )[i]).balance_scan_epoch <= after.balance_scan_epoch by {
        assert(before.list_of(class)[i].balance_scan_epoch <= before.balance_scan_epoch);
    }
    assert forall|class: QueueMembershipClass, i: int|
        class.valid() && 0 <= i < begun.list_of(class).len() && before.balance_scan_epoch
            < u64::MAX implies (#[trigger] begun.list_of(class)[i]).balance_scan_epoch
        <= begun.balance_scan_epoch by {
        assert(before.list_of(class)[i].balance_scan_epoch <= before.balance_scan_epoch);
    }
}

/// A thread that enters with a mark that is in step keeps the marks in step.
pub proof fn entering_keeps_marks_in_step(before: RunQueue, after: RunQueue, entry: QueuedThread, reason: EnqueueReason, current: Option<FairEntity>)
    requires
        before.marks_in_step(),
        entry.balance_scan_epoch <= before.balance_scan_epoch,
        after.enqueued(&before, entry, reason, current),
    ensures
        after.marks_in_step(),
{
    let class = QueueMembershipClass::home(entry.active.policy);
    assert forall|other: QueueMembershipClass, i: int|
        other.valid() && 0 <= i < after.list_of(other).len() implies (#[trigger] after.list_of(
        other,
    )[i]).balance_scan_epoch <= after.balance_scan_epoch by {
        let list = before.list_of(other);
        if other != class {
            assert(after.list_of(other) == list);
            assert(list[i].balance_scan_epoch <= before.balance_scan_epoch);
        } else {
            if 0 < i <= list.len() {
                assert(list[i - 1].balance_scan_epoch <= before.balance_scan_epoch);
            }
            if i < list.len() {
                assert(list[i].balance_scan_epoch <= before.balance_scan_epoch);
            }
        }
    }
}

/// A thread that leaves keeps the marks in step.
pub proof fn leaving_keeps_marks_in_step(before: RunQueue, after: RunQueue, id: ThreadId, deactivate: bool)
    requires
        before.wf(),
        before.marks_in_step(),
        before.member(id) is Some,
        after.departed(&before, id, deactivate),
    ensures
        after.marks_in_step(),
{
    before.member_record(id);
    let class = before.member(id)->0;
    let at = index_of(before.list_of(class), id);
    assert forall|other: QueueMembershipClass, i: int|
        other.valid() && 0 <= i < after.list_of(other).len() implies (#[trigger] after.list_of(
        other,
    )[i]).balance_scan_epoch <= after.balance_scan_epoch by {
        let list = before.list_of(other);
        let from = if other == class && i >= at {
            i + 1
        } else {
            i
        };
        assert(list[from].balance_scan_epoch <= before.balance_scan_epoch);
    }
}

} // verus!
