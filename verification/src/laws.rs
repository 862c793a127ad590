//! What holds of the parts that the scheduler is built from, and of those that
//! stand beside it.
use vstd::prelude::*;
use crate::clock::{number_in, offers_clocks};
use crate::config::TaskSystemConfig;
use crate::download::{
    BindingOutcome, DownloadError, DownloadStep, HumanSize, KernelLoadError, added_body, added_step,
    assembled, chosen_binding, downloaded, percent_of, progress_line, shown_size, size_error,
};
use crate::error::{TaskError, ThreadState};
use crate::facade::PiParkAttempt;
use crate::ids::{CpuId, CpuSet, ThreadId, members};
use crate::ion::{DmaFailure, IonError, IonHeapType, failure_error, power_of_two, request_error};
use crate::scheduler::entity::SchedulingEntity;
use crate::scheduler::policy::SchedulePolicy;
use crate::scheduler::task::ActiveSchedulingState;
use crate::system::task_system::TaskSystem;
use crate::thread::pi::PiWaitToken;
use crate::thread::placement::{TaskOnRunQueue, ThreadPlacementState};
use crate::thread::record::{ThreadRecord, may_become};
use crate::time::MonotonicInstant;
use crate::timer::{
    TaskDeadlineQueue, TimerEntry, fired, fires_before, first_to_fire_is_first, next_to_fire,
    unfired,
};
use crate::wait_queue::{
    CurrentParkStart, WaitAction, WaitCall, WaitEvent, WaitStep, advanced, answered, waits,
    without,
};

verus! {

proof fn fired_were_armed(entries: Seq<TimerEntry>, now: MonotonicInstant, budget: nat)
    ensures
        forall|i: int|
            0 <= i < fired(entries, now, budget).len() ==> entries.contains(
                #[trigger] fired(entries, now, budget)[i],
            ),
        forall|i: int|
            0 <= i < unfired(entries, now, budget).len() ==> entries.contains(
                #[trigger] unfired(entries, now, budget)[i],
            ),
        fired(entries, now, budget).to_multiset().add(unfired(entries, now, budget).to_multiset())
            =~= entries.to_multiset(),
    decreases budget,
{
    broadcast use vstd::seq_lib::group_to_multiset_ensures;

    if budget == 0 || entries.len() == 0 || now.ns < entries[next_to_fire(entries)].deadline.ns {
        assert(fired(entries, now, budget) =~= Seq::empty());
        assert forall|i: int| 0 <= i < entries.len() implies entries.contains(
            #[trigger] unfired(entries, now, budget)[i],
        ) by {
            assert(entries[i] == unfired(entries, now, budget)[i]);
        }
    } else {
        first_to_fire_is_first(entries, entries.len() as int);
        let at = next_to_fire(entries);
        let rest = entries.remove(at);
        let later = fired(rest, now, (budget - 1) as nat);
        fired_were_armed(rest, now, (budget - 1) as nat);
        let all = fired(entries, now, budget);
        assert(all =~= seq![entries[at]] + later);
        assert forall|x: TimerEntry| rest.contains(x) implies #[trigger] entries.contains(x) by {
            let j = choose|j: int| 0 <= j < rest.len() && rest[j] == x;
            if j < at {
                assert(entries[j] == x);
            } else {
                assert(entries[j + 1] == x);
            }
        }
        assert forall|i: int| 0 <= i < all.len() implies entries.contains(#[trigger] all[i]) by {
            if i > 0 {
                assert(all[i] == later[i - 1]);
            }
        }
        assert(seq![entries[at]] + later =~= Seq::empty().push(entries[at]) + later);
        vstd::seq_lib::lemma_multiset_commutative(seq![entries[at]], later);
        assert(seq![entries[at]].to_multiset() =~= vstd::multiset::Multiset::singleton(entries[at]))
            by {
            assert(seq![entries[at]] =~= Seq::<TimerEntry>::empty().push(entries[at]));
            assert(Seq::<TimerEntry>::empty().to_multiset() =~= vstd::multiset::Multiset::empty());
        }
        assert(entries.to_multiset() =~= rest.to_multiset().insert(entries[at]));
    }
}

/// Deadlines fire in the order in which they are due, and those that are due at
/// the same instant in the order of their identities. Nothing that is left was
/// due before something that fired, and nothing is lost.
pub proof fn deadlines_fire_in_order(entries: Seq<TimerEntry>, now: MonotonicInstant, budget: nat, i: int, j: int)
    ensures
        ({
            let out = fired(entries, now, budget);
            let left = unfired(entries, now, budget);
            &&& out.len() <= budget
            &&& 0 <= i < j < out.len() ==> out[i].deadline.ns <= out[j].deadline.ns && (
            out[i].deadline.ns == out[j].deadline.ns ==> out[i].token.node <= out[j].token.node)
            &&& 0 <= i < out.len() && 0 <= j < left.len() ==> out[i].deadline.ns
                <= left[j].deadline.ns
            &&& 0 <= i < out.len() ==> out[i].deadline.ns <= now.ns
            &&& out.to_multiset().add(left.to_multiset()) == entries.to_multiset()
        }),
    decreases budget,
{
    fired_were_armed(entries, now, budget);
    if budget == 0 || entries.len() == 0 || now.ns < entries[next_to_fire(entries)].deadline.ns {
    } else {
        first_to_fire_is_first(entries, entries.len() as int);
        let at = next_to_fire(entries);
        let rest = entries.remove(at);
        let later = fired(rest, now, (budget - 1) as nat);
        let out = fired(entries, now, budget);
        let left = unfired(entries, now, budget);
        assert(out =~= seq![entries[at]] + later);
        deadlines_fire_in_order(rest, now, (budget - 1) as nat, i - 1, j - 1);
        deadlines_fire_in_order(rest, now, (budget - 1) as nat, i - 1, j);
        if 0 <= j < out.len() {
            let k = choose|k: int| 0 <= k < entries.len() && entries[k] == out[j];
            assert(!fires_before(entries[k], entries[at]));
        }
        if 0 <= j < left.len() {
            let k = choose|k: int| 0 <= k < entries.len() && entries[k] == left[j];
            assert(!fires_before(entries[k], entries[at]));
        }
    }
}

/// Taking a deadline out of the queue takes out that one and no other.
pub proof fn cancelling_takes_one_out(queue: TaskDeadlineQueue, identity: u64, i: int)
    requires
        queue.wf(),
        0 <= i < queue.entries@.len(),
    ensures
        queue.entries@[i].token.node != identity ==> queue.without(identity).contains(
            queue.entries@[i],
        ),
        forall|j: int|
            0 <= j < queue.without(identity).len() ==> (#[trigger] queue.without(
                identity,
            )[j]).token.node != identity,
        !queue.armed(identity) ==> queue.without(identity) == queue.entries@,
{
    let entries = queue.entries@;
    if queue.armed(identity) {
        let at = queue.place_of(identity);
        assert(0 <= at < entries.len() && entries[at].token.node == identity);
        let left = entries.remove(at);
        if entries[i].token.node != identity {
            if i < at {
                assert(left[i] == entries[i]);
            } else {
                assert(left[i - 1] == entries[i]);
            }
        }
        assert forall|j: int| 0 <= j < left.len() implies (#[trigger] left[j]).token.node
            != identity by {
            if j < at {
                assert(left[j] == entries[j]);
            } else {
                assert(left[j] == entries[j + 1]);
            }
        }
    } else {
        assert(entries[i] == queue.without(identity)[i]);
    }
}

/// A wait for a condition ends well only when the condition was found to hold,
/// or, if it has a deadline, when the deadline had passed and the condition was
/// looked at once more.
pub proof fn conditions_end_waits(call: WaitCall, event: WaitEvent, waiters: Seq<ThreadId>, generation: u64)
    requires
        call.wf(),
        call.expects(event),
    ensures
        ({
            let (next, action, left) = answered(call, event, waiters, generation);
            &&& call.goal is Condition && (action matches WaitAction::Done(Ok(_))) ==> event
                == WaitEvent::Condition(true) && action == WaitAction::Done(Ok(false))
            &&& call.goal is ConditionBy && (action matches WaitAction::Done(Ok(_))) ==> (event
                == WaitEvent::Condition(true) && action == WaitAction::Done(Ok(false))) || (event
                == WaitEvent::Condition(false) && call.step == WaitStep::FinalCondition && action
                == WaitAction::Done(Ok(true)))
            &&& next.step == WaitStep::FinalCondition ==> event is Clock && event->Clock_0.ns >= (
            call.goal.due()->0).ns
            &&& event == WaitEvent::Condition(true) ==> action == WaitAction::Done(Ok(false))
            &&& next.goal == call.goal
        }),
{
}

/// A wait that cannot go on ends with the error; it is over exactly when it says
/// so.
pub proof fn failures_end_waits(call: WaitCall, event: WaitEvent, waiters: Seq<ThreadId>, generation: u64, error: TaskError)
    requires
        call.wf(),
        call.expects(event),
    ensures
        ({
            let (next, action, left) = answered(call, event, waiters, generation);
            &&& event == WaitEvent::Permit(Err(error)) || event == WaitEvent::ParkStart(Err(error))
                || event == WaitEvent::Resumed(Err(error)) || event == WaitEvent::Cancelled(
                Err(error),
            ) ==> action == WaitAction::Done(Err(error))
            &&& event == WaitEvent::Armed(Err(error)) ==> action == WaitAction::CancelPark
            &&& action is Done <==> next.step == WaitStep::Finished
            &&& call.step matches WaitStep::Cancelling { error: first } ==> (event
                == WaitEvent::Cancelled(Ok(())) ==> action == WaitAction::Done(Err(first)))
        }),
{
}

/// A thread queues up before it parks and behind those who wait already; the
/// deadline is armed before it sleeps; and it has left the queue when its wait
/// goes on.
pub proof fn waiters_queue_up(call: WaitCall, waiters: Seq<ThreadId>, generation: u64, thread: ThreadId)
    requires
        call.wf(),
    ensures
        call.step == WaitStep::ParkStart ==> {
            let (next, action, left) = answered(
                call,
                WaitEvent::ParkStart(Ok(CurrentParkStart::Prepared(thread))),
                waiters,
                generation,
            );
            &&& left == waiters.push(thread)
            &&& call.goal.due() is Some ==> action == WaitAction::ArmDeadline(call.goal.due()->0)
            &&& call.goal.due() is None ==> action == WaitAction::CommitPark
        },
        call.step == (WaitStep::Arming { thread }) ==> answered(
            call,
            WaitEvent::Armed(Ok(())),
            waiters,
            generation,
        ) == (call.at(WaitStep::Parked { thread }), WaitAction::CommitPark, waiters),
        call.step == (WaitStep::Parked { thread }) ==> answered(
            call,
            WaitEvent::Resumed(Ok(())),
            waiters,
            generation,
        ).2 == without(waiters, thread),
        call.goal is Once && call.step == (WaitStep::Parked { thread }) ==> answered(
            call,
            WaitEvent::Resumed(Ok(())),
            waiters,
            generation,
        ).1 == WaitAction::Done(Ok(false)),
        call.goal.due() is Some <==> call.goal is NotificationBy || call.goal is ConditionBy
            || call.goal is Deadline,
{
}

/// A thread that leaves a queue leaves it once, and the others stay in their
/// order.
pub proof fn leaving_keeps_the_others(waiters: Seq<ThreadId>, thread: ThreadId, i: int)
    requires
        0 <= i < waiters.len(),
        forall|a: int, b: int|
            0 <= a < b < waiters.len() ==> #[trigger] waiters[a] != #[trigger] waiters[b],
    ensures
        waiters[i] == thread ==> without(waiters, thread) == waiters.remove(i),
        waiters[i] == thread ==> !waits(without(waiters, thread), thread),
        !waits(waiters, thread) ==> without(waiters, thread) == waiters,
        waiters[i] != thread ==> waits(without(waiters, thread), waiters[i]),
{
    if waits(waiters, thread) {
        let k = choose|k: int| 0 <= k < waiters.len() && #[trigger] waiters[k] == thread;
        assert forall|j: int| 0 <= j < k implies #[trigger] waiters[j] != thread by {
            assert(waiters[k] == thread);
        }
        let at = crate::wait_queue::oldest(waiters, thread);
        assert(0 <= at < waiters.len() && waiters[at] == thread);
        assert(at == k);
        let left = waiters.remove(at);
        if waiters[i] == thread {
            assert(i == at);
            assert forall|j: int| 0 <= j < left.len() implies #[trigger] left[j] != thread by {
                if j < at {
                    assert(left[j] == waiters[j]);
                } else {
                    assert(left[j] == waiters[j + 1]);
                }
            }
        } else {
            if i < at {
                assert(left[i] == waiters[i]);
            } else {
                assert(left[i - 1] == waiters[i]);
            }
        }
    } else {
        assert(without(waiters, thread)[i] == waiters[i]);
    }
}

/// A notification is noticed: the counter moves on by every waiter that is
/// told, and comes back only after all its values.
pub proof fn notifications_are_counted(generation: u64, count: nat, more: nat)
    ensures
        advanced(generation, 0) == generation,
        0 < count < 0x1_0000_0000_0000_0000 ==> advanced(generation, count) != generation,
        advanced(advanced(generation, count), more) == advanced(generation, count + more),
        generation + count <= u64::MAX ==> advanced(generation, count) == generation + count,
{
}

/// The first network device that can be used is used; without one the reason
/// is that of the last that was tried.
pub proof fn the_first_binding_is_chosen(outcomes: Seq<BindingOutcome>)
    requires
        outcomes.len() <= usize::MAX,
    ensures
        chosen_binding(outcomes) matches Ok(i) ==> i < outcomes.len() && outcomes[i as int]
            == BindingOutcome::Configured && forall|j: int|
            0 <= j < i ==> #[trigger] outcomes[j] != BindingOutcome::Configured,
        chosen_binding(outcomes) is Err ==> forall|j: int|
            0 <= j < outcomes.len() ==> #[trigger] outcomes[j] != BindingOutcome::Configured,
        chosen_binding(outcomes) == Err::<usize, DownloadError>(DownloadError::NoHttpBinding)
            <==> outcomes.len() == 0,
        chosen_binding(outcomes) == Err::<usize, DownloadError>(DownloadError::HttpUnavailable)
            ==> outcomes.last() == BindingOutcome::OpenFailed,
        chosen_binding(outcomes) == Err::<usize, DownloadError>(DownloadError::ConfigureFailed)
            ==> outcomes.last() == BindingOutcome::ConfigureFailed,
    decreases outcomes.len(),
{
    if outcomes.len() > 0 {
        the_first_binding_is_chosen(outcomes.drop_last());
        assert forall|j: int| 0 <= j < outcomes.len() - 1 implies #[trigger] outcomes[j]
            == outcomes.drop_last()[j] by {}
    }
}

/// What the good ones of some replies bring together.
pub open spec fn joined(replies: Seq<Result<Vec<u8>, DownloadError>>) -> Seq<u8>
    decreases replies.len(),
{
    if replies.len() == 0 {
        Seq::empty()
    } else {
        (match replies[0] {
            Ok(chunk) => chunk@,
            Err(_) => Seq::empty(),
        }) + joined(replies.skip(1))
    }
}

/// A kernel that was loaded is what the replies brought, put together in their
/// order; replies that failed bring nothing, and what comes after the last byte
/// is not looked at.
pub proof fn replies_are_put_together(body: Seq<u8>, expected_size: usize, attempts: nat, replies: Seq<Result<Vec<u8>, DownloadError>>) -> (used: nat)
    ensures
        assembled(body, expected_size, attempts, replies) matches Ok(all) ==> used <= replies.len()
            && all == body + joined(replies.take(used as int)),
    decreases replies.len(),
{
    if body.len() >= expected_size || replies.len() == 0 {
        assert(replies.take(0) =~= Seq::empty());
        assert(body + joined(replies.take(0)) =~= body);
        0
    } else {
        let rest = replies.skip(1);
        let (more, tries) = match replies[0] {
            Ok(chunk) => (body + chunk@, 0nat),
            Err(_) => (body, attempts + 1),
        };
        let used = replies_are_put_together(more, expected_size, tries, rest);
        if used <= rest.len() {
            let part = replies.take((used + 1) as int);
            assert(part.skip(1) =~= rest.take(used as int));
            assert(part[0] == replies[0]);
            assert(more + joined(rest.take(used as int)) =~= body + joined(part));
        }
        used + 1
    }
}

/// A reply that fails is asked for again, but not for ever: eight failures in a
/// row end the download with the last of them. A reply that brings something
/// starts the count anew; one that brings nothing, or too much, ends it.
pub proof fn failing_downloads_end(body: Seq<u8>, expected_size: usize, attempts: nat, replies: Seq<Result<Vec<u8>, DownloadError>>)
    requires
        body.len() < expected_size,
        replies.len() > 0,
        attempts < 8,
    ensures
        replies[0] matches Err(error) ==> {
            &&& attempts == 7 ==> assembled(body, expected_size, attempts, replies) == Err::<
                Seq<u8>,
                DownloadError,
            >(error)
            &&& attempts < 7 ==> assembled(body, expected_size, attempts, replies) == assembled(
                body,
                expected_size,
                attempts + 1,
                replies.skip(1),
            )
        },
        replies[0] matches Ok(chunk) ==> {
            &&& chunk@.len() == 0 ==> assembled(body, expected_size, attempts, replies) == Err::<
                Seq<u8>,
                DownloadError,
            >(DownloadError::ResponseFailed)
            &&& body.len() + chunk@.len() > expected_size ==> assembled(
                body,
                expected_size,
                attempts,
                replies,
            ) == Err::<Seq<u8>, DownloadError>(DownloadError::BodyTooLarge)
            &&& body.len() + chunk@.len() == expected_size && chunk@.len() > 0 ==> assembled(
                body,
                expected_size,
                attempts,
                replies,
            ) == Ok::<Seq<u8>, DownloadError>(body + chunk@)
        },
        assembled(body, expected_size, attempts, Seq::empty()) is Err,
{
    reveal_with_fuel(assembled, 2);
}

/// Nothing, and nothing larger than 256 MiB, is downloaded; a reply other than
/// success is refused, and so is one that begins with too much.
pub proof fn downloads_are_limited(expected_size: u64, success: bool, first: Seq<u8>, replies: Seq<Result<Vec<u8>, DownloadError>>)
    ensures
        expected_size == 0 ==> downloaded(expected_size, success, first, replies) == Err::<
            Seq<u8>,
            KernelLoadError,
        >(KernelLoadError::ZeroSize),
        expected_size > 256 * 1024 * 1024 ==> downloaded(expected_size, success, first, replies)
            == Err::<Seq<u8>, KernelLoadError>(KernelLoadError::SizeTooLarge),
        0 < expected_size <= 256 * 1024 * 1024 ==> size_error(expected_size) is None,
        0 < expected_size <= 256 * 1024 * 1024 && !success ==> downloaded(
            expected_size,
            success,
            first,
            replies,
        ) == Err::<Seq<u8>, KernelLoadError>(
            KernelLoadError::Download(DownloadError::UnexpectedStatus),
        ),
        0 < expected_size <= 256 * 1024 * 1024 && success && first.len() > expected_size
            ==> downloaded(expected_size, success, first, replies) == Err::<
            Seq<u8>,
            KernelLoadError,
        >(KernelLoadError::Download(DownloadError::BodyTooLarge)),
        0 < expected_size <= 256 * 1024 * 1024 && success && first.len() == expected_size
            ==> downloaded(expected_size, success, first, replies) == Ok::<
            Seq<u8>,
            KernelLoadError,
        >(first),
{
}

/// A part is added whole or not at all, and the download is done when the last
/// byte is there.
pub proof fn parts_are_added_whole(body: Seq<u8>, expected_size: usize, chunk: Seq<u8>)
    requires
        body.len() <= expected_size,
    ensures
        added_body(body, expected_size, chunk).len() <= expected_size,
        added_body(body, expected_size, chunk) == body || added_body(body, expected_size, chunk)
            == body + chunk,
        added_step(body, expected_size, chunk) == DownloadStep::Done <==> added_body(
            body,
            expected_size,
            chunk,
        ) == body + chunk && (body + chunk).len() == expected_size,
        added_step(body, expected_size, chunk) == DownloadStep::Receive <==> (body + chunk).len()
            < expected_size,
        added_step(body, expected_size, chunk) is Failed <==> (body + chunk).len() > expected_size,
{
}

/// Progress is shown in hundredths of what is expected: it never shrinks, is
/// nothing at first, and is a hundred of a hundred, with the whole bar filled,
/// when all is there.
pub proof fn progress_is_shown(downloaded: usize, more: usize, expected_size: usize)
    requires
        downloaded <= more <= expected_size,
        0 < expected_size * 100 <= usize::MAX,
    ensures
        0 <= percent_of(downloaded, expected_size) <= percent_of(more, expected_size) <= 100,
        percent_of(0, expected_size) == 0,
        percent_of(expected_size, expected_size) == 100,
        percent_of(downloaded, expected_size) * expected_size <= downloaded * 100,
        downloaded * 100 < (percent_of(downloaded, expected_size) + 1) * expected_size,
        progress_line(expected_size, expected_size).percent == 100,
        progress_line(expected_size, expected_size).filled == 50,
        progress_line(0, expected_size).filled == 0,
        progress_line(downloaded, expected_size).filled * 2 <= progress_line(
            downloaded,
            expected_size,
        ).percent,
{
    let (d, m, e) = (downloaded as int, more as int, expected_size as int);
    assert(d * 100 / e <= m * 100 / e && m * 100 / e <= 100 && 0 <= d * 100 / e && (d * 100 / e) * e
        <= d * 100 && d * 100 < (d * 100 / e + 1) * e && e * 100 / e == 100 && 0int / e == 0)
        by (nonlinear_arith)
        requires
            0 <= d <= m <= e,
            e > 0,
    ;
}

/// A size is shown in the largest unit of which it has at least one, with the
/// part that is left in hundredths.
pub proof fn sizes_are_shown_in_units(bytes: usize)
    ensures
        bytes < 1024 ==> shown_size(bytes) == HumanSize::Bytes(bytes),
        1024 <= bytes < 1024 * 1024 ==> shown_size(bytes) is Kib,
        bytes >= 1024 * 1024 ==> shown_size(bytes) is Mib,
        shown_size(bytes) matches HumanSize::Kib { whole, hundredths } ==> hundredths < 100 && whole
            * 1024 + hundredths * 1024 / 100 <= bytes < whole * 1024 + 1024 && (hundredths + 1)
            * 1024 > (bytes - whole * 1024) * 100,
        shown_size(bytes) matches HumanSize::Mib { whole, hundredths } ==> hundredths < 100 && whole
            * 1048576 + hundredths * 1048576 / 100 <= bytes < whole * 1048576 + 1048576 && (
        hundredths + 1) * 1048576 > (bytes - whole * 1048576) * 100,
{
}

/// Memory is asked for only with a size, an alignment that is a power of two,
/// and from a heap that there is.
pub proof fn memory_requests_are_sound(size: usize, align: usize, heap_type: IonHeapType)
    ensures
        size == 0 ==> request_error(size, align, heap_type) == Some(IonError::InvalidArg),
        size > 0 && heap_type == IonHeapType::Carveout ==> request_error(size, align, heap_type)
            == Some(IonError::NotSupported),
        request_error(size, align, heap_type) is None ==> size > 0 && heap_type
            != IonHeapType::Carveout && power_of_two(align as int) && size + align <= isize::MAX + 1,
        size > 0 && heap_type != IonHeapType::Carveout && power_of_two(align as int) && size + align
            <= isize::MAX ==> request_error(size, align, heap_type) is None,
        failure_error(DmaFailure::Layout) == IonError::InvalidArg,
        failure_error(DmaFailure::Other) == IonError::NoMemory,
{
}

/// The powers of two are one and the doubles of powers of two.
pub proof fn powers_of_two_double(n: int)
    ensures
        power_of_two(1),
        power_of_two(n) ==> n > 0 && power_of_two(2 * n),
        n > 1 && n % 2 == 1 ==> !power_of_two(n),
{
    vstd::arithmetic::power2::lemma2_to64();
    assert(1 == vstd::arithmetic::power2::pow2(0));
    if power_of_two(n) {
        let k = choose|k: nat| n == #[trigger] vstd::arithmetic::power2::pow2(k);
        vstd::arithmetic::power2::lemma_pow2_pos(k);
        vstd::arithmetic::power2::lemma_pow2_unfold(k + 1);
        assert(2 * n == vstd::arithmetic::power2::pow2(k + 1));
        if k > 0 {
            vstd::arithmetic::power2::lemma_pow2_unfold(k);
        }
    }
}

/// A number in a device tree is four bytes, the most significant first.
pub proof fn numbers_are_big_endian(bytes: Seq<u8>)
    ensures
        number_in(bytes) is Some <==> bytes.len() == 4,
        number_in(bytes) matches Some(n) ==> n as int / 0x100_0000 == bytes[0] && n as int / 0x1_0000
            % 0x100 == bytes[1] && n as int / 0x100 % 0x100 == bytes[2] && n as int % 0x100
            == bytes[3],
{
}

/// A node offers clocks only if it is the clock protocol of the firmware, by its
/// name and by its number.
pub proof fn clock_nodes_are_recognised(name: Seq<char>, reg: Option<u32>)
    ensures
        offers_clocks(name, reg) ==> reg == Some(0x14u32) && name.len() >= 11 && name.take(11)
            == "protocol@14"@,
        reg == Some(0x14u32) && name.len() >= 11 && name.take(11) == "protocol@14"@
            ==> offers_clocks(name, reg),
{
    reveal_strlit("protocol@14");
    let prefix = "protocol@14"@;
    assert(prefix.len() == 11);
    if offers_clocks(name, reg) {
        assert(name.take(11) =~= prefix);
    }
    if name.len() >= 11 && name.take(11) == prefix {
        assert(prefix.is_prefix_of(name)) by {
            assert(prefix =~= name.subrange(0, 11));
        }
    }
}

/// A configuration without special wishes is valid for any number of CPUs that
/// there can be, and what makes no sense is refused.
pub proof fn configurations_are_checked(config: TaskSystemConfig, cpu_count: usize)
    ensures
        0 < cpu_count <= u32::MAX ==> TaskSystemConfig::defaults(cpu_count).valid(),
        TaskSystemConfig::defaults(cpu_count).cpu_count == cpu_count,
        TaskSystemConfig::defaults(cpu_count).fair_slice_ns == 3_000_000,
        TaskSystemConfig::defaults(cpu_count).rt_runtime_ns * 100 == TaskSystemConfig::defaults(
            cpu_count,
        ).rt_period_ns * 95,
        TaskSystemConfig::defaults(cpu_count).deadline_cap_percent == 95,
        TaskSystemConfig::defaults(cpu_count).batch_limit == 64,
        config.cpu_count == 0 || config.thread_capacity == 0 || config.batch_limit == 0
            || config.batch_limit > 64 || config.fair_slice_ns == 0 || config.pi_chain_limit == 0
            || config.rt_period_ns == 0 || config.rt_runtime_ns > config.rt_period_ns
            || config.deadline_cap_percent > 100 ==> !config.valid(),
{
}

/// The states of a thread: it runs only from ready or parking, sleeps only from
/// running or parking, wakes only from sleep, becomes ready when it was made,
/// ran or woke, and ends only from running.
pub proof fn thread_states_follow_each_other(from: ThreadState, to: ThreadState)
    ensures
        to == ThreadState::Running ==> (may_become(from, to) <==> from == ThreadState::Ready || from
            == ThreadState::Parking),
        to == ThreadState::Blocked ==> (may_become(from, to) <==> from == ThreadState::Running
            || from == ThreadState::Parking),
        to == ThreadState::Waking ==> (may_become(from, to) <==> from == ThreadState::Blocked),
        to == ThreadState::Ready ==> (may_become(from, to) <==> from == ThreadState::New || from
            == ThreadState::Running || from == ThreadState::Waking),
        to == ThreadState::Parking ==> (may_become(from, to) <==> from == ThreadState::Running),
        to == ThreadState::Exited ==> (may_become(from, to) <==> from == ThreadState::Running),
        to == ThreadState::New ==> !may_become(from, to),
{
}

/// Where a thread is follows from its placement, and each move asks for the
/// place that it starts from.
pub proof fn moves_start_from_their_place(placement: ThreadPlacementState, cpu: CpuId, target: CpuId)
    ensures
        placement.queued_on() is Some ==> placement.migrating_to() is None,
        placement.queued_on() == Some(cpu) <==> placement.on_rq == TaskOnRunQueue::Queued
            && placement.task_cpu == Some(cpu),
        placement.migrating_to() == Some(cpu) <==> placement.on_rq == TaskOnRunQueue::Migrating
            && placement.task_cpu == Some(cpu),
        placement.executing_on() == Some(cpu) <==> placement.queued_on() == Some(cpu)
            && placement.on_cpu == Some(cpu),
        placement.can_activate(cpu) ==> placement.queued_on() is None && placement.on_cpu is None,
        placement.can_activate(cpu) && placement.migrating_to() is Some ==> placement.migrating_to()
            == Some(cpu),
        placement.on_rq == TaskOnRunQueue::Off && placement.on_cpu is None
            ==> placement.can_activate(cpu) && placement.can_begin_remote_wakeup(),
        placement.can_deactivate(cpu) <==> placement.queued_on() == Some(cpu) && placement.on_cpu
            is None,
        placement.can_block_current(cpu) <==> placement.executing_on() == Some(cpu),
        placement.can_put_prev(cpu) <==> placement.executing_on() == Some(cpu)
            && placement.migration_request is None,
        placement.can_set_next(cpu) ==> placement.queued_on() == Some(cpu),
        placement.can_begin_migration(cpu, target) ==> cpu != target && placement.queued_on()
            == Some(cpu) && (placement.on_cpu is Some ==> placement.on_cpu == Some(cpu)),
        !placement.can_begin_migration(cpu, cpu),
{
}

/// What a run queue knows of a thread is what its record says.
pub proof fn run_queues_know_their_threads(record: ThreadRecord, active: ActiveSchedulingState)
    ensures
        record.entry(active).id == record.id,
        record.entry(active).active == active,
        record.entry(active).migration_capable <==> record.placement.affinity.size() > 1,
        record.entry(active).rt_quota_exempt <==> record.pi.donor is Some && (active.policy is Fifo
            || active.policy is RoundRobin),
        record.entry(active).metadata.deadline_donor == record.pi.deadline_donor,
        record.entry(active).metadata.deadline_bandwidth_scaled
            == record.deadline.reservation_scaled,
        record.entry(active).metadata.policy_generation == record.policy.dispatch_generation,
        record.boosted() <==> record.pi.donor is Some,
{
}

/// What is published of a thread is the policy in force and its urgency; its
/// own policy is kept.
pub proof fn published_policies_are_in_force(record: ThreadRecord, policy: SchedulePolicy, entity: SchedulingEntity)
    ensures
        record.published(policy, entity).policy.effective == policy,
        record.published(policy, entity).policy.urgency == entity.urgency(policy),
        record.published(policy, entity).policy.base == record.policy.base,
        record.published(policy, entity).policy.active == record.policy.active,
        record.published(policy, entity).pi == record.pi,
{
}

/// A change of affinity is pending until the thread is where it may be.
pub proof fn affinity_changes_stay_pending(record: ThreadRecord)
    ensures
        record.affinity_settled().affinity_pending ==> record.affinity_pending
            && record.placement.task_cpu is Some && record.placement.on_rq != TaskOnRunQueue::Off
            && !record.placement.affinity.has(record.placement.task_cpu->0),
        record.affinity_pending && record.placement.task_cpu is Some && record.placement.on_rq
            != TaskOnRunQueue::Off && !record.placement.affinity.has(record.placement.task_cpu->0)
            ==> record.affinity_settled().affinity_pending,
        record.affinity_settled().placement == record.placement,
{
}

/// The name of a thread as one number: the generation above the slot.
pub proof fn packed_names_are_taken_apart(id: ThreadId)
    ensures
        id.packed() / 0x1_0000_0000 == id.generation,
        id.packed() % 0x1_0000_0000 == id.slot,
        0 <= id.packed() <= u64::MAX,
{
}

proof fn some_member(bits: Seq<bool>)
    ensures
        members(bits) > 0 <==> exists|i: int| 0 <= i < bits.len() && #[trigger] bits[i],
    decreases bits.len(),
{
    if bits.len() > 0 {
        let shorter = bits.drop_last();
        some_member(shorter);
        if bits.last() {
            assert(bits[bits.len() - 1]);
        }
        if members(shorter) > 0 {
            let i = choose|i: int| 0 <= i < shorter.len() && #[trigger] shorter[i];
            assert(bits[i]);
        }
        if exists|i: int| 0 <= i < bits.len() && #[trigger] bits[i] {
            let i = choose|i: int| 0 <= i < bits.len() && #[trigger] bits[i];
            if i < bits.len() - 1 {
                assert(shorter[i]);
            }
        }
    }
}

/// A set of CPUs is empty exactly when no CPU is in it, and one set holds
/// another when it has all its CPUs.
pub proof fn sets_are_what_is_in_them(set: CpuSet, other: CpuSet, cpu: CpuId)
    requires
        set.bits@.len() <= u32::MAX,
    ensures
        set.has(cpu) ==> set.size() > 0,
        set.size() > 0 ==> exists|found: CpuId| #[trigger] set.has(found),
        set.includes(&other) && other.has(cpu) ==> set.has(cpu),
        other.has(cpu) && !set.has(cpu) ==> !set.includes(&other),
        other.size() == 0 && other.bits@.len() <= u32::MAX ==> set.includes(&other),
{
    some_member(set.bits@);
    some_member(other.bits@);
    if set.has(cpu) {
        assert(set.bits@[cpu.index as int]);
    }
    if set.size() > 0 {
        let i = choose|i: int| 0 <= i < set.bits@.len() && #[trigger] set.bits@[i];
        assert(set.has(CpuId { index: i as u32 }));
    }
    if other.size() == 0 {
        assert forall|found: CpuId| other.has(found) implies #[trigger] set.has(found) by {
            assert(other.bits@[found.index as int]);
        }
    }
}

/// A waiter that was chosen or granted does not park: its attempt is complete
/// only then.
pub proof fn chosen_waiters_do_not_park(before: &TaskSystem, after: &TaskSystem, cpu: CpuId, token: PiWaitToken, now_ns: u64, monotonic_now: MonotonicInstant)
    requires
        after.pi_park_attempted(
            before,
            cpu,
            token,
            now_ns,
            monotonic_now,
            Ok(PiParkAttempt::Complete),
        ),
    ensures
        before.cpu(cpu).current == Some(token.thread),
        after.record(token.thread) matches Some(record) && (record.pi.wait.selected_generation
            == token.generation || record.pi.wait.granted_generation == token.generation),
{
}

} // verus!
