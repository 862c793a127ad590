//! What holds of the bandwidth that the CPUs share.
use vstd::prelude::*;
use crate::cpu::local::CpuLocal;
use crate::ids::CpuId;
use crate::scheduler::bandwidth::RtRunQueueBandwidth;
use crate::scheduler::policy::SchedulePolicy;
use crate::system::root_domain::{
    DeadlineBandwidthRebuild, RootDomain, RtLane, balanced, borrowed, exchanged, online_count,
    passed_over, reclaimed, resumes, served, served_until,
};
use crate::time::{MONOTONIC_MAX_NS, MonotonicInstant};

verus! {

/// How many CPUs are online.
pub open spec fn cpus_online(all: Seq<RtLane>) -> int {
    all.filter(|lane: RtLane| lane.online).len() as int
}

/// How much the first `n` CPUs, but for the receiver, have given away.
pub open spec fn given_away(before: Seq<RtLane>, after: Seq<RtLane>, receiver: int, n: int) -> int
    decreases n,
{
    if n <= 0 {
        0
    } else {
        given_away(before, after, receiver, n - 1) + if n - 1 == receiver {
            0
        } else {
            before[n - 1].rt.runtime_ns - after[n - 1].rt.runtime_ns
        }
    }
}

/// The same quota, however long its time is.
pub open spec fn same_but_runtime(after: RtLane, before: RtLane) -> bool {
    &&& after.online == before.online
    &&& after.rt.enabled == before.rt.enabled
    &&& after.rt.time_ns == before.rt.time_ns
    &&& after.rt.throttled == before.rt.throttled
}

/// What the CPU `i` gives in a round of lending: of what it has not used, one
/// part for every CPU that is online, but no more than the receiver still has
/// room for after those before it have given. A CPU that is off, that is not
/// limited or that has nothing unused gives nothing.
pub open spec fn gives_its_share(before: Seq<RtLane>, after: Seq<RtLane>, receiver: int, period_ns: u64, i: int) -> bool {
    let given = before[i].rt.runtime_ns - after[i].rt.runtime_ns;
    let unused = before[i].rt.runtime_ns - before[i].rt.time_ns;
    let room = period_ns - before[receiver].rt.runtime_ns - given_away(before, after, receiver, i);
    &&& same_but_runtime(after[i], before[i])
    &&& !before[i].online || !before[i].rt.enabled || unused <= 0 || room <= 0 ==> given == 0
    &&& before[i].online && before[i].rt.enabled && unused > 0 && room > 0 ==> given == if unused
        / cpus_online(before) < room {
        unused / cpus_online(before)
    } else {
        room
    }
}

proof fn online_are_counted(all: Seq<RtLane>, n: int)
    requires
        0 <= n <= all.len(),
    ensures
        online_count(all, n) == all.take(n).filter(|lane: RtLane| lane.online).len(),
    decreases n,
{
    reveal(Seq::filter);
    if n > 0 {
        online_are_counted(all, n - 1);
        assert(all.take(n).drop_last() =~= all.take(n - 1));
    }
}

proof fn given_agrees(before: Seq<RtLane>, one: Seq<RtLane>, other: Seq<RtLane>, receiver: int, n: int)
    requires
        forall|i: int| 0 <= i < n && i != receiver ==> #[trigger] one[i] == other[i],
    ensures
        given_away(before, one, receiver, n) == given_away(before, other, receiver, n),
    decreases n,
{
    if n > 0 {
        given_agrees(before, one, other, receiver, n - 1);
    }
}

proof fn borrowing_goes_by_share(all: Seq<RtLane>, receiver: int, period_ns: u64, n: int)
    requires
        0 <= receiver < all.len(),
        0 <= n <= all.len(),
        cpus_online(all) > 0,
    ensures
        ({
            let after = borrowed(all, receiver, period_ns, cpus_online(all), n);
            &&& after.len() == all.len()
            &&& same_but_runtime(after[receiver], all[receiver])
            &&& after[receiver].rt.runtime_ns == all[receiver].rt.runtime_ns + given_away(
                all,
                after,
                receiver,
                n,
            )
            &&& forall|i: int|
                0 <= i < n && i != receiver ==> #[trigger] gives_its_share(
                    all,
                    after,
                    receiver,
                    period_ns,
                    i,
                )
            &&& forall|i: int|
                n <= i < all.len() && i != receiver ==> #[trigger] after[i] == all[i]
        }),
    decreases n,
{
    if n > 0 {
        let span = cpus_online(all);
        let before = borrowed(all, receiver, period_ns, span, n - 1);
        let after = borrowed(all, receiver, period_ns, span, n);
        borrowing_goes_by_share(all, receiver, period_ns, n - 1);
        let donor = n - 1;
        let share = before[donor].rt.spare() as int / span;
        assert(0 <= share <= before[donor].rt.spare()) by (nonlinear_arith)
            requires
                share == before[donor].rt.spare() as int / span,
                span > 0,
                before[donor].rt.spare() >= 0,
        ;
        given_agrees(all, before, after, receiver, n - 1);
        assert forall|i: int| 0 <= i < n && i != receiver implies #[trigger] gives_its_share(
            all,
            after,
            receiver,
            period_ns,
            i,
        ) by {
            if i < n - 1 {
                assert(gives_its_share(all, before, receiver, period_ns, i));
                given_agrees(all, before, after, receiver, i);
                assert(after[i] == before[i]);
            } else {
                assert(before[i] == all[i]);
            }
        }
    }
}

/// A CPU that needs more real-time runtime borrows from the others: each that
/// is online and limited gives its share of what it has not used, as long as
/// the receiver has room in its period; nobody else gives anything, what is
/// given is what arrives, and nobody's use or throttling changes.
pub proof fn quota_is_shared_evenly(all: Seq<RtLane>, receiver: int, period_ns: u64)
    requires
        0 <= receiver < all.len(),
    ensures
        ({
            let after = balanced(all, receiver, period_ns);
            &&& after.len() == all.len()
            &&& forall|i: int|
                0 <= i < all.len() && i != receiver ==> #[trigger] gives_its_share(
                    all,
                    after,
                    receiver,
                    period_ns,
                    i,
                )
            &&& same_but_runtime(after[receiver], all[receiver])
            &&& after[receiver].rt.runtime_ns == all[receiver].rt.runtime_ns + given_away(
                all,
                after,
                receiver,
                all.len() as int,
            )
        }),
{
    let n = all.len() as int;
    assert(all.take(n) =~= all);
    online_are_counted(all, n);
    let after = balanced(all, receiver, period_ns);
    if cpus_online(all) > 0 {
        borrowing_goes_by_share(all, receiver, period_ns, n);
    } else {
        nothing_given(all, all, receiver, n);
    }
    assert forall|i: int| 0 <= i < all.len() && i != receiver implies #[trigger] gives_its_share(
        all,
        after,
        receiver,
        period_ns,
        i,
    ) by {
        if all[i].online {
            online_is_counted(all, i);
        }
    }
}

proof fn online_is_counted(all: Seq<RtLane>, i: int)
    requires
        0 <= i < all.len(),
        all[i].online,
    ensures
        cpus_online(all) > 0,
    decreases all.len(),
{
    reveal(Seq::filter);
    if i < all.len() - 1 {
        assert(all.drop_last()[i] == all[i]);
        online_is_counted(all.drop_last(), i);
    }
}

/// In a round of lending, whoever is off or not limited keeps its quota, nobody
/// is left with less than it has used, and whoever has at least as much unused
/// as there are CPUs gives something while there is room for it.
pub proof fn lenders_keep_what_they_need(all: Seq<RtLane>, receiver: int, period_ns: u64, i: int)
    requires
        0 <= receiver < all.len(),
        0 <= i < all.len(),
        i != receiver,
    ensures
        ({
            let after = balanced(all, receiver, period_ns);
            let unused = all[i].rt.runtime_ns - all[i].rt.time_ns;
            &&& !all[i].online ==> after[i] == all[i]
            &&& !all[i].rt.enabled ==> after[i] == all[i]
            &&& unused <= 0 ==> after[i] == all[i]
            &&& unused > 0 ==> all[i].rt.time_ns <= after[i].rt.runtime_ns
                <= all[i].rt.runtime_ns
            &&& all[i].online && all[i].rt.enabled && unused >= cpus_online(all)
                && after[receiver].rt.runtime_ns < period_ns ==> after[i].rt.runtime_ns
                < all[i].rt.runtime_ns
            &&& after[receiver].rt.runtime_ns >= all[receiver].rt.runtime_ns
            &&& all[receiver].rt.runtime_ns >= period_ns ==> after[i] == all[i]
            &&& all[receiver].rt.runtime_ns <= period_ns ==> after[receiver].rt.runtime_ns
                <= period_ns
        }),
{
    quota_is_shared_evenly(all, receiver, period_ns);
    let n = all.len() as int;
    let after = balanced(all, receiver, period_ns);
    assert(gives_its_share(all, after, receiver, period_ns, i));
    giving_grows(all, after, receiver, period_ns, i, n);
    giving_grows(all, after, receiver, period_ns, 0, n);
    giving_grows(all, after, receiver, period_ns, 0, i);
    giving_grows(all, after, receiver, period_ns, i + 1, n);
    if all[i].online {
        online_is_counted(all, i);
        shares_are_parts(all, i);
    }
}

proof fn shares_are_parts(all: Seq<RtLane>, i: int)
    requires
        0 <= i < all.len(),
        cpus_online(all) > 0,
    ensures
        ({
            let unused = all[i].rt.runtime_ns - all[i].rt.time_ns;
            &&& unused >= 0 ==> 0 <= unused / cpus_online(all) <= unused
            &&& unused >= cpus_online(all) ==> unused / cpus_online(all) > 0
        }),
{
    let unused = all[i].rt.runtime_ns - all[i].rt.time_ns;
    let span = cpus_online(all);
    assert((unused >= 0 ==> 0 <= unused / span <= unused) && (unused >= span ==> unused / span > 0))
        by (nonlinear_arith)
        requires
            span > 0,
    ;
}

proof fn giving_grows(all: Seq<RtLane>, after: Seq<RtLane>, receiver: int, period_ns: u64, n: int, m: int)
    requires
        0 <= receiver < all.len(),
        0 <= n <= all.len(),
        0 <= m <= all.len(),
        forall|i: int|
            0 <= i < all.len() && i != receiver ==> #[trigger] gives_its_share(
                all,
                after,
                receiver,
                period_ns,
                i,
            ),
    ensures
        n <= m ==> given_away(all, after, receiver, n) <= given_away(all, after, receiver, m),
        all[receiver].rt.runtime_ns <= period_ns && n <= m ==> all[receiver].rt.runtime_ns
            + given_away(all, after, receiver, n) <= period_ns ==> all[receiver].rt.runtime_ns
            + given_away(all, after, receiver, m) <= period_ns,
        all[receiver].rt.runtime_ns >= period_ns && n <= m ==> given_away(all, after, receiver, n)
            == given_away(all, after, receiver, m) || given_away(all, after, receiver, n) < 0,
    decreases m,
{
    if n < m {
        giving_grows(all, after, receiver, period_ns, n, m - 1);
        giving_grows(all, after, receiver, period_ns, 0, m - 1);
        if m - 1 != receiver {
            assert(gives_its_share(all, after, receiver, period_ns, m - 1));
            if all[m - 1].online {
                online_is_counted(all, m - 1);
                shares_are_parts(all, m - 1);
            }
        }
    }
}

/// Real-time runtime is charged to the CPU that used it, and to no other. It
/// borrows only when it has used more than its quota, and is throttled if what
/// it could borrow is still not enough.
pub proof fn realtime_use_is_charged(all: Seq<RtLane>, cpu: int, runtime_ns: u64, period_ns: u64, i: int)
    requires
        0 <= cpu < all.len(),
        0 <= i < all.len(),
        i != cpu,
        all[cpu].rt.time_ns + runtime_ns <= u64::MAX,
    ensures
        ({
            let after = RootDomain::charged_lanes(all, cpu, runtime_ns, period_ns);
            let used = all[cpu].rt.time_ns + runtime_ns;
            &&& after.len() == all.len()
            &&& after[cpu].online == all[cpu].online && after[cpu].rt.enabled == all[cpu].rt.enabled
            &&& !all[cpu].rt.enabled ==> after == all
            &&& all[cpu].rt.enabled ==> after[cpu].rt.time_ns == used
            &&& all[cpu].rt.enabled ==> after[cpu].rt.throttled == (all[cpu].rt.throttled || used
                > after[cpu].rt.runtime_ns)
            &&& all[cpu].rt.enabled && used <= all[cpu].rt.runtime_ns ==> after[i] == all[i]
                && after[cpu].rt.runtime_ns == all[cpu].rt.runtime_ns
            &&& all[cpu].rt.enabled && used > all[cpu].rt.runtime_ns ==> gives_its_share(
                all,
                after,
                cpu,
                period_ns,
                i,
            )
            &&& all[cpu].rt.enabled ==> after[cpu].rt.runtime_ns == all[cpu].rt.runtime_ns
                + given_away(all, after, cpu, all.len() as int)
            &&& after[i].rt.time_ns == all[i].rt.time_ns && after[i].rt.throttled
                == all[i].rt.throttled
        }),
{
    let n = all.len() as int;
    let counted = all.update(
        cpu,
        RtLane { rt: RootDomain::accounted(all[cpu].rt, runtime_ns), ..all[cpu] },
    );
    let after = RootDomain::charged_lanes(all, cpu, runtime_ns, period_ns);
    assert(!all[cpu].rt.enabled ==> after =~= all);
    let lent = balanced(counted, cpu, period_ns);
    quota_is_shared_evenly(counted, cpu, period_ns);
    assert(gives_its_share(counted, lent, cpu, period_ns, i));
    online_stay(all, counted);
    given_after_update(all, counted, lent, cpu, i);
    given_after_update(all, counted, lent, cpu, n);
    if counted[cpu].rt.enabled && counted[cpu].rt.time_ns > counted[cpu].rt.runtime_ns {
        given_agrees(all, lent, after, cpu, i);
        given_agrees(all, lent, after, cpu, n);
    }
    nothing_given(all, after, cpu, n);
}

proof fn nothing_given(all: Seq<RtLane>, after: Seq<RtLane>, cpu: int, n: int)
    ensures
        (forall|j: int| 0 <= j < n && j != cpu ==> #[trigger] after[j] == all[j]) ==> given_away(
            all,
            after,
            cpu,
            n,
        ) == 0,
    decreases n,
{
    if n > 0 {
        nothing_given(all, after, cpu, n - 1);
    }
}

proof fn online_stay(one: Seq<RtLane>, other: Seq<RtLane>)
    requires
        one.len() == other.len(),
        forall|i: int| 0 <= i < one.len() ==> (#[trigger] one[i]).online == other[i].online,
    ensures
        cpus_online(one) == cpus_online(other),
    decreases one.len(),
{
    reveal(Seq::filter);
    if one.len() > 0 {
        assert forall|i: int| 0 <= i < one.len() - 1 implies (
        #[trigger] one.drop_last()[i]).online == other.drop_last()[i].online by {
            assert(one[i].online == other[i].online);
        }
        online_stay(one.drop_last(), other.drop_last());
        assert(one[one.len() - 1].online == other[one.len() - 1].online);
    }
}

proof fn given_after_update(all: Seq<RtLane>, counted: Seq<RtLane>, lent: Seq<RtLane>, cpu: int, n: int)
    requires
        0 <= n <= all.len(),
        all.len() == counted.len(),
        forall|j: int| 0 <= j < all.len() && j != cpu ==> #[trigger] counted[j] == all[j],
    ensures
        given_away(counted, lent, cpu, n) == given_away(all, lent, cpu, n),
    decreases n,
{
    if n > 0 {
        given_after_update(all, counted, lent, cpu, n - 1);
        if n - 1 != cpu {
            assert(counted[n - 1] == all[n - 1]);
        }
    }
}

/// With every period that passes a CPU may use its quota once more: its use
/// shrinks by its quota for each, and a throttled CPU runs again as soon as it
/// has used less than its quota.
pub proof fn periods_replenish(rt: RtRunQueueBandwidth, overruns: u64)
    ensures
        ({
            let after = rt.replenished(overruns);
            &&& after.enabled == rt.enabled && after.runtime_ns == rt.runtime_ns
            &&& rt.time_ns <= overruns * rt.runtime_ns ==> after.time_ns == 0
            &&& rt.time_ns > overruns * rt.runtime_ns ==> after.time_ns + overruns * rt.runtime_ns
                == rt.time_ns
            &&& after.throttled ==> rt.throttled && after.time_ns >= rt.runtime_ns
            &&& rt.throttled && after.time_ns >= rt.runtime_ns ==> after.throttled
            &&& overruns == 1 && rt.time_ns < 2 * rt.runtime_ns && rt.runtime_ns > 0
                ==> !after.throttled
        }),
{
    assert(overruns * rt.runtime_ns == rt.runtime_ns * overruns) by (nonlinear_arith);
}

/// Two periods that are served one after the other count like two at once,
/// except that one that finds nothing to pay off is lost.
pub proof fn periods_count_once(rt: RtRunQueueBandwidth, one: u64, other: u64)
    requires
        one + other <= u64::MAX,
    ensures
        rt.replenished(one).replenished(other).time_ns == rt.replenished((one + other) as u64).time_ns,
{
    let r = rt.runtime_ns as int;
    assert(r * (one + other) == r * one + r * other) by (nonlinear_arith);
    assert(r * one >= 0 && r * other >= 0) by (nonlinear_arith)
        requires
            r >= 0,
    ;
}

/// A quota that is moved changes by just that much, down to nothing and up to
/// the end of the clock; whoever has used more than is left is throttled.
pub proof fn moved_quotas_throttle(rt: RtRunQueueBandwidth, delta: int)
    ensures
        ({
            let after = rt.adjusted(delta);
            &&& after.enabled == rt.enabled && after.time_ns == rt.time_ns
            &&& 0 <= rt.runtime_ns + delta <= MONOTONIC_MAX_NS ==> after.runtime_ns == rt.runtime_ns
                + delta
            &&& rt.runtime_ns + delta <= 0 ==> after.runtime_ns == 0
            &&& rt.runtime_ns + delta >= MONOTONIC_MAX_NS ==> after.runtime_ns == MONOTONIC_MAX_NS
            &&& rt.enabled && rt.time_ns > after.runtime_ns ==> after.throttled
            &&& after.throttled && !rt.throttled ==> rt.enabled && rt.time_ns > after.runtime_ns
            &&& rt.throttled ==> after.throttled
        }),
{
}

/// When the period ends, a CPU that is online and has used its quota, or has
/// real-time threads, gets it back; a CPU that was throttled first borrows. Any
/// other CPU keeps its use and its throttling.
pub proof fn period_ends_serve_users(all: Seq<RtLane>, runnable: Seq<bool>, i: int, other: int, overruns: u64, period_ns: u64)
    requires
        0 <= i < all.len(),
        0 <= other < all.len(),
        other != i,
        runnable.len() == all.len(),
    ensures
        ({
            let after = served(all, runnable, i, overruns, period_ns);
            let used = all[i].rt.time_ns;
            &&& after.len() == all.len()
            &&& !all[i].online ==> after == all
            &&& used == 0 && !runnable[i] ==> after == all
            &&& all[i].online && (used > 0 || runnable[i]) ==> {
                let quota = after[i].rt.runtime_ns;
                &&& after[i].rt.time_ns == if used > quota * overruns {
                    used - quota * overruns
                } else {
                    0
                }
                &&& after[i].rt.throttled == (all[i].rt.throttled && after[i].rt.time_ns >= quota)
                &&& !all[i].rt.throttled ==> quota == all[i].rt.runtime_ns
                &&& quota >= all[i].rt.runtime_ns
            }
            &&& same_but_runtime(after[other], all[other])
            &&& !all[i].rt.throttled ==> after[other] == all[other]
            &&& !all[other].online ==> after[other] == all[other]
        }),
{
    if all[i].online {
        quota_is_shared_evenly(all, i, period_ns);
        lenders_keep_what_they_need(all, i, period_ns, other);
        assert(gives_its_share(all, balanced(all, i, period_ns), i, period_ns, other));
    }
}

/// CPUs that are off are left alone when the period ends.
pub proof fn offline_quotas_are_kept(all: Seq<RtLane>, runnable: Seq<bool>, overruns: u64, period_ns: u64, n: int, i: int)
    requires
        0 <= i < all.len(),
        0 <= n <= all.len(),
        runnable.len() == all.len(),
    ensures
        ({
            let after = served_until(all, runnable, overruns, period_ns, n);
            &&& after.len() == all.len()
            &&& after[i].online == all[i].online
            &&& after[i].rt.enabled == all[i].rt.enabled
            &&& !all[i].online ==> after[i] == all[i]
            &&& i >= n ==> same_but_runtime(after[i], all[i])
        }),
    decreases n,
{
    if n > 0 {
        let before = served_until(all, runnable, overruns, period_ns, n - 1);
        offline_quotas_are_kept(all, runnable, overruns, period_ns, n - 1, i);
        offline_quotas_are_kept(all, runnable, overruns, period_ns, n - 1, n - 1);
        if i != n - 1 {
            period_ends_serve_users(before, runnable, n - 1, i, overruns, period_ns);
        } else if before[i].online {
            quota_is_shared_evenly(before, i, period_ns);
        }
    }
}

/// A CPU resumes its real-time threads at the end of a period exactly when it
/// has some, was throttled, and is no more.
pub proof fn throttled_threads_resume(all: Seq<RtLane>, runnable: Seq<bool>, overruns: u64, period_ns: u64, i: int)
    requires
        0 <= i < all.len(),
        runnable.len() == all.len(),
    ensures
        resumes(all, runnable, overruns, period_ns, i) ==> runnable[i] && all[i].rt.throttled
            && all[i].online,
        ({
            let after = served_until(all, runnable, overruns, period_ns, i + 1)[i].rt;
            &&& resumes(all, runnable, overruns, period_ns, i) ==> !after.throttled
            &&& runnable[i] && all[i].rt.throttled && !after.throttled ==> resumes(
                all,
                runnable,
                overruns,
                period_ns,
                i,
            )
            &&& all[i].rt.throttled && all[i].online && runnable[i] && after.time_ns
                < after.runtime_ns ==> resumes(all, runnable, overruns, period_ns, i)
        }),
{
    offline_quotas_are_kept(all, runnable, overruns, period_ns, i, i);
    let before = served_until(all, runnable, overruns, period_ns, i);
    assert(served_until(all, runnable, overruns, period_ns, i + 1) == served(
        before,
        runnable,
        i,
        overruns,
        period_ns,
    ));
    if before[i].online {
        quota_is_shared_evenly(before, i, period_ns);
    }
    assert(passed_over(before, runnable, i) == (!all[i].online || (all[i].rt.time_ns == 0
        && !runnable[i])));
}

/// What the quotas of all CPUs but one add up to.
pub open spec fn others_hold(all: Seq<RtLane>, leaving: int, n: int) -> int
    decreases n,
{
    if n <= 0 {
        0
    } else {
        others_hold(all, leaving, n - 1) + if n - 1 == leaving {
            0
        } else {
            all[n - 1].rt.runtime_ns as int
        }
    }
}

/// When a CPU leaves, the others give back what it had lent them, or take what
/// it had borrowed: what they lose is what it gets. Whoever is off or not
/// limited is left alone. Nothing is left open unless nobody has anything more
/// to give.
pub proof fn loans_are_settled(all: Seq<RtLane>, leaving: int, want: int, n: int)
    requires
        0 <= leaving < all.len(),
        0 <= n <= all.len(),
        0 <= want <= MONOTONIC_MAX_NS,
        forall|i: int| 0 <= i < all.len() ==> (#[trigger] all[i]).rt.runtime_ns <= MONOTONIC_MAX_NS,
    ensures
        ({
            let (after, left) = reclaimed(all, leaving, want, n);
            &&& after.len() == all.len()
            &&& 0 <= left <= want
            &&& others_hold(all, leaving, n) - others_hold(after, leaving, n) == want - left
            &&& after[leaving] == all[leaving]
            &&& forall|i: int|
                0 <= i < all.len() ==> (#[trigger] after[i]).rt.time_ns == all[i].rt.time_ns
                    && after[i].online == all[i].online && after[i].rt.enabled == all[i].rt.enabled
                    && after[i].rt.runtime_ns <= all[i].rt.runtime_ns
            &&& forall|i: int|
                0 <= i < all.len() && (!all[i].online || !all[i].rt.enabled || i >= n)
                    ==> #[trigger] after[i] == all[i]
            &&& left > 0 ==> forall|i: int|
                0 <= i < n && i != leaving && all[i].online && all[i].rt.enabled ==> (
                #[trigger] after[i]).rt.runtime_ns == 0
        }),
    decreases n,
{
    if n > 0 {
        loans_are_settled(all, leaving, want, n - 1);
        let before = reclaimed(all, leaving, want, n - 1).0;
        let after = reclaimed(all, leaving, want, n).0;
        holding_agrees(before, after, leaving, n - 1);
        assert(before[n - 1] == all[n - 1] || n - 1 == leaving);
        assert(all[n - 1].rt.runtime_ns <= MONOTONIC_MAX_NS);
    }
}

proof fn holding_agrees(one: Seq<RtLane>, other: Seq<RtLane>, leaving: int, n: int)
    requires
        forall|i: int| 0 <= i < n ==> #[trigger] one[i] == other[i],
    ensures
        others_hold(one, leaving, n) == others_hold(other, leaving, n),
    decreases n,
{
    if n > 0 {
        holding_agrees(one, other, leaving, n - 1);
    }
}

/// A CPU that leaves with more than it brought hands all of the rest to the
/// first CPU that is online and limited.
pub proof fn surpluses_are_handed_on(all: Seq<RtLane>, leaving: int, want: int, n: int)
    requires
        0 <= leaving < all.len(),
        0 <= n <= all.len(),
        want < 0,
    ensures
        ({
            let (after, left) = reclaimed(all, leaving, want, n);
            &&& after.len() == all.len()
            &&& (left == want && after == all && forall|i: int|
                0 <= i < n && i != leaving ==> !((#[trigger] all[i]).online && all[i].rt.enabled))
                || (left == 0 && exists|i: int|
                0 <= i < n && i != leaving && (#[trigger] all[i]).online && all[i].rt.enabled
                    && after == all.update(
                    i,
                    RtLane { rt: all[i].rt.adjusted(-want), ..all[i] },
                ) && forall|j: int|
                    0 <= j < i && j != leaving ==> !((#[trigger] all[j]).online
                        && all[j].rt.enabled))
        }),
    decreases n,
{
    if n > 0 {
        surpluses_are_handed_on(all, leaving, want, n - 1);
    }
}

/// A Deadline thread may be anywhere: its reservation counts only where it may
/// run on every CPU that is online, and it is the share of the CPU that it asks
/// for. Nobody else reserves anything.
pub proof fn reservations_cover_all_cpus(domain: RootDomain, policy: SchedulePolicy, affinity: &crate::ids::CpuSet)
    ensures
        !(policy is Deadline) ==> domain.reservation_of(policy, affinity) == Ok::<
            u64,
            crate::error::TaskError,
        >(0),
        policy is Deadline && !(forall|cpu: CpuId| domain.online.has(cpu) ==> #[trigger] affinity.has(cpu))
            ==> domain.reservation_of(policy, affinity) is Err,
        policy is Deadline && (forall|cpu: CpuId| domain.online.has(cpu) ==> #[trigger] affinity.has(cpu))
            ==> domain.reservation_of(policy, affinity) is Ok,
{
}

/// A reservation that is exchanged for another frees, on every CPU, its part of
/// the one and takes its part of the other; what is free stays within bounds.
pub proof fn exchanges_cancel_out(extra: u64, old: int, new: int, max: u64)
    requires
        extra <= max,
        old >= 0,
        new >= 0,
    ensures
        exchanged(extra, old, old, max) == extra,
        old >= new ==> exchanged(extra, old, new, max) >= extra,
        old <= new ==> exchanged(extra, old, new, max) <= extra,
        new <= extra ==> exchanged(exchanged(extra, 0, new, max), new, 0, max) == extra,
        new - old <= extra && extra + old - new <= max ==> exchanged(extra, old, new, max) - extra
            == old - new,
        exchanged(extra, old, new, max) <= max,
{
}

/// Only CPUs that are online carry a part of a reservation.
pub proof fn reservations_are_spread(domain: RootDomain, after: Seq<CpuLocal>, before: Seq<CpuLocal>, old: u64, new: u64, i: int)
    requires
        domain.exchanged_on(after, before, old, new),
        0 <= i < before.len(),
        before[i].remote.deadline_extra_bw_scaled <= domain.deadline_max_bw_scaled,
    ensures
        after.len() == before.len(),
        !domain.online.has(before[i].remote.owner) ==> after[i] == before[i],
        old == new ==> after[i].remote.deadline_extra_bw_scaled
            == before[i].remote.deadline_extra_bw_scaled,
        ({
            let count = domain.online.size() as int;
            let free = before[i].remote.deadline_extra_bw_scaled;
            count > 0 && domain.online.has(before[i].remote.owner) && old == 0 && new as int / count
                <= free ==> after[i].remote.deadline_extra_bw_scaled == free - new as int / count
        }),
        after[i].remote.run_queue == before[i].remote.run_queue,
{
    let count = domain.online.size() as int;
    if count > 0 {
        assert(0int / count == 0) by (nonlinear_arith)
            requires
                count > 0,
        ;
        assert(old as int / count >= 0 && new as int / count >= 0) by (nonlinear_arith)
            requires
                count > 0,
        ;
    }
}

/// After the topology has changed, what is distributed is missing on the CPUs
/// that are online, and nothing is missing on the others.
pub proof fn rebuilding_starts_anew(domain: RootDomain, after: Seq<CpuLocal>, before: Seq<CpuLocal>, rebuild: DeadlineBandwidthRebuild, i: int)
    requires
        domain.rebuilt_on(after, before, rebuild),
        0 <= i < before.len(),
        rebuild.distributed_scaled <= domain.deadline_max_bw_scaled,
    ensures
        domain.online.has(before[i].remote.owner) ==> after[i].remote.deadline_extra_bw_scaled
            + rebuild.distributed_scaled == domain.deadline_max_bw_scaled,
        !domain.online.has(before[i].remote.owner) ==> after[i].remote.deadline_extra_bw_scaled
            == domain.deadline_max_bw_scaled,
        after[i].remote.run_queue == before[i].remote.run_queue,
{
}

/// The period starts when the first real-time thread becomes ready, ends one
/// period later, and stays as it is while it runs. Every activation is told
/// apart from the one before.
pub proof fn the_period_starts_once(domain: RootDomain, cpu: CpuId, now: MonotonicInstant)
    requires
        now.ns + domain.rt.period_ns <= MONOTONIC_MAX_NS,
    ensures
        ({
            let after = domain.rt_activated(cpu, now);
            let running = domain.rt.enabled && domain.rt.generation < u64::MAX;
            &&& !running ==> after == domain
            &&& running ==> after.rt.generation == domain.rt.generation + 1
            &&& running && domain.rt.deadline is None ==> after.rt.owner == Some(cpu)
                && after.rt.deadline is Some && after.rt.deadline->0.ns == now.ns
                + domain.rt.period_ns
            &&& domain.rt.deadline is Some ==> after.rt.owner == domain.rt.owner
                && after.rt.deadline == domain.rt.deadline
            &&& after.rt.period_ns == domain.rt.period_ns && after.rt.runtime_ns
                == domain.rt.runtime_ns && after.admission == domain.admission && after.online
                == domain.online
            &&& domain.rt_activated_if(false, cpu, now) == domain
            &&& domain.rt_activated_if(true, cpu, now) == after
        }),
{
}

} // verus!
