//! What the classes promise: how threads are ranked, what service costs them,
//! and who runs next.
use vstd::prelude::*;
use crate::scheduler::deadline::{DeadlineRunQueue, deadline_record};
use crate::scheduler::entity::{
    DeadlineEntity, EnqueueReason, FairCarry, FairEntity, SchedulingEntity, inflated, scaled,
};
use crate::scheduler::fair::{all_fair, fair_choice, fair_of, mean_time, moment, weight_sum};
use crate::scheduler::policy::{
    DEADLINE_UTILIZATION_SCALE, DeadlineAdmission, DeadlinePolicy, FairMode, Nice, SchedulePolicy,
    nice_weight,
};
use crate::scheduler::realtime::{RT_PRIORITY_LEVELS, RealtimeRunQueue};
use crate::scheduler::run_queue::{QueueMembershipClass, RtEligibility, RunQueue};
use crate::scheduler::task::{
    PickedThread, QueuedThread, QueuedThreadSnapshot, ahead, due, first_due,
    first_due_is_a_minimum, first_due_is_admitted,
};
use crate::time::{circular_distance, circular_offset};

verus! {

/// A step of niceness costs between a sixth and a fifth of a thread's weight;
/// a thread that is not nice at all weighs as much as the unit, and one that
/// runs only when nobody else wants to weighs less than any other.
pub proof fn niceness_costs_weight(nice: int)
    requires
        -20 <= nice < 19,
    ensures
        120 * nice_weight(nice + 1) <= 100 * nice_weight(nice) <= 128 * nice_weight(nice + 1),
        nice_weight(nice) > nice_weight(nice + 1) > 3,
        nice_weight(0) == 1024,
        (SchedulePolicy::Fair { nice: (Nice { value: 0 }), mode: FairMode::Normal }).load() == 1024,
        (SchedulePolicy::Fair { nice: (Nice { value: nice as i8 }), mode: FairMode::Idle }).load()
            == 3,
{
}

/// The load of a thread is what it competes with: nothing for a stopper, the
/// weight of its niceness for a fair thread, and one unit for any other.
pub proof fn loads_follow_policies(policy: SchedulePolicy)
    requires
        policy.valid(),
    ensures
        policy.load() == policy.fair_load() + policy.fixed_load(),
        policy is KernelStop <==> policy.load() == 0,
        policy is Fair <==> policy.fair_load() > 0,
        policy is Deadline || policy is Fifo || policy is RoundRobin ==> policy.load() == 1024
            && policy.fixed_load() == 1024,
        policy is Fair ==> policy.fixed_load() == 0,
{
}

/// The classes rank in one order: stoppers, Deadline threads, real-time
/// threads, fair threads, and those that run only when nobody else wants to.
pub proof fn classes_rank_in_order(a: SchedulePolicy, b: SchedulePolicy)
    ensures
        a is KernelStop && !(b is KernelStop) ==> a.class().rank() < b.class().rank(),
        a is Deadline && !(b is KernelStop || b is Deadline) ==> a.class().rank()
            < b.class().rank(),
        (a is Fifo || a is RoundRobin) && b is Fair ==> a.class().rank() < b.class().rank(),
        (a is Fifo || a is RoundRobin) && (b is Fifo || b is RoundRobin) ==> a.class() == b.class(),
        a is Fair && b is Fair && a->mode != FairMode::Idle && b->mode == FairMode::Idle
            ==> a.class().rank() < b.class().rank(),
        a is Fair && b is Fair && (a->mode == FairMode::Idle) == (b->mode == FairMode::Idle)
            ==> a.class() == b.class(),
{
}

/// A Deadline policy that makes sense asks for some time, for no more than its
/// deadline leaves, and has its deadline within its period. Its share of a CPU
/// grows with its runtime, shrinks with its period, and is at most all of it.
pub proof fn deadline_shares_are_fair(a: DeadlinePolicy, b: DeadlinePolicy)
    requires
        a.valid(),
        b.valid(),
    ensures
        0 < a.runtime_ns <= a.deadline_ns <= a.period_ns,
        0 <= a.utilization() <= 1_000_000_000,
        a.runtime_ns == a.period_ns ==> a.utilization() == 1_000_000_000,
        a.utilization() * a.period_ns <= a.runtime_ns * 1_000_000_000 < (a.utilization() + 1)
            * a.period_ns,
        a.runtime_ns <= b.runtime_ns && a.period_ns >= b.period_ns ==> a.utilization()
            <= b.utilization(),
{
    let x = a.runtime_ns * 1_000_000_000;
    let p = a.period_ns as int;
    let y = b.runtime_ns * 1_000_000_000;
    let q = b.period_ns as int;
    let u = x / p;
    let v = y / q;
    vstd::arithmetic::div_mod::lemma_fundamental_div_mod(x, p);
    vstd::arithmetic::div_mod::lemma_fundamental_div_mod(y, q);
    assert(u * p <= x < (u + 1) * p) by (nonlinear_arith)
        requires
            x == p * u + x % p,
            0 <= x % p < p,
    ;
    assert(v * q <= y < (v + 1) * q) by (nonlinear_arith)
        requires
            y == q * v + y % q,
            0 <= y % q < q,
    ;
    assert(0 <= u <= 1_000_000_000) by (nonlinear_arith)
        requires
            u * p <= x < (u + 1) * p,
            0 <= x <= p * 1_000_000_000,
            p > 0,
    ;
    if a.runtime_ns == a.period_ns {
        assert(u == 1_000_000_000) by (nonlinear_arith)
            requires
                u * p <= x < (u + 1) * p,
                x == p * 1_000_000_000,
                p > 0,
        ;
    }
    if a.runtime_ns <= b.runtime_ns && a.period_ns >= b.period_ns {
        assert(u <= v) by (nonlinear_arith)
            requires
                u * p <= x,
                y < (v + 1) * q,
                x <= y,
                p >= q,
                q > 0,
                u >= 0,
        ;
    }
}

/// All CPUs together can promise their number times the cap, in percent of one
/// CPU each.
pub proof fn capacity_is_the_cap_of_every_cpu(admission: DeadlineAdmission, more: DeadlineAdmission)
    requires
        admission.wf(),
        more == (DeadlineAdmission { online_cpus: (admission.online_cpus + 1) as u32, ..admission }),
        admission.online_cpus < u32::MAX,
    ensures
        admission.online_cpus == 0 ==> admission.capacity() == 0,
        more.capacity() - admission.capacity() == admission.cap_percent * 10_000_000,
{
    let per_cpu = admission.cap_percent * DEADLINE_UTILIZATION_SCALE / 100;
    assert(per_cpu == admission.cap_percent * 10_000_000);
    assert((admission.online_cpus + 1) * per_cpu == admission.online_cpus * per_cpu + per_cpu)
        by (nonlinear_arith);
    assert(0 * per_cpu == 0);
}

/// How urgent a thread is, is decided by its class first. Among Deadline
/// threads the earlier deadline counts, among real-time threads the higher
/// priority, and among fair threads the lower niceness.
pub proof fn urgency_follows_the_policy(a: SchedulePolicy, b: SchedulePolicy, x: SchedulingEntity, y: SchedulingEntity)
    requires
        a.valid(),
        b.valid(),
        x.serves(a),
        y.serves(b),
    ensures
        ({
            let first = x.urgency(a).before(y.urgency(b));
            &&& a is KernelStop ==> first == !(b is KernelStop)
            &&& b is KernelStop ==> !first
            &&& a is Deadline && !(b is Deadline || b is KernelStop) ==> first
            &&& a is Deadline && b is Deadline && x->Deadline_0.absolute_deadline is Some
                && y->Deadline_0.absolute_deadline is Some ==> first == (circular_distance(
                x->Deadline_0.absolute_deadline->0,
                y->Deadline_0.absolute_deadline->0,
            ) < 0)
            &&& (a is Fifo || a is RoundRobin) && b is Fair ==> first
            &&& a is Fair && !(b is Fair) ==> !first
            &&& (a is Fifo || a is RoundRobin) && b is Deadline ==> !first
            &&& a is Fifo && b is Fifo ==> first == (a->Fifo_priority.value
                > b->Fifo_priority.value)
            &&& a is Fifo && b is RoundRobin ==> first == (a->Fifo_priority.value
                > b->RoundRobin_priority.value)
            &&& a is RoundRobin && b is Fifo ==> first == (a->RoundRobin_priority.value
                > b->Fifo_priority.value)
            &&& a is RoundRobin && b is RoundRobin ==> first == (a->RoundRobin_priority.value
                > b->RoundRobin_priority.value)
            &&& a is Fair && b is Fair && a->mode != FairMode::Idle && b->mode != FairMode::Idle
                ==> first == (a->nice.value < b->nice.value)
            &&& a is Fair && b is Fair && a->mode != FairMode::Idle && b->mode == FairMode::Idle
                ==> first
            &&& a is Fair && b is Fair && a->mode == FairMode::Idle && b->mode != FairMode::Idle
                ==> !first
        }),
{
}

/// Service costs a fair thread virtual time in inverse proportion to its
/// weight: of two threads that start together and are served alike, the heavier
/// one falls behind no more than the lighter, and a thread of the unit weight
/// pays exactly what it got.
pub proof fn heavier_threads_pay_less(a: FairEntity, b: FairEntity, served: int)
    requires
        a.wf(),
        b.wf(),
        a.weight >= b.weight,
        a.vruntime == b.vruntime,
        0 <= served,
        served * 1024 < 0x8000_0000_0000_0000,
    ensures
        ({
            let x = circular_distance(a.charged(served).vruntime, a.vruntime);
            let y = circular_distance(b.charged(served).vruntime, b.vruntime);
            &&& 0 <= x <= y
            &&& x * a.weight <= served * 1024 < (x + 1) * a.weight
            &&& a.weight == 1024 ==> x == served
        }),
{
    let n = served * 1024;
    let w = a.weight as int;
    let v = b.weight as int;
    let x = n / w;
    let y = n / v;
    vstd::arithmetic::div_mod::lemma_fundamental_div_mod(n, w);
    vstd::arithmetic::div_mod::lemma_fundamental_div_mod(n, v);
    assert(0 <= x && x * w <= n < (x + 1) * w && x <= n) by (nonlinear_arith)
        requires
            n == w * x + n % w,
            0 <= n % w < w,
            n >= 0,
            w >= 1,
    ;
    assert(0 <= y && y * v <= n < (y + 1) * v && y <= n) by (nonlinear_arith)
        requires
            n == v * y + n % v,
            0 <= n % v < v,
            n >= 0,
            v >= 1,
    ;
    assert(x <= y) by (nonlinear_arith)
        requires
            x * w <= n,
            n < (y + 1) * v,
            w >= v,
            v >= 1,
            x >= 0,
    ;
    crate::time::circular_distance_inverts_offset(a.vruntime, x);
    crate::time::circular_distance_inverts_offset(b.vruntime, y);
    if w == 1024 {
        assert(x == served) by (nonlinear_arith)
            requires
                x * 1024 <= served * 1024 < (x + 1) * 1024,
        ;
    }
}

/// A request is used up by as much service as was asked for, in however many
/// pieces it comes.
pub proof fn requests_are_used_up(entity: FairEntity, first: int, second: int)
    requires
        first >= 0,
        second >= 0,
    ensures
        entity.charged(first).charged(second).remaining_request_ns == entity.charged(
            first + second,
        ).remaining_request_ns,
        first <= entity.remaining_request_ns ==> entity.charged(first).remaining_request_ns + first
            == entity.remaining_request_ns,
        first >= entity.remaining_request_ns <==> entity.charged(first).remaining_request_ns == 0,
{
}

/// What is charged ends a thread's turn exactly when its request, quantum or
/// budget is used up; first-in-first-out threads and stoppers have no end.
pub proof fn turns_end_when_used_up(entity: SchedulingEntity, runtime_ns: u64, reclaimed_ns: u64)
    ensures
        ({
            let over = entity.charged(runtime_ns, 0, reclaimed_ns).expired();
            &&& entity is Fair ==> over == (runtime_ns >= entity->Fair_0.remaining_request_ns)
            &&& entity is RoundRobin ==> over == (runtime_ns >= entity->remaining_quantum_ns)
            &&& entity is Deadline ==> over == (if runtime_ns > reclaimed_ns {
                runtime_ns - reclaimed_ns
            } else {
                0
            } >= entity->Deadline_0.remaining_runtime_ns)
            &&& entity is Fifo || entity is KernelStop ==> !over
        }),
{
}

/// A thread that slept is owed what it was owed: it wakes eligible if and only
/// if it did not leave with more than its share. Its new deadline is one slice
/// ahead, in its own virtual time.
pub proof fn sleepers_keep_their_lag(entity: FairEntity, lag: i64, virtual_time: u64, load: u64)
    requires
        entity.wf(),
        entity.carry == (FairCarry::Sleeping { lag }),
        load > 0,
        -0x4000_0000_0000 <= lag <= 0x4000_0000_0000,
        entity.slice_ns < 0x10_0000_0000_0000,
    ensures
        ({
            let woken = entity.placed(EnqueueReason::Wake, virtual_time, load);
            let owed = circular_distance(virtual_time, woken.vruntime);
            &&& lag >= 0 <==> owed >= 0
            &&& lag == 0 ==> owed == 0
            &&& lag > 0 ==> owed >= lag
            &&& lag < 0 ==> owed <= lag
            &&& circular_distance(woken.virtual_deadline, woken.vruntime) * entity.weight
                <= entity.slice_ns * 1024
            &&& entity.slice_ns * 1024 < (circular_distance(
                woken.virtual_deadline,
                woken.vruntime,
            ) + 1) * entity.weight
            &&& woken.remaining_request_ns == entity.slice_ns
        }),
{
    let woken = entity.placed(EnqueueReason::Wake, virtual_time, load);
    let w = entity.weight as int;
    let l = load as int;
    let size = if lag >= 0 {
        lag as int
    } else {
        -(lag as int)
    };
    let n = size * (l + w);
    let q = n / l;
    vstd::arithmetic::div_mod::lemma_fundamental_div_mod(n, l);
    assert(size <= q) by (nonlinear_arith)
        requires
            n == l * q + n % l,
            0 <= n % l < l,
            n == size * (l + w),
            size >= 0,
            w > 0,
            l > 0,
    ;
    assert(q <= size * (1 + w)) by (nonlinear_arith)
        requires
            n == l * q + n % l,
            0 <= n % l < l,
            n == size * (l + w),
            size >= 0,
            w > 0,
            l > 0,
    ;
    assert(size * (1 + w) <= 0x4000_0000_0000 * 88762) by (nonlinear_arith)
        requires
            0 <= size <= 0x4000_0000_0000,
            0 < w <= 88761,
    ;
    assert(size == 0 ==> q == 0) by (nonlinear_arith)
        requires
            q <= size * (1 + w),
            q >= size,
            size >= 0,
    ;
    let owed = inflated(lag as int, l, w);
    assert(owed == if lag >= 0 {
        q
    } else {
        -q
    });
    crate::time::circular_distance_of_step_back(virtual_time, owed);
    let span = entity.slice_ns * 1024 / w;
    vstd::arithmetic::div_mod::lemma_fundamental_div_mod(entity.slice_ns * 1024, w);
    assert(0 <= span && span * w <= entity.slice_ns * 1024 < (span + 1) * w && span
        <= entity.slice_ns * 1024) by (nonlinear_arith)
        requires
            entity.slice_ns * 1024 == w * span + entity.slice_ns * 1024 % w,
            0 <= entity.slice_ns * 1024 % w < w,
            w >= 1,
            entity.slice_ns >= 0,
    ;
    crate::time::circular_distance_inverts_offset(woken.vruntime, span);
}

/// A new thread starts where its queue stands and asks for half a slice first,
/// so that it neither waits for long nor crowds out those that wait already.
pub proof fn newcomers_start_at_the_virtual_time(entity: FairEntity, virtual_time: u64, load: u64)
    requires
        entity.wf(),
        entity.carry is Fresh,
        entity.slice_ns < 0x10_0000_0000_0000,
    ensures
        ({
            let placed = entity.placed(EnqueueReason::Wake, virtual_time, load);
            let settled = (FairEntity { carry: FairCarry::Resident, ..entity }).placed(
                EnqueueReason::Wake,
                virtual_time,
                load,
            );
            let first = circular_distance(placed.virtual_deadline, placed.vruntime);
            let full = circular_distance(settled.virtual_deadline, settled.vruntime);
            &&& placed.vruntime == virtual_time
            &&& 0 <= 2 * first <= full <= 2 * first + 1
            &&& full * entity.weight <= entity.slice_ns * 1024 < (full + 1) * entity.weight
            &&& placed.remaining_request_ns == entity.slice_ns
        }),
{
    let w = entity.weight as int;
    let n = entity.slice_ns * 1024;
    let span = n / w;
    vstd::arithmetic::div_mod::lemma_fundamental_div_mod(n, w);
    assert(0 <= span && span * w <= n < (span + 1) * w && span <= n) by (nonlinear_arith)
        requires
            n == w * span + n % w,
            0 <= n % w < w,
            w >= 1,
            n >= 0,
    ;
    crate::time::circular_distance_inverts_offset(virtual_time, span);
    crate::time::circular_distance_inverts_offset(virtual_time, span / 2);
}

/// A thread that yields gives up the rest of its request: it goes on from its
/// deadline, and its next deadline is a slice later.
pub proof fn yielding_forfeits_the_request(entity: FairEntity, virtual_time: u64, load: u64)
    requires
        entity.wf(),
        entity.slice_ns < 0x10_0000_0000_0000,
    ensures
        ({
            let yielded = entity.placed(EnqueueReason::Yield, virtual_time, load);
            let later = circular_distance(yielded.virtual_deadline, entity.virtual_deadline);
            &&& yielded.vruntime == entity.virtual_deadline
            &&& later * entity.weight <= entity.slice_ns * 1024 < (later + 1) * entity.weight
            &&& yielded.remaining_request_ns == entity.slice_ns
        }),
{
    let w = entity.weight as int;
    let n = entity.slice_ns * 1024;
    let span = n / w;
    vstd::arithmetic::div_mod::lemma_fundamental_div_mod(n, w);
    assert(0 <= span && span * w <= n < (span + 1) * w && span <= n) by (nonlinear_arith)
        requires
            n == w * span + n % w,
            0 <= n % w < w,
            w >= 1,
            n >= 0,
    ;
    crate::time::circular_distance_inverts_offset(entity.virtual_deadline, span);
}

/// A thread whose niceness changes keeps what it is owed in real time: its lag
/// times its weight stays the same, but for rounding.
pub proof fn reweighting_keeps_what_is_owed(entity: FairEntity, nice: Nice, mode: FairMode, source: u64, destination: u64)
    requires
        entity.wf(),
        nice.valid(),
        -0x8000_0000_0000 <= circular_distance(source, entity.vruntime) <= 0x8000_0000_0000,
    ensures
        ({
            let next = entity.reconfigured(nice, mode, source, destination);
            let before = circular_distance(source, entity.vruntime) * entity.weight;
            let after = circular_distance(destination, next.vruntime) * next.weight;
            &&& next.nice == nice
            &&& next.mode == mode
            &&& next.weight == if mode == FairMode::Idle {
                3
            } else {
                nice_weight(nice.value as int)
            }
            &&& before >= 0 ==> 0 <= after <= before < after + next.weight
            &&& before <= 0 ==> 0 >= after >= before > after - next.weight
            &&& next.slice_ns == entity.slice_ns
            &&& next.remaining_request_ns == entity.remaining_request_ns
        }),
{
    let next = entity.reconfigured(nice, mode, source, destination);
    let lag = circular_distance(source, entity.vruntime);
    let w = entity.weight as int;
    let v = next.weight as int;
    let size = if lag >= 0 {
        lag
    } else {
        -lag
    };
    let n = size * w;
    let q = n / v;
    vstd::arithmetic::div_mod::lemma_fundamental_div_mod(n, v);
    assert(0 <= n <= 0x8000_0000_0000 * 88761) by (nonlinear_arith)
        requires
            0 <= size <= 0x8000_0000_0000,
            0 < w <= 88761,
            n == size * w,
    ;
    assert(0 <= q <= n && q * v <= n < (q + 1) * v) by (nonlinear_arith)
        requires
            n == v * q + n % v,
            0 <= n % v < v,
            v >= 1,
            n >= 0,
    ;
    let kept = if lag >= 0 {
        q
    } else {
        -q
    };
    assert(lag >= 0 ==> lag * w == n);
    assert(lag < 0 ==> lag * w == -n) by (nonlinear_arith)
        requires
            lag < 0 ==> size == -lag,
            n == size * w,
    ;
    assert((-q) * v == -(q * v)) by (nonlinear_arith);
    assert((q + 1) * v == q * v + v) by (nonlinear_arith);
    assert(kept == scaled(lag, w, v));
    crate::time::circular_distance_of_step_back(destination, kept);
}

/// A Deadline thread gets the time that it reserved and no more: what is
/// charged leaves its budget, and when nothing is left it is throttled.
pub proof fn deadline_budgets_are_enforced(entity: DeadlineEntity, served: int)
    requires
        entity.wf(),
        !entity.throttled,
        entity.absolute_deadline is Some,
        served >= 0,
    ensures
        ({
            let after = entity.charged(served);
            &&& served < entity.remaining_runtime_ns ==> after.remaining_runtime_ns + served
                == entity.remaining_runtime_ns && !after.throttled
            &&& served >= entity.remaining_runtime_ns ==> after.remaining_runtime_ns == 0
                && after.throttled
            &&& after.absolute_deadline == entity.absolute_deadline
            &&& after.policy == entity.policy
        }),
{
}

/// A throttled Deadline thread that wakes stays throttled until its next period
/// begins, one period after the last one began, and then starts afresh.
pub proof fn throttled_threads_wait_for_their_period(entity: DeadlineEntity, now: u64)
    requires
        entity.wf(),
        entity.throttled,
    ensures
        ({
            let start = circular_offset(
                entity.absolute_deadline->0,
                entity.policy.period_ns - entity.policy.deadline_ns,
            );
            let woken = entity.activated(now);
            &&& circular_distance(now, start) < 0 ==> woken == entity
            &&& circular_distance(now, start) >= 0 ==> !woken.throttled
                && woken.remaining_runtime_ns == entity.policy.runtime_ns
                && woken.absolute_deadline == Some(
                circular_offset(now, entity.policy.deadline_ns as int),
            )
        }),
{
}

/// A Deadline thread that wakes keeps its deadline only if what is left of its
/// budget until then does not exceed its share; else it starts afresh, with its
/// whole budget and a deadline of its own.
pub proof fn wakeups_do_not_steal_bandwidth(entity: DeadlineEntity, now: u64)
    requires
        entity.wf(),
        !entity.throttled,
        entity.absolute_deadline is Some,
    ensures
        ({
            let left = circular_distance(entity.absolute_deadline->0, now);
            let woken = entity.activated(now);
            let fits = circular_distance(now, entity.absolute_deadline->0) < 0
                && entity.remaining_runtime_ns * entity.policy.deadline_ns <= left
                * entity.policy.runtime_ns;
            &&& fits ==> woken == entity
            &&& !fits ==> woken.remaining_runtime_ns == entity.policy.runtime_ns
                && woken.absolute_deadline == Some(
                circular_offset(now, entity.policy.deadline_ns as int),
            ) && !woken.throttled
        }),
{
}

/// Replenishing gives a full budget and a deadline one period later, or one
/// that starts now if that has passed as well.
pub proof fn replenishing_starts_the_next_period(entity: DeadlineEntity, now: u64)
    requires
        entity.wf(),
        entity.absolute_deadline is Some,
    ensures
        ({
            let next = circular_offset(
                entity.absolute_deadline->0,
                entity.policy.period_ns as int,
            );
            let after = entity.replenished(now);
            &&& after.remaining_runtime_ns == entity.policy.runtime_ns
            &&& !after.throttled
            &&& after.absolute_deadline == Some(
                if circular_distance(next, now) < 0 {
                    circular_offset(now, entity.policy.deadline_ns as int)
                } else {
                    next
                },
            )
        }),
{
}

/// The share of a sleeping Deadline thread is in use until the instant at which
/// its budget would have been used up at its own rate.
pub proof fn bandwidth_is_held_until_zero_lag(entity: DeadlineEntity)
    requires
        entity.wf(),
        entity.absolute_deadline is Some,
    ensures
        ({
            let ahead = circular_distance(entity.absolute_deadline->0, entity.zero_lag());
            &&& 0 <= ahead <= entity.policy.period_ns
            &&& ahead * entity.policy.runtime_ns <= entity.remaining_runtime_ns
                * entity.policy.period_ns < (ahead + 1) * entity.policy.runtime_ns
        }),
{
    let n = entity.remaining_runtime_ns * entity.policy.period_ns;
    let r = entity.policy.runtime_ns as int;
    let p = entity.policy.period_ns as int;
    let q = n / r;
    vstd::arithmetic::div_mod::lemma_fundamental_div_mod(n, r);
    assert(0 <= q <= p && q * r <= n < (q + 1) * r) by (nonlinear_arith)
        requires
            n == r * q + n % r,
            0 <= n % r < r,
            n == entity.remaining_runtime_ns * p,
            0 <= entity.remaining_runtime_ns <= r,
            p >= 0,
    ;
    crate::time::circular_distance_of_step_back(entity.absolute_deadline->0, q);
}

/// The classes run strictly in order, and within the fair ones ordinary work
/// comes first: what is selected is of the first class that has anybody, where
/// real-time threads count only while their class may run.
pub proof fn selection_goes_by_class(before: RunQueue, after: RunQueue, eligibility: RtEligibility, picked: PickedThread, p: u8)
    requires
        before.wf(),
        after.picks(&before, eligibility, Some(picked)),
        1 <= p <= 99,
    ensures
        ({
            let policy = match picked {
                PickedThread::Linked(snapshot) => snapshot.policy,
                PickedThread::Owned(thread) => thread.active.policy,
            };
            let stop = before.stop is Some;
            let deadline = before.deadline.entries@.len() > 0;
            let rt = eligibility == RtEligibility::Runnable && before.rt.level(p).len() > 0;
            let fair = before.fair.entries@.len() > 0;
            &&& stop ==> policy is KernelStop
            &&& !stop && deadline ==> policy is Deadline
            &&& !stop && !deadline && rt ==> policy is Fifo || policy is RoundRobin
            &&& eligibility == RtEligibility::Throttled ==> !(policy is Fifo || policy is RoundRobin)
            &&& !stop && !deadline && eligibility == RtEligibility::Throttled && fair ==> policy is Fair
                && policy->mode != FairMode::Idle
            &&& policy is Fair && policy->mode == FairMode::Idle ==> !stop && !deadline && !rt
                && !fair
            &&& policy is Fair && policy->mode != FairMode::Idle ==> !stop && !deadline && !rt
        }),
{
    reveal(RunQueue::picks);
    reveal(RealtimeRunQueue::occupied);
    if before.rt.level(p).len() > 0 {
        assert(before.rt.levels@[p - 1]@.len() > 0);
        assert(before.has_rt_thread());
    }
    if before.stop is Some {
        assert(before.record_ok(QueueMembershipClass::Stop, 0));
    } else if before.deadline.entries@.len() > 0 {
        assert(before.record_ok(
            QueueMembershipClass::Deadline,
            before.deadline.choice()->0,
        ));
    } else if eligibility == RtEligibility::Runnable && before.has_rt_thread() {
        let q = choose|q: u8| #![trigger before.rt.level(q)]
            1 <= q <= 99 && before.rt.level(q).len() > 0 && picked == PickedThread::Linked(
                before.rt.level(q)[0].snapshot(),
            );
        assert(before.record_ok(QueueMembershipClass::Realtime(q), 0));
    } else if before.fair.entries@.len() > 0 {
        let now = mean_time(before.fair.entries@, before.fair.virtual_time, None);
        let at = fair_choice(before.fair.entries@, now)->0;
        assert(before.record_ok(QueueMembershipClass::Fair, at));
    } else {
        let now = mean_time(before.idle_fair.entries@, before.idle_fair.virtual_time, None);
        let at = fair_choice(before.idle_fair.entries@, now)->0;
        assert(before.record_ok(QueueMembershipClass::IdleFair, at));
    }
}

/// Of the real-time threads the one of the highest priority is selected, and of
/// several such threads the one that is first in line.
pub proof fn realtime_runs_by_priority(before: RunQueue, after: RunQueue, eligibility: RtEligibility, snapshot: QueuedThreadSnapshot, q: u8, j: int)
    requires
        before.wf(),
        after.picks(&before, eligibility, Some(PickedThread::Linked(snapshot))),
        snapshot.policy is Fifo || snapshot.policy is RoundRobin,
        1 <= q <= 99,
        0 <= j < before.rt.level(q).len(),
    ensures
        ({
            let chosen = match snapshot.policy {
                SchedulePolicy::Fifo { priority } => priority.value,
                SchedulePolicy::RoundRobin { priority, .. } => priority.value,
                _ => 0,
            };
            let other = match before.rt.level(q)[j].active.policy {
                SchedulePolicy::Fifo { priority } => priority.value,
                SchedulePolicy::RoundRobin { priority, .. } => priority.value,
                _ => 0,
            };
            &&& other == q
            &&& other <= chosen
            &&& other == chosen ==> before.rt.level(q)[0].id == snapshot.id
        }),
{
    reveal(RunQueue::picks);
    assert(before.record_ok(QueueMembershipClass::Realtime(q), j));
    if before.stop is None && before.deadline.entries@.len() > 0 {
        assert(before.record_ok(
            QueueMembershipClass::Deadline,
            before.deadline.choice()->0,
        ));
    } else {
        let p = choose|p: u8| #![trigger before.rt.level(p)]
            1 <= p <= 99 && before.rt.level(p).len() > 0 && snapshot == before.rt.level(p)[0].snapshot()
                && forall|i: int|
                p <= i < RT_PRIORITY_LEVELS ==> (#[trigger] before.rt.levels@[i])@.len() == 0;
        assert(before.record_ok(QueueMembershipClass::Realtime(p), 0));
        if q > p {
            assert(before.rt.levels@[q - 1]@.len() == 0);
        }
    }
}

/// A real-time thread that becomes runnable goes behind all that wait at its
/// priority; one that was preempted goes ahead of them.
pub proof fn realtime_queues_in_turn(before: RunQueue, after: RunQueue, entry: QueuedThread, reason: EnqueueReason, current: Option<FairEntity>)
    requires
        after.enqueued(&before, entry, reason, current),
        entry.active.policy is Fifo || entry.active.policy is RoundRobin,
    ensures
        ({
            let p = match entry.active.policy {
                SchedulePolicy::Fifo { priority } => priority.value,
                SchedulePolicy::RoundRobin { priority, .. } => priority.value,
                _ => 0,
            };
            let was = before.rt.level(p);
            let now = after.rt.level(p);
            &&& now.len() == was.len() + 1
            &&& reason == EnqueueReason::Preempted ==> now[0].id == entry.id && now.skip(1) == was
            &&& reason != EnqueueReason::Preempted ==> now.last().id == entry.id && now.drop_last()
                == was
        }),
{
    let p = match entry.active.policy {
        SchedulePolicy::Fifo { priority } => priority.value,
        SchedulePolicy::RoundRobin { priority, .. } => priority.value,
        _ => 0,
    };
    let was = before.rt.level(p);
    let now = after.rt.level(p);
    assert(now == after.list_of(QueueMembershipClass::Realtime(p)));
    if reason == EnqueueReason::Preempted {
        assert(now.skip(1) =~= was);
    } else {
        assert(now.drop_last() =~= was);
    }
}

/// Whether two fair deadlines, or two Deadline ones, are close enough on the
/// circle of the counter to be compared.
pub open spec fn comparable(list: Seq<QueuedThread>, base: u64) -> bool {
    forall|i: int|
        0 <= i < list.len() ==> -0x4000_0000_0000_0000 <= circular_distance(
            deadline_of(#[trigger] list[i]),
            base,
        ) < 0x4000_0000_0000_0000
}

/// The deadline by which a queued thread is to be served.
pub open spec fn deadline_of(thread: QueuedThread) -> u64 {
    match thread.active.inherited {
        Some(SchedulingEntity::Fair(fair)) => fair.virtual_deadline,
        Some(SchedulingEntity::Deadline(server)) => server.absolute_deadline->0,
        Some(_) => 0,
        None => match thread.active.base_entity {
            SchedulingEntity::Fair(fair) => fair.virtual_deadline,
            SchedulingEntity::Deadline(server) => server.absolute_deadline->0,
            _ => 0,
        },
    }
}

/// If some fair thread has had no more than its share, one such thread is
/// chosen.
pub proof fn fair_picks_are_eligible(list: Seq<QueuedThread>, virtual_time: u64, i: int)
    requires
        0 <= i < list.len(),
        circular_distance(virtual_time, fair_of(list[i]).vruntime) >= 0,
    ensures
        fair_choice(list, virtual_time) matches Some(c) && 0 <= c < list.len() && circular_distance(
            virtual_time,
            fair_of(list[c]).vruntime,
        ) >= 0,
{
    let test = |t: QueuedThread| fair_of(t).eligible(virtual_time);
    let mask = Seq::new(list.len(), |j: int| test(list[j]));
    first_due_is_admitted(list, mask, list.len() as int);
    assert(mask[i]);
}

/// Of the fair threads that have had no more than their share, none has an
/// earlier virtual deadline than the one that is chosen, and of equal ones the
/// one that came first is.
pub proof fn fair_picks_are_the_earliest(list: Seq<QueuedThread>, virtual_time: u64, base: u64, i: int)
    requires
        all_fair(list),
        comparable(list, base),
        0 <= i < list.len(),
        circular_distance(virtual_time, fair_of(list[i]).vruntime) >= 0,
    ensures
        fair_choice(list, virtual_time) matches Some(c) && 0 <= c < list.len() && {
            let earlier = circular_distance(
                fair_of(list[i]).virtual_deadline,
                fair_of(list[c]).virtual_deadline,
            );
            earlier >= 0 && (earlier == 0 ==> list[c].sequence <= list[i].sequence)
        },
{
    let test = |t: QueuedThread| fair_of(t).eligible(virtual_time);
    let mask = Seq::new(list.len(), |j: int| test(list[j]));
    let n = list.len() as int;
    first_due_is_admitted(list, mask, n);
    assert(mask[i]);
    assert forall|j: int| 0 <= j < list.len() implies -0x4000_0000_0000_0000 <= circular_distance(
        due(#[trigger] list[j]),
        base,
    ) < 0x4000_0000_0000_0000 by {
        assert(list[j].entity() is Fair);
        assert(due(list[j]) == deadline_of(list[j]));
    }
    first_due_is_a_minimum(list, mask, n, base, i);
    let c = first_due(list, mask, n)->0;
    assert(list[i].entity() is Fair && list[c].entity() is Fair);
    assert(!ahead(list[i], list[c]));
}

/// What the fair class runs next is eligible whenever anybody is, at the
/// virtual time to which the class has moved.
pub proof fn fair_threads_run_when_eligible(before: RunQueue, after: RunQueue, eligibility: RtEligibility, thread: QueuedThread, i: int)
    requires
        before.wf(),
        after.picks(&before, eligibility, Some(PickedThread::Owned(thread))),
        thread.active.policy is Fair,
        thread.active.policy->mode != FairMode::Idle,
        0 <= i < before.fair.entries@.len(),
        circular_distance(after.fair.virtual_time, fair_of(before.fair.entries@[i]).vruntime) >= 0,
    ensures
        circular_distance(after.fair.virtual_time, fair_of(thread).vruntime) >= 0,
{
    reveal(RunQueue::picks);
    if before.stop is Some {
        assert(before.record_ok(QueueMembershipClass::Stop, 0));
    }
    fair_picks_are_eligible(before.fair.entries@, after.fair.virtual_time, i);
}

/// Of the Deadline threads none has an earlier deadline than the one that is
/// chosen, and of equal ones the one that came first is.
pub proof fn deadline_picks_are_the_earliest(queue: DeadlineRunQueue, base: u64, i: int)
    requires
        queue.wf(),
        comparable(queue.entries@, base),
        0 <= i < queue.entries@.len(),
    ensures
        queue.choice() matches Some(c) && 0 <= c < queue.entries@.len() && {
            let earlier = circular_distance(
                deadline_of(queue.entries@[i]),
                deadline_of(queue.entries@[c]),
            );
            earlier >= 0 && (earlier == 0 ==> queue.entries@[c].sequence
                <= queue.entries@[i].sequence)
        },
{
    let list = queue.entries@;
    let test = |t: QueuedThread| true;
    let mask = Seq::new(list.len(), |j: int| test(list[j]));
    let n = list.len() as int;
    first_due_is_admitted(list, mask, n);
    assert(mask[i]);
    assert forall|j: int| 0 <= j < list.len() implies -0x4000_0000_0000_0000 <= circular_distance(
        due(#[trigger] list[j]),
        base,
    ) < 0x4000_0000_0000_0000 by {
        assert(deadline_record(list[j]));
        assert(due(list[j]) == deadline_of(list[j]));
    }
    first_due_is_a_minimum(list, mask, n, base, i);
    let c = first_due(list, mask, n)->0;
    assert(deadline_record(list[i]) && deadline_record(list[c]));
    assert(!ahead(list[i], list[c]));
}

/// What all of some threads together are owed at an instant of virtual time.
pub open spec fn total_lag(list: Seq<QueuedThread>, virtual_time: u64) -> int
    decreases list.len(),
{
    if list.len() == 0 {
        0
    } else {
        total_lag(list.drop_last(), virtual_time) + circular_distance(
            virtual_time,
            fair_of(list.last()).vruntime,
        ) * fair_of(list.last()).weight
    }
}

/// What all of some threads weigh together.
pub open spec fn total_weight(list: Seq<QueuedThread>) -> int
    decreases list.len(),
{
    if list.len() == 0 {
        0
    } else {
        total_weight(list.drop_last()) + fair_of(list.last()).weight
    }
}

proof fn lag_at_an_offset(list: Seq<QueuedThread>, base: u64, q: int)
    requires
        -0x4000_0000_0000_0000 <= q < 0x4000_0000_0000_0000,
        forall|i: int|
            0 <= i < list.len() ==> -0x4000_0000_0000_0000 <= circular_distance(
                fair_of(#[trigger] list[i]).vruntime,
                base,
            ) < 0x4000_0000_0000_0000,
    ensures
        total_lag(list, circular_offset(base, q)) == q * weight_sum(list) - moment(list, base),
        total_weight(list) == weight_sum(list),
    decreases list.len(),
{
    if list.len() > 0 {
        let rest = list.drop_last();
        let last = fair_of(list.last());
        assert(list.last() == list[list.len() - 1]);
        assert forall|i: int| 0 <= i < rest.len() implies -0x4000_0000_0000_0000 <= circular_distance(
            fair_of(#[trigger] rest[i]).vruntime,
            base,
        ) < 0x4000_0000_0000_0000 by {
            assert(rest[i] == list[i]);
        }
        lag_at_an_offset(rest, base, q);
        let d = circular_distance(last.vruntime, base);
        let w = last.weight as int;
        crate::time::circular_distance_composes(base, last.vruntime, q);
        assert((q - d) * w == q * w - w * d) by (nonlinear_arith);
        assert(q * (weight_sum(rest) + w) == q * weight_sum(rest) + q * w) by (nonlinear_arith);
    } else {
        assert(q * 0 == 0);
    }
}

/// Virtual time is where nobody is owed anything on the whole: what some of the
/// queued threads and the running one are owed, the others have had too much,
/// but for less than a unit of virtual time in all.
pub proof fn virtual_time_balances_the_lags(list: Seq<QueuedThread>, base: u64, current: Option<FairEntity>)
    requires
        all_fair(list),
        list.len() > 0,
        current matches Some(entity) ==> entity.wf() && -0x4000_0000_0000_0000
            <= circular_distance(entity.vruntime, base) < 0x4000_0000_0000_0000,
        forall|i: int|
            0 <= i < list.len() ==> -0x4000_0000_0000_0000 <= circular_distance(
                fair_of(#[trigger] list[i]).vruntime,
                base,
            ) < 0x4000_0000_0000_0000,
    ensures
        ({
            let now = mean_time(list, base, current);
            let running = match current {
                Some(entity) => circular_distance(now, entity.vruntime) * entity.weight,
                None => 0,
            };
            let weight = total_weight(list) + match current {
                Some(entity) => entity.weight as int,
                None => 0,
            };
            -weight < total_lag(list, now) + running <= 0
        }),
{
    let quarter = 0x4000_0000_0000_0000int;
    crate::scheduler::fair::weight_sum_bounds(list);
    crate::scheduler::fair::moment_lower_bound(list, base, -quarter);
    crate::scheduler::fair::moment_upper_bound(list, base, quarter - 1);
    let own = weight_sum(list);
    let (cw, cd) = match current {
        Some(entity) => (entity.weight as int, circular_distance(entity.vruntime, base)),
        None => (0, 0),
    };
    let w = own + cw;
    let m = moment(list, base) + cw * cd;
    assert(-quarter * cw <= cw * cd <= (quarter - 1) * cw) by (nonlinear_arith)
        requires
            -quarter <= cd < quarter,
            quarter > 0,
            cw >= 0,
    ;
    assert(-quarter * w <= m <= (quarter - 1) * w) by (nonlinear_arith)
        requires
            w == own + cw,
            -quarter * own <= m - cw * cd <= (quarter - 1) * own,
            -quarter * cw <= cw * cd <= (quarter - 1) * cw,
    ;
    let q = m / w;
    vstd::arithmetic::div_mod::lemma_fundamental_div_mod(m, w);
    assert(-quarter <= q < quarter) by (nonlinear_arith)
        requires
            -quarter * w <= m <= (quarter - 1) * w,
            w > 0,
            m == w * q + m % w,
            0 <= m % w < w,
    ;
    lag_at_an_offset(list, base, q);
    if let Some(entity) = current {
        crate::time::circular_distance_composes(base, entity.vruntime, q);
    }
    assert((q - cd) * cw == q * cw - cw * cd) by (nonlinear_arith);
    assert(q * own + q * cw == q * w) by (nonlinear_arith)
        requires
            w == own + cw,
    ;
    assert(-w < q * w - m <= 0) by (nonlinear_arith)
        requires
            m == w * q + m % w,
            0 <= m % w < w,
    ;
}

} // verus!
