//! What fair threads keep when they sleep, move, go on or change their weight.
use vstd::prelude::*;
use crate::scheduler::entity::{
    EnqueueReason, FairCarry, FairEntity, SchedulingEntity, scaled,
};
use crate::scheduler::policy::{FairMode, Nice};
use crate::time::{circular_distance, circular_distance_inverts_offset};

verus! {

/// A thread keeps its lag over an absence, but no more of it than two requests
/// of its own are worth, or one step of the clock if that is longer.
pub proof fn lag_is_kept_within_bounds(entity: FairEntity, virtual_time: u64, granularity_ns: u64)
    requires
        entity.wf(),
        entity.slice_ns < 0x1_0000_0000_0000,
        granularity_ns < 0x1_0000_0000_0000,
    ensures
        ({
            let lag = circular_distance(virtual_time, entity.vruntime);
            let span = if 2 * entity.slice_ns >= granularity_ns {
                2 * entity.slice_ns
            } else {
                granularity_ns as int
            };
            let bound = span * 1024 / entity.weight as int;
            let kept = entity.kept_lag(virtual_time, granularity_ns);
            &&& -bound <= lag <= bound ==> kept == lag
            &&& lag > bound ==> kept == bound
            &&& lag < -bound ==> kept == -bound
            &&& SchedulingEntity::Fair(entity).asleep(virtual_time, granularity_ns) == (
            SchedulingEntity::Fair(
                FairEntity { carry: FairCarry::Sleeping { lag: kept as i64 }, ..entity },
            ))
            &&& SchedulingEntity::Fair(entity).in_transit(virtual_time, granularity_ns) == (
            SchedulingEntity::Fair(
                FairEntity {
                    carry: FairCarry::Migrating {
                        lag: kept as i64,
                        relative_deadline: circular_distance(
                            entity.virtual_deadline,
                            entity.vruntime,
                        ) as i64,
                    },
                    ..entity
                },
            ))
        }),
{
    let w = entity.weight as int;
    let span = if 2 * entity.slice_ns >= granularity_ns {
        2 * entity.slice_ns
    } else {
        granularity_ns as int
    };
    assert(0 <= span * 1024 / w <= span * 1024) by (nonlinear_arith)
        requires
            w >= 1,
            span >= 0,
    ;
}

/// A thread that arrives from another CPU has there what it was owed and as far
/// to go to its deadline as before; it goes on with its request. One that was
/// never placed keeps the time it was made with.
pub proof fn movers_keep_their_deadline(entity: FairEntity, virtual_time: u64, load: u64)
    ensures
        ({
            let arrived = entity.placed(EnqueueReason::Migrated, virtual_time, load);
            &&& entity.carry matches FairCarry::Migrating { lag, relative_deadline } ==> {
                &&& circular_distance(arrived.virtual_deadline, arrived.vruntime)
                    == relative_deadline
                &&& arrived.remaining_request_ns == entity.remaining_request_ns
                &&& load == 0 || lag == 0 ==> arrived.vruntime == virtual_time
            }
            &&& entity.carry == FairCarry::Fresh || entity.carry == FairCarry::Resident
                ==> arrived.vruntime == entity.vruntime && arrived.virtual_deadline
                == entity.virtual_deadline && arrived.remaining_request_ns
                == entity.remaining_request_ns
            &&& entity.carry != FairCarry::Fresh ==> arrived.carry == FairCarry::Resident
                || entity.carry == FairCarry::Resident
            &&& arrived.weight == entity.weight && arrived.nice == entity.nice && arrived.slice_ns
                == entity.slice_ns
        }),
{
    if let FairCarry::Migrating { lag, relative_deadline } = entity.carry {
        let arrived = entity.placed(EnqueueReason::Migrated, virtual_time, load);
        circular_distance_inverts_offset(arrived.vruntime, relative_deadline as int);
        if load > 0 && lag == 0 {
            assert(0 * (load + entity.weight) / (load as int) == 0) by (nonlinear_arith)
                requires
                    load > 0,
            ;
        }
    }
}

/// A thread that goes on keeps its time; it keeps its request and its deadline
/// too, unless the request is used up: then it makes the next one from where it
/// stands.
pub proof fn requests_follow_each_other(entity: FairEntity, reason: EnqueueReason, virtual_time: u64, load: u64)
    requires
        entity.wf(),
        entity.slice_ns < 0x10_0000_0000_0000,
        reason == EnqueueReason::Preempted || reason == EnqueueReason::Replenished || reason
            == EnqueueReason::PolicyChanged,
    ensures
        ({
            let next = entity.placed(reason, virtual_time, load);
            &&& next.vruntime == entity.vruntime
            &&& entity.remaining_request_ns > 0 ==> next.virtual_deadline == entity.virtual_deadline
                && next.remaining_request_ns == entity.remaining_request_ns
            &&& entity.remaining_request_ns == 0 ==> next.remaining_request_ns == entity.slice_ns
                && circular_distance(next.virtual_deadline, next.vruntime) == entity.slice_ns * 1024
                / entity.weight as int
            &&& next.carry == FairCarry::Resident
            &&& next.weight == entity.weight && next.slice_ns == entity.slice_ns
        }),
{
    let w = entity.weight as int;
    let span = entity.slice_ns * 1024 / w;
    assert(0 <= span <= entity.slice_ns * 1024) by (nonlinear_arith)
        requires
            w >= 1,
            span == entity.slice_ns * 1024 / w,
    ;
    circular_distance_inverts_offset(entity.vruntime, span);
}

/// A thread whose niceness changes keeps, in real time, what is left to its
/// deadline: the distance times its weight stays the same, but for rounding.
pub proof fn reweighting_keeps_what_is_left(entity: FairEntity, nice: Nice, mode: FairMode, source: u64, destination: u64)
    requires
        entity.wf(),
        nice.valid(),
        -0x8000_0000_0000 <= circular_distance(entity.virtual_deadline, entity.vruntime)
            <= 0x8000_0000_0000,
    ensures
        ({
            let next = entity.reconfigured(nice, mode, source, destination);
            let before = circular_distance(entity.virtual_deadline, entity.vruntime)
                * entity.weight;
            let after = circular_distance(next.virtual_deadline, next.vruntime) * next.weight;
            &&& before >= 0 ==> 0 <= after <= before < after + next.weight
            &&& before <= 0 ==> 0 >= after >= before > after - next.weight
        }),
{
    let next = entity.reconfigured(nice, mode, source, destination);
    let far = circular_distance(entity.virtual_deadline, entity.vruntime);
    let w = entity.weight as int;
    let v = next.weight as int;
    let size = if far >= 0 {
        far
    } else {
        -far
    };
    let n = size * w;
    let q = n / v;
    vstd::arithmetic::div_mod::lemma_fundamental_div_mod(n, v);
    assert(0 <= n <= 0x8000_0000_0000 * 88761) by (nonlinear_arith)
        requires
            0 <= size <= 0x8000_0000_0000,
            0 < w <= 88761,
            n == size * w,
    ;
    assert(0 <= q <= n && q * v <= n < (q + 1) * v) by (nonlinear_arith)
        requires
            n == v * q + n % v,
            0 <= n % v < v,
            v >= 1,
            n >= 0,
    ;
    let kept = if far >= 0 {
        q
    } else {
        -q
    };
    assert(far >= 0 ==> far * w == n);
    assert(far < 0 ==> far * w == -n) by (nonlinear_arith)
        requires
            far < 0 ==> size == -far,
            n == size * w,
    ;
    assert((-q) * v == -(q * v)) by (nonlinear_arith);
    assert((q + 1) * v == q * v + v) by (nonlinear_arith);
    assert(kept == scaled(far, w, v));
    circular_distance_inverts_offset(next.vruntime, kept);
    assert(circular_distance(next.virtual_deadline, next.vruntime) == kept);
}

} // verus!
