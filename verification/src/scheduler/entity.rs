//! Scheduling entities: the state by which a thread competes in its class.
use vstd::prelude::*;
use crate::scheduler::policy::{
    DeadlinePolicy, FairMode, IDLE_WEIGHT, MAX_WEIGHT, Nice, SchedulePolicy, nice_weight,
};
use crate::time::{
    circular_before, circular_distance, circular_distance_inverts_offset,
    circular_distance_of_step_back, circular_offset, wrapping_before, wrapping_distance,
    wrapping_offset,
};

verus! {

/// Why a thread enters a run queue.
#[derive(Clone, Copy, Debug, PartialEq, Eq, Structural)]
pub enum EnqueueReason {
    Wake,
    Yield,
    Preempted,
    Replenished,
    Migrated,
    PolicyChanged,
}

/// A wall span in virtual time: scaled by the nice-zero weight over `weight`.
pub open spec fn weighted(span: int, weight: int) -> int {
    span * 1024 / weight
}

/// `value * numerator / denominator`, rounded towards zero.
pub open spec fn scaled(value: int, numerator: int, denominator: int) -> int {
    if value >= 0 {
        value * numerator / denominator
    } else {
        -((-value) * numerator / denominator)
    }
}

pub open spec fn clamped(value: int, limit: int) -> int {
    if value > limit {
        limit
    } else if value < -limit {
        -limit
    } else {
        value
    }
}

/// Lag that survives joining a queue of `load`: the newcomer's own weight
/// would otherwise shrink it. An empty queue preserves none.
pub open spec fn inflated(lag: int, load: int, weight: int) -> int {
    if load <= 0 {
        0
    } else {
        scaled(lag, load + weight, load)
    }
}

pub(crate) fn advance(value: u64, span: u128) -> (result: u64)
    ensures
        result == circular_offset(value, span as int),
{
    let part: u64 = (span % 0x1_0000_0000_0000_0000) as u64;
    proof {
        vstd::arithmetic::div_mod::lemma_add_mod_noop_right(
            value as int,
            span as int,
            0x1_0000_0000_0000_0000,
        );
    }
    value.wrapping_add(part)
}

pub(crate) fn retreat(value: u64, span: u128) -> (result: u64)
    ensures
        result == circular_offset(value, -(span as int)),
{
    let part: u64 = (span % 0x1_0000_0000_0000_0000) as u64;
    proof {
        vstd::arithmetic::div_mod::lemma_sub_mod_noop_right(
            value as int,
            span as int,
            0x1_0000_0000_0000_0000,
        );
    }
    value.wrapping_sub(part)
}

fn magnitude(value: i64) -> (result: u64)
    ensures
        result == if value >= 0 {
            value as int
        } else {
            -(value as int)
        },
{
    if value >= 0 {
        value as u64
    } else {
        (-(value as i128)) as u64
    }
}

fn weighted_span(span: u128, weight: u32) -> (result: u128)
    requires
        span < 0x4_0000_0000_0000_0000,
        weight > 0,
    ensures
        result == weighted(span as int, weight as int),
{
    span * 1024 / (weight as u128)
}

/// Moves `value` by a scaled signed distance, forwards or backwards.
fn shift_scaled(value: u64, distance: i64, numerator: u64, denominator: u64, backwards: bool) -> (result: u64)
    requires
        denominator > 0,
    ensures
        result == circular_offset(
            value,
            if backwards {
                -scaled(distance as int, numerator as int, denominator as int)
            } else {
                scaled(distance as int, numerator as int, denominator as int)
            },
        ),
{
    let size: u64 = magnitude(distance);
    assert(0 <= size * numerator <= 0x8000_0000_0000_0000 * 0xffff_ffff_ffff_ffff)
        by (nonlinear_arith)
        requires
            0 <= size <= 0x8000_0000_0000_0000,
            0 <= numerator <= 0xffff_ffff_ffff_ffff,
    ;
    let span: u128 = (size as u128) * (numerator as u128) / (denominator as u128);
    if (distance >= 0) != backwards {
        advance(value, span)
    } else {
        retreat(value, span)
    }
}

/// What a fair entity carries between two stays on a run queue.
#[derive(Clone, Copy, Debug, PartialEq, Eq, Structural)]
pub enum FairCarry {
    /// Never placed.
    Fresh,
    /// Placed; virtual times are those of its run queue.
    Resident,
    /// Asleep with the lag it left with.
    Sleeping { lag: i64 },
    /// Between run queues, with its lag and its deadline relative to vruntime.
    Migrating { lag: i64, relative_deadline: i64 },
}

/// Earliest-eligible-virtual-deadline-first state of one thread.
#[derive(Clone, Copy, Debug, PartialEq, Eq, Structural)]
pub struct FairEntity {
    pub nice: Nice,
    pub mode: FairMode,
    pub weight: u32,
    pub slice_ns: u64,
    pub vruntime: u64,
    pub virtual_deadline: u64,
    pub remaining_request_ns: u64,
    pub carry: FairCarry,
}

/// Load weight of a fair thread.
pub open spec fn fair_weight(nice: Nice, mode: FairMode) -> u32 {
    if mode == FairMode::Idle {
        IDLE_WEIGHT
    } else {
        nice_weight(nice.value as int)
    }
}

fn weight_of(nice: Nice, mode: FairMode) -> (weight: u32)
    ensures
        weight == fair_weight(nice, mode),
        0 < weight <= MAX_WEIGHT,
{
    match mode {
        FairMode::Idle => IDLE_WEIGHT,
        FairMode::Normal | FairMode::Batch => nice.weight(),
    }
}

impl FairEntity {
    pub open spec fn wf(self) -> bool {
        &&& self.weight == fair_weight(self.nice, self.mode)
        &&& 0 < self.weight <= MAX_WEIGHT
    }

    /// Virtual length of one request.
    pub open spec fn virtual_slice(self) -> int {
        weighted(self.slice_ns as int, self.weight as int)
    }

    /// How far the entity lags behind (positive) or is ahead of (negative) a
    /// queue at `virtual_time`.
    pub open spec fn lag(self, virtual_time: u64) -> int {
        circular_distance(virtual_time, self.vruntime)
    }

    pub open spec fn lag_limit(self, granularity_ns: u64) -> int {
        let span = if 2 * self.slice_ns > granularity_ns {
            2 * self.slice_ns
        } else {
            granularity_ns as int
        };
        let limit = weighted(span, self.weight as int);
        if limit > i64::MAX {
            i64::MAX as int
        } else {
            limit
        }
    }

    /// Lag kept over an absence.
    pub open spec fn kept_lag(self, virtual_time: u64, granularity_ns: u64) -> int {
        clamped(self.lag(virtual_time), self.lag_limit(granularity_ns))
    }

    pub open spec fn eligible(self, virtual_time: u64) -> bool {
        self.lag(virtual_time) >= 0
    }

    pub open spec fn precedes(self, other: FairEntity) -> bool {
        circular_before(self.virtual_deadline, other.virtual_deadline)
    }

    /// A new request from `vruntime` on.
    pub open spec fn requesting(self, vruntime: u64, span: int) -> FairEntity {
        FairEntity {
            vruntime,
            virtual_deadline: circular_offset(vruntime, span),
            remaining_request_ns: self.slice_ns,
            carry: FairCarry::Resident,
            ..self
        }
    }

    /// Placement with a preserved relative deadline.
    pub open spec fn restored(self, virtual_time: u64, load: u64, lag: i64, relative_deadline: i64) -> FairEntity {
        let vruntime = circular_offset(
            virtual_time,
            -inflated(lag as int, load as int, self.weight as int),
        );
        FairEntity {
            vruntime,
            virtual_deadline: circular_offset(vruntime, relative_deadline as int),
            carry: FairCarry::Resident,
            ..self
        }
    }

    /// Placement of a woken entity.
    pub open spec fn woken(self, virtual_time: u64, load: u64) -> FairEntity {
        match self.carry {
            FairCarry::Fresh => self.requesting(virtual_time, self.virtual_slice() / 2),
            FairCarry::Resident => self.requesting(virtual_time, self.virtual_slice()),
            FairCarry::Sleeping { lag } => self.requesting(
                circular_offset(
                    virtual_time,
                    -inflated(lag as int, load as int, self.weight as int),
                ),
                self.virtual_slice(),
            ),
            FairCarry::Migrating { lag, relative_deadline } => self.restored(
                virtual_time,
                load,
                lag,
                relative_deadline,
            ),
        }
    }

    /// Placement of an entity that arrives from another run queue.
    pub open spec fn arrived(self, virtual_time: u64, load: u64) -> FairEntity {
        match self.carry {
            FairCarry::Fresh => FairEntity { carry: FairCarry::Resident, ..self },
            FairCarry::Resident => self,
            _ => self.woken(virtual_time, load),
        }
    }

    /// The request given up in favour of a later one.
    pub open spec fn yielded(self) -> FairEntity {
        self.requesting(self.virtual_deadline, self.virtual_slice())
    }

    /// The same request, or the next one once it has been served.
    pub open spec fn continued(self) -> FairEntity {
        if self.remaining_request_ns == 0 {
            self.requesting(self.vruntime, self.virtual_slice())
        } else {
            FairEntity { carry: FairCarry::Resident, ..self }
        }
    }

    /// Placement for every way into a run queue.
    pub open spec fn placed(self, reason: EnqueueReason, virtual_time: u64, load: u64) -> FairEntity {
        match reason {
            EnqueueReason::Wake => self.woken(virtual_time, load),
            EnqueueReason::Migrated => self.arrived(virtual_time, load),
            EnqueueReason::Yield => self.yielded(),
            EnqueueReason::Preempted | EnqueueReason::Replenished
            | EnqueueReason::PolicyChanged => self.continued(),
        }
    }

    /// State after `served` of execution.
    pub open spec fn charged(self, served: int) -> FairEntity {
        FairEntity {
            vruntime: circular_offset(self.vruntime, weighted(served, self.weight as int)),
            remaining_request_ns: if served < self.remaining_request_ns {
                (self.remaining_request_ns - served) as u64
            } else {
                0
            },
            ..self
        }
    }

    pub open spec fn reconfigured(self, nice: Nice, mode: FairMode, source: u64, destination: u64) -> FairEntity {
        let weight = fair_weight(nice, mode);
        let vruntime = circular_offset(
            destination,
            -scaled(self.lag(source), self.weight as int, weight as int),
        );
        FairEntity {
            nice,
            mode,
            weight,
            vruntime,
            virtual_deadline: circular_offset(
                vruntime,
                scaled(
                    circular_distance(self.virtual_deadline, self.vruntime),
                    self.weight as int,
                    weight as int,
                ),
            ),
            ..self
        }
    }

    /// An entity that has not been placed yet.
    pub fn new(nice: Nice, mode: FairMode, slice_ns: u64, vruntime: u64) -> (entity: Self)
        ensures
            entity == (FairEntity {
                nice,
                mode,
                weight: fair_weight(nice, mode),
                slice_ns,
                vruntime,
                virtual_deadline: circular_offset(
                    vruntime,
                    weighted(slice_ns as int, fair_weight(nice, mode) as int),
                ),
                remaining_request_ns: slice_ns,
                carry: FairCarry::Fresh,
            }),
            entity.wf(),
    {
        let weight: u32 = weight_of(nice, mode);
        FairEntity {
            nice,
            mode,
            weight,
            slice_ns,
            vruntime,
            virtual_deadline: advance(vruntime, weighted_span(slice_ns as u128, weight)),
            remaining_request_ns: slice_ns,
            carry: FairCarry::Fresh,
        }
    }

    pub fn vruntime(&self) -> (vruntime: u64)
        ensures
            vruntime == self.vruntime,
    {
        self.vruntime
    }

    pub fn virtual_deadline(&self) -> (deadline: u64)
        ensures
            deadline == self.virtual_deadline,
    {
        self.virtual_deadline
    }

    pub fn mode(&self) -> (mode: FairMode)
        ensures
            mode == self.mode,
    {
        self.mode
    }

    pub fn weight(&self) -> (weight: u32)
        ensures
            weight == self.weight,
    {
        self.weight
    }

    pub fn remaining_request_ns(&self) -> (remaining: u64)
        ensures
            remaining == self.remaining_request_ns,
    {
        self.remaining_request_ns
    }

    pub fn request_exhausted(&self) -> (exhausted: bool)
        ensures
            exhausted == (self.remaining_request_ns == 0),
    {
        self.remaining_request_ns == 0
    }

    /// Whether the entity has received no more than its share.
    pub fn is_eligible(&self, virtual_time: u64) -> (eligible: bool)
        ensures
            eligible == self.eligible(virtual_time),
    {
        wrapping_distance(virtual_time, self.vruntime) >= 0
    }

    pub fn deadline_precedes(&self, other: FairEntity) -> (precedes: bool)
        ensures
            precedes == self.precedes(other),
    {
        wrapping_before(self.virtual_deadline, other.virtual_deadline)
    }

    /// Charges a span of execution less an excluded part; reports whether the
    /// request has been served.
    pub fn charge(&mut self, runtime_ns: u64, excluded_ns: u64) -> (served: bool)
        requires
            old(self).wf(),
        ensures
            *final(self) == old(self).charged(
                if runtime_ns > excluded_ns {
                    runtime_ns - excluded_ns
                } else {
                    0
                },
            ),
            served == (final(self).remaining_request_ns == 0),
            final(self).wf(),
    {
        let span: u64 = runtime_ns.saturating_sub(excluded_ns);
        self.vruntime = advance(self.vruntime, weighted_span(span as u128, self.weight));
        self.remaining_request_ns = self.remaining_request_ns.saturating_sub(span);
        self.remaining_request_ns == 0
    }

    fn begin_request(&mut self, vruntime: u64, half: bool)
        requires
            old(self).wf(),
        ensures
            *final(self) == old(self).requesting(
                vruntime,
                if half {
                    old(self).virtual_slice() / 2
                } else {
                    old(self).virtual_slice()
                },
            ),
    {
        let full: u128 = weighted_span(self.slice_ns as u128, self.weight);
        let span: u128 = if half {
            full / 2
        } else {
            full
        };
        self.vruntime = vruntime;
        self.virtual_deadline = advance(vruntime, span);
        self.remaining_request_ns = self.slice_ns;
        self.carry = FairCarry::Resident;
    }

    fn lagging_start(&self, virtual_time: u64, load: u64, lag: i64) -> (vruntime: u64)
        requires
            self.wf(),
            load <= 0x4_0000_0000_0000,
        ensures
            vruntime == circular_offset(
                virtual_time,
                -inflated(lag as int, load as int, self.weight as int),
            ),
    {
        if load == 0 {
            virtual_time
        } else {
            shift_scaled(virtual_time, lag, load + (self.weight as u64), load, true)
        }
    }

    /// Places the entity on a run queue that stands at `virtual_time` and
    /// carries `load` besides it.
    pub fn place(&mut self, reason: EnqueueReason, virtual_time: u64, load: u64)
        requires
            old(self).wf(),
            load <= 0x4_0000_0000_0000,
        ensures
            *final(self) == old(self).placed(reason, virtual_time, load),
            final(self).nice == old(self).nice,
            final(self).mode == old(self).mode,
            final(self).wf(),
    {
        match reason {
            EnqueueReason::Wake | EnqueueReason::Migrated => match self.carry {
                FairCarry::Fresh => match reason {
                    EnqueueReason::Wake => {
                        self.begin_request(virtual_time, true);
                    },
                    _ => {
                        self.carry = FairCarry::Resident;
                    },
                },
                FairCarry::Resident => match reason {
                    EnqueueReason::Wake => {
                        self.begin_request(virtual_time, false);
                    },
                    _ => {},
                },
                FairCarry::Sleeping { lag } => {
                    let start: u64 = self.lagging_start(virtual_time, load, lag);
                    self.begin_request(start, false);
                },
                FairCarry::Migrating { lag, relative_deadline } => {
                    let start: u64 = self.lagging_start(virtual_time, load, lag);
                    self.vruntime = start;
                    self.virtual_deadline = wrapping_offset(start, relative_deadline);
                    self.carry = FairCarry::Resident;
                },
            },
            EnqueueReason::Yield => {
                let start: u64 = self.virtual_deadline;
                self.begin_request(start, false);
            },
            EnqueueReason::Preempted | EnqueueReason::Replenished
            | EnqueueReason::PolicyChanged => {
                if self.remaining_request_ns == 0 {
                    let start: u64 = self.vruntime;
                    self.begin_request(start, false);
                } else {
                    self.carry = FairCarry::Resident;
                }
            },
        }
    }

    fn bounded_lag(&self, virtual_time: u64, granularity_ns: u64) -> (lag: i64)
        requires
            self.wf(),
        ensures
            lag == self.kept_lag(virtual_time, granularity_ns),
    {
        let double: u128 = 2 * (self.slice_ns as u128);
        let span: u128 = if double > granularity_ns as u128 {
            double
        } else {
            granularity_ns as u128
        };
        let full: u128 = weighted_span(span, self.weight);
        let limit: i64 = if full > i64::MAX as u128 {
            i64::MAX
        } else {
            full as i64
        };
        assert(full >= 0 && limit >= 0);
        let lag: i64 = wrapping_distance(virtual_time, self.vruntime);
        if lag > limit {
            limit
        } else if lag < -limit {
            -limit
        } else {
            lag
        }
    }

    /// Remembers the lag with which the entity goes to sleep.
    pub fn capture_sleep_lag(&mut self, virtual_time: u64, granularity_ns: u64)
        requires
            old(self).wf(),
        ensures
            *final(self) == (FairEntity {
                carry: FairCarry::Sleeping { lag: final(self).carry->Sleeping_lag },
                ..*old(self)
            }),
            final(self).carry->Sleeping_lag == old(self).kept_lag(virtual_time, granularity_ns),
            final(self).wf(),
    {
        let lag: i64 = self.bounded_lag(virtual_time, granularity_ns);
        self.carry = FairCarry::Sleeping { lag };
    }

    /// Remembers lag and relative deadline for another run queue.
    pub fn capture_migration(&mut self, virtual_time: u64, granularity_ns: u64)
        requires
            old(self).wf(),
        ensures
            *final(self) == (FairEntity { carry: final(self).carry, ..*old(self) }),
            final(self).carry is Migrating,
            final(self).carry->Migrating_lag == old(self).kept_lag(virtual_time, granularity_ns),
            final(self).carry->relative_deadline == circular_distance(
                old(self).virtual_deadline,
                old(self).vruntime,
            ),
            final(self).wf(),
    {
        let lag: i64 = self.bounded_lag(virtual_time, granularity_ns);
        let relative_deadline: i64 = wrapping_distance(self.virtual_deadline, self.vruntime);
        self.carry = FairCarry::Migrating { lag, relative_deadline };
    }

    /// Takes back a captured migration that did not happen.
    pub fn cancel_migration(&mut self)
        ensures
            *final(self) == if old(self).carry is Migrating {
                FairEntity { carry: FairCarry::Resident, ..*old(self) }
            } else {
                *old(self)
            },
            old(self).wf() ==> final(self).wf(),
    {
        match self.carry {
            FairCarry::Migrating { .. } => {
                self.carry = FairCarry::Resident;
            },
            _ => {},
        }
    }

    /// The entity under a new weight: lag and relative deadline are worth the
    /// same service as before.
    pub fn reconfigure(&self, nice: Nice, mode: FairMode, source: u64, destination: u64) -> (entity: Self)
        requires
            self.wf(),
        ensures
            entity == self.reconfigured(nice, mode, source, destination),
            entity.wf(),
    {
        let weight: u32 = weight_of(nice, mode);
        let lag: i64 = wrapping_distance(source, self.vruntime);
        let relative: i64 = wrapping_distance(self.virtual_deadline, self.vruntime);
        let vruntime: u64 = shift_scaled(
            destination,
            lag,
            self.weight as u64,
            weight as u64,
            true,
        );
        let mut entity = *self;
        entity.nice = nice;
        entity.mode = mode;
        entity.weight = weight;
        entity.vruntime = vruntime;
        entity.virtual_deadline = shift_scaled(
            vruntime,
            relative,
            self.weight as u64,
            weight as u64,
            false,
        );
        entity
    }
}

/// Constant-bandwidth-server state of one Deadline reservation.
#[derive(Clone, Copy, Debug, PartialEq, Eq, Structural)]
pub struct DeadlineEntity {
    pub policy: DeadlinePolicy,
    pub remaining_runtime_ns: u64,
    pub absolute_deadline: Option<u64>,
    pub throttled: bool,
    pub rescued: bool,
}

impl DeadlineEntity {
    pub open spec fn wf(self) -> bool {
        &&& self.policy.valid()
        &&& self.remaining_runtime_ns <= self.policy.runtime_ns
        &&& self.throttled ==> self.absolute_deadline is Some
    }

    /// A full budget due one relative deadline after `now`.
    pub open spec fn refilled(self, now: u64) -> DeadlineEntity {
        DeadlineEntity {
            remaining_runtime_ns: self.policy.runtime_ns,
            absolute_deadline: Some(circular_offset(now, self.policy.deadline_ns as int)),
            throttled: false,
            ..self
        }
    }

    /// The start of the period after the current deadline's.
    pub open spec fn next_period(self) -> u64 {
        circular_offset(
            self.absolute_deadline->0,
            self.policy.period_ns - self.policy.deadline_ns,
        )
    }

    /// Whether spending the rest of the budget by the current deadline would
    /// exceed the reserved rate.
    pub open spec fn would_overrun(self, now: u64) -> bool {
        self.remaining_runtime_ns * self.policy.deadline_ns > circular_distance(
            self.absolute_deadline->0,
            now,
        ) * self.policy.runtime_ns
    }

    /// The wakeup rule.
    pub open spec fn activated(self, now: u64) -> DeadlineEntity {
        if self.absolute_deadline is None {
            self.refilled(now)
        } else if self.throttled {
            if circular_before(now, self.next_period()) {
                self
            } else {
                self.refilled(now)
            }
        } else if !circular_before(now, self.absolute_deadline->0) || self.would_overrun(now) {
            self.refilled(now)
        } else {
            self
        }
    }

    pub open spec fn charged(self, served: int) -> DeadlineEntity {
        if served < self.remaining_runtime_ns {
            DeadlineEntity {
                remaining_runtime_ns: (self.remaining_runtime_ns - served) as u64,
                ..self
            }
        } else {
            DeadlineEntity {
                remaining_runtime_ns: 0,
                throttled: self.absolute_deadline is Some,
                ..self
            }
        }
    }

    /// The budget of the next period; a server that fell behind starts over.
    pub open spec fn replenished(self, now: u64) -> DeadlineEntity {
        if self.absolute_deadline is None {
            self.refilled(now)
        } else {
            let next = circular_offset(self.absolute_deadline->0, self.policy.period_ns as int);
            if circular_before(next, now) {
                self.refilled(now)
            } else {
                DeadlineEntity {
                    remaining_runtime_ns: self.policy.runtime_ns,
                    absolute_deadline: Some(next),
                    throttled: false,
                    ..self
                }
            }
        }
    }

    /// The instant from which an idle reservation no longer claims bandwidth.
    pub open spec fn zero_lag(self) -> u64 {
        circular_offset(
            self.absolute_deadline->0,
            -(self.remaining_runtime_ns * self.policy.period_ns / (self.policy.runtime_ns as int)),
        )
    }

    pub fn new(policy: DeadlinePolicy) -> (entity: Self)
        requires
            policy.valid(),
        ensures
            entity == (DeadlineEntity {
                policy,
                remaining_runtime_ns: policy.runtime_ns,
                absolute_deadline: None,
                throttled: false,
                rescued: false,
            }),
            entity.wf(),
    {
        DeadlineEntity {
            policy,
            remaining_runtime_ns: policy.runtime_ns,
            absolute_deadline: None,
            throttled: false,
            rescued: false,
        }
    }

    pub fn absolute_deadline_ns(&self) -> (deadline: Option<u64>)
        ensures
            deadline == self.absolute_deadline,
    {
        self.absolute_deadline
    }

    pub fn remaining_runtime_ns(&self) -> (remaining: u64)
        ensures
            remaining == self.remaining_runtime_ns,
    {
        self.remaining_runtime_ns
    }

    pub fn is_throttled(&self) -> (throttled: bool)
        ensures
            throttled == self.throttled,
    {
        self.throttled
    }

    fn refill(&mut self, now: u64)
        requires
            old(self).wf(),
        ensures
            *final(self) == old(self).refilled(now),
            final(self).wf(),
    {
        self.remaining_runtime_ns = self.policy.runtime_ns;
        self.absolute_deadline = Some(now.wrapping_add(self.policy.deadline_ns));
        self.throttled = false;
    }

    fn period_start(&self, absolute_deadline: u64) -> (start: u64)
        requires
            self.wf(),
            self.absolute_deadline == Some(absolute_deadline),
        ensures
            start == self.next_period(),
    {
        absolute_deadline.wrapping_add(self.policy.period_ns - self.policy.deadline_ns)
    }

    fn overruns(&self, absolute_deadline: u64, now: u64) -> (overruns: bool)
        requires
            self.wf(),
            self.absolute_deadline == Some(absolute_deadline),
            circular_before(now, absolute_deadline),
            circular_distance(now, absolute_deadline) != -0x8000_0000_0000_0000,
        ensures
            overruns == self.would_overrun(now),
    {
        let left: i64 = wrapping_distance(absolute_deadline, now);
        assert(left > 0);
        assert(0 <= self.remaining_runtime_ns * self.policy.deadline_ns
            <= 0x8000_0000_0000_0000 * 0x8000_0000_0000_0000) by (nonlinear_arith)
            requires
                0 <= self.remaining_runtime_ns <= 0x8000_0000_0000_0000,
                0 <= self.policy.deadline_ns <= 0x8000_0000_0000_0000,
        ;
        assert(0 <= left * self.policy.runtime_ns <= 0x8000_0000_0000_0000 * 0x8000_0000_0000_0000)
            by (nonlinear_arith)
            requires
                0 <= left <= 0x8000_0000_0000_0000,
                0 <= self.policy.runtime_ns <= 0x8000_0000_0000_0000,
        ;
        (self.remaining_runtime_ns as u128) * (self.policy.deadline_ns as u128) > (left as u128)
            * (self.policy.runtime_ns as u128)
    }

    /// Applies the wakeup rule at `now`. The deadline lies less than half the
    /// counter range away, as every deadline set by this server does.
    pub fn activate(&mut self, now: u64)
        requires
            old(self).wf(),
            old(self).absolute_deadline matches Some(deadline) ==> circular_distance(now, deadline)
                != -0x8000_0000_0000_0000,
        ensures
            *final(self) == old(self).activated(now),
            final(self).wf(),
    {
        match self.absolute_deadline {
            None => {
                self.refill(now);
            },
            Some(deadline) => {
                if self.throttled {
                    let start: u64 = self.period_start(deadline);
                    if !wrapping_before(now, start) {
                        self.refill(now);
                    }
                } else if !wrapping_before(now, deadline) || self.overruns(deadline, now) {
                    self.refill(now);
                }
            },
        }
    }

    /// Charges a span of execution less its excluded and reclaimed parts;
    /// reports whether the budget is spent.
    pub fn charge(&mut self, runtime_ns: u64, excluded_ns: u64, reclaimed_ns: u64) -> (spent: bool)
        requires
            old(self).wf(),
        ensures
            *final(self) == old(self).charged(
                if runtime_ns > excluded_ns + reclaimed_ns {
                    runtime_ns - excluded_ns - reclaimed_ns
                } else {
                    0
                },
            ),
            spent == (final(self).remaining_runtime_ns == 0),
            final(self).wf(),
    {
        let span: u64 = runtime_ns.saturating_sub(excluded_ns).saturating_sub(reclaimed_ns);
        if span < self.remaining_runtime_ns {
            self.remaining_runtime_ns = self.remaining_runtime_ns - span;
            false
        } else {
            self.remaining_runtime_ns = 0;
            self.throttled = self.absolute_deadline.is_some();
            true
        }
    }

    /// Grants the budget of the next period.
    pub fn replenish(&mut self, now: u64)
        requires
            old(self).wf(),
        ensures
            *final(self) == old(self).replenished(now),
            final(self).wf(),
            !final(self).throttled,
            final(self).remaining_runtime_ns == final(self).policy.runtime_ns,
    {
        match self.absolute_deadline {
            None => {
                self.refill(now);
            },
            Some(deadline) => {
                let next: u64 = deadline.wrapping_add(self.policy.period_ns);
                if wrapping_before(next, now) {
                    self.refill(now);
                } else {
                    self.remaining_runtime_ns = self.policy.runtime_ns;
                    self.absolute_deadline = Some(next);
                    self.throttled = false;
                }
            },
        }
    }

    /// Lets the holder of a contended lock run on past its budget.
    pub fn enter_pi_critical_rescue(&mut self)
        ensures
            *final(self) == (DeadlineEntity { rescued: true, throttled: false, ..*old(self) }),
            old(self).wf() ==> final(self).wf(),
    {
        self.rescued = true;
        self.throttled = false;
    }

    /// The next instant at which the server acts by itself.
    pub fn next_scheduler_event_ns(&self) -> (event: Option<u64>)
        requires
            self.wf(),
        ensures
            event == if self.throttled {
                Some(self.next_period())
            } else {
                self.absolute_deadline
            },
    {
        match self.absolute_deadline {
            Some(deadline) => if self.throttled {
                Some(self.period_start(deadline))
            } else {
                Some(deadline)
            },
            None => None,
        }
    }

    /// See `zero_lag`; a reservation that never ran has none.
    pub fn zero_lag_ns(&self) -> (zero_lag: Option<u64>)
        requires
            self.wf(),
        ensures
            zero_lag == match self.absolute_deadline {
                Some(_) => Some(self.zero_lag()),
                None => None,
            },
    {
        match self.absolute_deadline {
            Some(deadline) => {
                assert(0 <= self.remaining_runtime_ns * self.policy.period_ns
                    <= 0x8000_0000_0000_0000 * 0x8000_0000_0000_0000) by (nonlinear_arith)
                    requires
                        0 <= self.remaining_runtime_ns <= 0x8000_0000_0000_0000,
                        0 <= self.policy.period_ns <= 0x8000_0000_0000_0000,
                ;
                let span: u128 = (self.remaining_runtime_ns as u128) * (self.policy.period_ns as u128)
                    / (self.policy.runtime_ns as u128);
                Some(retreat(deadline, span))
            },
            None => None,
        }
    }
}

/// Class-specific state of one thread.
#[derive(Clone, Copy, Debug, PartialEq, Eq, Structural)]
pub enum SchedulingEntity {
    KernelStop,
    Fair(FairEntity),
    Fifo,
    RoundRobin { remaining_quantum_ns: u64 },
    Deadline(DeadlineEntity),
}

/// How urgently a thread competes for a lock: the class first, then the rank
/// within the class; less is more urgent. Deadlines rank on the counter circle.
#[derive(Clone, Copy, Debug, PartialEq, Eq, Structural)]
pub struct SchedulingUrgency {
    pub rank: u8,
    pub value: u64,
}

impl SchedulingUrgency {
    pub open spec fn before(self, other: SchedulingUrgency) -> bool {
        if self.rank != other.rank {
            self.rank < other.rank
        } else if self.rank == 1 {
            circular_before(self.value, other.value)
        } else {
            self.value < other.value
        }
    }

    pub fn precedes(&self, other: SchedulingUrgency) -> (precedes: bool)
        ensures
            precedes == self.before(other),
    {
        if self.rank != other.rank {
            self.rank < other.rank
        } else if self.rank == 1 {
            wrapping_before(self.value, other.value)
        } else {
            self.value < other.value
        }
    }
}

impl SchedulingEntity {
    pub open spec fn wf(self) -> bool {
        match self {
            SchedulingEntity::Fair(fair) => fair.wf(),
            SchedulingEntity::Deadline(deadline) => deadline.wf(),
            _ => true,
        }
    }

    /// Whether the entity is of the kind that the policy schedules.
    pub open spec fn serves(self, policy: SchedulePolicy) -> bool {
        match (self, policy) {
            (SchedulingEntity::KernelStop, SchedulePolicy::KernelStop) => true,
            (SchedulingEntity::Fair(fair), SchedulePolicy::Fair { nice, mode }) => fair.nice == nice
                && fair.mode == mode,
            (SchedulingEntity::Fifo, SchedulePolicy::Fifo { .. }) => true,
            (SchedulingEntity::RoundRobin { .. }, SchedulePolicy::RoundRobin { .. }) => true,
            (SchedulingEntity::Deadline(_), SchedulePolicy::Deadline(_)) => true,
            _ => false,
        }
    }

    pub open spec fn as_fair(self) -> Option<FairEntity> {
        match self {
            SchedulingEntity::Fair(fair) => Some(fair),
            _ => None,
        }
    }

    pub open spec fn as_deadline(self) -> Option<DeadlineEntity> {
        match self {
            SchedulingEntity::Deadline(deadline) => Some(deadline),
            _ => None,
        }
    }

    pub open spec fn is_throttled(self) -> bool {
        match self {
            SchedulingEntity::Deadline(deadline) => deadline.throttled,
            _ => false,
        }
    }

    /// The entity that a policy starts with.
    pub open spec fn initial(self, policy: SchedulePolicy, slice_ns: u64, vruntime: u64) -> bool {
        match policy {
            SchedulePolicy::KernelStop => self == SchedulingEntity::KernelStop,
            SchedulePolicy::Deadline(deadline) => self == SchedulingEntity::Deadline(
                DeadlineEntity {
                    policy: deadline,
                    remaining_runtime_ns: deadline.runtime_ns,
                    absolute_deadline: None,
                    throttled: false,
                    rescued: false,
                },
            ),
            SchedulePolicy::Fifo { .. } => self == SchedulingEntity::Fifo,
            SchedulePolicy::RoundRobin { quantum_ns, .. } => self == (
            SchedulingEntity::RoundRobin { remaining_quantum_ns: quantum_ns }),
            SchedulePolicy::Fair { nice, mode } => self == SchedulingEntity::Fair(
                FairEntity {
                    nice,
                    mode,
                    weight: fair_weight(nice, mode),
                    slice_ns,
                    vruntime,
                    virtual_deadline: circular_offset(
                        vruntime,
                        weighted(slice_ns as int, fair_weight(nice, mode) as int),
                    ),
                    remaining_request_ns: slice_ns,
                    carry: FairCarry::Fresh,
                },
            ),
        }
    }

    /// State after a charge.
    pub open spec fn charged(self, runtime_ns: u64, excluded_ns: u64, reclaimed_ns: u64) -> SchedulingEntity {
        let run = runtime_ns - excluded_ns;
        match self {
            SchedulingEntity::Fair(fair) => SchedulingEntity::Fair(
                fair.charged(if run > 0 { run } else { 0 }),
            ),
            SchedulingEntity::RoundRobin { remaining_quantum_ns } => SchedulingEntity::RoundRobin {
                remaining_quantum_ns: if runtime_ns < remaining_quantum_ns {
                    (remaining_quantum_ns - runtime_ns) as u64
                } else {
                    0
                },
            },
            SchedulingEntity::Deadline(deadline) => SchedulingEntity::Deadline(
                deadline.charged(if run - reclaimed_ns > 0 { run - reclaimed_ns } else { 0 }),
            ),
            _ => self,
        }
    }

    /// Whether the entity has used up its slice, quantum or budget.
    pub open spec fn expired(self) -> bool {
        match self {
            SchedulingEntity::Fair(fair) => fair.remaining_request_ns == 0,
            SchedulingEntity::RoundRobin { remaining_quantum_ns } => remaining_quantum_ns == 0,
            SchedulingEntity::Deadline(deadline) => deadline.remaining_runtime_ns == 0,
            _ => false,
        }
    }

    pub open spec fn activated(self, now: u64) -> SchedulingEntity {
        match self {
            SchedulingEntity::Deadline(deadline) => SchedulingEntity::Deadline(
                deadline.activated(now),
            ),
            _ => self,
        }
    }

    /// The entity with its lag remembered for a sleep; only fair ones have lag.
    pub open spec fn asleep(self, virtual_time: u64, granularity_ns: u64) -> SchedulingEntity {
        match self {
            SchedulingEntity::Fair(fair) => SchedulingEntity::Fair(
                FairEntity {
                    carry: FairCarry::Sleeping {
                        lag: fair.kept_lag(virtual_time, granularity_ns) as i64,
                    },
                    ..fair
                },
            ),
            _ => self,
        }
    }

    /// The entity with lag and relative deadline remembered for a move.
    pub open spec fn in_transit(self, virtual_time: u64, granularity_ns: u64) -> SchedulingEntity {
        match self {
            SchedulingEntity::Fair(fair) => SchedulingEntity::Fair(
                FairEntity {
                    carry: FairCarry::Migrating {
                        lag: fair.kept_lag(virtual_time, granularity_ns) as i64,
                        relative_deadline: circular_distance(
                            fair.virtual_deadline,
                            fair.vruntime,
                        ) as i64,
                    },
                    ..fair
                },
            ),
            _ => self,
        }
    }

    pub open spec fn rescued(self) -> SchedulingEntity {
        match self {
            SchedulingEntity::Deadline(deadline) => SchedulingEntity::Deadline(
                DeadlineEntity { rescued: true, throttled: false, ..deadline },
            ),
            _ => self,
        }
    }

    /// A deadline exactly half the counter range before `now` cannot be told
    /// from one that far ahead.
    pub open spec fn can_activate(self, now: u64) -> bool {
        match self {
            SchedulingEntity::Deadline(deadline) => deadline.absolute_deadline matches Some(due)
                ==> circular_distance(now, due) != -0x8000_0000_0000_0000,
            _ => true,
        }
    }

    pub open spec fn urgency(self, policy: SchedulePolicy) -> SchedulingUrgency {
        SchedulingUrgency {
            rank: policy.class().rank() as u8,
            value: match policy {
                SchedulePolicy::KernelStop => 0,
                SchedulePolicy::Deadline(_) => match self {
                    SchedulingEntity::Deadline(deadline) => match deadline.absolute_deadline {
                        Some(due) => due,
                        None => 0,
                    },
                    _ => 0,
                },
                SchedulePolicy::Fifo { priority } => (255 - priority.value) as u64,
                SchedulePolicy::RoundRobin { priority, .. } => (255 - priority.value) as u64,
                SchedulePolicy::Fair { nice, .. } => (nice.value + 128) as u64,
            },
        }
    }

    /// Tests `wf`.
    pub fn is_consistent(&self) -> (consistent: bool)
        ensures
            consistent == self.wf(),
    {
        match *self {
            SchedulingEntity::Fair(fair) => fair.weight == weight_of(fair.nice, fair.mode) && 0
                < fair.weight && fair.weight <= MAX_WEIGHT,
            SchedulingEntity::Deadline(deadline) => {
                let policy = deadline.policy;
                0 < policy.runtime_ns && policy.runtime_ns <= policy.deadline_ns
                    && policy.deadline_ns <= policy.period_ns && policy.period_ns
                    < 0x8000_0000_0000_0000 && deadline.remaining_runtime_ns <= policy.runtime_ns
                    && (!deadline.throttled || deadline.absolute_deadline.is_some())
            },
            _ => true,
        }
    }

    /// Tests `serves`.
    pub fn belongs_to(&self, policy: SchedulePolicy) -> (serves: bool)
        ensures
            serves == self.serves(policy),
    {
        match (*self, policy) {
            (SchedulingEntity::KernelStop, SchedulePolicy::KernelStop) => true,
            (SchedulingEntity::Fair(fair), SchedulePolicy::Fair { nice, mode }) => fair.nice == nice
                && fair.mode == mode,
            (SchedulingEntity::Fifo, SchedulePolicy::Fifo { .. }) => true,
            (SchedulingEntity::RoundRobin { .. }, SchedulePolicy::RoundRobin { .. }) => true,
            (SchedulingEntity::Deadline(_), SchedulePolicy::Deadline(_)) => true,
            _ => false,
        }
    }

    pub fn new(policy: SchedulePolicy, slice_ns: u64, vruntime: u64) -> (entity: Self)
        requires
            policy matches SchedulePolicy::Deadline(deadline) ==> deadline.valid(),
        ensures
            entity.initial(policy, slice_ns, vruntime),
            entity.serves(policy),
            entity.wf(),
    {
        match policy {
            SchedulePolicy::KernelStop => SchedulingEntity::KernelStop,
            SchedulePolicy::Deadline(deadline) => SchedulingEntity::Deadline(
                DeadlineEntity::new(deadline),
            ),
            SchedulePolicy::Fifo { .. } => SchedulingEntity::Fifo,
            SchedulePolicy::RoundRobin { quantum_ns, .. } => SchedulingEntity::RoundRobin {
                remaining_quantum_ns: quantum_ns,
            },
            SchedulePolicy::Fair { nice, mode } => SchedulingEntity::Fair(
                FairEntity::new(nice, mode, slice_ns, vruntime),
            ),
        }
    }

    pub fn fair(&self) -> (fair: Option<FairEntity>)
        ensures
            fair == self.as_fair(),
    {
        match *self {
            SchedulingEntity::Fair(fair) => Some(fair),
            _ => None,
        }
    }

    pub fn deadline(&self) -> (deadline: Option<DeadlineEntity>)
        ensures
            deadline == self.as_deadline(),
    {
        match *self {
            SchedulingEntity::Deadline(deadline) => Some(deadline),
            _ => None,
        }
    }

    pub fn is_deadline_throttled(&self) -> (throttled: bool)
        ensures
            throttled == self.is_throttled(),
    {
        match *self {
            SchedulingEntity::Deadline(deadline) => deadline.throttled,
            _ => false,
        }
    }

    /// Charges a span of execution; reports whether the entity has used up its
    /// slice, quantum or budget.
    pub fn charge(&mut self, runtime_ns: u64, excluded_ns: u64, reclaimed_ns: u64) -> (expired: bool)
        requires
            old(self).wf(),
        ensures
            *final(self) == old(self).charged(runtime_ns, excluded_ns, reclaimed_ns),
            expired == final(self).expired(),
            final(self).wf(),
    {
        match *self {
            SchedulingEntity::Fair(fair) => {
                let mut fair = fair;
                let expired = fair.charge(runtime_ns, excluded_ns);
                *self = SchedulingEntity::Fair(fair);
                expired
            },
            SchedulingEntity::RoundRobin { remaining_quantum_ns } => {
                let left: u64 = remaining_quantum_ns.saturating_sub(runtime_ns);
                *self = SchedulingEntity::RoundRobin { remaining_quantum_ns: left };
                left == 0
            },
            SchedulingEntity::Deadline(deadline) => {
                let mut deadline = deadline;
                let expired = deadline.charge(runtime_ns, excluded_ns, reclaimed_ns);
                *self = SchedulingEntity::Deadline(deadline);
                expired
            },
            SchedulingEntity::KernelStop | SchedulingEntity::Fifo => false,
        }
    }

    pub fn may_activate(&self, now: u64) -> (may: bool)
        ensures
            may == self.can_activate(now),
    {
        match self {
            SchedulingEntity::Deadline(deadline) => match deadline.absolute_deadline_ns() {
                Some(due) => wrapping_distance(now, due) != i64::MIN,
                None => true,
            },
            _ => true,
        }
    }

    /// Applies the Deadline wakeup rule; other entities have none.
    pub fn activate_deadline(&mut self, now: u64)
        requires
            old(self).wf(),
            old(self).can_activate(now),
        ensures
            *final(self) == old(self).activated(now),
            final(self).wf(),
    {
        match *self {
            SchedulingEntity::Deadline(deadline) => {
                let mut deadline = deadline;
                deadline.activate(now);
                *self = SchedulingEntity::Deadline(deadline);
            },
            _ => {},
        }
    }

    pub fn round_robin_quantum_expired(&self) -> (expired: bool)
        ensures
            expired == (*self matches SchedulingEntity::RoundRobin { remaining_quantum_ns }
                && remaining_quantum_ns == 0),
    {
        match *self {
            SchedulingEntity::RoundRobin { remaining_quantum_ns } => remaining_quantum_ns == 0,
            _ => false,
        }
    }

    /// Grants a round-robin entity the quantum of its policy.
    pub fn reset_round_robin_quantum(&mut self, policy: SchedulePolicy)
        ensures
            *final(self) == match (*old(self), policy) {
                (
                    SchedulingEntity::RoundRobin { .. },
                    SchedulePolicy::RoundRobin { quantum_ns, .. },
                ) => SchedulingEntity::RoundRobin { remaining_quantum_ns: quantum_ns },
                _ => *old(self),
            },
            old(self).wf() ==> final(self).wf(),
    {
        match (*self, policy) {
            (SchedulingEntity::RoundRobin { .. }, SchedulePolicy::RoundRobin { quantum_ns, .. }) => {
                *self = SchedulingEntity::RoundRobin { remaining_quantum_ns: quantum_ns };
            },
            _ => {},
        }
    }

    /// See `FairEntity::capture_sleep_lag`; other entities keep no lag.
    pub fn capture_fair_sleep_lag(&mut self, virtual_time: u64, granularity_ns: u64)
        requires
            old(self).wf(),
        ensures
            *final(self) == old(self).asleep(virtual_time, granularity_ns),
            final(self).wf(),
    {
        match *self {
            SchedulingEntity::Fair(fair) => {
                let mut fair = fair;
                fair.capture_sleep_lag(virtual_time, granularity_ns);
                *self = SchedulingEntity::Fair(fair);
            },
            _ => {},
        }
    }

    /// See `FairEntity::capture_migration`; other entities keep no lag.
    pub fn capture_fair_migration(&mut self, virtual_time: u64, granularity_ns: u64)
        requires
            old(self).wf(),
        ensures
            *final(self) == old(self).in_transit(virtual_time, granularity_ns),
            final(self).wf(),
    {
        match *self {
            SchedulingEntity::Fair(fair) => {
                let mut fair = fair;
                fair.capture_migration(virtual_time, granularity_ns);
                *self = SchedulingEntity::Fair(fair);
            },
            _ => {},
        }
    }

    pub fn cancel_fair_migration(&mut self)
        ensures
            *final(self) == match *old(self) {
                SchedulingEntity::Fair(fair) => if fair.carry is Migrating {
                    SchedulingEntity::Fair(FairEntity { carry: FairCarry::Resident, ..fair })
                } else {
                    *old(self)
                },
                _ => *old(self),
            },
            old(self).wf() ==> final(self).wf(),
    {
        match *self {
            SchedulingEntity::Fair(fair) => {
                let mut fair = fair;
                fair.cancel_migration();
                *self = SchedulingEntity::Fair(fair);
            },
            _ => {},
        }
    }

    /// Lets a Deadline entity run on past its budget; others have none.
    pub fn enter_pi_critical_rescue(&mut self)
        ensures
            *final(self) == old(self).rescued(),
            old(self).wf() ==> final(self).wf(),
    {
        match *self {
            SchedulingEntity::Deadline(deadline) => {
                let mut deadline = deadline;
                deadline.enter_pi_critical_rescue();
                *self = SchedulingEntity::Deadline(deadline);
            },
            _ => {},
        }
    }

    pub fn scheduling_urgency(&self, policy: SchedulePolicy) -> (urgency: SchedulingUrgency)
        ensures
            urgency == self.urgency(policy),
    {
        let rank: u8 = policy.class_rank();
        let value: u64 = match policy {
            SchedulePolicy::KernelStop => 0,
            SchedulePolicy::Deadline(_) => match *self {
                SchedulingEntity::Deadline(deadline) => match deadline.absolute_deadline {
                    Some(due) => due,
                    None => 0,
                },
                _ => 0,
            },
            SchedulePolicy::Fifo { priority } => (255 - priority.value) as u64,
            SchedulePolicy::RoundRobin { priority, .. } => (255 - priority.value) as u64,
            SchedulePolicy::Fair { nice, .. } => (nice.value as i16 + 128) as u64,
        };
        SchedulingUrgency { rank, value }
    }
}

/// Migration carries what a thread is owed: the lag restored on a queue of
/// `load` is the lag taken along, inflated for the newcomer's own weight, and
/// the distance from vruntime to deadline is unchanged.
pub proof fn migration_preserves_the_request(
    before: FairEntity,
    lag: i64,
    relative_deadline: i64,
    virtual_time: u64,
    load: u64,
)
    requires
        before.wf(),
        before.carry == (FairCarry::Migrating { lag, relative_deadline }),
    ensures
        ({
            let after = before.placed(EnqueueReason::Migrated, virtual_time, load);
            &&& circular_distance(after.virtual_deadline, after.vruntime) == relative_deadline
            &&& after.remaining_request_ns == before.remaining_request_ns
            &&& -0x8000_0000_0000_0000 <= inflated(lag as int, load as int, before.weight as int)
                < 0x8000_0000_0000_0000 && inflated(lag as int, load as int, before.weight as int)
                != -0x8000_0000_0000_0000 ==> after.lag(virtual_time) == inflated(
                lag as int,
                load as int,
                before.weight as int,
            )
        }),
{
    let after = before.placed(EnqueueReason::Migrated, virtual_time, load);
    let owed = inflated(lag as int, load as int, before.weight as int);
    assert(after == before.restored(virtual_time, load, lag, relative_deadline));
    circular_distance_inverts_offset(after.vruntime, relative_deadline as int);
    if -0x8000_0000_0000_0000 < owed < 0x8000_0000_0000_0000 {
        circular_distance_of_step_back(virtual_time, owed);
    }
}

/// A preempted thread with an unserved request keeps its place in virtual time.
pub proof fn preemption_keeps_the_request(entity: FairEntity, virtual_time: u64, load: u64)
    requires
        entity.remaining_request_ns > 0,
    ensures
        entity.placed(EnqueueReason::Preempted, virtual_time, load).vruntime == entity.vruntime,
        entity.placed(EnqueueReason::Preempted, virtual_time, load).virtual_deadline
            == entity.virtual_deadline,
{
}

/// A Deadline thread that wakes with a usable deadline keeps its budget and
/// deadline; any other starts a full budget now.
pub proof fn deadline_wakeup_rule(entity: DeadlineEntity, now: u64)
    requires
        entity.wf(),
        !entity.throttled,
    ensures
        entity.activated(now) == if entity.absolute_deadline is Some && circular_before(
            now,
            entity.absolute_deadline->0,
        ) && !entity.would_overrun(now) {
            entity
        } else {
            entity.refilled(now)
        },
        entity.activated(now).absolute_deadline is Some,
{
}

} // verus!
