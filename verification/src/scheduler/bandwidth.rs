//! Real-time throttling: per-run-queue consumption and the shared period.
use vstd::prelude::*;
use crate::config::TaskSystemConfig;
use crate::ids::CpuId;
use crate::time::{MONOTONIC_MAX_NS, MonotonicDeadline, MonotonicInstant};

verus! {

/// Real-time runtime that one run queue has consumed in the current period.
#[derive(Clone, Copy, Debug, PartialEq, Eq, Structural)]
pub struct RtRunQueueBandwidth {
    pub enabled: bool,
    pub runtime_ns: u64,
    pub time_ns: u64,
    pub throttled: bool,
}

impl RtRunQueueBandwidth {
    /// A queue that is neither throttled nor exempt has not consumed more than
    /// its allotment.
    pub open spec fn within_budget(self) -> bool {
        self.enabled && !self.throttled ==> self.time_ns <= self.runtime_ns
    }

    /// Runtime that the queue could give away.
    pub open spec fn spare(self) -> u64 {
        if self.time_ns < self.runtime_ns {
            (self.runtime_ns - self.time_ns) as u64
        } else {
            0
        }
    }

    pub fn new(period_ns: u64, runtime_ns: u64) -> (bandwidth: Self)
        ensures
            bandwidth == (RtRunQueueBandwidth {
                enabled: runtime_ns < period_ns,
                runtime_ns,
                time_ns: 0,
                throttled: false,
            }),
            bandwidth.within_budget(),
    {
        RtRunQueueBandwidth {
            enabled: runtime_ns < period_ns,
            runtime_ns,
            time_ns: 0,
            throttled: false,
        }
    }

    /// Adds consumed runtime; reports whether it now exceeds the allotment.
    pub fn account(&mut self, runtime_ns: u64) -> (exceeded: bool)
        requires
            old(self).enabled ==> old(self).time_ns + runtime_ns <= u64::MAX,
        ensures
            *final(self) == if old(self).enabled {
                RtRunQueueBandwidth { time_ns: (old(self).time_ns + runtime_ns) as u64, ..*old(self) }
            } else {
                *old(self)
            },
            exceeded == (old(self).enabled && old(self).time_ns + runtime_ns > old(self).runtime_ns),
    {
        if !self.enabled {
            return false;
        }
        self.time_ns = self.time_ns + runtime_ns;
        self.time_ns > self.runtime_ns
    }

    /// Throttles a queue above its allotment; reports whether that is new.
    pub fn throttle_if_exceeded(&mut self) -> (newly_throttled: bool)
        ensures
            *final(self) == (RtRunQueueBandwidth {
                throttled: old(self).throttled || (old(self).enabled && old(self).time_ns
                    > old(self).runtime_ns),
                ..*old(self)
            }),
            newly_throttled == (!old(self).throttled && final(self).throttled),
            final(self).within_budget(),
    {
        let was_throttled = self.throttled;
        if self.enabled && self.time_ns > self.runtime_ns {
            self.throttled = true;
        }
        !was_throttled && self.throttled
    }

    /// Charges consumed runtime; reports whether the queue became throttled.
    /// Consuming exactly the allotment does not throttle.
    pub fn charge(&mut self, runtime_ns: u64) -> (newly_throttled: bool)
        requires
            old(self).enabled ==> old(self).time_ns + runtime_ns <= u64::MAX,
        ensures
            *final(self) == if old(self).enabled {
                RtRunQueueBandwidth {
                    time_ns: (old(self).time_ns + runtime_ns) as u64,
                    throttled: old(self).throttled || old(self).time_ns + runtime_ns
                        > old(self).runtime_ns,
                    ..*old(self)
                }
            } else {
                *old(self)
            },
            newly_throttled == (!old(self).throttled && final(self).throttled),
            final(self).within_budget(),
    {
        if !self.enabled {
            return false;
        }
        let _ = self.account(runtime_ns);
        self.throttle_if_exceeded()
    }

    pub fn may_run(&self, boosted: bool) -> (may: bool)
        ensures
            may == (!self.enabled || boosted || !self.throttled),
    {
        !self.enabled || boosted || !self.throttled
    }

    pub fn is_throttled(&self) -> (throttled: bool)
        ensures
            throttled == self.throttled,
    {
        self.throttled
    }

    /// Runtime after which the queue throttles, if it can.
    pub fn runtime_until_throttle(&self) -> (remaining: Option<u64>)
        requires
            self.within_budget(),
            self.enabled ==> self.runtime_ns < u64::MAX,
        ensures
            remaining == if self.throttled || !self.enabled {
                None::<u64>
            } else {
                Some((self.runtime_ns - self.time_ns + 1) as u64)
            },
    {
        if self.throttled || !self.enabled {
            None
        } else {
            Some(self.runtime_ns - self.time_ns + 1)
        }
    }

    /// Gives back the allotment of `overruns` periods; reports whether the
    /// queue may run again.
    pub fn replenish(&mut self, overruns: u64) -> (unthrottled: bool)
        ensures
            final(self).time_ns == if old(self).runtime_ns * overruns >= old(self).time_ns {
                0int
            } else {
                old(self).time_ns - old(self).runtime_ns * overruns
            },
            *final(self) == old(self).replenished(overruns),
            unthrottled == (old(self).throttled && final(self).time_ns < old(self).runtime_ns),
            final(self).throttled == (old(self).throttled && !unthrottled),
            final(self).enabled == old(self).enabled,
            final(self).runtime_ns == old(self).runtime_ns,
            old(self).within_budget() ==> final(self).within_budget(),
    {
        assert(self.runtime_ns * overruns <= 0xffff_ffff_ffff_ffff * 0xffff_ffff_ffff_ffff)
            by (nonlinear_arith)
            requires
                self.runtime_ns <= 0xffff_ffff_ffff_ffff,
                overruns <= 0xffff_ffff_ffff_ffff,
        ;
        assert(self.runtime_ns * overruns >= 0) by (nonlinear_arith);
        let full: u128 = (self.runtime_ns as u128) * (overruns as u128);
        let replenishment: u64 = if full < self.time_ns as u128 {
            full as u64
        } else {
            self.time_ns
        };
        self.time_ns = self.time_ns - replenishment;
        let unthrottled = self.throttled && self.time_ns < self.runtime_ns;
        if unthrottled {
            self.throttled = false;
        }
        unthrottled
    }

    pub fn time_ns(&self) -> (time_ns: u64)
        ensures
            time_ns == self.time_ns,
    {
        self.time_ns
    }

    pub fn runtime_ns(&self) -> (runtime_ns: u64)
        ensures
            runtime_ns == self.runtime_ns,
    {
        self.runtime_ns
    }

    pub fn enabled(&self) -> (enabled: bool)
        ensures
            enabled == self.enabled,
    {
        self.enabled
    }

    pub fn spare_runtime_ns(&self) -> (spare: u64)
        ensures
            spare == self.spare(),
    {
        self.runtime_ns.saturating_sub(self.time_ns)
    }

    /// Gives part of the unused allotment away.
    pub fn lend_runtime(&mut self, amount: u64)
        requires
            amount <= old(self).spare(),
        ensures
            *final(self) == (RtRunQueueBandwidth {
                runtime_ns: (old(self).runtime_ns - amount) as u64,
                ..*old(self)
            }),
            old(self).within_budget() ==> final(self).within_budget(),
    {
        self.runtime_ns = self.runtime_ns - amount;
    }

    /// Extends the allotment, up to one whole period.
    pub fn borrow_runtime(&mut self, amount: u64, period_ns: u64)
        requires
            old(self).runtime_ns + amount <= period_ns,
        ensures
            *final(self) == (RtRunQueueBandwidth {
                runtime_ns: (old(self).runtime_ns + amount) as u64,
                ..*old(self)
            }),
            old(self).within_budget() ==> final(self).within_budget(),
    {
        self.runtime_ns = self.runtime_ns + amount;
    }

    /// The allotment moved by a signed amount, within zero and the end of the
    /// monotonic clock. A queue that is left above its allotment is throttled.
    pub open spec fn adjusted(self, delta: int) -> Self {
        let moved = self.runtime_ns + delta;
        let runtime_ns = if moved < 0 {
            0u64
        } else if moved > MONOTONIC_MAX_NS {
            MONOTONIC_MAX_NS
        } else {
            moved as u64
        };
        RtRunQueueBandwidth {
            runtime_ns,
            throttled: self.throttled || (self.enabled && self.time_ns > runtime_ns),
            ..self
        }
    }

    pub fn adjust_runtime(&mut self, delta: i128)
        requires
            -0x1_0000_0000_0000_0000 < delta < 0x1_0000_0000_0000_0000,
        ensures
            *final(self) == old(self).adjusted(delta as int),
            final(self).within_budget(),
    {
        let moved: i128 = self.runtime_ns as i128 + delta;
        self.runtime_ns = if moved < 0 {
            0
        } else if moved > MONOTONIC_MAX_NS as i128 {
            MONOTONIC_MAX_NS
        } else {
            moved as u64
        };
        let _ = self.throttle_if_exceeded();
    }

    /// The queue after `overruns` periods.
    pub open spec fn replenished(self, overruns: u64) -> Self {
        let time_ns = if self.runtime_ns * overruns >= self.time_ns {
            0u64
        } else {
            (self.time_ns - self.runtime_ns * overruns) as u64
        };
        RtRunQueueBandwidth {
            time_ns,
            throttled: self.throttled && time_ns >= self.runtime_ns,
            ..self
        }
    }

    /// Starts accounting for a CPU that joins the domain.
    pub fn enable(&mut self, period_ns: u64, runtime_ns: u64)
        ensures
            *final(self) == (RtRunQueueBandwidth {
                enabled: runtime_ns < period_ns,
                runtime_ns,
                time_ns: 0,
                throttled: false,
            }),
            final(self).within_budget(),
    {
        self.enabled = runtime_ns < period_ns;
        self.runtime_ns = runtime_ns;
        self.time_ns = 0;
        self.throttled = false;
    }

    /// Stops accounting for a CPU that leaves the domain.
    pub fn disable(&mut self)
        ensures
            *final(self) == (RtRunQueueBandwidth {
                enabled: false,
                throttled: false,
                ..*old(self)
            }),
            final(self).within_budget(),
    {
        self.enabled = false;
        self.throttled = false;
    }
}

/// One firing of the shared period.
#[derive(Clone, Copy, Debug, PartialEq, Eq, Structural)]
pub struct RtPeriodFiring {
    pub generation: u64,
    pub overruns: u64,
}

impl RtPeriodFiring {
    pub fn overruns(&self) -> (overruns: u64)
        ensures
            overruns == self.overruns,
    {
        self.overruns
    }
}

/// The period that all run queues of a domain share. One CPU owns its timer.
#[derive(Clone, Copy, Debug, PartialEq, Eq, Structural)]
pub struct RootRtBandwidth {
    pub enabled: bool,
    pub period_ns: u64,
    pub runtime_ns: u64,
    pub owner: Option<CpuId>,
    pub deadline: Option<MonotonicDeadline>,
    pub generation: u64,
}

impl RootRtBandwidth {
    /// The timer is armed exactly while some CPU owns it.
    pub open spec fn wf(self) -> bool {
        &&& self.period_ns > 0
        &&& self.owner is Some <==> self.deadline is Some
        &&& self.deadline matches Some(deadline) ==> deadline.valid()
    }

    /// Whether a firing on `cpu` at `now` is due.
    pub open spec fn due(self, cpu: CpuId, now: MonotonicInstant) -> bool {
        self.owner == Some(cpu) && self.deadline is Some && now.ns >= self.deadline->0.ns
    }

    /// Periods that have elapsed at `now`, the one that fires counted.
    pub open spec fn elapsed_periods(self, now: MonotonicInstant) -> int {
        (now.ns - self.deadline->0.ns) / (self.period_ns as int) + 1
    }

    /// The edge that follows the firing at `now`.
    pub open spec fn next_edge(self, now: MonotonicInstant) -> int {
        self.deadline->0.ns + self.elapsed_periods(now) * self.period_ns
    }

    /// The period of a configuration, never started.
    pub open spec fn blank(self, config: TaskSystemConfig) -> bool {
        self == (RootRtBandwidth {
            enabled: config.rt_runtime_ns < config.rt_period_ns,
            period_ns: config.rt_period_ns,
            runtime_ns: config.rt_runtime_ns,
            owner: None,
            deadline: None,
            generation: 0,
        })
    }

    pub fn new(config: TaskSystemConfig) -> (root: Self)
        requires
            config.rt_period_ns > 0,
        ensures
            root.blank(config),
            root.wf(),
    {
        RootRtBandwidth {
            enabled: config.rt_runtime_ns < config.rt_period_ns,
            period_ns: config.rt_period_ns,
            runtime_ns: config.rt_runtime_ns,
            owner: None,
            deadline: None,
            generation: 0,
        }
    }

    pub fn period_ns(&self) -> (period_ns: u64)
        ensures
            period_ns == self.period_ns,
    {
        self.period_ns
    }

    pub fn runtime_ns(&self) -> (runtime_ns: u64)
        ensures
            runtime_ns == self.runtime_ns,
    {
        self.runtime_ns
    }

    /// Keeps the period running; reports whether this call started it.
    pub fn activate(&mut self, cpu: CpuId, now: MonotonicInstant) -> (started: bool)
        requires
            old(self).wf(),
            old(self).generation < u64::MAX,
        ensures
            started == (old(self).enabled && old(self).deadline is None),
            *final(self) == if !old(self).enabled {
                *old(self)
            } else if started {
                RootRtBandwidth {
                    owner: Some(cpu),
                    deadline: Some(now.due_after(old(self).period_ns)),
                    generation: (old(self).generation + 1) as u64,
                    ..*old(self)
                }
            } else {
                RootRtBandwidth { generation: (old(self).generation + 1) as u64, ..*old(self) }
            },
            final(self).wf(),
    {
        if !self.enabled {
            return false;
        }
        self.generation = self.generation + 1;
        let started = self.deadline.is_none();
        if started {
            self.owner = Some(cpu);
            self.deadline = Some(now.deadline_after(self.period_ns));
        }
        started
    }

    pub fn deadline_for(&self, cpu: CpuId) -> (deadline: Option<MonotonicDeadline>)
        ensures
            deadline == if self.owner == Some(cpu) {
                self.deadline
            } else {
                None
            },
    {
        match self.owner {
            Some(owner) => if owner == cpu {
                self.deadline
            } else {
                None
            },
            None => None,
        }
    }

    /// Takes a due firing and moves the edge past `now`.
    pub fn begin_period(&mut self, cpu: CpuId, now: MonotonicInstant) -> (firing: Option<RtPeriodFiring>)
        requires
            old(self).wf(),
            now.valid(),
            old(self).due(cpu, now) ==> old(self).next_edge(now) <= crate::time::MONOTONIC_MAX_NS,
        ensures
            firing is Some <==> old(self).due(cpu, now),
            firing matches Some(firing) ==> {
                &&& firing.generation == old(self).generation
                &&& firing.overruns == old(self).elapsed_periods(now)
                &&& final(self).deadline is Some
                &&& final(self).deadline->0.ns == old(self).next_edge(now)
                &&& *final(self) == (RootRtBandwidth {
                    deadline: final(self).deadline,
                    ..*old(self)
                })
            },
            firing is None ==> *final(self) == *old(self),
            final(self).wf(),
    {
        let deadline = match self.deadline {
            Some(deadline) => deadline,
            None => {
                return None;
            },
        };
        let owned = match self.owner {
            Some(owner) => owner == cpu,
            None => false,
        };
        if !owned || !now.reached(deadline) {
            return None;
        }
        let elapsed_ns: u64 = now.ns - deadline.ns;
        let full: u64 = elapsed_ns / self.period_ns;
        assert(full <= elapsed_ns) by (nonlinear_arith)
            requires
                self.period_ns > 0,
                full == elapsed_ns / self.period_ns,
        ;
        let overruns: u64 = full + 1;
        assert(overruns == self.elapsed_periods(now));
        let ghost advance = overruns * self.period_ns;
        assert(deadline.ns + advance == self.next_edge(now));
        assert(0 <= advance) by (nonlinear_arith)
            requires
                advance == overruns * self.period_ns,
                overruns >= 0,
                self.period_ns >= 0,
        ;
        let next_ns: u64 = deadline.ns + overruns * self.period_ns;
        self.deadline = Some(MonotonicDeadline { ns: next_ns });
        Some(RtPeriodFiring { generation: self.generation, overruns })
    }

    /// Ends a firing: an idle domain stops its timer, unless it was activated
    /// since the firing began.
    pub fn finish_period(&mut self, firing: RtPeriodFiring, keep_active: bool)
        requires
            old(self).wf(),
        ensures
            *final(self) == if old(self).generation != firing.generation || keep_active {
                *old(self)
            } else {
                RootRtBandwidth { owner: None, deadline: None, ..*old(self) }
            },
            final(self).wf(),
    {
        if self.generation != firing.generation || keep_active {
            return;
        }
        self.owner = None;
        self.deadline = None;
    }

    /// Hands the timer of a CPU that goes offline to another CPU.
    pub fn migrate_owner(&mut self, offline: CpuId, replacement: CpuId) -> (migrated: bool)
        requires
            old(self).wf(),
            old(self).generation < u64::MAX,
        ensures
            migrated == (old(self).owner == Some(offline)),
            *final(self) == if migrated {
                RootRtBandwidth {
                    owner: Some(replacement),
                    generation: (old(self).generation + 1) as u64,
                    ..*old(self)
                }
            } else {
                *old(self)
            },
            final(self).wf(),
    {
        let owned = match self.owner {
            Some(owner) => owner == offline,
            None => false,
        };
        if !owned || self.deadline.is_none() {
            return false;
        }
        self.owner = Some(replacement);
        self.generation = self.generation + 1;
        true
    }
}

/// A firing moves the period edge beyond the instant that it served, by at
/// most one period.
pub proof fn rt_period_edge_follows_the_firing(root: RootRtBandwidth, cpu: CpuId, now: MonotonicInstant)
    requires
        root.wf(),
        root.due(cpu, now),
    ensures
        now.ns < root.next_edge(now) <= now.ns + root.period_ns,
        root.elapsed_periods(now) >= 1,
{
    let elapsed = now.ns - root.deadline->0.ns;
    let p = root.period_ns as int;
    vstd::arithmetic::div_mod::lemma_fundamental_div_mod(elapsed, p);
    vstd::arithmetic::div_mod::lemma_div_pos_is_pos(elapsed, p);
    assert((elapsed / p + 1) * p == p * (elapsed / p) + p) by (nonlinear_arith);
}

} // verus!
