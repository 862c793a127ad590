//! Boot-time tuning of the scheduler.
use vstd::prelude::*;
use crate::time::MONOTONIC_MAX_NS;

verus! {

pub const DEFAULT_BATCH_LIMIT: usize = 64;

pub const DEFAULT_THREAD_CAPACITY: usize = 4096;

pub const DEFAULT_FAIR_SLICE_NS: u64 = 3_000_000;

pub const DEFAULT_TIMING_GRANULARITY_NS: u64 = 1_000_000;

pub const DEFAULT_PI_CHAIN_LIMIT: usize = 1024;

pub const DEFAULT_RT_PERIOD_NS: u64 = 1_000_000_000;

pub const DEFAULT_RT_RUNTIME_NS: u64 = 950_000_000;

pub const DEFAULT_DEADLINE_CAP_PERCENT: u32 = 95;

/// Fixed parameters of one task system.
#[derive(Clone, Copy, Debug, PartialEq, Eq, Structural)]
pub struct TaskSystemConfig {
    pub cpu_count: usize,
    pub thread_capacity: usize,
    pub batch_limit: usize,
    pub fair_slice_ns: u64,
    pub timing_granularity_ns: u64,
    pub pi_chain_limit: usize,
    pub rt_period_ns: u64,
    pub rt_runtime_ns: u64,
    pub deadline_cap_percent: u32,
}

impl TaskSystemConfig {
    /// The defaults for a machine of `cpu_count` CPUs.
    pub open spec fn defaults(cpu_count: usize) -> Self {
        TaskSystemConfig {
            cpu_count,
            thread_capacity: DEFAULT_THREAD_CAPACITY,
            batch_limit: DEFAULT_BATCH_LIMIT,
            fair_slice_ns: DEFAULT_FAIR_SLICE_NS,
            timing_granularity_ns: DEFAULT_TIMING_GRANULARITY_NS,
            pi_chain_limit: DEFAULT_PI_CHAIN_LIMIT,
            rt_period_ns: DEFAULT_RT_PERIOD_NS,
            rt_runtime_ns: DEFAULT_RT_RUNTIME_NS,
            deadline_cap_percent: DEFAULT_DEADLINE_CAP_PERCENT,
        }
    }

    /// What the scheduler relies on.
    pub open spec fn valid(self) -> bool {
        &&& 0 < self.cpu_count <= u32::MAX
        &&& 0 < self.thread_capacity <= u32::MAX
        &&& 0 < self.batch_limit <= DEFAULT_BATCH_LIMIT
        &&& 0 < self.fair_slice_ns < 0x1_0000_0000_0000
        &&& 0 < self.pi_chain_limit
        &&& 0 < self.rt_period_ns <= MONOTONIC_MAX_NS
        &&& self.rt_runtime_ns <= self.rt_period_ns
        &&& self.deadline_cap_percent <= 100
    }

    pub fn new(cpu_count: usize) -> (config: Self)
        ensures
            config == Self::defaults(cpu_count),
            0 < cpu_count <= u32::MAX ==> config.valid(),
    {
        TaskSystemConfig {
            cpu_count,
            thread_capacity: DEFAULT_THREAD_CAPACITY,
            batch_limit: DEFAULT_BATCH_LIMIT,
            fair_slice_ns: DEFAULT_FAIR_SLICE_NS,
            timing_granularity_ns: DEFAULT_TIMING_GRANULARITY_NS,
            pi_chain_limit: DEFAULT_PI_CHAIN_LIMIT,
            rt_period_ns: DEFAULT_RT_PERIOD_NS,
            rt_runtime_ns: DEFAULT_RT_RUNTIME_NS,
            deadline_cap_percent: DEFAULT_DEADLINE_CAP_PERCENT,
        }
    }

    /// Tests `valid`.
    pub fn is_valid(&self) -> (valid: bool)
        ensures
            valid == self.valid(),
    {
        0 < self.cpu_count && self.cpu_count as u64 <= u32::MAX as u64 && 0 < self.thread_capacity
            && self.thread_capacity as u64 <= u32::MAX as u64 && 0 < self.batch_limit
            && self.batch_limit <= DEFAULT_BATCH_LIMIT && 0 < self.fair_slice_ns
            && self.fair_slice_ns < 0x1_0000_0000_0000 && 0 < self.pi_chain_limit && 0
            < self.rt_period_ns && self.rt_period_ns <= MONOTONIC_MAX_NS
            && self.rt_runtime_ns <= self.rt_period_ns && self.deadline_cap_percent <= 100
    }

    /// The same parameters with room for `thread_capacity` threads.
    pub fn with_thread_capacity(self, thread_capacity: usize) -> (config: Self)
        ensures
            config == (TaskSystemConfig { thread_capacity, ..self }),
    {
        let mut config = self;
        config.thread_capacity = thread_capacity;
        config
    }

    /// The same parameters with another bound on priority-inheritance chains.
    pub fn with_pi_chain_limit(self, pi_chain_limit: usize) -> (config: Self)
        ensures
            config == (TaskSystemConfig { pi_chain_limit, ..self }),
    {
        let mut config = self;
        config.pi_chain_limit = pi_chain_limit;
        config
    }
}

} // verus!
