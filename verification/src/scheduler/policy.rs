//! Scheduling policies and the numbers derived from them.
use vstd::prelude::*;
use crate::error::TaskError;

verus! {

/// Fixed-point one of a CPU's Deadline bandwidth.
pub const DEADLINE_UTILIZATION_SCALE: u64 = 1_000_000_000;

/// Load weight of a nice-zero thread.
pub const NICE_ZERO_WEIGHT: u32 = 1024;

/// Load weight of a thread that runs only when nothing else does.
pub const IDLE_WEIGHT: u32 = 3;

/// Largest load weight of any fair thread.
pub const MAX_WEIGHT: u32 = 88761;

/// Load weight of a nice level.
pub open spec fn nice_weight(nice: int) -> u32 {
    if nice == -20 {
        88761
    } else if nice == -19 {
        71755
    } else if nice == -18 {
        56483
    } else if nice == -17 {
        46273
    } else if nice == -16 {
        36291
    } else if nice == -15 {
        29154
    } else if nice == -14 {
        23254
    } else if nice == -13 {
        18705
    } else if nice == -12 {
        14949
    } else if nice == -11 {
        11916
    } else if nice == -10 {
        9548
    } else if nice == -9 {
        7620
    } else if nice == -8 {
        6100
    } else if nice == -7 {
        4904
    } else if nice == -6 {
        3906
    } else if nice == -5 {
        3121
    } else if nice == -4 {
        2501
    } else if nice == -3 {
        1991
    } else if nice == -2 {
        1586
    } else if nice == -1 {
        1277
    } else if nice == 0 {
        1024
    } else if nice == 1 {
        820
    } else if nice == 2 {
        655
    } else if nice == 3 {
        526
    } else if nice == 4 {
        423
    } else if nice == 5 {
        335
    } else if nice == 6 {
        272
    } else if nice == 7 {
        215
    } else if nice == 8 {
        172
    } else if nice == 9 {
        137
    } else if nice == 10 {
        110
    } else if nice == 11 {
        87
    } else if nice == 12 {
        70
    } else if nice == 13 {
        56
    } else if nice == 14 {
        45
    } else if nice == 15 {
        36
    } else if nice == 16 {
        29
    } else if nice == 17 {
        23
    } else if nice == 18 {
        18
    } else {
        15
    }
}

/// Conventional fair-share urgency, from -20 (most) to 19 (least).
#[derive(Clone, Copy, Debug, PartialEq, Eq, Structural)]
pub struct Nice {
    pub value: i8,
}

impl Nice {
    pub fn zero() -> (nice: Self)
        ensures
            nice == (Nice { value: 0 }),
    {
        Nice { value: 0 }
    }

    pub open spec fn valid(self) -> bool {
        -20 <= self.value <= 19
    }

    pub fn new(value: i8) -> (nice: Option<Self>)
        ensures
            nice == if -20 <= value <= 19 {
                Some(Nice { value })
            } else {
                None::<Nice>
            },
    {
        if -20 <= value && value <= 19 {
            Some(Nice { value })
        } else {
            None
        }
    }

    pub fn weight(&self) -> (weight: u32)
        ensures
            weight == nice_weight(self.value as int),
            0 < weight <= MAX_WEIGHT,
    {
        let nice: i8 = self.value;
        if nice == -20 {
            88761
        } else if nice == -19 {
            71755
        } else if nice == -18 {
            56483
        } else if nice == -17 {
            46273
        } else if nice == -16 {
            36291
        } else if nice == -15 {
            29154
        } else if nice == -14 {
            23254
        } else if nice == -13 {
            18705
        } else if nice == -12 {
            14949
        } else if nice == -11 {
            11916
        } else if nice == -10 {
            9548
        } else if nice == -9 {
            7620
        } else if nice == -8 {
            6100
        } else if nice == -7 {
            4904
        } else if nice == -6 {
            3906
        } else if nice == -5 {
            3121
        } else if nice == -4 {
            2501
        } else if nice == -3 {
            1991
        } else if nice == -2 {
            1586
        } else if nice == -1 {
            1277
        } else if nice == 0 {
            1024
        } else if nice == 1 {
            820
        } else if nice == 2 {
            655
        } else if nice == 3 {
            526
        } else if nice == 4 {
            423
        } else if nice == 5 {
            335
        } else if nice == 6 {
            272
        } else if nice == 7 {
            215
        } else if nice == 8 {
            172
        } else if nice == 9 {
            137
        } else if nice == 10 {
            110
        } else if nice == 11 {
            87
        } else if nice == 12 {
            70
        } else if nice == 13 {
            56
        } else if nice == 14 {
            45
        } else if nice == 15 {
            36
        } else if nice == 16 {
            29
        } else if nice == 17 {
            23
        } else if nice == 18 {
            18
        } else {
            15
        }
    }
}

/// Flavour of the fair class.
#[derive(Clone, Copy, Debug, PartialEq, Eq, Structural)]
pub enum FairMode {
    Normal,
    Batch,
    Idle,
}

/// Fixed real-time priority, from 1 (least) to 99 (most urgent).
#[derive(Clone, Copy, Debug, PartialEq, Eq, Structural)]
pub struct RtPriority {
    pub value: u8,
}

impl RtPriority {
    pub open spec fn valid(self) -> bool {
        1 <= self.value <= 99
    }

    pub fn new(value: u8) -> (priority: Option<Self>)
        ensures
            priority == if 1 <= value <= 99 {
                Some(RtPriority { value })
            } else {
                None::<RtPriority>
            },
    {
        if 1 <= value && value <= 99 {
            Some(RtPriority { value })
        } else {
            None
        }
    }

    pub fn get(&self) -> (value: u8)
        ensures
            value == self.value,
    {
        self.value
    }
}

/// Options of a Deadline reservation.
#[derive(Clone, Copy, Debug, PartialEq, Eq, Structural)]
pub struct DeadlineFlags {
    pub reclaim: bool,
    pub dl_overrun: bool,
}

impl DeadlineFlags {
    pub fn none() -> (flags: Self)
        ensures
            flags == (DeadlineFlags { reclaim: false, dl_overrun: false }),
    {
        DeadlineFlags { reclaim: false, dl_overrun: false }
    }

    pub fn reclaiming() -> (flags: Self)
        ensures
            flags == (DeadlineFlags { reclaim: true, dl_overrun: false }),
    {
        DeadlineFlags { reclaim: true, dl_overrun: false }
    }

    pub fn reporting_overrun() -> (flags: Self)
        ensures
            flags == (DeadlineFlags { reclaim: false, dl_overrun: true }),
    {
        DeadlineFlags { reclaim: false, dl_overrun: true }
    }

    /// Whether every option of `other` is set.
    pub fn contains(&self, other: DeadlineFlags) -> (contains: bool)
        ensures
            contains == ((other.reclaim ==> self.reclaim) && (other.dl_overrun ==> self.dl_overrun)),
    {
        (!other.reclaim || self.reclaim) && (!other.dl_overrun || self.dl_overrun)
    }
}

/// `runtime_ns` of execution within `deadline_ns` of every `period_ns`.
#[derive(Clone, Copy, Debug, PartialEq, Eq, Structural)]
pub struct DeadlinePolicy {
    pub runtime_ns: u64,
    pub deadline_ns: u64,
    pub period_ns: u64,
    pub flags: DeadlineFlags,
}

impl DeadlinePolicy {
    pub open spec fn valid(self) -> bool {
        0 < self.runtime_ns <= self.deadline_ns <= self.period_ns < 0x8000_0000_0000_0000
    }

    /// Fixed-point share of one CPU that the reservation claims.
    pub open spec fn utilization(self) -> int {
        self.runtime_ns * DEADLINE_UTILIZATION_SCALE / (self.period_ns as int)
    }

    pub fn new(runtime_ns: u64, deadline_ns: u64, period_ns: u64, flags: DeadlineFlags) -> (policy: Option<Self>)
        ensures
            ({
                let candidate = DeadlinePolicy { runtime_ns, deadline_ns, period_ns, flags };
                policy == if candidate.valid() {
                    Some(candidate)
                } else {
                    None
                }
            }),
    {
        if 0 < runtime_ns && runtime_ns <= deadline_ns && deadline_ns <= period_ns && period_ns
            < 0x8000_0000_0000_0000 {
            Some(DeadlinePolicy { runtime_ns, deadline_ns, period_ns, flags })
        } else {
            None
        }
    }

    pub fn flags(&self) -> (flags: DeadlineFlags)
        ensures
            flags == self.flags,
    {
        self.flags
    }
}

/// How a thread competes for its CPU.
#[derive(Clone, Copy, Debug, PartialEq, Eq, Structural)]
pub enum SchedulePolicy {
    KernelStop,
    Deadline(DeadlinePolicy),
    Fifo { priority: RtPriority },
    RoundRobin { priority: RtPriority, quantum_ns: u64 },
    Fair { nice: Nice, mode: FairMode },
}

/// Scheduling classes, most urgent first.
#[derive(Clone, Copy, Debug, PartialEq, Eq, Structural)]
pub enum SchedulerClass {
    Stop,
    Deadline,
    Realtime,
    Fair,
    IdleFair,
}

impl SchedulerClass {
    pub open spec fn rank(self) -> int {
        match self {
            SchedulerClass::Stop => 0,
            SchedulerClass::Deadline => 1,
            SchedulerClass::Realtime => 2,
            SchedulerClass::Fair => 3,
            SchedulerClass::IdleFair => 4,
        }
    }

    pub fn for_policy(policy: SchedulePolicy) -> (class: Self)
        ensures
            class == policy.class(),
    {
        match policy {
            SchedulePolicy::KernelStop => SchedulerClass::Stop,
            SchedulePolicy::Deadline(_) => SchedulerClass::Deadline,
            SchedulePolicy::Fifo { .. } | SchedulePolicy::RoundRobin { .. } => SchedulerClass::Realtime,
            SchedulePolicy::Fair { mode, .. } => match mode {
                FairMode::Idle => SchedulerClass::IdleFair,
                FairMode::Normal | FairMode::Batch => SchedulerClass::Fair,
            },
        }
    }
}

impl SchedulePolicy {
    pub open spec fn class(self) -> SchedulerClass {
        match self {
            SchedulePolicy::KernelStop => SchedulerClass::Stop,
            SchedulePolicy::Deadline(_) => SchedulerClass::Deadline,
            SchedulePolicy::Fifo { .. } => SchedulerClass::Realtime,
            SchedulePolicy::RoundRobin { .. } => SchedulerClass::Realtime,
            SchedulePolicy::Fair { mode, .. } => if mode == FairMode::Idle {
                SchedulerClass::IdleFair
            } else {
                SchedulerClass::Fair
            },
        }
    }

    pub open spec fn is_deadline(self) -> bool {
        self is Deadline
    }

    pub open spec fn is_rt(self) -> bool {
        self is Fifo || self is RoundRobin
    }


    /// The real-time priority, where the policy has one.
    pub open spec fn rt(self) -> Option<RtPriority> {
        match self {
            SchedulePolicy::Fifo { priority } => Some(priority),
            SchedulePolicy::RoundRobin { priority, .. } => Some(priority),
            _ => None,
        }
    }

    pub open spec fn valid(self) -> bool {
        match self {
            SchedulePolicy::KernelStop => true,
            SchedulePolicy::Deadline(policy) => policy.valid(),
            SchedulePolicy::Fifo { priority } => priority.valid(),
            SchedulePolicy::RoundRobin { priority, quantum_ns } => priority.valid() && quantum_ns > 0,
            SchedulePolicy::Fair { nice, .. } => nice.valid(),
        }
    }

    /// Load that the policy adds to the fair class.
    pub open spec fn fair_load(self) -> u64 {
        match self {
            SchedulePolicy::Fair { nice, mode } => if mode == FairMode::Idle {
                IDLE_WEIGHT as u64
            } else {
                nice_weight(nice.value as int) as u64
            },
            _ => 0,
        }
    }

    /// Load by which placement compares CPUs.
    pub open spec fn load(self) -> u64 {
        match self {
            SchedulePolicy::KernelStop => 0,
            SchedulePolicy::Fair { .. } => self.fair_load(),
            _ => NICE_ZERO_WEIGHT as u64,
        }
    }

    /// The part of the load that the fair class does not account itself.
    pub open spec fn fixed_load(self) -> u64 {
        (self.load() - self.fair_load()) as u64
    }

    pub fn kernel_stop() -> (policy: Self)
        ensures
            policy == SchedulePolicy::KernelStop,
    {
        SchedulePolicy::KernelStop
    }

    pub fn deadline(policy: DeadlinePolicy) -> (result: Self)
        ensures
            result == SchedulePolicy::Deadline(policy),
    {
        SchedulePolicy::Deadline(policy)
    }

    pub fn fifo(priority: RtPriority) -> (policy: Self)
        ensures
            policy == (SchedulePolicy::Fifo { priority }),
    {
        SchedulePolicy::Fifo { priority }
    }

    pub fn round_robin(priority: RtPriority, quantum_ns: u64) -> (policy: Self)
        ensures
            policy == (SchedulePolicy::RoundRobin { priority, quantum_ns }),
    {
        SchedulePolicy::RoundRobin { priority, quantum_ns }
    }

    pub fn fair(nice: Nice, mode: FairMode) -> (policy: Self)
        ensures
            policy == (SchedulePolicy::Fair { nice, mode }),
    {
        SchedulePolicy::Fair { nice, mode }
    }

    pub fn rt_priority(&self) -> (priority: Option<RtPriority>)
        ensures
            priority == self.rt(),
    {
        match *self {
            SchedulePolicy::Fifo { priority } => Some(priority),
            SchedulePolicy::RoundRobin { priority, .. } => Some(priority),
            _ => None,
        }
    }

    /// Rank of the policy's class; less is more urgent.
    pub fn class_rank(&self) -> (rank: u8)
        ensures
            rank == self.class().rank(),
    {
        match SchedulerClass::for_policy(*self) {
            SchedulerClass::Stop => 0,
            SchedulerClass::Deadline => 1,
            SchedulerClass::Realtime => 2,
            SchedulerClass::Fair => 3,
            SchedulerClass::IdleFair => 4,
        }
    }

    pub fn validate(&self) -> (result: Result<(), TaskError>)
        ensures
            result == if self.valid() {
                Ok::<(), TaskError>(())
            } else {
                Err(TaskError::InvalidPolicy)
            },
    {
        let valid = match *self {
            SchedulePolicy::KernelStop => true,
            SchedulePolicy::Deadline(policy) => 0 < policy.runtime_ns && policy.runtime_ns
                <= policy.deadline_ns && policy.deadline_ns <= policy.period_ns
                && policy.period_ns < 0x8000_0000_0000_0000,
            SchedulePolicy::Fifo { priority } => 1 <= priority.value && priority.value <= 99,
            SchedulePolicy::RoundRobin { priority, quantum_ns } => 1 <= priority.value
                && priority.value <= 99 && quantum_ns > 0,
            SchedulePolicy::Fair { nice, .. } => -20 <= nice.value && nice.value <= 19,
        };
        if valid {
            Ok(())
        } else {
            Err(TaskError::InvalidPolicy)
        }
    }

    pub fn fair_demand(&self) -> (demand: u64)
        ensures
            demand == self.fair_load(),
            demand <= MAX_WEIGHT,
    {
        match *self {
            SchedulePolicy::Fair { nice, mode } => match mode {
                FairMode::Idle => IDLE_WEIGHT as u64,
                FairMode::Normal | FairMode::Batch => nice.weight() as u64,
            },
            _ => 0,
        }
    }

    pub fn placement_demand(&self) -> (demand: u64)
        ensures
            demand == self.load(),
            demand <= MAX_WEIGHT,
    {
        match *self {
            SchedulePolicy::KernelStop => 0,
            SchedulePolicy::Fair { .. } => self.fair_demand(),
            _ => NICE_ZERO_WEIGHT as u64,
        }
    }

    /// The part of the placement demand that the fair class does not account.
    pub fn fixed_placement_demand(&self) -> (demand: u64)
        ensures
            demand == self.fixed_load(),
            demand <= NICE_ZERO_WEIGHT,
    {
        self.placement_demand().saturating_sub(self.fair_demand())
    }

    /// Whether a running thread of this policy stays linked in its class.
    pub fn retains_running_link(&self) -> (retains: bool)
        ensures
            retains == (self.is_deadline() || self.is_rt()),
    {
        match *self {
            SchedulePolicy::Deadline(_) | SchedulePolicy::Fifo { .. }
            | SchedulePolicy::RoundRobin { .. } => true,
            SchedulePolicy::KernelStop | SchedulePolicy::Fair { .. } => false,
        }
    }
}

impl Default for SchedulePolicy {
    fn default() -> (policy: Self)
        ensures
            policy == (SchedulePolicy::Fair { nice: Nice { value: 0 }, mode: FairMode::Normal }),
    {
        SchedulePolicy::Fair { nice: Nice { value: 0 }, mode: FairMode::Normal }
    }
}

/// Admission ledger of the Deadline reservations of a root domain.
#[derive(Clone, Copy, Debug, PartialEq, Eq, Structural)]
pub struct DeadlineAdmission {
    pub cap_percent: u32,
    pub online_cpus: u32,
    pub reserved_scaled: u64,
}

impl DeadlineAdmission {
    /// Fixed-point bandwidth that all online CPUs may reserve together.
    pub open spec fn capacity(self) -> int {
        self.online_cpus * (self.cap_percent * DEADLINE_UTILIZATION_SCALE / 100)
    }

    pub open spec fn wf(self) -> bool {
        self.cap_percent <= 100
    }

    pub fn new(cap_percent: u32) -> (admission: Self)
        requires
            cap_percent <= 100,
        ensures
            admission == (DeadlineAdmission { cap_percent, online_cpus: 0, reserved_scaled: 0 }),
            admission.wf(),
    {
        DeadlineAdmission { cap_percent, online_cpus: 0, reserved_scaled: 0 }
    }

    /// Fixed-point share of one CPU that a reservation claims.
    pub fn utilization(policy: DeadlinePolicy) -> (utilization: u64)
        requires
            policy.valid(),
        ensures
            utilization == policy.utilization(),
            utilization <= DEADLINE_UTILIZATION_SCALE,
    {
        assert(policy.runtime_ns * 1_000_000_000 / (policy.period_ns as int) <= 1_000_000_000)
            by (nonlinear_arith)
            requires
                0 < policy.runtime_ns <= policy.period_ns,
        ;
        assert(policy.runtime_ns * 1_000_000_000 / (policy.period_ns as int) >= 0) by (nonlinear_arith)
            requires
                0 < policy.runtime_ns <= policy.period_ns,
        ;
        ((policy.runtime_ns as u128) * (DEADLINE_UTILIZATION_SCALE as u128) / (policy.period_ns as u128)) as u64
    }

    pub fn reserved_scaled(&self) -> (reserved: u64)
        ensures
            reserved == self.reserved_scaled,
    {
        self.reserved_scaled
    }

    /// The capacity of any number of CPUs fits 64 bits.
    pub proof fn capacity_fits(self)
        requires
            self.wf(),
        ensures
            0 <= self.capacity() <= u64::MAX,
    {
        let per_cpu = self.cap_percent * DEADLINE_UTILIZATION_SCALE / 100;
        assert(0 <= self.online_cpus * per_cpu <= 0xffff_ffff * 1_000_000_000) by (nonlinear_arith)
            requires
                0 <= per_cpu <= 1_000_000_000,
                0 <= self.online_cpus <= 0xffff_ffff,
        ;
    }

    pub fn capacity_scaled(&self) -> (capacity: u64)
        requires
            self.wf(),
        ensures
            capacity == self.capacity(),
    {
        let per_cpu: u64 = (self.cap_percent as u64) * DEADLINE_UTILIZATION_SCALE / 100;
        assert(per_cpu <= 1_000_000_000);
        assert(self.online_cpus * per_cpu <= 0xffff_ffff * 1_000_000_000) by (nonlinear_arith)
            requires
                per_cpu <= 1_000_000_000,
                self.online_cpus <= 0xffff_ffff,
        ;
        (self.online_cpus as u64) * per_cpu
    }

    pub fn set_online_cpus(&mut self, online_cpus: u32)
        ensures
            *final(self) == (DeadlineAdmission { online_cpus, ..*old(self) }),
    {
        self.online_cpus = online_cpus;
    }

    /// Reserves bandwidth if the domain still has it.
    pub fn reserve_utilization(&mut self, utilization: u64) -> (result: Result<(), TaskError>)
        requires
            old(self).wf(),
        ensures
            result == if old(self).reserved_scaled + utilization <= old(self).capacity() {
                Ok::<(), TaskError>(())
            } else {
                Err(TaskError::DeadlineAdmission)
            },
            *final(self) == if result is Ok {
                DeadlineAdmission {
                    reserved_scaled: (old(self).reserved_scaled + utilization) as u64,
                    ..*old(self)
                }
            } else {
                *old(self)
            },
    {
        let capacity: u64 = self.capacity_scaled();
        if self.reserved_scaled > capacity || utilization > capacity - self.reserved_scaled {
            return Err(TaskError::DeadlineAdmission);
        }
        self.reserved_scaled = self.reserved_scaled + utilization;
        Ok(())
    }

    /// Replaces a held reservation. A smaller one is always granted, a larger
    /// one only within capacity, and nothing can be given back that is not
    /// held.
    pub fn replace_utilization(&mut self, old_utilization: u64, new_utilization: u64) -> (result: Result<(), TaskError>)
        requires
            old(self).wf(),
        ensures
            result == if old_utilization > old(self).reserved_scaled {
                Err(TaskError::InvalidConfiguration)
            } else if new_utilization > old_utilization && old(self).reserved_scaled - old_utilization
                + new_utilization > old(self).capacity() {
                Err(TaskError::DeadlineAdmission)
            } else {
                Ok::<(), TaskError>(())
            },
            *final(self) == if result is Ok {
                DeadlineAdmission {
                    reserved_scaled: (old(self).reserved_scaled - old_utilization + new_utilization) as u64,
                    ..*old(self)
                }
            } else {
                *old(self)
            },
    {
        if old_utilization > self.reserved_scaled {
            return Err(TaskError::InvalidConfiguration);
        }
        let capacity: u64 = self.capacity_scaled();
        let remaining: u64 = self.reserved_scaled - old_utilization;
        if new_utilization > old_utilization {
            if remaining > capacity || new_utilization > capacity - remaining {
                return Err(TaskError::DeadlineAdmission);
            }
        }
        self.reserved_scaled = remaining + new_utilization;
        Ok(())
    }
}

/// Admission never grants more bandwidth than the domain has.
pub proof fn admission_stays_within_capacity(before: DeadlineAdmission, after: DeadlineAdmission, utilization: u64)
    requires
        before.reserved_scaled + utilization <= before.capacity(),
        after == (DeadlineAdmission {
            reserved_scaled: (before.reserved_scaled + utilization) as u64,
            ..before
        }),
        before.capacity() <= u64::MAX,
    ensures
        after.reserved_scaled <= after.capacity(),
{
}

} // verus!
