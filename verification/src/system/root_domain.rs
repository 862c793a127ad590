//! What all CPUs share: the online set, Deadline admission and the real-time
//! period.
use vstd::prelude::*;
use crate::config::TaskSystemConfig;
use crate::cpu::local::CpuLocal;
use crate::cpu::remote::{CpuLifecycleState, CpuRemote};
use crate::cpu::run_queue::CpuRunQueueState;
use crate::error::TaskError;
use crate::ids::{CpuId, CpuSet, members_after_update};
use crate::scheduler::bandwidth::{RootRtBandwidth, RtRunQueueBandwidth};
use crate::scheduler::policy::{DEADLINE_UTILIZATION_SCALE, DeadlineAdmission, SchedulePolicy};
use crate::scheduler::run_queue::saturated_add;
use crate::time::{MONOTONIC_MAX_NS, MonotonicInstant};

verus! {

/// Totals from which the bandwidth of a changed topology is rebuilt.
#[derive(Clone, Copy, Debug, PartialEq, Eq, Structural)]
pub struct DeadlineBandwidthRebuild {
    pub online_cpus: u32,
    pub reserved_scaled: u64,
    pub distributed_scaled: u64,
}

#[derive(Debug)]
pub struct RootDomain {
    pub online: CpuSet,
    pub admission: DeadlineAdmission,
    pub deadline_max_bw_scaled: u64,
    pub rt: RootRtBandwidth,
}

/// Every CPU stands at its own index.
pub open spec fn indexed(cpus: Seq<CpuLocal>) -> bool {
    forall|i: int| 0 <= i < cpus.len() ==> (#[trigger] cpus[i]).remote.owner == (CpuId { index: i as u32 })
}

pub open spec fn all_wf(cpus: Seq<CpuLocal>) -> bool {
    forall|i: int| 0 <= i < cpus.len() ==> (#[trigger] cpus[i]).wf()
}

/// The CPU with another amount of spare Deadline bandwidth.
pub open spec fn with_extra(cpu: CpuLocal, extra: u64) -> CpuLocal {
    CpuLocal { remote: CpuRemote { deadline_extra_bw_scaled: extra, ..cpu.remote }, ..cpu }
}

/// Publishes the spare bandwidth of a CPU.
fn publish_extra(cpu: &mut CpuLocal, extra: u64)
    ensures
        *final(cpu) == with_extra(*old(cpu), extra),
        old(cpu).wf() ==> final(cpu).wf(),
{
    cpu.remote.publish_deadline_extra_bw(extra);
}

/// Spare bandwidth after one reservation was exchanged for another, within zero
/// and the maximum.
pub open spec fn exchanged(extra: u64, old_per_cpu: int, new_per_cpu: int, max: u64) -> u64 {
    let value = extra + old_per_cpu - new_per_cpu;
    if value < 0 {
        0
    } else if value > max {
        max
    } else {
        value as u64
    }
}

impl RootDomain {
    pub open spec fn wf(&self) -> bool {
        &&& self.admission.wf()
        &&& self.online.bits@.len() <= u32::MAX
        &&& self.rt.wf()
        &&& self.rt.period_ns <= MONOTONIC_MAX_NS
        &&& self.rt.runtime_ns <= self.rt.period_ns
    }

    /// Topology changes keep the admission ledger in step with the online set.
    pub open spec fn in_step(&self) -> bool {
        self.admission.online_cpus == self.online.size()
    }

    /// No CPU is online and nothing is reserved.
    pub open spec fn blank(&self, config: TaskSystemConfig) -> bool {
        &&& self.online.bits@ == Seq::new(config.cpu_count as nat, |i: int| false)
        &&& self.admission == (DeadlineAdmission {
            cap_percent: config.deadline_cap_percent,
            online_cpus: 0,
            reserved_scaled: 0,
        })
        &&& self.deadline_max_bw_scaled == config.deadline_cap_percent
            * DEADLINE_UTILIZATION_SCALE / 100
        &&& self.rt.blank(config)
    }

    pub fn new(config: TaskSystemConfig) -> (domain: Self)
        requires
            config.valid(),
        ensures
            domain.blank(config),
            domain.wf(),
    {
        RootDomain {
            online: CpuSet::empty(config.cpu_count),
            admission: DeadlineAdmission::new(config.deadline_cap_percent),
            deadline_max_bw_scaled: config.deadline_cap_percent as u64 * DEADLINE_UTILIZATION_SCALE
                / 100,
            rt: RootRtBandwidth::new(config),
        }
    }

    /// The bandwidth that a thread of a policy has to reserve.
    pub open spec fn reservation_of(&self, policy: SchedulePolicy, affinity: &CpuSet) -> Result<u64, TaskError> {
        match policy {
            SchedulePolicy::Deadline(deadline) => if affinity.includes(&self.online) {
                Ok(deadline.utilization() as u64)
            } else {
                Err(TaskError::DeadlineAffinity)
            },
            _ => Ok(0),
        }
    }

    pub fn deadline_reservation_for(&self, policy: SchedulePolicy, affinity: &CpuSet) -> (result: Result<u64, TaskError>)
        requires
            self.wf(),
            policy.valid(),
        ensures
            result == self.reservation_of(policy, affinity),
    {
        match policy {
            SchedulePolicy::Deadline(deadline) => {
                if !affinity.covers(&self.online) {
                    return Err(TaskError::DeadlineAffinity);
                }
                Ok(DeadlineAdmission::utilization(deadline))
            },
            _ => Ok(0),
        }
    }

    /// The CPUs after one reservation was exchanged for another.
    pub open spec fn exchanged_on(&self, after: Seq<CpuLocal>, before: Seq<CpuLocal>, old_utilization: u64, new_utilization: u64) -> bool {
        let count = self.online.size() as int;
        &&& after.len() == before.len()
        &&& forall|i: int|
            0 <= i < before.len() ==> #[trigger] after[i] == if count > 0 && self.online.has(
                before[i].remote.owner,
            ) {
                with_extra(
                    before[i],
                    exchanged(
                        before[i].remote.deadline_extra_bw_scaled,
                        old_utilization as int / count,
                        new_utilization as int / count,
                        self.deadline_max_bw_scaled,
                    ),
                )
            } else {
                before[i]
            }
    }

    fn replace_deadline_bandwidth(&self, cpus: &mut Vec<CpuLocal>, old_utilization: u64, new_utilization: u64)
        requires
            all_wf(old(cpus)@),
        ensures
            self.exchanged_on(final(cpus)@, old(cpus)@, old_utilization, new_utilization),
            all_wf(final(cpus)@),
    {
        let count: u64 = self.online.count() as u64;
        if count == 0 {
            return;
        }
        let old_per_cpu: u64 = old_utilization / count;
        let new_per_cpu: u64 = new_utilization / count;
        let ghost before = cpus@;
        let mut i: usize = 0;
        while i < cpus.len()
            invariant
                i <= cpus.len(),
                cpus@.len() == before.len(),
                before == old(cpus)@,
                all_wf(before),
                count == self.online.size(),
                count > 0,
                old_per_cpu == old_utilization as int / (count as int),
                new_per_cpu == new_utilization as int / (count as int),
                forall|j: int| i <= j < before.len() ==> #[trigger] cpus@[j] == before[j],
                forall|j: int|
                    0 <= j < i ==> #[trigger] cpus@[j] == if self.online.has(
                        before[j].remote.owner,
                    ) {
                        with_extra(
                            before[j],
                            exchanged(
                                before[j].remote.deadline_extra_bw_scaled,
                                old_per_cpu as int,
                                new_per_cpu as int,
                                self.deadline_max_bw_scaled,
                            ),
                        )
                    } else {
                        before[j]
                    },
            decreases cpus.len() - i,
        {
            assert(cpus@[i as int] == before[i as int]);
            if self.online.contains(cpus[i].remote.owner) {
                let extra: u64 = cpus[i].remote.deadline_extra_bw_scaled();
                let sum: u128 = extra as u128 + old_per_cpu as u128;
                let left: u128 = if sum < new_per_cpu as u128 {
                    0
                } else {
                    sum - new_per_cpu as u128
                };
                let value: u64 = if left > self.deadline_max_bw_scaled as u128 {
                    self.deadline_max_bw_scaled
                } else {
                    left as u64
                };
                publish_extra(&mut cpus[i], value);
            }
            i = i + 1;
        }
        proof {
            assert forall|j: int| 0 <= j < cpus@.len() implies (#[trigger] cpus@[j]).wf() by {
                assert(before[j].wf());
            }
        }
    }

    /// Reserves what a thread of a policy needs.
    pub fn reserve_deadline(&mut self, cpus: &mut Vec<CpuLocal>, policy: SchedulePolicy, affinity: &CpuSet) -> (result: Result<u64, TaskError>)
        requires
            old(self).wf(),
            all_wf(old(cpus)@),
            policy.valid(),
        ensures
            result == match old(self).reservation_of(policy, affinity) {
                Ok(reservation) => if reservation != 0 && old(self).admission.reserved_scaled
                    + reservation > old(self).admission.capacity() {
                    Err(TaskError::DeadlineAdmission)
                } else {
                    Ok(reservation)
                },
                Err(error) => Err(error),
            },
            match result {
                Ok(reservation) => if reservation == 0 {
                    *final(self) == *old(self) && final(cpus)@ == old(cpus)@
                } else {
                    &&& *final(self) == old(self).holding(reservation as int)
                    &&& final(self).exchanged_on(final(cpus)@, old(cpus)@, 0, reservation)
                },
                Err(_) => *final(self) == *old(self) && final(cpus)@ == old(cpus)@,
            },
            final(self).wf(),
            all_wf(final(cpus)@),
    {
        let reservation: u64 = match self.deadline_reservation_for(policy, affinity) {
            Ok(reservation) => reservation,
            Err(error) => {
                return Err(error);
            },
        };
        if reservation != 0 {
            match self.admission.reserve_utilization(reservation) {
                Ok(_) => {},
                Err(error) => {
                    return Err(error);
                },
            }
            self.replace_deadline_bandwidth(cpus, 0, reservation);
        }
        Ok(reservation)
    }

    /// The domain with more bandwidth reserved.
    pub open spec fn holding(self, more: int) -> RootDomain {
        RootDomain {
            admission: DeadlineAdmission {
                reserved_scaled: (self.admission.reserved_scaled + more) as u64,
                ..self.admission
            },
            ..self
        }
    }

    /// Exchanges one reservation for another.
    pub fn replace_deadline_utilization(&mut self, cpus: &mut Vec<CpuLocal>, old_utilization: u64, new_utilization: u64) -> (result: Result<(), TaskError>)
        requires
            old(self).wf(),
            all_wf(old(cpus)@),
        ensures
            result == if old_utilization == new_utilization {
                Ok::<(), TaskError>(())
            } else if old_utilization > old(self).admission.reserved_scaled {
                Err(TaskError::InvalidConfiguration)
            } else if new_utilization > old_utilization && old(self).admission.reserved_scaled
                - old_utilization + new_utilization > old(self).admission.capacity() {
                Err(TaskError::DeadlineAdmission)
            } else {
                Ok(())
            },
            if result is Err || old_utilization == new_utilization {
                *final(self) == *old(self) && final(cpus)@ == old(cpus)@
            } else {
                &&& *final(self) == old(self).holding(new_utilization - old_utilization)
                &&& final(self).exchanged_on(
                    final(cpus)@,
                    old(cpus)@,
                    old_utilization,
                    new_utilization,
                )
            },
            final(self).wf(),
            all_wf(final(cpus)@),
    {
        if old_utilization == new_utilization {
            return Ok(());
        }
        match self.admission.replace_utilization(old_utilization, new_utilization) {
            Ok(_) => {},
            Err(error) => {
                return Err(error);
            },
        }
        self.replace_deadline_bandwidth(cpus, old_utilization, new_utilization);
        Ok(())
    }

    /// Gives a reservation back.
    pub fn release_deadline(&mut self, cpus: &mut Vec<CpuLocal>, utilization: u64)
        requires
            old(self).wf(),
            all_wf(old(cpus)@),
            utilization <= old(self).admission.reserved_scaled,
        ensures
            if utilization == 0 {
                *final(self) == *old(self) && final(cpus)@ == old(cpus)@
            } else {
                &&& *final(self) == old(self).holding(-utilization)
                &&& final(self).exchanged_on(final(cpus)@, old(cpus)@, utilization, 0)
            },
            final(self).wf(),
            all_wf(final(cpus)@),
    {
        if utilization == 0 {
            return;
        }
        let _ = self.replace_deadline_utilization(cpus, utilization, 0);
    }

    /// Whether more is reserved than the present topology can carry.
    pub fn admission_overcommitted(&self) -> (overcommitted: bool)
        requires
            self.wf(),
        ensures
            overcommitted == (self.admission.reserved_scaled > self.admission.capacity()),
    {
        self.admission.reserved_scaled() > self.admission.capacity_scaled()
    }

    /// Whether the other CPUs can carry what is reserved.
    pub fn can_deactivate_cpu(&self, cpu: CpuId) -> (can: bool)
        ensures
            can == (self.online.has(cpu) && self.admission.reserved_scaled <= (self.online.size()
                - 1) * self.deadline_max_bw_scaled),
    {
        if !self.online.contains(cpu) {
            return false;
        }
        let count: usize = self.online.count();
        if count == 0 {
            proof {
                members_after_update(self.online.bits@, cpu.index as int, false);
            }
            return false;
        }
        let remaining: u128 = (count - 1) as u128;
        assert(remaining * self.deadline_max_bw_scaled <= u128::MAX) by (nonlinear_arith)
            requires
                remaining <= 0xffff_ffff_ffff_ffff,
                self.deadline_max_bw_scaled <= 0xffff_ffff_ffff_ffff,
        ;
        self.admission.reserved_scaled() as u128 <= remaining * self.deadline_max_bw_scaled as u128
    }

    /// The CPUs after the bandwidth was distributed anew.
    pub open spec fn rebuilt_on(&self, after: Seq<CpuLocal>, before: Seq<CpuLocal>, rebuild: DeadlineBandwidthRebuild) -> bool {
        &&& after.len() == before.len()
        &&& forall|i: int|
            0 <= i < before.len() ==> #[trigger] after[i] == with_extra(
                before[i],
                if self.online.has(before[i].remote.owner) {
                    (self.deadline_max_bw_scaled - rebuild.distributed_scaled) as u64
                } else {
                    self.deadline_max_bw_scaled
                },
            )
    }

    fn rebuild_deadline_bandwidth(&mut self, cpus: &mut Vec<CpuLocal>, rebuild: DeadlineBandwidthRebuild)
        requires
            all_wf(old(cpus)@),
            rebuild.online_cpus == old(self).online.size(),
            rebuild.reserved_scaled == old(self).admission.reserved_scaled,
            rebuild.distributed_scaled <= old(self).deadline_max_bw_scaled,
        ensures
            *final(self) == (RootDomain {
                admission: DeadlineAdmission {
                    online_cpus: rebuild.online_cpus,
                    ..old(self).admission
                },
                ..*old(self)
            }),
            final(self).rebuilt_on(final(cpus)@, old(cpus)@, rebuild),
            all_wf(final(cpus)@),
    {
        self.admission.set_online_cpus(rebuild.online_cpus);
        let extra: u64 = self.deadline_max_bw_scaled - rebuild.distributed_scaled;
        let ghost before = cpus@;
        let mut i: usize = 0;
        while i < cpus.len()
            invariant
                i <= cpus.len(),
                cpus@.len() == before.len(),
                before == old(cpus)@,
                all_wf(before),
                extra == self.deadline_max_bw_scaled - rebuild.distributed_scaled,
                forall|j: int| i <= j < before.len() ==> #[trigger] cpus@[j] == before[j],
                forall|j: int|
                    0 <= j < i ==> #[trigger] cpus@[j] == with_extra(
                        before[j],
                        if self.online.has(before[j].remote.owner) {
                            extra
                        } else {
                            self.deadline_max_bw_scaled
                        },
                    ),
            decreases cpus.len() - i,
        {
            assert(cpus@[i as int] == before[i as int]);
            let published: u64 = if self.online.contains(cpus[i].remote.owner) {
                extra
            } else {
                self.deadline_max_bw_scaled
            };
            publish_extra(&mut cpus[i], published);
            i = i + 1;
        }
        proof {
            assert forall|j: int| 0 <= j < cpus@.len() implies (#[trigger] cpus@[j]).wf() by {
                assert(before[j].wf());
            }
        }
    }

    /// Takes a CPU into the online set and distributes the bandwidth anew.
    pub fn insert_online(&mut self, cpus: &mut Vec<CpuLocal>, cpu: CpuId, rebuild: DeadlineBandwidthRebuild) -> (inserted: bool)
        requires
            old(self).wf(),
            all_wf(old(cpus)@),
            cpu.index < old(self).online.bits@.len(),
            !old(self).online.has(cpu) ==> {
                &&& rebuild.online_cpus == old(self).online.size() + 1
                &&& rebuild.reserved_scaled == old(self).admission.reserved_scaled
                &&& rebuild.distributed_scaled <= old(self).deadline_max_bw_scaled
            },
        ensures
            inserted == !old(self).online.has(cpu),
            if inserted {
                &&& final(self).online.bits@ == old(self).online.bits@.update(cpu.index as int, true)
                &&& *final(self) == (RootDomain {
                    online: final(self).online,
                    admission: DeadlineAdmission {
                        online_cpus: rebuild.online_cpus,
                        ..old(self).admission
                    },
                    ..*old(self)
                })
                &&& final(self).rebuilt_on(final(cpus)@, old(cpus)@, rebuild)
                &&& final(self).in_step()
            } else {
                *final(self) == *old(self) && final(cpus)@ == old(cpus)@
            },
            final(self).wf(),
            all_wf(final(cpus)@),
    {
        if self.online.contains(cpu) {
            return false;
        }
        proof {
            members_after_update(self.online.bits@, cpu.index as int, true);
        }
        let _ = self.online.insert(cpu);
        self.rebuild_deadline_bandwidth(cpus, rebuild);
        true
    }

    /// Takes a CPU out of the online set and distributes the bandwidth anew.
    pub fn remove_online(&mut self, cpus: &mut Vec<CpuLocal>, cpu: CpuId, rebuild: DeadlineBandwidthRebuild) -> (removed: bool)
        requires
            old(self).wf(),
            all_wf(old(cpus)@),
            old(self).online.has(cpu) ==> {
                &&& rebuild.online_cpus == old(self).online.size() - 1
                &&& rebuild.reserved_scaled == old(self).admission.reserved_scaled
                &&& rebuild.distributed_scaled <= old(self).deadline_max_bw_scaled
            },
        ensures
            removed == old(self).online.has(cpu),
            if removed {
                &&& final(self).online.bits@ == old(self).online.bits@.update(
                    cpu.index as int,
                    false,
                )
                &&& *final(self) == (RootDomain {
                    online: final(self).online,
                    admission: DeadlineAdmission {
                        online_cpus: rebuild.online_cpus,
                        ..old(self).admission
                    },
                    ..*old(self)
                })
                &&& final(self).rebuilt_on(final(cpus)@, old(cpus)@, rebuild)
                &&& final(self).in_step()
            } else {
                *final(self) == *old(self) && final(cpus)@ == old(cpus)@
            },
            final(self).wf(),
            all_wf(final(cpus)@),
    {
        if !self.online.contains(cpu) {
            return false;
        }
        proof {
            members_after_update(self.online.bits@, cpu.index as int, false);
        }
        let _ = self.online.remove(cpu);
        self.rebuild_deadline_bandwidth(cpus, rebuild);
        true
    }
}

/// The real-time quota of a CPU and whether it counts.
#[derive(Clone, Copy, Debug, PartialEq, Eq, Structural)]
pub struct RtLane {
    pub online: bool,
    pub rt: RtRunQueueBandwidth,
}

pub open spec fn lane_of(cpu: CpuLocal) -> RtLane {
    RtLane {
        online: cpu.remote.lifecycle == CpuLifecycleState::Online,
        rt: cpu.remote.run_queue.rt,
    }
}

pub open spec fn lanes(cpus: Seq<CpuLocal>) -> Seq<RtLane> {
    Seq::new(cpus.len(), |i: int| lane_of(cpus[i]))
}

/// The CPU with another real-time quota.
pub open spec fn with_rt(cpu: CpuLocal, rt: RtRunQueueBandwidth) -> CpuLocal {
    CpuLocal {
        remote: CpuRemote {
            run_queue: CpuRunQueueState { rt, ..cpu.remote.run_queue },
            ..cpu.remote
        },
        ..cpu
    }
}

/// The CPUs differ at most in their real-time quotas.
pub open spec fn only_quotas_differ(after: Seq<CpuLocal>, before: Seq<CpuLocal>) -> bool {
    &&& after.len() == before.len()
    &&& forall|i: int|
        0 <= i < before.len() ==> #[trigger] after[i] == with_rt(
            before[i],
            after[i].remote.run_queue.rt,
        )
}

/// Online CPUs among the first `n`.
pub open spec fn online_count(all: Seq<RtLane>, n: int) -> nat
    decreases n,
{
    if n <= 0 {
        0
    } else {
        online_count(all, n - 1) + if all[n - 1].online {
            1nat
        } else {
            0nat
        }
    }
}

/// What a donor gives to a receiver: an even share of what it has spare, as far
/// as the receiver's period has room.
pub open spec fn loan(all: Seq<RtLane>, receiver: int, donor: int, period_ns: u64, span: int) -> u64 {
    let room = period_ns - all[receiver].rt.runtime_ns;
    let share = all[donor].rt.spare() as int / span;
    if donor == receiver || !all[donor].online || !all[donor].rt.enabled || room <= 0 {
        0
    } else if share < room {
        share as u64
    } else {
        room as u64
    }
}

pub open spec fn after_loan(all: Seq<RtLane>, receiver: int, donor: int, period_ns: u64, span: int) -> Seq<RtLane> {
    let amount = loan(all, receiver, donor, period_ns, span);
    if amount == 0 {
        all
    } else {
        all.update(
            donor,
            RtLane {
                rt: RtRunQueueBandwidth {
                    runtime_ns: (all[donor].rt.runtime_ns - amount) as u64,
                    ..all[donor].rt
                },
                ..all[donor]
            },
        ).update(
            receiver,
            RtLane {
                rt: RtRunQueueBandwidth {
                    runtime_ns: (all[receiver].rt.runtime_ns + amount) as u64,
                    ..all[receiver].rt
                },
                ..all[receiver]
            },
        )
    }
}

/// The quotas after the first `n` CPUs have given what they can.
pub open spec fn borrowed(all: Seq<RtLane>, receiver: int, period_ns: u64, span: int, n: int) -> Seq<RtLane>
    decreases n,
{
    if n <= 0 {
        all
    } else {
        after_loan(
            borrowed(all, receiver, period_ns, span, n - 1),
            receiver,
            n - 1,
            period_ns,
            span,
        )
    }
}

/// The quotas after a CPU has borrowed from all others.
pub open spec fn balanced(all: Seq<RtLane>, receiver: int, period_ns: u64) -> Seq<RtLane> {
    let span = online_count(all, all.len() as int) as int;
    if span == 0 {
        all
    } else {
        borrowed(all, receiver, period_ns, span, all.len() as int)
    }
}

/// Lending moves quota; it makes none.
pub proof fn loans_preserve_the_total(all: Seq<RtLane>, receiver: int, donor: int, period_ns: u64, span: int)
    requires
        0 <= receiver < all.len(),
        0 <= donor < all.len(),
        span > 0,
    ensures
        ({
            let after = after_loan(all, receiver, donor, period_ns, span);
            &&& after.len() == all.len()
            &&& after[receiver].rt.runtime_ns + after[donor].rt.runtime_ns
                == all[receiver].rt.runtime_ns + all[donor].rt.runtime_ns
            &&& after[receiver].rt.runtime_ns >= all[receiver].rt.runtime_ns
            &&& after[receiver].rt.runtime_ns <= period_ns || after == all
            &&& forall|i: int|
                0 <= i < all.len() && i != receiver && i != donor ==> #[trigger] after[i] == all[i]
        }),
{
    let share = all[donor].rt.spare() as int / span;
    assert(0 <= share <= all[donor].rt.spare()) by (nonlinear_arith)
        requires
            share == all[donor].rt.spare() as int / span,
            span > 0,
            all[donor].rt.spare() >= 0,
    ;
}

/// A quota that a run queue may be left with.
pub open spec fn quota_ok(rt: RtRunQueueBandwidth) -> bool {
    rt.within_budget() && (rt.enabled ==> rt.runtime_ns < u64::MAX)
}

/// Quotas that are in order, but for one CPU.
pub open spec fn quotas_ok_but(all: Seq<RtLane>, exempt: int) -> bool {
    forall|i: int|
        0 <= i < all.len() ==> ((#[trigger] all[i]).rt.enabled ==> all[i].rt.runtime_ns < u64::MAX)
            && (i != exempt ==> all[i].rt.within_budget())
}

pub open spec fn quotas_ok(all: Seq<RtLane>) -> bool {
    forall|i: int| 0 <= i < all.len() ==> quota_ok((#[trigger] all[i]).rt)
}

fn load_lanes(cpus: &Vec<CpuLocal>) -> (all: Vec<RtLane>)
    requires
        all_wf(cpus@),
    ensures
        all@ == lanes(cpus@),
        quotas_ok(all@),
{
    let mut all: Vec<RtLane> = Vec::new();
    let mut i: usize = 0;
    while i < cpus.len()
        invariant
            i <= cpus.len(),
            all_wf(cpus@),
            all@ == lanes(cpus@).take(i as int),
            quotas_ok(all@),
        decreases cpus.len() - i,
    {
        assert(cpus@[i as int].wf());
        all.push(RtLane { online: cpus[i].is_online(), rt: cpus[i].remote.run_queue.rt });
        i = i + 1;
        assert(all@ =~= lanes(cpus@).take(i as int));
    }
    assert(all@ =~= lanes(cpus@));
    all
}

fn store_lanes(cpus: &mut Vec<CpuLocal>, all: &Vec<RtLane>)
    requires
        all_wf(old(cpus)@),
        all@.len() == old(cpus)@.len(),
        quotas_ok(all@),
        forall|i: int|
            0 <= i < all@.len() ==> (#[trigger] all@[i]).online == lane_of(old(cpus)@[i]).online,
    ensures
        lanes(final(cpus)@) == all@,
        only_quotas_differ(final(cpus)@, old(cpus)@),
        all_wf(final(cpus)@),
{
    let ghost before = cpus@;
    let mut i: usize = 0;
    while i < cpus.len()
        invariant
            i <= cpus.len(),
            cpus@.len() == before.len(),
            all@.len() == before.len(),
            all_wf(before),
            quotas_ok(all@),
            forall|j: int| i <= j < before.len() ==> #[trigger] cpus@[j] == before[j],
            forall|j: int| 0 <= j < i ==> #[trigger] cpus@[j] == with_rt(before[j], all@[j].rt),
        decreases cpus.len() - i,
    {
        assert(cpus@[i as int] == before[i as int]);
        cpus[i].remote.run_queue.rt = all[i].rt;
        i = i + 1;
    }
    proof {
        assert forall|j: int| 0 <= j < cpus@.len() implies (#[trigger] cpus@[j]).wf() by {
            assert(before[j].wf());
            assert(quota_ok(all@[j].rt));
        }
        assert(lanes(cpus@) =~= all@) by {
            assert forall|j: int| 0 <= j < cpus@.len() implies lane_of(cpus@[j]) == all@[j] by {
                assert(cpus@[j] == with_rt(before[j], all@[j].rt));
            }
        }
    }
}

fn count_online(all: &Vec<RtLane>) -> (count: usize)
    ensures
        count == online_count(all@, all@.len() as int),
{
    let mut count: usize = 0;
    let mut i: usize = 0;
    while i < all.len()
        invariant
            i <= all.len(),
            count <= i,
            count == online_count(all@, i as int),
        decreases all.len() - i,
    {
        if all[i].online {
            count = count + 1;
        }
        i = i + 1;
    }
    count
}

/// Lets one CPU borrow quota from all others.
fn balance_lanes(all: &mut Vec<RtLane>, at: usize, period_ns: u64)
    requires
        at < old(all)@.len(),
        period_ns <= MONOTONIC_MAX_NS,
        quotas_ok_but(old(all)@, at as int),
    ensures
        final(all)@ == balanced(old(all)@, at as int, period_ns),
        final(all)@.len() == old(all)@.len(),
        forall|i: int|
            0 <= i < old(all)@.len() ==> (#[trigger] final(all)@[i]).online == old(all)@[i].online,
        quotas_ok_but(final(all)@, at as int),
        old(all)@[at as int].rt.within_budget() ==> final(all)@[at as int].rt.within_budget(),
{
    let span: usize = count_online(all);
    if span == 0 {
        return;
    }
    let ghost start = all@;
    let mut donor: usize = 0;
    while donor < all.len()
        invariant
            donor <= all.len(),
            all@.len() == start.len(),
            at < start.len(),
            span > 0,
            period_ns <= MONOTONIC_MAX_NS,
            all@ == borrowed(start, at as int, period_ns, span as int, donor as int),
            forall|i: int|
                0 <= i < start.len() ==> (#[trigger] all@[i]).online == start[i].online,
            quotas_ok_but(all@, at as int),
            start[at as int].rt.within_budget() ==> all@[at as int].rt.within_budget(),
        decreases all.len() - donor,
    {
        let ghost current = all@;
        let room: u64 = period_ns.saturating_sub(all[at].rt.runtime_ns());
        let mut amount: u64 = 0;
        if donor != at && all[donor].online && room != 0 && all[donor].rt.enabled() {
            let share: u64 = all[donor].rt.spare_runtime_ns() / (span as u64);
            amount = if share < room {
                share
            } else {
                room
            };
        }
        assert(amount == loan(current, at as int, donor as int, period_ns, span as int));
        if amount != 0 {
            proof {
                let share = current[donor as int].rt.spare() as int / (span as int);
                assert(share <= current[donor as int].rt.spare()) by (nonlinear_arith)
                    requires
                        share == current[donor as int].rt.spare() as int / (span as int),
                        span > 0,
                        current[donor as int].rt.spare() >= 0,
                ;
            }
            all[donor].rt.lend_runtime(amount);
            all[at].rt.borrow_runtime(amount, period_ns);
            proof {
                assert(all@ =~= after_loan(
                    current,
                    at as int,
                    donor as int,
                    period_ns,
                    span as int,
                ));
            }
        }
        donor = donor + 1;
    }
}

impl RootDomain {
    /// Lets a CPU borrow real-time quota from all others.
    pub fn balance_rt_runtime(&self, cpus: &mut Vec<CpuLocal>, receiver: CpuId)
        requires
            self.wf(),
            all_wf(old(cpus)@),
            receiver.index < old(cpus)@.len(),
        ensures
            lanes(final(cpus)@) == balanced(
                lanes(old(cpus)@),
                receiver.index as int,
                self.rt.period_ns,
            ),
            only_quotas_differ(final(cpus)@, old(cpus)@),
            all_wf(final(cpus)@),
    {
        let mut all = load_lanes(cpus);
        balance_lanes(&mut all, receiver.index as usize, self.rt.period_ns());
        proof {
            assert forall|i: int| 0 <= i < all@.len() implies quota_ok((#[trigger] all@[i]).rt) by {}
        }
        store_lanes(cpus, &all);
    }

    /// The quota of a CPU after a span of real-time execution.
    pub open spec fn accounted(rt: RtRunQueueBandwidth, runtime_ns: u64) -> RtRunQueueBandwidth {
        if rt.enabled {
            RtRunQueueBandwidth { time_ns: saturated_add(rt.time_ns, runtime_ns), ..rt }
        } else {
            rt
        }
    }

    /// The quotas after a span of real-time execution on one CPU: a CPU that
    /// has used up its quota borrows first, and is throttled if that is not
    /// enough.
    pub open spec fn charged_lanes(all: Seq<RtLane>, cpu: int, runtime_ns: u64, period_ns: u64) -> Seq<RtLane> {
        let counted = all.update(
            cpu,
            RtLane { rt: Self::accounted(all[cpu].rt, runtime_ns), ..all[cpu] },
        );
        if counted[cpu].rt.enabled && counted[cpu].rt.time_ns > counted[cpu].rt.runtime_ns {
            let lent = balanced(counted, cpu, period_ns);
            lent.update(
                cpu,
                RtLane {
                    rt: RtRunQueueBandwidth {
                        throttled: lent[cpu].rt.throttled || (lent[cpu].rt.enabled
                            && lent[cpu].rt.time_ns > lent[cpu].rt.runtime_ns),
                        ..lent[cpu].rt
                    },
                    ..lent[cpu]
                },
            )
        } else {
            counted
        }
    }

    /// Charges real-time execution to a CPU; says whether that throttles it.
    pub fn charge_rt_runtime(&self, cpus: &mut Vec<CpuLocal>, cpu: CpuId, runtime_ns: u64) -> (throttled: bool)
        requires
            self.wf(),
            all_wf(old(cpus)@),
            cpu.index < old(cpus)@.len(),
        ensures
            lanes(final(cpus)@) == Self::charged_lanes(
                lanes(old(cpus)@),
                cpu.index as int,
                runtime_ns,
                self.rt.period_ns,
            ),
            throttled == (!lane_of(old(cpus)@[cpu.index as int]).rt.throttled && lane_of(
                final(cpus)@[cpu.index as int],
            ).rt.throttled),
            only_quotas_differ(final(cpus)@, old(cpus)@),
            all_wf(final(cpus)@),
    {
        let at: usize = cpu.index as usize;
        let mut all = load_lanes(cpus);
        let ghost start = all@;
        let room: u64 = u64::MAX - all[at].rt.time_ns;
        let span: u64 = if runtime_ns < room {
            runtime_ns
        } else {
            room
        };
        let exceeded = all[at].rt.account(span);
        let ghost counted = all@;
        assert(counted =~= start.update(
            at as int,
            RtLane { rt: Self::accounted(start[at as int].rt, runtime_ns), ..start[at as int] },
        ));
        let mut throttled = false;
        if exceeded {
            balance_lanes(&mut all, at, self.rt.period_ns());
            let ghost lent = all@;
            proof {
                borrowing_keeps_consumption(
                    counted,
                    at as int,
                    self.rt.period_ns,
                    online_count(counted, counted.len() as int) as int,
                    counted.len() as int,
                );
            }
            throttled = all[at].rt.throttle_if_exceeded();
            assert(all@ =~= Self::charged_lanes(start, at as int, runtime_ns, self.rt.period_ns));
        }
        proof {
            assert forall|i: int| 0 <= i < all@.len() implies quota_ok((#[trigger] all@[i]).rt) by {}
        }
        store_lanes(cpus, &all);
        assert(lanes(cpus@)[at as int] == lane_of(cpus@[at as int]));
        throttled
    }

    /// The shared period after a real-time thread became runnable on a CPU.
    pub open spec fn rt_activated(self, cpu: CpuId, now: MonotonicInstant) -> RootDomain {
        let rt = self.rt;
        RootDomain {
            rt: if !rt.enabled || rt.generation == u64::MAX {
                rt
            } else if rt.deadline is None {
                RootRtBandwidth {
                    owner: Some(cpu),
                    deadline: Some(now.due_after(rt.period_ns)),
                    generation: (rt.generation + 1) as u64,
                    ..rt
                }
            } else {
                RootRtBandwidth { generation: (rt.generation + 1) as u64, ..rt }
            },
            ..self
        }
    }

    /// The shared period, where a real-time thread became runnable.
    pub open spec fn rt_activated_if(self, wanted: bool, cpu: CpuId, now: MonotonicInstant) -> RootDomain {
        if wanted {
            self.rt_activated(cpu, now)
        } else {
            self
        }
    }

    /// Whether a runnable real-time thread starts the shared period.
    pub open spec fn rt_starts(&self) -> bool {
        self.rt.enabled && self.rt.generation < u64::MAX && self.rt.deadline is None
    }

    /// Keeps the shared period running; says whether this call started it.
    pub fn activate_rt_period(&mut self, cpu: CpuId, now: MonotonicInstant) -> (started: bool)
        requires
            old(self).wf(),
        ensures
            started == old(self).rt_starts(),
            *final(self) == old(self).rt_activated(cpu, now),
            final(self).wf(),
    {
        if self.rt.generation == u64::MAX {
            return false;
        }
        self.rt.activate(cpu, now)
    }

    /// Whether the real-time class of a CPU is stopped.
    pub fn rt_is_effectively_throttled(&self, cpus: &Vec<CpuLocal>, cpu: CpuId, has_exempt: bool) -> (throttled: bool)
        requires
            cpu.index < cpus@.len(),
        ensures
            throttled == (cpus@[cpu.index as int].remote.run_queue.rt.throttled && !has_exempt),
    {
        cpus[cpu.index as usize].remote.run_queue.rt.is_throttled() && !has_exempt
    }

    /// Starts real-time accounting on a CPU that joins.
    pub fn enable_rt_runtime(&self, cpus: &mut Vec<CpuLocal>, cpu: CpuId)
        requires
            self.wf(),
            all_wf(old(cpus)@),
            cpu.index < old(cpus)@.len(),
        ensures
            final(cpus)@ == old(cpus)@.update(
                cpu.index as int,
                with_rt(
                    old(cpus)@[cpu.index as int],
                    RtRunQueueBandwidth {
                        enabled: self.rt.runtime_ns < self.rt.period_ns,
                        runtime_ns: self.rt.runtime_ns,
                        time_ns: 0,
                        throttled: false,
                    },
                ),
            ),
            all_wf(final(cpus)@),
    {
        let ghost before = cpus@;
        cpus[cpu.index as usize].remote.run_queue.rt.enable(
            self.rt.period_ns(),
            self.rt.runtime_ns(),
        );
        proof {
            assert forall|j: int| 0 <= j < cpus@.len() implies (#[trigger] cpus@[j]).wf() by {
                assert(before[j].wf());
            }
        }
    }
}

/// Whether a period passes a CPU over.
pub open spec fn passed_over(all: Seq<RtLane>, runnable: Seq<bool>, i: int) -> bool {
    !all[i].online || (all[i].rt.time_ns == 0 && !runnable[i])
}

/// The quotas after one CPU was served by a period: a throttled one borrows,
/// then every one gets its allotment back.
pub open spec fn served(all: Seq<RtLane>, runnable: Seq<bool>, i: int, overruns: u64, period_ns: u64) -> Seq<RtLane> {
    if passed_over(all, runnable, i) {
        all
    } else {
        let lent = if all[i].rt.throttled {
            balanced(all, i, period_ns)
        } else {
            all
        };
        lent.update(i, RtLane { rt: lent[i].rt.replenished(overruns), ..lent[i] })
    }
}

pub open spec fn served_until(all: Seq<RtLane>, runnable: Seq<bool>, overruns: u64, period_ns: u64, n: int) -> Seq<RtLane>
    decreases n,
{
    if n <= 0 {
        all
    } else {
        served(
            served_until(all, runnable, overruns, period_ns, n - 1),
            runnable,
            n - 1,
            overruns,
            period_ns,
        )
    }
}

/// Whether a period lets the real-time threads of a CPU run again.
pub open spec fn resumes(all: Seq<RtLane>, runnable: Seq<bool>, overruns: u64, period_ns: u64, i: int) -> bool {
    let before = served_until(all, runnable, overruns, period_ns, i);
    let after = served_until(all, runnable, overruns, period_ns, i + 1);
    runnable[i] && before[i].rt.throttled && !after[i].rt.throttled
}

/// Whether the period has to go on because of one of the first `n` CPUs.
pub open spec fn keeps_active(all: Seq<RtLane>, runnable: Seq<bool>, overruns: u64, period_ns: u64, n: int) -> bool {
    exists|i: int|
        0 <= i < n && !passed_over(
            #[trigger] served_until(all, runnable, overruns, period_ns, i),
            runnable,
            i,
        ) && {
            let after = served_until(all, runnable, overruns, period_ns, i + 1);
            after[i].rt.time_ns != 0 || after[i].rt.throttled || runnable[i]
        }
}

pub open spec fn rt_runnable(cpus: Seq<CpuLocal>) -> Seq<bool> {
    Seq::new(cpus.len(), |i: int| cpus[i].queue().has_rt_thread())
}

/// A CPU that is told that its real-time threads may run again.
#[verifier::opaque]
pub open spec fn resumed(cpu: CpuLocal, by: CpuId) -> CpuLocal {
    if cpu.remote.owner == by {
        cpu.with_remote(cpu.remote.asked_to_reschedule())
    } else {
        cpu.with_remote(cpu.remote.told_to_reschedule(by))
    }
}

/// Tells a CPU that its real-time threads may run again.
fn resume(local: &mut CpuLocal, by: CpuId)
    requires
        old(local).wf(),
    ensures
        *final(local) == resumed(*old(local), by),
        final(local).wf(),
{
    proof {
        reveal(resumed);
    }
    if local.remote.owner() == by {
        local.remote.request_reschedule();
    } else {
        local.remote.request_remote_reschedule(by);
    }
}

/// The quotas after `want` was reclaimed from (or, where negative, returned to)
/// the first `n` CPUs, and what is left to reclaim.
pub open spec fn reclaimed(all: Seq<RtLane>, leaving: int, want: int, n: int) -> (Seq<RtLane>, int)
    decreases n,
{
    if n <= 0 {
        (all, want)
    } else {
        let (before, left) = reclaimed(all, leaving, want, n - 1);
        let lane = before[n - 1];
        if n - 1 == leaving || !lane.online || left == 0 || !lane.rt.enabled {
            (before, left)
        } else if left > 0 {
            let part = if left < lane.rt.runtime_ns {
                left
            } else {
                lane.rt.runtime_ns as int
            };
            (before.update(n - 1, RtLane { rt: lane.rt.adjusted(-part), ..lane }), left - part)
        } else {
            (before.update(n - 1, RtLane { rt: lane.rt.adjusted(-left), ..lane }), 0)
        }
    }
}

impl RootDomain {
    /// What a firing of the shared period does to the quotas and the CPUs.
    pub open spec fn period_served(&self, before: &Self, after_cpus: Seq<CpuLocal>, before_cpus: Seq<CpuLocal>, cpu: CpuId, now: MonotonicInstant) -> bool {
        let overruns = before.rt.elapsed_periods(now) as u64;
        let all = lanes(before_cpus);
        let runnable = rt_runnable(before_cpus);
        let n = before_cpus.len() as int;
        let after = served_until(all, runnable, overruns, before.rt.period_ns, n);
        let fired = RootRtBandwidth { deadline: self.rt.deadline, ..before.rt };
        &&& after_cpus.len() == n
        &&& forall|i: int|
            0 <= i < n ==> #[trigger] after_cpus[i] == if resumes(
                all,
                runnable,
                overruns,
                before.rt.period_ns,
                i,
            ) {
                resumed(with_rt(before_cpus[i], after[i].rt), cpu)
            } else {
                with_rt(before_cpus[i], after[i].rt)
            }
        &&& *self == (RootDomain { rt: self.rt, ..*before })
        &&& if keeps_active(all, runnable, overruns, before.rt.period_ns, n) {
            self.rt == fired && self.rt.deadline is Some && self.rt.deadline->0.ns
                == before.rt.next_edge(now)
        } else {
            self.rt == (RootRtBandwidth { owner: None, deadline: None, ..before.rt })
        }
    }

    /// Serves a firing of the shared period on `cpu`: every CPU gets its
    /// allotment back, and where real-time threads may run again the CPU is
    /// told. Says whether any was told.
    pub fn service_rt_period(&mut self, cpus: &mut Vec<CpuLocal>, cpu: CpuId, now: MonotonicInstant) -> (rescheduled: bool)
        requires
            old(self).wf(),
            all_wf(old(cpus)@),
            now.valid(),
            old(self).rt.due(cpu, now) ==> old(self).rt.next_edge(now)
                <= MONOTONIC_MAX_NS,
        ensures
            if old(self).rt.due(cpu, now) {
                let overruns = old(self).rt.elapsed_periods(now) as u64;
                &&& final(self).period_served(old(self), final(cpus)@, old(cpus)@, cpu, now)
                &&& rescheduled <==> exists|i: int|
                    0 <= i < old(cpus)@.len() && #[trigger] resumes(
                        lanes(old(cpus)@),
                        rt_runnable(old(cpus)@),
                        overruns,
                        old(self).rt.period_ns,
                        i,
                    )
            } else {
                !rescheduled && *final(self) == *old(self) && final(cpus)@ == old(cpus)@
            },
            final(self).wf(),
            all_wf(final(cpus)@),
    {
        let firing = match self.rt.begin_period(cpu, now) {
            Some(firing) => firing,
            None => {
                return false;
            },
        };
        let overruns: u64 = firing.overruns();
        let period_ns: u64 = self.rt.period_ns();
        let mut all = load_lanes(cpus);
        let ghost before = cpus@;
        let ghost start = all@;
        let ghost runnable = rt_runnable(before);
        let mut keep_active = false;
        let mut rescheduled = false;
        let mut i: usize = 0;
        while i < cpus.len()
            invariant
                i <= cpus.len(),
                cpus@.len() == before.len(),
                all@.len() == before.len(),
                start == lanes(before),
                runnable == rt_runnable(before),
                all_wf(before),
                all_wf(cpus@),
                quotas_ok(all@),
                period_ns <= MONOTONIC_MAX_NS,
                all@ == served_until(start, runnable, overruns, period_ns, i as int),
                forall|j: int|
                    0 <= j < before.len() ==> (#[trigger] all@[j]).online == start[j].online,
                forall|j: int| i <= j < before.len() ==> #[trigger] cpus@[j] == before[j],
                forall|j: int|
                    0 <= j < i ==> #[trigger] cpus@[j] == if resumes(
                        start,
                        runnable,
                        overruns,
                        period_ns,
                        j,
                    ) {
                        resumed(before[j], cpu)
                    } else {
                        before[j]
                    },
                keep_active == keeps_active(start, runnable, overruns, period_ns, i as int),
                rescheduled <==> exists|j: int|
                    0 <= j < i && #[trigger] resumes(start, runnable, overruns, period_ns, j),
            decreases cpus.len() - i,
        {
            let ghost current = all@;
            let ghost listed = cpus@;
            assert(cpus@[i as int] == before[i as int]);
            assert(before[i as int].wf());
            let can_run = cpus[i].remote.run_queue.queue.has_rt();
            assert(can_run == runnable[i as int]);
            let mut unthrottled = false;
            let skipped = !all[i].online || (all[i].rt.time_ns() == 0 && !can_run);
            if !skipped {
                if all[i].rt.is_throttled() {
                    balance_lanes(&mut all, i, period_ns);
                    proof {
                        borrowing_keeps_consumption(
                            current,
                            i as int,
                            period_ns,
                            online_count(current, current.len() as int) as int,
                            current.len() as int,
                        );
                    }
                }
                unthrottled = all[i].rt.replenish(overruns);
                if all[i].rt.time_ns() != 0 || all[i].rt.is_throttled() || can_run {
                    keep_active = true;
                }
            }
            assert(all@ =~= served(current, runnable, i as int, overruns, period_ns));
            assert(all@ == served_until(start, runnable, overruns, period_ns, i + 1));
            assert(current == served_until(start, runnable, overruns, period_ns, i as int));
            let tells = unthrottled && can_run;
            assert(tells == resumes(start, runnable, overruns, period_ns, i as int));
            if tells {
                rescheduled = true;
                resume(&mut cpus[i], cpu);
            }
            proof {
                assert forall|j: int| 0 <= j < cpus@.len() implies (#[trigger] cpus@[j]).wf() by {
                    assert(listed[j].wf());
                }
                assert(keep_active == keeps_active(start, runnable, overruns, period_ns, i + 1)) by {
                    if keeps_active(start, runnable, overruns, period_ns, i as int) {
                        let w = choose|w: int|
                            0 <= w < i && !passed_over(
                                #[trigger] served_until(start, runnable, overruns, period_ns, w),
                                runnable,
                                w,
                            ) && {
                                let after = served_until(
                                    start,
                                    runnable,
                                    overruns,
                                    period_ns,
                                    w + 1,
                                );
                                after[w].rt.time_ns != 0 || after[w].rt.throttled || runnable[w]
                            };
                        let _ = served_until(start, runnable, overruns, period_ns, w);
                    }
                }
            }
            i = i + 1;
        }
        let ghost told = cpus@;
        proof {
            assert forall|j: int| 0 <= j < all@.len() implies (#[trigger] all@[j]).online
                == lane_of(told[j]).online by {
                reveal(resumed);
                assert(told[j] == told[j]);
                assert(start[j] == lane_of(before[j]));
            }
        }
        store_lanes(cpus, &all);
        proof {
            assert forall|j: int| 0 <= j < before.len() implies #[trigger] cpus@[j] == if resumes(
                start,
                runnable,
                overruns,
                period_ns,
                j,
            ) {
                resumed(with_rt(before[j], all@[j].rt), cpu)
            } else {
                with_rt(before[j], all@[j].rt)
            } by {
                reveal(resumed);
                assert(told[j] == told[j]);
                assert(lanes(cpus@)[j] == lane_of(cpus@[j]));
                assert(cpus@[j] == with_rt(told[j], cpus@[j].remote.run_queue.rt));
            }
        }
        self.rt.finish_period(firing, keep_active);
        rescheduled
    }

    /// Stops real-time accounting on a CPU that leaves: what it has lent is
    /// reclaimed, what it has borrowed is returned.
    pub fn disable_rt_runtime(&self, cpus: &mut Vec<CpuLocal>, cpu: CpuId)
        requires
            self.wf(),
            all_wf(old(cpus)@),
            cpu.index < old(cpus)@.len(),
            reclaimed(
                lanes(old(cpus)@),
                cpu.index as int,
                self.rt.runtime_ns - lane_of(old(cpus)@[cpu.index as int]).rt.runtime_ns,
                old(cpus)@.len() as int,
            ).1 == 0,
        ensures
            ({
                let at = cpu.index as int;
                let settled = reclaimed(
                    lanes(old(cpus)@),
                    at,
                    self.rt.runtime_ns - lane_of(old(cpus)@[at]).rt.runtime_ns,
                    old(cpus)@.len() as int,
                ).0;
                lanes(final(cpus)@) == settled.update(
                    at,
                    RtLane {
                        rt: RtRunQueueBandwidth {
                            enabled: false,
                            throttled: false,
                            ..settled[at].rt
                        },
                        ..settled[at]
                    },
                )
            }),
            only_quotas_differ(final(cpus)@, old(cpus)@),
            all_wf(final(cpus)@),
    {
        let at: usize = cpu.index as usize;
        let mut all = load_lanes(cpus);
        let ghost start = all@;
        let base: u64 = self.rt.runtime_ns();
        assert(start[at as int] == lane_of(cpus@[at as int]));
        let ghost goal = self.rt.runtime_ns - start[at as int].rt.runtime_ns;
        let mut want: i128 = base as i128 - all[at].rt.runtime_ns() as i128;
        let mut i: usize = 0;
        while i < all.len()
            invariant
                i <= all.len(),
                all@.len() == start.len(),
                at < start.len(),
                (all@, want as int) == reclaimed(start, at as int, goal, i as int),
                -0x1_0000_0000_0000_0000 < want < 0x1_0000_0000_0000_0000,
                quotas_ok(all@),
                forall|j: int|
                    0 <= j < start.len() ==> (#[trigger] all@[j]).online == start[j].online,
            decreases all.len() - i,
        {
            let ghost current = all@;
            if i != at && all[i].online && want != 0 && all[i].rt.enabled() {
                if want > 0 {
                    let runtime: i128 = all[i].rt.runtime_ns() as i128;
                    let part: i128 = if want < runtime {
                        want
                    } else {
                        runtime
                    };
                    all[i].rt.adjust_runtime(-part);
                    want = want - part;
                } else {
                    all[i].rt.adjust_runtime(-want);
                    want = 0;
                }
            }
            assert(all@ =~= reclaimed(start, at as int, goal, i + 1).0);
            i = i + 1;
        }
        all[at].rt.disable();
        store_lanes(cpus, &all);
    }
}

/// The quota that a leaving CPU has lent comes back exactly: what is taken from
/// the others and what is left to take make up what was wanted.
pub proof fn reclaiming_is_bounded(all: Seq<RtLane>, leaving: int, want: int, n: int)
    requires
        0 <= leaving < all.len(),
        0 <= n <= all.len(),
    ensures
        reclaimed(all, leaving, want, n).0.len() == all.len(),
        want >= 0 ==> 0 <= reclaimed(all, leaving, want, n).1 <= want,
        want <= 0 ==> want <= reclaimed(all, leaving, want, n).1 <= 0,
        reclaimed(all, leaving, want, n).0[leaving] == all[leaving],
    decreases n,
{
    if n > 0 {
        reclaiming_is_bounded(all, leaving, want, n - 1);
    }
}

/// Borrowing changes allotments only.
proof fn borrowing_keeps_consumption(all: Seq<RtLane>, receiver: int, period_ns: u64, span: int, n: int)
    requires
        0 <= receiver < all.len(),
        0 <= n <= all.len(),
    ensures
        borrowed(all, receiver, period_ns, span, n).len() == all.len(),
        forall|i: int|
            0 <= i < all.len() ==> (#[trigger] borrowed(all, receiver, period_ns, span, n)[i]).rt.throttled
                == all[i].rt.throttled,
    decreases n,
{
    if n > 0 {
        borrowing_keeps_consumption(all, receiver, period_ns, span, n - 1);
    }
}

} // verus!
