//! Choice of a CPU for a thread.
use vstd::prelude::*;
use crate::cpu::dispatch::CurrentSchedule;
use crate::cpu::local::CpuLocal;
use crate::cpu::remote::CpuLifecycleState;
use crate::ids::{CpuId, CpuSet};
use crate::scheduler::entity::SchedulingEntity;
use crate::scheduler::policy::SchedulePolicy;
use crate::system::task_system::TaskSystem;

verus! {

/// The CPU of least rank among the first `n`; of equal ones the preferred, then
/// the first. A CPU without a rank is no candidate.
pub open spec fn least_ranked(ranks: Seq<Option<u64>>, preferred: Option<CpuId>, n: int) -> Option<int>
    decreases n,
{
    if n <= 0 {
        None
    } else {
        let best = least_ranked(ranks, preferred, n - 1);
        match (ranks[n - 1], best) {
            (None, _) => best,
            (Some(_), None) => Some(n - 1),
            (Some(rank), Some(held)) => if rank < ranks[held]->0 || (rank == ranks[held]->0
                && preferred == Some(CpuId { index: (n - 1) as u32 })) {
                Some(n - 1)
            } else {
                best
            },
        }
    }
}

/// The chosen CPU is a candidate, and none ranks before it.
pub proof fn least_ranked_is_least(ranks: Seq<Option<u64>>, preferred: Option<CpuId>, n: int)
    requires
        0 <= n <= ranks.len(),
    ensures
        least_ranked(ranks, preferred, n) matches Some(i) ==> 0 <= i < n && ranks[i] is Some
            && forall|j: int|
            0 <= j < n && (#[trigger] ranks[j]) is Some ==> ranks[i]->0 <= ranks[j]->0,
        least_ranked(ranks, preferred, n) is None ==> forall|j: int|
            0 <= j < n ==> (#[trigger] ranks[j]) is None,
    decreases n,
{
    if n > 0 {
        least_ranked_is_least(ranks, preferred, n - 1);
    }
}

pub open spec fn chosen(ranks: Seq<Option<u64>>, preferred: Option<CpuId>) -> Option<CpuId> {
    match least_ranked(ranks, preferred, ranks.len() as int) {
        Some(i) => Some(CpuId { index: i as u32 }),
        None => None,
    }
}

fn choose_cpu(ranks: &Vec<Option<u64>>, preferred: Option<CpuId>) -> (cpu: Option<CpuId>)
    requires
        ranks@.len() <= u32::MAX,
    ensures
        cpu == chosen(ranks@, preferred),
        cpu matches Some(cpu) ==> cpu.index < ranks@.len() && ranks@[cpu.index as int] is Some,
{
    let mut best: Option<usize> = None;
    let mut i: usize = 0;
    while i < ranks.len()
        invariant
            i <= ranks.len(),
            ranks@.len() <= u32::MAX,
            best matches Some(b) ==> b < i && ranks@[b as int] is Some,
            least_ranked(ranks@, preferred, i as int) == match best {
                Some(b) => Some(b as int),
                None => None,
            },
        decreases ranks.len() - i,
    {
        if let Some(rank) = ranks[i] {
            let better = match best {
                None => true,
                Some(b) => match ranks[b] {
                    Some(held) => rank < held || (rank == held && match preferred {
                        Some(cpu) => cpu.index as usize == i,
                        None => false,
                    }),
                    None => true,
                },
            };
            if better {
                best = Some(i);
            }
        }
        i = i + 1;
    }
    match best {
        Some(b) => Some(CpuId::new(b as u32)),
        None => None,
    }
}

/// What ranks CPUs.
#[derive(Clone, Copy, Debug, PartialEq, Eq, Structural)]
pub enum PlacementRank {
    /// By threads that wait to run.
    Runnable,
    /// By demand, threads on their way included.
    Demand,
    /// By real-time priority, below the given one.
    RealtimeBelow(u8),
    /// By deadline, after the given one; a CPU without deadlines comes first.
    DeadlineAfter(u64),
    /// All alike.
    Allowed,
}

/// Whether a CPU may be chosen.
pub open spec fn eligible(cpu: CpuLocal, affinity: &CpuSet, excluded: Option<CpuId>) -> bool {
    &&& excluded != Some(cpu.remote.owner)
    &&& cpu.remote.lifecycle == CpuLifecycleState::Online
    &&& affinity.has(cpu.remote.owner)
}

pub open spec fn rank_of(cpu: CpuLocal, affinity: &CpuSet, excluded: Option<CpuId>, rank: PlacementRank) -> Option<u64> {
    if !eligible(cpu, affinity, excluded) {
        None
    } else {
        match rank {
            PlacementRank::Runnable => match cpu.remote.runnable() {
                Some(count) => Some(count as u64),
                None => None,
            },
            PlacementRank::Demand => cpu.remote.load.placement(),
            PlacementRank::RealtimeBelow(priority) => match cpu.queue().top_rt() {
                Some(top) => if top < priority {
                    Some(top as u64)
                } else {
                    None
                },
                None => Some(0),
            },
            PlacementRank::DeadlineAfter(deadline_ns) => match cpu.queue().earliest_due() {
                Some(due) => if due > deadline_ns {
                    Some((u64::MAX - due) as u64)
                } else {
                    None
                },
                None => Some(0),
            },
            PlacementRank::Allowed => Some(0),
        }
    }
}

pub open spec fn ranks_of(cpus: Seq<CpuLocal>, affinity: &CpuSet, excluded: Option<CpuId>, rank: PlacementRank) -> Seq<Option<u64>> {
    Seq::new(cpus.len(), |i: int| rank_of(cpus[i], affinity, excluded, rank))
}

fn rank_cpu(cpu: &CpuLocal, affinity: &CpuSet, excluded: Option<CpuId>, rank: PlacementRank) -> (result: Option<u64>)
    requires
        cpu.wf(),
    ensures
        result == rank_of(*cpu, affinity, excluded, rank),
{
    let owner = cpu.owner();
    let barred = match excluded {
        Some(other) => other == owner,
        None => false,
    };
    if barred || !cpu.remote.accepts_placement() || !affinity.contains(owner) {
        return None;
    }
    match rank {
        PlacementRank::Runnable => match cpu.try_runnable_summary() {
            Some(count) => Some(count as u64),
            None => None,
        },
        PlacementRank::Demand => cpu.remote.try_placement_demand(),
        PlacementRank::RealtimeBelow(priority) => {
            match cpu.remote.run_queue.queue.highest_rt_priority_including_current() {
                Some(top) => if top < priority {
                    Some(top as u64)
                } else {
                    None
                },
                None => Some(0),
            }
        },
        PlacementRank::DeadlineAfter(deadline_ns) => {
            match cpu.remote.run_queue.queue.earliest_deadline_including_current() {
                Some(due) => if due > deadline_ns {
                    Some(u64::MAX - due)
                } else {
                    None
                },
                None => Some(0),
            }
        },
        PlacementRank::Allowed => Some(0),
    }
}

impl TaskSystem {
    fn rank_cpus(&self, affinity: &CpuSet, excluded: Option<CpuId>, rank: PlacementRank) -> (ranks: Vec<Option<u64>>)
        requires
            self.wf(),
        ensures
            ranks@ == ranks_of(self.cpus@, affinity, excluded, rank),
    {
        let mut ranks: Vec<Option<u64>> = Vec::new();
        let mut i: usize = 0;
        while i < self.cpus.len()
            invariant
                self.wf(),
                i <= self.cpus.len(),
                ranks@ == ranks_of(self.cpus@, affinity, excluded, rank).take(i as int),
            decreases self.cpus.len() - i,
        {
            assert(self.cpus@[i as int].wf());
            ranks.push(rank_cpu(&self.cpus[i], affinity, excluded, rank));
            i = i + 1;
            assert(ranks@ =~= ranks_of(self.cpus@, affinity, excluded, rank).take(i as int));
        }
        assert(ranks@ =~= ranks_of(self.cpus@, affinity, excluded, rank));
        ranks
    }

    /// The online CPU of an affinity set that comes first by a rank.
    pub open spec fn best_cpu(&self, affinity: &CpuSet, preferred: Option<CpuId>, excluded: Option<CpuId>, rank: PlacementRank) -> Option<CpuId> {
        chosen(ranks_of(self.cpus@, affinity, excluded, rank), preferred)
    }

    /// A chosen CPU exists, is online and is allowed.
    pub proof fn best_cpu_is_eligible(&self, affinity: &CpuSet, preferred: Option<CpuId>, excluded: Option<CpuId>, rank: PlacementRank)
        requires
            self.wf(),
        ensures
            self.best_cpu(affinity, preferred, excluded, rank) matches Some(cpu) ==> self.online(
                cpu,
            ) && affinity.has(cpu) && excluded != Some(cpu),
    {
        let ranks = ranks_of(self.cpus@, affinity, excluded, rank);
        least_ranked_is_least(ranks, preferred, ranks.len() as int);
        if let Some(i) = least_ranked(ranks, preferred, ranks.len() as int) {
            assert(self.cpus@[i].remote.owner == (CpuId { index: i as u32 }));
        }
    }

    pub fn find_cpu(&self, affinity: &CpuSet, preferred: Option<CpuId>, excluded: Option<CpuId>, rank: PlacementRank) -> (cpu: Option<CpuId>)
        requires
            self.wf(),
        ensures
            cpu == self.best_cpu(affinity, preferred, excluded, rank),
            cpu matches Some(cpu) ==> self.online(cpu) && affinity.has(cpu) && excluded != Some(
                cpu,
            ),
    {
        let ranks = self.rank_cpus(affinity, excluded, rank);
        proof {
            self.best_cpu_is_eligible(affinity, preferred, excluded, rank);
        }
        choose_cpu(&ranks, preferred)
    }

    /// The allowed CPU with the fewest runnable threads.
    pub fn select_allowed_active_cpu(&self, affinity: &CpuSet, excluded: Option<CpuId>) -> (cpu: Option<CpuId>)
        requires
            self.wf(),
        ensures
            cpu == self.best_cpu(affinity, None, excluded, PlacementRank::Runnable),
            cpu matches Some(cpu) ==> self.online(cpu) && affinity.has(cpu) && excluded != Some(
                cpu,
            ),
    {
        self.find_cpu(affinity, None, excluded, PlacementRank::Runnable)
    }

    /// Whether a CPU may be chosen.
    pub open spec fn may_choose(&self, cpu: CpuId, affinity: &CpuSet, excluded: Option<CpuId>) -> bool {
        affinity.has(cpu) && self.online(cpu) && excluded != Some(cpu)
    }

    /// The CPU that the class of a thread looks for: one that runs something
    /// less urgent.
    pub open spec fn class_choice(&self, policy: SchedulePolicy, entity: SchedulingEntity, affinity: &CpuSet, preferred: Option<CpuId>, excluded: Option<CpuId>) -> Option<CpuId> {
        match policy.rt() {
            Some(priority) => self.best_cpu(
                affinity,
                preferred,
                excluded,
                PlacementRank::RealtimeBelow(priority.value),
            ),
            None => match (policy, CurrentSchedule::deadline_of(entity)) {
                (SchedulePolicy::Deadline(_), Some(due)) => self.best_cpu(
                    affinity,
                    preferred,
                    excluded,
                    PlacementRank::DeadlineAfter(due),
                ),
                _ => None,
            },
        }
    }

    /// The CPU for a thread: that of its class, else the preferred one, else the
    /// least busy.
    pub open spec fn priority_choice(&self, policy: SchedulePolicy, entity: SchedulingEntity, affinity: &CpuSet, preferred: Option<CpuId>, excluded: Option<CpuId>) -> Option<CpuId> {
        let class = self.class_choice(policy, entity, affinity, preferred, excluded);
        if class is Some {
            class
        } else if preferred is Some && self.may_choose(preferred->0, affinity, excluded) {
            preferred
        } else {
            self.best_cpu(affinity, None, excluded, PlacementRank::Runnable)
        }
    }

    /// The CPU for a thread exists, is online and is one that the thread may be
    /// on.
    pub proof fn priority_choice_is_eligible(&self, policy: SchedulePolicy, entity: SchedulingEntity, affinity: &CpuSet, preferred: Option<CpuId>, excluded: Option<CpuId>)
        requires
            self.wf(),
        ensures
            self.priority_choice(policy, entity, affinity, preferred, excluded) matches Some(cpu)
                ==> self.may_choose(cpu, affinity, excluded),
    {
        if let Some(priority) = policy.rt() {
            self.best_cpu_is_eligible(
                affinity,
                preferred,
                excluded,
                PlacementRank::RealtimeBelow(priority.value),
            );
        } else if let Some(due) = CurrentSchedule::deadline_of(entity) {
            self.best_cpu_is_eligible(
                affinity,
                preferred,
                excluded,
                PlacementRank::DeadlineAfter(due),
            );
        }
        self.best_cpu_is_eligible(affinity, None, excluded, PlacementRank::Runnable);
    }

    pub fn select_priority_cpu(
        &self,
        policy: SchedulePolicy,
        entity: SchedulingEntity,
        affinity: &CpuSet,
        preferred: Option<CpuId>,
        excluded: Option<CpuId>,
    ) -> (cpu: Option<CpuId>)
        requires
            self.wf(),
        ensures
            cpu == self.priority_choice(policy, entity, affinity, preferred, excluded),
            cpu matches Some(cpu) ==> self.may_choose(cpu, affinity, excluded),
    {
        let class = match policy.rt_priority() {
            Some(priority) => self.find_cpu(
                affinity,
                preferred,
                excluded,
                PlacementRank::RealtimeBelow(priority.get()),
            ),
            None => match (policy, entity.deadline()) {
                (SchedulePolicy::Deadline(_), Some(deadline)) => {
                    match deadline.absolute_deadline_ns() {
                        Some(due) => self.find_cpu(
                            affinity,
                            preferred,
                            excluded,
                            PlacementRank::DeadlineAfter(due),
                        ),
                        None => None,
                    }
                },
                _ => None,
            },
        };
        if class.is_some() {
            return class;
        }
        if let Some(cpu) = preferred {
            let barred = match excluded {
                Some(other) => other == cpu,
                None => false,
            };
            if !barred && affinity.contains(cpu) && (cpu.index as usize) < self.cpus.len()
                && self.cpus[cpu.index as usize].remote.accepts_placement() {
                return preferred;
            }
        }
        self.select_allowed_active_cpu(affinity, excluded)
    }
}

} // verus!
