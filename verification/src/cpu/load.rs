//! Load summary of a CPU, as other CPUs read it.
use vstd::prelude::*;
use crate::cpu::dispatch::SchedulingKey;
use crate::scheduler::policy::SchedulerClass;
use crate::scheduler::run_queue::{saturated_add, saturated_sub};
use crate::time::{MonotonicDeadline, MonotonicInstant};

verus! {

/// One consistent reading of a CPU's load.
#[derive(Clone, Copy, Debug, PartialEq, Eq, Structural)]
pub struct CpuLoadSummary {
    pub epoch: u64,
    pub runnable_count: usize,
    pub workload_count: usize,
    pub fair_demand: u64,
    pub workload_demand: u64,
    pub current_key: Option<SchedulingKey>,
    pub pushable_class: Option<SchedulerClass>,
    pub overloaded: bool,
}

impl CpuLoadSummary {
    pub fn runnable_count(&self) -> (count: usize)
        ensures
            count == self.runnable_count,
    {
        self.runnable_count
    }

    pub fn workload_demand(&self) -> (demand: u64)
        ensures
            demand == self.workload_demand,
    {
        self.workload_demand
    }

    pub fn is_overloaded(&self) -> (overloaded: bool)
        ensures
            overloaded == self.overloaded,
    {
        self.overloaded
    }
}

/// What a run queue publishes.
#[derive(Clone, Copy, Debug, PartialEq, Eq, Structural)]
pub struct RunQueueLoadPublication {
    pub current_key: Option<SchedulingKey>,
    pub pushable_class: Option<SchedulerClass>,
    pub runnable_count: usize,
    pub workload_count: usize,
    pub fair_demand: u64,
    pub workload_demand: u64,
    pub overloaded: bool,
}

impl RunQueueLoadPublication {
    /// The fields belong together: the running thread is at most one more than
    /// those that wait, and a CPU is overloaded if it has something to push
    /// away besides what it runs.
    pub open spec fn wf(self) -> bool {
        &&& self.runnable_count <= self.workload_count <= self.runnable_count + 1
        &&& self.overloaded == (self.pushable_class is Some && self.workload_count > 1)
    }
}

/// Published load. An odd sequence marks a write in progress.
#[derive(Clone, Copy, Debug, PartialEq, Eq, Structural)]
pub struct RemoteLoadState {
    pub sequence: u64,
    pub published: RunQueueLoadPublication,
    pub incoming_migration_demand: u64,
    pub fair_balance_armed: bool,
    pub fair_balance_deadline: MonotonicDeadline,
    pub fair_balance_pending: bool,
}

pub open spec fn wrapped_next(sequence: u64) -> u64 {
    if sequence == u64::MAX {
        0
    } else {
        (sequence + 1) as u64
    }
}

impl RemoteLoadState {
    pub open spec fn wf(self) -> bool {
        self.published.wf()
    }

    pub open spec fn summary(self) -> Option<CpuLoadSummary> {
        if self.sequence % 2 == 0 {
            Some(
                CpuLoadSummary {
                    epoch: self.sequence,
                    runnable_count: self.published.runnable_count,
                    workload_count: self.published.workload_count,
                    fair_demand: self.published.fair_demand,
                    workload_demand: self.published.workload_demand,
                    current_key: self.published.current_key,
                    pushable_class: self.published.pushable_class,
                    overloaded: self.published.overloaded,
                },
            )
        } else {
            None
        }
    }

    /// The state after a publication.
    #[verifier::opaque]
    pub open spec fn showing(self, publication: RunQueueLoadPublication) -> Self {
        RemoteLoadState {
            sequence: wrapped_next(wrapped_next(self.sequence)),
            published: publication,
            ..self
        }
    }

    /// A CPU that has shown nothing yet.
    pub open spec fn initial() -> Self {
        RemoteLoadState {
            sequence: 0,
            published: RunQueueLoadPublication {
                current_key: None,
                pushable_class: None,
                runnable_count: 0,
                workload_count: 0,
                fair_demand: 0,
                workload_demand: 0,
                overloaded: false,
            },
            incoming_migration_demand: 0,
            fair_balance_armed: false,
            fair_balance_deadline: MonotonicDeadline { ns: 0 },
            fair_balance_pending: false,
        }
    }

    pub fn new() -> (state: Self)
        ensures
            state == Self::initial(),
    {
        RemoteLoadState {
            sequence: 0,
            published: RunQueueLoadPublication {
                current_key: None,
                pushable_class: None,
                runnable_count: 0,
                workload_count: 0,
                fair_demand: 0,
                workload_demand: 0,
                overloaded: false,
            },
            incoming_migration_demand: 0,
            fair_balance_armed: false,
            fair_balance_deadline: MonotonicDeadline { ns: 0 },
            fair_balance_pending: false,
        }
    }

    /// Opens or closes a write.
    pub fn advance_sequence(&mut self)
        ensures
            *final(self) == (RemoteLoadState {
                sequence: wrapped_next(old(self).sequence),
                ..*old(self)
            }),
    {
        self.sequence = if self.sequence == u64::MAX {
            0
        } else {
            self.sequence + 1
        };
    }

    /// Replaces the published load.
    pub fn publish(&mut self, publication: RunQueueLoadPublication)
        ensures
            *final(self) == old(self).showing(publication),
            publication.wf() ==> final(self).wf(),
    {
        proof {
            reveal(RemoteLoadState::showing);
        }
        self.advance_sequence();
        self.published = publication;
        self.advance_sequence();
    }

    /// The published load, unless a write is in progress.
    pub fn try_load_summary(&self) -> (summary: Option<CpuLoadSummary>)
        ensures
            summary == self.summary(),
    {
        if self.sequence % 2 != 0 {
            return None;
        }
        Some(
            CpuLoadSummary {
                epoch: self.sequence,
                runnable_count: self.published.runnable_count,
                workload_count: self.published.workload_count,
                fair_demand: self.published.fair_demand,
                workload_demand: self.published.workload_demand,
                current_key: self.published.current_key,
                pushable_class: self.published.pushable_class,
                overloaded: self.published.overloaded,
            },
        )
    }

    pub open spec fn placement(self) -> Option<u64> {
        match self.summary() {
            Some(summary) => Some(
                saturated_add(summary.workload_demand, self.incoming_migration_demand),
            ),
            None => None,
        }
    }

    /// Demand that a newcomer competes with, threads on their way included.
    pub fn try_placement_demand(&self) -> (demand: Option<u64>)
        ensures
            demand == self.placement(),
    {
        match self.try_load_summary() {
            Some(summary) => Some(
                summary.workload_demand.saturating_add(self.incoming_migration_demand),
            ),
            None => None,
        }
    }

    /// Counts a thread that is on its way here.
    pub fn reserve_incoming_migration(&mut self, demand: u64)
        requires
            old(self).incoming_migration_demand + demand <= u64::MAX,
        ensures
            *final(self) == (RemoteLoadState {
                incoming_migration_demand: (old(self).incoming_migration_demand + demand) as u64,
                ..*old(self)
            }),
    {
        self.incoming_migration_demand = self.incoming_migration_demand + demand;
    }

    /// Stops counting threads that have arrived.
    pub fn release_incoming_migration_demand(&mut self, demand: u64)
        requires
            demand <= old(self).incoming_migration_demand,
        ensures
            *final(self) == (RemoteLoadState {
                incoming_migration_demand: (old(self).incoming_migration_demand - demand) as u64,
                ..*old(self)
            }),
    {
        self.incoming_migration_demand = self.incoming_migration_demand - demand;
    }

    /// Whether periodic balancing is due.
    pub fn fair_balance_due(&self, now: MonotonicInstant) -> (due: bool)
        ensures
            due == (self.fair_balance_armed && now.ns >= self.fair_balance_deadline.ns),
    {
        self.fair_balance_armed && now.reached(self.fair_balance_deadline)
    }

    /// Notes that periodic balancing is due.
    pub fn publish_fair_balance_due(&mut self, now: MonotonicInstant) -> (due: bool)
        ensures
            due == (old(self).fair_balance_armed && now.ns >= old(self).fair_balance_deadline.ns),
            *final(self) == (RemoteLoadState {
                fair_balance_pending: old(self).fair_balance_pending || due,
                ..*old(self)
            }),
    {
        let due = self.fair_balance_due(now);
        if due {
            self.fair_balance_pending = true;
        }
        due
    }

    /// Puts periodic balancing off by at least one nanosecond.
    pub fn defer_fair_balance(&mut self, now: MonotonicInstant, interval_ns: u64)
        ensures
            *final(self) == (RemoteLoadState {
                fair_balance_armed: true,
                fair_balance_pending: false,
                fair_balance_deadline: now.due_after(
                    if interval_ns == 0 {
                        1
                    } else {
                        interval_ns
                    },
                ),
                ..*old(self)
            }),
    {
        let interval_ns: u64 = if interval_ns == 0 {
            1
        } else {
            interval_ns
        };
        self.fair_balance_deadline = now.deadline_after(interval_ns);
        self.fair_balance_armed = true;
        self.fair_balance_pending = false;
    }

    pub fn fair_balance_deadline(&self) -> (deadline: Option<MonotonicDeadline>)
        ensures
            deadline == if self.fair_balance_armed {
                Some(self.fair_balance_deadline)
            } else {
                None
            },
    {
        if self.fair_balance_armed {
            Some(self.fair_balance_deadline)
        } else {
            None
        }
    }

    pub fn reset_fair_balance_for_offline(&mut self)
        ensures
            *final(self) == (RemoteLoadState {
                fair_balance_armed: false,
                fair_balance_pending: false,
                ..*old(self)
            }),
    {
        self.fair_balance_armed = false;
        self.fair_balance_pending = false;
    }
}

/// A reader sees what was published last, and nothing while a write is in
/// progress.
pub proof fn load_summary_shows_the_publication(state: RemoteLoadState, publication: RunQueueLoadPublication)
    requires
        state.summary() is Some,
    ensures
        state.showing(publication).summary() matches Some(summary) && summary.runnable_count
            == publication.runnable_count && summary.workload_count == publication.workload_count
            && summary.fair_demand == publication.fair_demand && summary.workload_demand
            == publication.workload_demand && summary.current_key == publication.current_key
            && summary.pushable_class == publication.pushable_class && summary.overloaded
            == publication.overloaded,
        (RemoteLoadState { sequence: wrapped_next(state.sequence), ..state }).summary() is None,
{
    reveal(RemoteLoadState::showing);
}

/// What arrives is what was announced.
pub proof fn incoming_demand_balances(incoming: u64, demand: u64)
    requires
        incoming + demand <= u64::MAX,
    ensures
        saturated_sub(saturated_add(incoming, demand), demand) == incoming,
{
}

} // verus!
