//! Where a thread is queued, where it executes and where it has been asked to
//! go.
use vstd::prelude::*;
use crate::ids::{CpuId, CpuSet};

verus! {

/// Run-queue membership of a thread.
#[derive(Clone, Copy, Debug, PartialEq, Eq, Structural)]
pub enum TaskOnRunQueue {
    Off,
    Queued,
    Migrating,
}

/// Placement of one thread. `task_cpu` names the run queue that owns the
/// thread or owned it last; `on_cpu` names the CPU whose stack still runs it.
#[derive(Debug)]
pub struct ThreadPlacementState {
    pub affinity: CpuSet,
    pub affinity_generation: u64,
    pub task_cpu: Option<CpuId>,
    pub on_rq: TaskOnRunQueue,
    pub on_cpu: Option<CpuId>,
    pub migration_request: Option<CpuId>,
}

impl ThreadPlacementState {
    pub open spec fn queued_on(&self) -> Option<CpuId> {
        if self.on_rq == TaskOnRunQueue::Queued {
            self.task_cpu
        } else {
            None
        }
    }

    pub open spec fn executing_on(&self) -> Option<CpuId> {
        if self.on_rq == TaskOnRunQueue::Queued && self.task_cpu is Some && self.task_cpu
            == self.on_cpu {
            self.on_cpu
        } else {
            None
        }
    }

    pub open spec fn migrating_to(&self) -> Option<CpuId> {
        if self.on_rq == TaskOnRunQueue::Migrating {
            self.task_cpu
        } else {
            None
        }
    }

    /// Every queued or migrating thread names the run queue it belongs to, and
    /// only such a thread carries a migration request, never to the CPU it is
    /// assigned to.
    pub open spec fn wf(&self) -> bool {
        &&& self.on_rq != TaskOnRunQueue::Off ==> self.task_cpu is Some
        &&& self.migration_request is Some ==> self.on_rq != TaskOnRunQueue::Off
            && self.migration_request != self.task_cpu
    }

    pub open spec fn can_activate(&self, cpu: CpuId) -> bool {
        &&& self.on_cpu is None
        &&& match self.on_rq {
            TaskOnRunQueue::Off => true,
            TaskOnRunQueue::Migrating => self.task_cpu == Some(cpu),
            TaskOnRunQueue::Queued => false,
        }
    }

    pub open spec fn can_deactivate(&self, cpu: CpuId) -> bool {
        self.on_rq == TaskOnRunQueue::Queued && self.task_cpu == Some(cpu) && self.on_cpu is None
    }

    pub open spec fn can_begin_remote_wakeup(&self) -> bool {
        self.on_rq == TaskOnRunQueue::Off && self.on_cpu is None
    }

    pub open spec fn can_put_prev(&self, cpu: CpuId) -> bool {
        self.on_rq == TaskOnRunQueue::Queued && self.task_cpu == Some(cpu) && self.on_cpu == Some(
            cpu,
        ) && self.migration_request is None
    }

    pub open spec fn can_begin_migration(&self, source: CpuId, target: CpuId) -> bool {
        source != target && self.on_rq == TaskOnRunQueue::Queued && self.task_cpu == Some(source)
            && (self.on_cpu is None || self.on_cpu == Some(source))
    }

    pub open spec fn can_block_current(&self, cpu: CpuId) -> bool {
        self.on_rq == TaskOnRunQueue::Queued && self.task_cpu == Some(cpu) && self.on_cpu == Some(
            cpu,
        )
    }

    pub open spec fn can_set_next(&self, cpu: CpuId) -> bool {
        self.on_rq == TaskOnRunQueue::Queued && self.task_cpu == Some(cpu) && (self.on_cpu is None
            || self.on_cpu == Some(cpu))
    }

    pub fn new(affinity: CpuSet) -> (placement: Self)
        ensures
            placement == (ThreadPlacementState {
                affinity,
                affinity_generation: 1,
                task_cpu: None,
                on_rq: TaskOnRunQueue::Off,
                on_cpu: None,
                migration_request: None,
            }),
            placement.wf(),
    {
        ThreadPlacementState {
            affinity,
            affinity_generation: 1,
            task_cpu: None,
            on_rq: TaskOnRunQueue::Off,
            on_cpu: None,
            migration_request: None,
        }
    }

    pub fn queued_cpu(&self) -> (cpu: Option<CpuId>)
        ensures
            cpu == self.queued_on(),
    {
        match self.on_rq {
            TaskOnRunQueue::Queued => self.task_cpu,
            TaskOnRunQueue::Off | TaskOnRunQueue::Migrating => None,
        }
    }

    pub fn execution_cpu(&self) -> (cpu: Option<CpuId>)
        ensures
            cpu == self.executing_on(),
    {
        match (self.on_rq, self.task_cpu, self.on_cpu) {
            (TaskOnRunQueue::Queued, Some(task_cpu), Some(on_cpu)) => if task_cpu == on_cpu {
                Some(on_cpu)
            } else {
                None
            },
            _ => None,
        }
    }

    pub fn on_cpu(&self) -> (cpu: Option<CpuId>)
        ensures
            cpu == self.on_cpu,
    {
        self.on_cpu
    }

    pub fn task_cpu(&self) -> (cpu: Option<CpuId>)
        ensures
            cpu == self.task_cpu,
    {
        self.task_cpu
    }

    pub fn committed_migration_target(&self) -> (cpu: Option<CpuId>)
        ensures
            cpu == self.migrating_to(),
    {
        match self.on_rq {
            TaskOnRunQueue::Migrating => self.task_cpu,
            TaskOnRunQueue::Off | TaskOnRunQueue::Queued => None,
        }
    }

    pub fn has_pending_migration(&self) -> (pending: bool)
        ensures
            pending == (self.migrating_to() is Some || self.migration_request is Some),
    {
        self.committed_migration_target().is_some() || self.migration_request.is_some()
    }

    pub fn can_continue_running_on(&self, cpu: CpuId) -> (can: bool)
        ensures
            can == (self.executing_on() == Some(cpu) && self.migration_request is None
                && self.affinity.has(cpu)),
    {
        let here = match self.execution_cpu() {
            Some(execution) => execution == cpu,
            None => false,
        };
        here && self.migration_request.is_none() && self.affinity.contains(cpu)
    }

    pub fn assigned_cpu(&self) -> (cpu: Option<CpuId>)
        ensures
            cpu == self.task_cpu,
    {
        self.task_cpu
    }

    pub fn requested_migration(&self) -> (cpu: Option<CpuId>)
        ensures
            cpu == self.migration_request,
    {
        self.migration_request
    }

    /// Links the thread to the run queue of `cpu`.
    pub fn activate(&mut self, cpu: CpuId)
        requires
            old(self).can_activate(cpu),
        ensures
            *final(self) == (ThreadPlacementState {
                task_cpu: Some(cpu),
                on_rq: TaskOnRunQueue::Queued,
                migration_request: if old(self).migration_request == Some(cpu) {
                    None
                } else {
                    old(self).migration_request
                },
                ..*old(self)
            }),
            old(self).wf() ==> final(self).wf(),
            final(self).queued_on() == Some(cpu),
    {
        self.task_cpu = Some(cpu);
        self.on_rq = TaskOnRunQueue::Queued;
        if let Some(requested) = self.migration_request {
            if requested == cpu {
                self.migration_request = None;
            }
        }
    }

    /// Unlinks a thread that is not executing from the run queue of `cpu`.
    pub fn deactivate(&mut self, cpu: CpuId)
        requires
            old(self).can_deactivate(cpu),
        ensures
            *final(self) == (ThreadPlacementState {
                on_rq: TaskOnRunQueue::Off,
                migration_request: None,
                ..*old(self)
            }),
            final(self).wf(),
    {
        self.on_rq = TaskOnRunQueue::Off;
        self.migration_request = None;
    }

    /// Hands an unqueued thread to the run queue of another CPU.
    pub fn begin_remote_wakeup(&mut self, target: CpuId)
        requires
            old(self).can_begin_remote_wakeup(),
        ensures
            *final(self) == (ThreadPlacementState {
                task_cpu: Some(target),
                on_rq: TaskOnRunQueue::Migrating,
                migration_request: None,
                ..*old(self)
            }),
            final(self).wf(),
    {
        self.task_cpu = Some(target);
        self.on_rq = TaskOnRunQueue::Migrating;
        self.migration_request = None;
    }

    /// Records, replaces or withdraws the wish to move a thread that some run
    /// queue owns. A wish to stay is no wish.
    pub fn request_migration(&mut self, target: Option<CpuId>)
        requires
            old(self).on_rq == TaskOnRunQueue::Off ==> old(self).on_cpu is None,
        ensures
            *final(self) == (ThreadPlacementState {
                migration_request: if old(self).on_rq == TaskOnRunQueue::Off || target
                    == old(self).task_cpu {
                    None
                } else {
                    target
                },
                ..*old(self)
            }),
            old(self).wf() ==> final(self).wf(),
    {
        match self.on_rq {
            TaskOnRunQueue::Queued | TaskOnRunQueue::Migrating => {
                self.migration_request = match (target, self.task_cpu) {
                    (Some(target), Some(task_cpu)) => if target == task_cpu {
                        None
                    } else {
                        Some(target)
                    },
                    (other, _) => other,
                };
            },
            TaskOnRunQueue::Off => {
                self.migration_request = None;
            },
        }
    }

    /// Returns an executing thread to its run queue: placement does not change.
    pub fn put_prev(&self, cpu: CpuId)
        requires
            self.can_put_prev(cpu),
        ensures
            self.queued_on() == Some(cpu),
            self.executing_on() == Some(cpu),
    {
    }

    /// Commits the move of a queued thread to another run queue.
    pub fn begin_migration(&mut self, source: CpuId, target: CpuId)
        requires
            old(self).can_begin_migration(source, target),
        ensures
            *final(self) == (ThreadPlacementState {
                task_cpu: Some(target),
                on_rq: TaskOnRunQueue::Migrating,
                migration_request: None,
                ..*old(self)
            }),
            final(self).wf(),
    {
        self.task_cpu = Some(target);
        self.on_rq = TaskOnRunQueue::Migrating;
        self.migration_request = None;
    }

    /// Takes the executing thread off its run queue; the CPU keeps its stack.
    pub fn block_current(&mut self, cpu: CpuId)
        requires
            old(self).can_block_current(cpu),
        ensures
            *final(self) == (ThreadPlacementState {
                on_rq: TaskOnRunQueue::Off,
                migration_request: None,
                ..*old(self)
            }),
            final(self).wf(),
    {
        self.on_rq = TaskOnRunQueue::Off;
        self.migration_request = None;
    }

    /// Selects a queued thread for execution on its own CPU.
    pub fn set_next_task(&mut self, cpu: CpuId)
        requires
            old(self).can_set_next(cpu),
        ensures
            *final(self) == (ThreadPlacementState { on_cpu: Some(cpu), ..*old(self) }),
            old(self).wf() ==> final(self).wf(),
    {
        self.on_cpu = Some(cpu);
    }

    /// Releases the stack of an outgoing thread at the end of a switch.
    pub fn finish_task(&mut self, cpu: CpuId)
        requires
            old(self).on_cpu == Some(cpu),
        ensures
            *final(self) == (ThreadPlacementState { on_cpu: None, ..*old(self) }),
            old(self).wf() ==> final(self).wf(),
    {
        self.on_cpu = None;
    }

    /// Drops a handoff that its target has not consumed.
    pub fn cancel_remote_handoff_for_exit(&mut self)
        requires
            old(self).on_cpu is None,
            old(self).on_rq != TaskOnRunQueue::Queued,
        ensures
            *final(self) == (ThreadPlacementState {
                on_rq: TaskOnRunQueue::Off,
                migration_request: None,
                ..*old(self)
            }),
            final(self).wf(),
    {
        self.on_rq = TaskOnRunQueue::Off;
        self.migration_request = None;
    }
}

/// A thread is never owned by two run queues: what is queued is not migrating.
pub proof fn placement_has_one_owner(placement: ThreadPlacementState)
    ensures
        !(placement.queued_on() is Some && placement.migrating_to() is Some),
        placement.executing_on() is Some ==> placement.executing_on() == placement.queued_on(),
{
}

} // verus!
