//! The outgoing half of a context switch.
use vstd::prelude::*;
use crate::error::TaskError;
use crate::ids::{CpuId, ThreadId};

verus! {

/// A thread on its way to another CPU's run queue, with the load that was
/// announced there.
#[derive(Clone, Copy, Debug, PartialEq, Eq, Structural)]
pub struct PreparedMigrationDelivery {
    pub thread: ThreadId,
    pub source: CpuId,
    pub target: CpuId,
    pub placement_demand: u64,
}

impl PreparedMigrationDelivery {
    pub fn target(&self) -> (target: CpuId)
        ensures
            target == self.target,
    {
        self.target
    }
}

/// Progress of a switch handoff.
#[derive(Clone, Copy, Debug, PartialEq, Eq, Structural)]
pub enum SwitchHandoffPhase {
    Prepared,
    RuntimeTailFinished,
}

/// What the incoming context still owes the thread that it replaced.
#[derive(Clone, Copy, Debug, PartialEq, Eq, Structural)]
pub struct SwitchHandoff {
    pub phase: SwitchHandoffPhase,
    pub previous: ThreadId,
    pub migration: Option<PreparedMigrationDelivery>,
}

impl SwitchHandoff {
    pub open spec fn target_cpu(self) -> Option<CpuId> {
        match self.migration {
            Some(migration) => Some(migration.target),
            None => None,
        }
    }

    pub fn prepared(previous: ThreadId, migration: Option<PreparedMigrationDelivery>) -> (handoff: Self)
        ensures
            handoff == (SwitchHandoff { phase: SwitchHandoffPhase::Prepared, previous, migration }),
    {
        SwitchHandoff { phase: SwitchHandoffPhase::Prepared, previous, migration }
    }

    pub fn previous(&self) -> (previous: ThreadId)
        ensures
            previous == self.previous,
    {
        self.previous
    }

    pub fn migration_target(&self) -> (target: Option<CpuId>)
        ensures
            target == self.target_cpu(),
    {
        match self.migration {
            Some(migration) => Some(migration.target()),
            None => None,
        }
    }

    pub fn runtime_tail_is_finished(&self) -> (finished: bool)
        ensures
            finished == (self.phase == SwitchHandoffPhase::RuntimeTailFinished),
    {
        match self.phase {
            SwitchHandoffPhase::RuntimeTailFinished => true,
            SwitchHandoffPhase::Prepared => false,
        }
    }

    /// Records that the architecture has left the outgoing stack; once only.
    pub fn finish_runtime_tail(self) -> (result: Result<Self, TaskError>)
        ensures
            result == if self.phase == SwitchHandoffPhase::Prepared {
                Ok(SwitchHandoff { phase: SwitchHandoffPhase::RuntimeTailFinished, ..self })
            } else {
                Err(TaskError::InvalidConfiguration)
            },
    {
        match self.phase {
            SwitchHandoffPhase::Prepared => Ok(
                SwitchHandoff {
                    phase: SwitchHandoffPhase::RuntimeTailFinished,
                    previous: self.previous,
                    migration: self.migration,
                },
            ),
            SwitchHandoffPhase::RuntimeTailFinished => Err(TaskError::InvalidConfiguration),
        }
    }

    /// Consumes a handoff whose runtime tail has finished.
    pub fn into_runtime_finished(self) -> (result: Result<
        (ThreadId, Option<PreparedMigrationDelivery>),
        TaskError,
    >)
        ensures
            result == if self.phase == SwitchHandoffPhase::RuntimeTailFinished {
                Ok((self.previous, self.migration))
            } else {
                Err(TaskError::InvalidConfiguration)
            },
    {
        match self.phase {
            SwitchHandoffPhase::RuntimeTailFinished => Ok((self.previous, self.migration)),
            SwitchHandoffPhase::Prepared => Err(TaskError::InvalidConfiguration),
        }
    }
}

} // verus!
