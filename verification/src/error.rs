//! Error and lifecycle vocabulary shared by every scheduler operation.
use vstd::prelude::*;

verus! {

/// Lifecycle of one schedulable thread.
#[derive(Clone, Copy, Debug, PartialEq, Eq, Structural)]
pub enum ThreadState {
    New,
    Ready,
    Running,
    Parking,
    Blocked,
    Waking,
    Exited,
}

/// Violations of the priority-inheritance waiter protocol.
#[derive(Clone, Copy, Debug, PartialEq, Eq, Structural)]
pub enum PiWaitStateError {
    ExitedParticipant,
    WaiterAlreadyBlocked,
    WaiterOwnsLock,
    StaleSchedulerOwnership,
    OwnerlessSelectionMissing,
}

/// Recoverable failures reported by scheduler operations.
#[derive(Clone, Copy, Debug, PartialEq, Eq, Structural)]
pub enum TaskError {
    NotInitialized,
    NotReady,
    AlreadyQueued,
    InvalidConfiguration,
    InvalidCpu(u32),
    CpuOffline(u32),
    CpuOwnerMismatch { expected: u32, actual: u32 },
    StaleThreadId,
    ThreadCapacity,
    NoRunnableThread,
    ThreadBusy,
    InvalidTransition { from: ThreadState, to: ThreadState },
    InvalidPiState,
    InvalidPiWaitState(PiWaitStateError),
    PiCycle,
    PiChainLimit { limit: usize },
    InvalidPolicy,
    InvalidAffinity,
    DeadlineAffinity,
    DeadlineAdmission,
    /// What was asked for may not be done in an interrupt handler.
    UnsafeContext,
    InvalidRuntimeHandle,
    RuntimeFailure(u32),
}

} // verus!
