//! What a thread asks of the scheduler: mutexes with priority inheritance, and
//! waits for interrupts.
use vstd::prelude::*;
use crate::error::TaskError;
use crate::ids::{CpuId, ThreadId};
use crate::system::drain::OwnerControlDrain;
use crate::system::park::{ParkCommit, ParkPrepare, ParkTicket, ScheduleDecision};
use crate::system::pi_mutex::PiMutexLockResult;
use crate::system::task_system::TaskSystem;
use crate::system::wake::WakeResult;
use crate::thread::pi::{PiMutexRef, PiWaitToken};
use crate::time::MonotonicInstant;

verus! {

/// The thread that makes a call.
#[derive(Clone, Copy, Debug, PartialEq, Eq, Structural)]
pub struct CurrentThreadToken {
    pub id: ThreadId,
}

impl CurrentThreadToken {
    pub fn id(&self) -> (id: ThreadId)
        ensures
            id == self.id,
    {
        self.id
    }
}

/// Takes a contended mutex, or queues up for it.
pub fn pi_mutex_lock_slow(system: &mut TaskSystem, lock: PiMutexRef, current: &CurrentThreadToken, sequence: u64, now_ns: u64, by: CpuId) -> (result: Result<PiMutexLockResult, TaskError>)
    requires
        old(system).wf(),
    ensures
        final(system).slowly_locked(
            old(system),
            lock.id,
            current.id,
            sequence,
            now_ns,
            by,
            result,
        ),
        final(system).wf(),
{
    system.pi_mutex_lock_slow(lock, current.id, sequence, now_ns, by)
}

/// Gives up the wait for a mutex.
pub fn pi_wait_cancel(system: &mut TaskSystem, token: PiWaitToken, now_ns: u64, by: CpuId) -> (result: Result<(), TaskError>)
    requires
        old(system).wf(),
    ensures
        final(system).wait_cancelled(old(system), token, now_ns, by, result),
        final(system).wf(),
{
    system.pi_wait_cancel(token, now_ns, by)
}

/// Releases a contended mutex to its first waiter.
pub fn pi_mutex_release(system: &mut TaskSystem, lock: PiMutexRef, current: &CurrentThreadToken, now_ns: u64, monotonic_now: MonotonicInstant, by: CpuId) -> (result: Result<(), TaskError>)
    requires
        old(system).wf(),
    ensures
        final(system).mutex_released(
            old(system),
            lock.id,
            current.id,
            now_ns,
            monotonic_now,
            by,
            result,
        ),
        final(system).wf(),
{
    system.pi_mutex_release(lock, current.id, now_ns, monotonic_now, by)
}

/// Takes a mutex that was released to the caller.
pub fn pi_mutex_claim(system: &mut TaskSystem, token: PiWaitToken, current: &CurrentThreadToken, now_ns: u64, by: CpuId) -> (result: Result<(), TaskError>)
    requires
        old(system).wf(),
    ensures
        if current.id != token.thread {
            result == Err::<(), TaskError>(TaskError::InvalidPiState) && *final(system) == *old(system)
        } else {
            final(system).mutex_claimed(old(system), token, now_ns, by, result)
        },
        final(system).wf(),
{
    if current.id != token.thread {
        return Err(TaskError::InvalidPiState);
    }
    system.pi_mutex_claim(token, now_ns, by)
}

/// Wakes a thread up after a handoff. One that exited needs no wake-up.
pub fn pi_wake(system: &mut TaskSystem, thread: ThreadId, by: CpuId, now_ns: u64, monotonic_now: MonotonicInstant) -> (result: Result<(), TaskError>)
    requires
        old(system).wf(),
    ensures
        result == if old(system).wake_outcome(thread, None, now_ns).0 == WakeResult::Unavailable {
            Err::<(), TaskError>(TaskError::NotInitialized)
        } else {
            Ok(())
        },
        final(system).woken(old(system), thread, None, by, now_ns, monotonic_now),
        final(system).wf(),
{
    match system.wake_thread_direct(thread, None, by, now_ns, monotonic_now) {
        WakeResult::Unavailable => Err(TaskError::NotInitialized),
        _ => Ok(()),
    }
}

/// An attempt of a waiter to park.
#[derive(Clone, Copy, Debug, PartialEq, Eq, Structural)]
pub enum PiParkAttempt {
    /// The mutex is the waiter's to take.
    Complete,
    /// A wake-up came first.
    Retry,
    Prepared(ParkTicket),
}

/// Where a waiter stands after one round.
#[derive(Clone, Copy, Debug, PartialEq, Eq, Structural)]
pub enum PiBlock {
    /// The mutex is the waiter's to take.
    Complete,
    /// The waiter has to look again.
    Retry,
    /// The waiter sleeps; the CPU switches.
    Blocked(ScheduleDecision),
}

impl TaskSystem {
    /// Whether a waiter was chosen to take its mutex, or has been given it.
    pub open spec fn served(&self, token: PiWaitToken) -> bool {
        match self.record(token.thread) {
            None => false,
            Some(record) => record.pi.wait.selected_generation == token.generation
                || record.pi.wait.granted_generation == token.generation,
        }
    }

    fn is_served(&self, token: PiWaitToken) -> (over: bool)
        requires
            self.wf(),
        ensures
            over == self.served(token),
    {
        match self.thread_record(token.thread) {
            Err(_) => false,
            Ok(record) => token.is_selected(&record.pi.wait) || token.is_granted(&record.pi.wait),
        }
    }

    /// The system after a waiter tried to park.
    pub open spec fn pi_park_attempted(&self, before: &Self, cpu: CpuId, token: PiWaitToken, now_ns: u64, monotonic_now: MonotonicInstant, result: Result<PiParkAttempt, TaskError>) -> bool {
        if !before.has_cpu(cpu) {
            result == Err::<PiParkAttempt, TaskError>(TaskError::InvalidCpu(cpu.index)) && *self
                == *before
        } else if before.cpu(cpu).current != Some(token.thread) {
            result == Err::<PiParkAttempt, TaskError>(TaskError::InvalidPiState) && *self == *before
        } else {
            exists|drained: TaskSystem, outcome: Result<OwnerControlDrain, TaskError>|
                #[trigger] drained.inbox_drained(before, cpu, now_ns, monotonic_now, outcome)
                    && match outcome {
                    Err(error) => result == Err::<PiParkAttempt, TaskError>(error) && *self
                        == drained,
                    Ok(_) => if drained.served(token) {
                        result == Ok::<PiParkAttempt, TaskError>(PiParkAttempt::Complete) && *self
                            == drained
                    } else {
                        exists|announced: Result<ParkPrepare, TaskError>|
                            #[trigger] self.park_prepared(
                                &drained,
                                cpu,
                                now_ns,
                                monotonic_now,
                                announced,
                            ) && result == match announced {
                                Err(error) => Err::<PiParkAttempt, TaskError>(error),
                                Ok(ParkPrepare::Notified) => Ok(PiParkAttempt::Retry),
                                Ok(ParkPrepare::Prepared(ticket)) => Ok(
                                    PiParkAttempt::Prepared(ticket),
                                ),
                            }
                    },
                }
        }
    }

    /// The system after a waiter made good or withdrew a park.
    pub open spec fn pi_park_ended(&self, before: &Self, cpu: CpuId, token: PiWaitToken, ticket: ParkTicket, now_ns: u64, monotonic_now: MonotonicInstant, result: Result<PiBlock, TaskError>) -> bool {
        if before.served(token) {
            exists|outcome: Result<(), TaskError>|
                #[trigger] self.park_withdrawn(before, cpu, ticket, outcome) && result
                    == match outcome {
                    Err(error) => Err::<PiBlock, TaskError>(error),
                    Ok(_) => Ok(PiBlock::Complete),
                }
        } else {
            exists|outcome: Result<ParkCommit, TaskError>|
                #[trigger] self.park_committed(
                    before,
                    cpu,
                    ticket,
                    now_ns,
                    monotonic_now,
                    outcome,
                ) && result == match outcome {
                    Err(error) => Err::<PiBlock, TaskError>(error),
                    Ok(ParkCommit::Blocked(decision)) => Ok(PiBlock::Blocked(decision)),
                    Ok(ParkCommit::Notified) => if self.served(token) {
                        Ok(PiBlock::Complete)
                    } else {
                        Ok(PiBlock::Retry)
                    },
                }
        }
    }
}

/// Lets a waiter announce that it parks, unless the mutex is its to take.
pub fn prepare_pi_park_attempt(system: &mut TaskSystem, cpu: CpuId, token: PiWaitToken, now_ns: u64, monotonic_now: MonotonicInstant) -> (result: Result<PiParkAttempt, TaskError>)
    requires
        old(system).wf(),
    ensures
        final(system).pi_park_attempted(
            old(system),
            cpu,
            token,
            now_ns,
            monotonic_now,
            result,
        ),
        final(system).wf(),
{
    let ghost before = *system;
    if cpu.index as usize >= system.cpus.len() {
        return Err(TaskError::InvalidCpu(cpu.index));
    }
    let current = match system.cpus[cpu.index as usize].current {
        Some(current) => current == token.thread,
        None => false,
    };
    if !current {
        return Err(TaskError::InvalidPiState);
    }
    let outcome = system.drain_policy_updates(cpu, now_ns, monotonic_now);
    let ghost drained = *system;
    assert(drained.inbox_drained(&before, cpu, now_ns, monotonic_now, outcome));
    match outcome {
        Ok(_) => {},
        Err(error) => {
            return Err(error);
        },
    }
    if system.is_served(token) {
        return Ok(PiParkAttempt::Complete);
    }
    let announced = system.prepare_park(cpu, now_ns, monotonic_now);
    assert(system.park_prepared(&drained, cpu, now_ns, monotonic_now, announced));
    match announced {
        Err(error) => Err(error),
        Ok(ParkPrepare::Notified) => Ok(PiParkAttempt::Retry),
        Ok(ParkPrepare::Prepared(ticket)) => Ok(PiParkAttempt::Prepared(ticket)),
    }
}

/// One round of a waiter that blocks until the mutex is its to take. The round
/// is repeated until it says so; a thread that blocked goes on with the next
/// round when it is woken up.
pub fn pi_block_current(system: &mut TaskSystem, cpu: CpuId, token: PiWaitToken, now_ns: u64, monotonic_now: MonotonicInstant) -> (result: Result<PiBlock, TaskError>)
    requires
        old(system).wf(),
    ensures
        if old(system).served(token) {
            result == Ok::<PiBlock, TaskError>(PiBlock::Complete) && *final(system) == *old(system)
        } else {
            exists|tried: TaskSystem, attempt: Result<PiParkAttempt, TaskError>|
                #[trigger] tried.pi_park_attempted(
                    old(system),
                    cpu,
                    token,
                    now_ns,
                    monotonic_now,
                    attempt,
                ) && match attempt {
                    Err(error) => result == Err::<PiBlock, TaskError>(error) && *final(system)
                        == tried,
                    Ok(PiParkAttempt::Complete) => result == Ok::<PiBlock, TaskError>(
                        PiBlock::Complete,
                    ) && *final(system) == tried,
                    Ok(PiParkAttempt::Retry) => result == Ok::<PiBlock, TaskError>(
                        PiBlock::Retry,
                    ) && *final(system) == tried,
                    Ok(PiParkAttempt::Prepared(ticket)) => final(system).pi_park_ended(
                        &tried,
                        cpu,
                        token,
                        ticket,
                        now_ns,
                        monotonic_now,
                        result,
                    ),
                }
        },
        final(system).wf(),
{
    let ghost before = *system;
    if system.is_served(token) {
        return Ok(PiBlock::Complete);
    }
    let attempt = prepare_pi_park_attempt(system, cpu, token, now_ns, monotonic_now);
    let ghost tried = *system;
    assert(tried.pi_park_attempted(&before, cpu, token, now_ns, monotonic_now, attempt));
    let ticket = match attempt {
        Err(error) => {
            return Err(error);
        },
        Ok(PiParkAttempt::Complete) => {
            return Ok(PiBlock::Complete);
        },
        Ok(PiParkAttempt::Retry) => {
            return Ok(PiBlock::Retry);
        },
        Ok(PiParkAttempt::Prepared(ticket)) => ticket,
    };
    let mut ticket = ticket;
    let ghost start = ticket;
    if system.is_served(token) {
        let outcome = system.cancel_park(cpu, &mut ticket);
        assert(system.park_withdrawn(&tried, cpu, start, outcome));
        return match outcome {
            Err(error) => Err(error),
            Ok(_) => Ok(PiBlock::Complete),
        };
    }
    let outcome = system.commit_park(cpu, &mut ticket, now_ns, monotonic_now);
    assert(system.park_committed(&tried, cpu, start, now_ns, monotonic_now, outcome));
    match outcome {
        Err(error) => Err(error),
        Ok(ParkCommit::Blocked(decision)) => Ok(PiBlock::Blocked(decision)),
        Ok(ParkCommit::Notified) => if system.is_served(token) {
            Ok(PiBlock::Complete)
        } else {
            Ok(PiBlock::Retry)
        },
    }
}

/// The answer to a thread that wants to wait for an interrupt.
#[derive(Clone, Copy, Debug, PartialEq, Eq, Structural)]
pub enum IrqRegisterResult {
    /// Another thread waits already.
    Occupied,
    /// The interrupt came before.
    ConsumedPending,
    Registered,
    /// The interrupt is being told of right now.
    NotificationInFlight,
}

/// What a thread that waits for interrupts does next.
#[derive(Clone, Copy, Debug, PartialEq, Eq, Structural)]
pub enum IrqWaitStep {
    Refused(TaskError),
    Done,
    /// Parks until the registration is taken off, and then makes sure of it.
    Park,
}

/// Decides what follows a registration for an interrupt.
pub fn irq_wait_step(registered: IrqRegisterResult) -> (step: IrqWaitStep)
    ensures
        step == match registered {
            IrqRegisterResult::Occupied => IrqWaitStep::Refused(TaskError::InvalidConfiguration),
            IrqRegisterResult::ConsumedPending => IrqWaitStep::Done,
            _ => IrqWaitStep::Park,
        },
{
    match registered {
        IrqRegisterResult::Occupied => IrqWaitStep::Refused(TaskError::InvalidConfiguration),
        IrqRegisterResult::ConsumedPending => IrqWaitStep::Done,
        _ => IrqWaitStep::Park,
    }
}

/// The outcome of a wait for an interrupt: a registration that cannot be taken
/// off weighs more than the wait itself.
pub fn irq_wait_result(waited: Result<(), TaskError>, quiesced: Result<(), TaskError>) -> (result: Result<(), TaskError>)
    ensures
        result == if quiesced is Err {
            quiesced
        } else {
            waited
        },
{
    if quiesced.is_err() {
        return quiesced;
    }
    waited
}

} // verus!
