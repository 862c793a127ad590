//! Wait queues. A wait alternates between decisions, which stand here, and the
//! work of a scheduler, which a caller performs: every wait is a [`WaitCall`]
//! that names the next [`WaitAction`] and takes its outcome as a [`WaitEvent`].
use vstd::prelude::*;
use crate::error::TaskError;
use crate::ids::ThreadId;
use crate::time::{MonotonicDeadline, MonotonicInstant};

verus! {

/// How one pass of a wait ended.
#[derive(Clone, Copy, Debug, PartialEq, Eq, Structural)]
pub enum WaitOutcome {
    Condition,
    Notified,
    OtherWake,
}

/// What ends a wait.
#[derive(Clone, Copy, Debug, PartialEq, Eq, Structural)]
pub enum WaitGoal {
    /// One pass, however it ends.
    Once,
    /// The caller's condition.
    Condition,
    /// A notification, or the deadline.
    NotificationBy(MonotonicDeadline),
    /// The caller's condition, or the deadline.
    ConditionBy(MonotonicDeadline),
    /// The deadline.
    Deadline(MonotonicDeadline),
}

/// What a wait is waiting for.
#[derive(Clone, Copy, Debug, PartialEq, Eq, Structural)]
pub enum WaitStep {
    ClockBefore,
    ClockAfter,
    FinalCondition,
    Permit,
    Condition { observed: u64 },
    ParkStart,
    Arming { thread: ThreadId },
    Cancelling { error: TaskError },
    Parked { thread: ThreadId },
    Finished,
}

/// A wait in progress.
#[derive(Clone, Copy, Debug, PartialEq, Eq, Structural)]
pub struct WaitCall {
    pub goal: WaitGoal,
    pub step: WaitStep,
}

/// Outcome of the start of a park.
#[derive(Clone, Copy, Debug, PartialEq, Eq, Structural)]
pub enum CurrentParkStart {
    Notified,
    Prepared(ThreadId),
}

/// What the caller does next. The queue stays locked from `BeginPark` until
/// `CommitPark` is asked for.
#[derive(Clone, Copy, Debug, PartialEq, Eq)]
pub enum WaitAction {
    ReadClock,
    AcquirePermit,
    CheckCondition,
    BeginPark,
    ArmDeadline(MonotonicDeadline),
    CancelPark,
    CommitPark,
    /// The wait is over. `Ok(true)` says that the deadline ended it.
    Done(Result<bool, TaskError>),
}

/// Outcome of an action.
#[derive(Clone, Copy, Debug, PartialEq, Eq)]
pub enum WaitEvent {
    Clock(MonotonicInstant),
    Permit(Result<(), TaskError>),
    Condition(bool),
    ParkStart(Result<CurrentParkStart, TaskError>),
    Armed(Result<(), TaskError>),
    Cancelled(Result<(), TaskError>),
    Resumed(Result<(), TaskError>),
}

impl WaitGoal {
    pub open spec fn due(self) -> Option<MonotonicDeadline> {
        match self {
            WaitGoal::Once => None,
            WaitGoal::Condition => None,
            WaitGoal::NotificationBy(deadline) => Some(deadline),
            WaitGoal::ConditionBy(deadline) => Some(deadline),
            WaitGoal::Deadline(deadline) => Some(deadline),
        }
    }

    pub open spec fn conditional(self) -> bool {
        self is Condition || self is ConditionBy
    }

    fn deadline(&self) -> (deadline: Option<MonotonicDeadline>)
        ensures
            deadline == self.due(),
    {
        match self {
            WaitGoal::Once | WaitGoal::Condition => None,
            WaitGoal::NotificationBy(deadline) | WaitGoal::ConditionBy(deadline)
            | WaitGoal::Deadline(deadline) => Some(*deadline),
        }
    }

    fn is_conditional(&self) -> (conditional: bool)
        ensures
            conditional == self.conditional(),
    {
        match self {
            WaitGoal::Condition | WaitGoal::ConditionBy(_) => true,
            WaitGoal::Once | WaitGoal::NotificationBy(_) | WaitGoal::Deadline(_) => false,
        }
    }
}

impl WaitCall {
    /// Every step belongs to the goal: only a wait with a deadline reads the
    /// clock or arms a timer, and only one with a condition looks at it.
    pub open spec fn wf(self) -> bool {
        match self.step {
            WaitStep::ClockBefore => self.goal.due() is Some,
            WaitStep::ClockAfter => self.goal is NotificationBy,
            WaitStep::FinalCondition => self.goal is ConditionBy,
            WaitStep::Condition { .. } => self.goal.conditional(),
            WaitStep::Arming { .. } => self.goal.due() is Some,
            WaitStep::Cancelling { .. } => self.goal.due() is Some,
            _ => true,
        }
    }

    /// The wait with its next step.
    pub open spec fn at(self, step: WaitStep) -> WaitCall {
        WaitCall { step, ..self }
    }

    pub open spec fn ended(self, result: Result<bool, TaskError>) -> (WaitCall, WaitAction) {
        (self.at(WaitStep::Finished), WaitAction::Done(result))
    }

    /// The wait after a pass.
    pub open spec fn passed(self, outcome: WaitOutcome) -> (WaitCall, WaitAction) {
        match self.goal {
            WaitGoal::Once => self.ended(Ok(false)),
            WaitGoal::Condition => if outcome == WaitOutcome::Condition {
                self.ended(Ok(false))
            } else {
                (self.at(WaitStep::Permit), WaitAction::AcquirePermit)
            },
            WaitGoal::NotificationBy(_) => if outcome == WaitOutcome::Notified {
                self.ended(Ok(false))
            } else {
                (self.at(WaitStep::ClockAfter), WaitAction::ReadClock)
            },
            WaitGoal::ConditionBy(_) => if outcome == WaitOutcome::Condition {
                self.ended(Ok(false))
            } else {
                (self.at(WaitStep::ClockBefore), WaitAction::ReadClock)
            },
            WaitGoal::Deadline(_) => (self.at(WaitStep::ClockBefore), WaitAction::ReadClock),
        }
    }

    /// Whether an event answers what the wait has asked for.
    pub open spec fn expects(self, event: WaitEvent) -> bool {
        match self.step {
            WaitStep::ClockBefore => event is Clock,
            WaitStep::ClockAfter => event is Clock,
            WaitStep::FinalCondition => event is Condition,
            WaitStep::Permit => event is Permit,
            WaitStep::Condition { .. } => event is Condition,
            WaitStep::ParkStart => event is ParkStart,
            WaitStep::Arming { .. } => event is Armed,
            WaitStep::Cancelling { .. } => event is Cancelled,
            WaitStep::Parked { .. } => event is Resumed,
            WaitStep::Finished => false,
        }
    }

    fn end(self, result: Result<bool, TaskError>) -> (next: (WaitCall, WaitAction))
        ensures
            next == self.ended(result),
    {
        (WaitCall { goal: self.goal, step: WaitStep::Finished }, WaitAction::Done(result))
    }

    fn pass(self, outcome: WaitOutcome) -> (next: (WaitCall, WaitAction))
        ensures
            next == self.passed(outcome),
    {
        let goal = self.goal;
        match goal {
            WaitGoal::Once => self.end(Ok(false)),
            WaitGoal::Condition => if outcome == WaitOutcome::Condition {
                self.end(Ok(false))
            } else {
                (WaitCall { goal, step: WaitStep::Permit }, WaitAction::AcquirePermit)
            },
            WaitGoal::NotificationBy(_) => if outcome == WaitOutcome::Notified {
                self.end(Ok(false))
            } else {
                (WaitCall { goal, step: WaitStep::ClockAfter }, WaitAction::ReadClock)
            },
            WaitGoal::ConditionBy(_) => if outcome == WaitOutcome::Condition {
                self.end(Ok(false))
            } else {
                (WaitCall { goal, step: WaitStep::ClockBefore }, WaitAction::ReadClock)
            },
            WaitGoal::Deadline(_) => (
                WaitCall { goal, step: WaitStep::ClockBefore },
                WaitAction::ReadClock,
            ),
        }
    }
}

/// Whether a wait may begin: never in an interrupt handler, and elsewhere as the
/// scheduler says.
pub open spec fn permitted(in_hard_irq: bool, sleepable: Result<(), TaskError>) -> Result<(), TaskError> {
    if in_hard_irq {
        Err(TaskError::UnsafeContext)
    } else {
        sleepable
    }
}

/// Decides whether a wait may begin; the answer to `WaitAction::AcquirePermit`.
pub fn blocking_permit(in_hard_irq: bool, sleepable: Result<(), TaskError>) -> (permit: Result<(), TaskError>)
    ensures
        permit == permitted(in_hard_irq, sleepable),
{
    if in_hard_irq {
        Err(TaskError::UnsafeContext)
    } else {
        sleepable
    }
}

/// Whether a thread waits.
pub open spec fn waits(waiters: Seq<ThreadId>, thread: ThreadId) -> bool {
    exists|i: int| 0 <= i < waiters.len() && #[trigger] waiters[i] == thread
}

/// The oldest entry of a thread.
pub open spec fn oldest(waiters: Seq<ThreadId>, thread: ThreadId) -> int {
    choose|i: int|
        0 <= i < waiters.len() && #[trigger] waiters[i] == thread && forall|j: int|
            0 <= j < i ==> #[trigger] waiters[j] != thread
}

/// The waiters without the oldest entry of a thread.
pub open spec fn without(waiters: Seq<ThreadId>, thread: ThreadId) -> Seq<ThreadId> {
    if waits(waiters, thread) {
        waiters.remove(oldest(waiters, thread))
    } else {
        waiters
    }
}

proof fn oldest_exists(waiters: Seq<ThreadId>, thread: ThreadId, at: int)
    requires
        0 <= at < waiters.len(),
        waiters[at] == thread,
        forall|j: int| 0 <= j < at ==> #[trigger] waiters[j] != thread,
    ensures
        oldest(waiters, thread) == at,
        waits(waiters, thread),
{
    let found = oldest(waiters, thread);
    assert(0 <= found < waiters.len() && waiters[found] == thread);
    if found < at {
        assert(waiters[found] != thread);
    }
    if at < found {
        assert(waiters[at] != thread);
    }
}

/// What an event makes of a wait: its next step, the action, and the waiters.
pub open spec fn answered(
    call: WaitCall,
    event: WaitEvent,
    waiters: Seq<ThreadId>,
    generation: u64,
) -> (WaitCall, WaitAction, Seq<ThreadId>) {
    let keep = |next: (WaitCall, WaitAction)| (next.0, next.1, waiters);
    match (call.step, event) {
        (WaitStep::ClockBefore, WaitEvent::Clock(now)) => if now.ns < (call.goal.due()->0).ns {
            (call.at(WaitStep::Permit), WaitAction::AcquirePermit, waiters)
        } else if call.goal is ConditionBy {
            (call.at(WaitStep::FinalCondition), WaitAction::CheckCondition, waiters)
        } else {
            keep(call.ended(Ok(true)))
        },
        (WaitStep::ClockAfter, WaitEvent::Clock(now)) => if now.ns < (call.goal.due()->0).ns {
            (call.at(WaitStep::ClockBefore), WaitAction::ReadClock, waiters)
        } else {
            keep(call.ended(Ok(true)))
        },
        (WaitStep::FinalCondition, WaitEvent::Condition(met)) => keep(call.ended(Ok(!met))),
        (WaitStep::Permit, WaitEvent::Permit(permit)) => match permit {
            Err(error) => keep(call.ended(Err(error))),
            Ok(_) => if call.goal.conditional() {
                (
                    call.at(WaitStep::Condition { observed: generation }),
                    WaitAction::CheckCondition,
                    waiters,
                )
            } else {
                (call.at(WaitStep::ParkStart), WaitAction::BeginPark, waiters)
            },
        },
        (WaitStep::Condition { observed }, WaitEvent::Condition(met)) => if met {
            keep(call.passed(WaitOutcome::Condition))
        } else if generation != observed {
            keep(call.passed(WaitOutcome::OtherWake))
        } else {
            (call.at(WaitStep::ParkStart), WaitAction::BeginPark, waiters)
        },
        (WaitStep::ParkStart, WaitEvent::ParkStart(start)) => match start {
            Err(error) => keep(call.ended(Err(error))),
            Ok(CurrentParkStart::Notified) => keep(call.passed(WaitOutcome::OtherWake)),
            Ok(CurrentParkStart::Prepared(thread)) => match call.goal.due() {
                Some(deadline) => (
                    call.at(WaitStep::Arming { thread }),
                    WaitAction::ArmDeadline(deadline),
                    waiters.push(thread),
                ),
                None => (
                    call.at(WaitStep::Parked { thread }),
                    WaitAction::CommitPark,
                    waiters.push(thread),
                ),
            },
        },
        (WaitStep::Arming { thread }, WaitEvent::Armed(armed)) => match armed {
            Ok(_) => (call.at(WaitStep::Parked { thread }), WaitAction::CommitPark, waiters),
            Err(error) => (
                call.at(WaitStep::Cancelling { error }),
                WaitAction::CancelPark,
                without(waiters, thread),
            ),
        },
        (WaitStep::Cancelling { error }, WaitEvent::Cancelled(cancelled)) => match cancelled {
            Ok(_) => keep(call.ended(Err(error))),
            Err(second) => keep(call.ended(Err(second))),
        },
        (WaitStep::Parked { thread }, WaitEvent::Resumed(resumed)) => {
            let next = match resumed {
                Err(error) => call.ended(Err(error)),
                Ok(_) => call.passed(
                    if waits(waiters, thread) {
                        WaitOutcome::OtherWake
                    } else {
                        WaitOutcome::Notified
                    },
                ),
            };
            (next.0, next.1, without(waiters, thread))
        },
        _ => keep(call.ended(Err(TaskError::InvalidConfiguration))),
    }
}

/// Threads that wait to be notified, oldest first. The generation counts
/// notifications.
#[derive(Debug)]
pub struct WaitQueue {
    pub waiters: Vec<ThreadId>,
    pub notification_generation: u64,
}

pub open spec fn advanced(generation: u64, count: nat) -> u64 {
    ((generation + count) % 0x1_0000_0000_0000_0000) as u64
}

impl WaitQueue {
    pub fn new() -> (queue: Self)
        ensures
            queue.waiters@ == Seq::<ThreadId>::empty(),
            queue.notification_generation == 0,
    {
        WaitQueue { waiters: Vec::new(), notification_generation: 0 }
    }

    /// Waits once: any wake-up ends the wait.
    pub fn wait(&self) -> (next: (WaitCall, WaitAction))
        ensures
            next == (
                WaitCall { goal: WaitGoal::Once, step: WaitStep::Permit },
                WaitAction::AcquirePermit,
            ),
    {
        (WaitCall { goal: WaitGoal::Once, step: WaitStep::Permit }, WaitAction::AcquirePermit)
    }

    /// Waits until the caller's condition holds. A failure is a caller's fault.
    pub fn wait_until(&self) -> (next: (WaitCall, WaitAction))
        ensures
            next == (
                WaitCall { goal: WaitGoal::Condition, step: WaitStep::Permit },
                WaitAction::AcquirePermit,
            ),
    {
        self.try_wait_until()
    }

    /// Waits until the caller's condition holds, or reports why it cannot wait.
    pub fn try_wait_until(&self) -> (next: (WaitCall, WaitAction))
        ensures
            next == (
                WaitCall { goal: WaitGoal::Condition, step: WaitStep::Permit },
                WaitAction::AcquirePermit,
            ),
    {
        (WaitCall { goal: WaitGoal::Condition, step: WaitStep::Permit }, WaitAction::AcquirePermit)
    }

    /// Waits for a notification, at most `timeout_ns` from `now`.
    pub fn wait_timeout(&self, now: MonotonicInstant, timeout_ns: u64) -> (next: (WaitCall, WaitAction))
        ensures
            next == (
                WaitCall {
                    goal: WaitGoal::NotificationBy(now.due_after(timeout_ns)),
                    step: WaitStep::ClockBefore,
                },
                WaitAction::ReadClock,
            ),
    {
        (
            WaitCall {
                goal: WaitGoal::NotificationBy(now.deadline_after(timeout_ns)),
                step: WaitStep::ClockBefore,
            },
            WaitAction::ReadClock,
        )
    }

    /// Waits until the caller's condition holds, at most `timeout_ns` from `now`.
    pub fn wait_timeout_until(&self, now: MonotonicInstant, timeout_ns: u64) -> (next: (WaitCall, WaitAction))
        ensures
            next == (
                WaitCall {
                    goal: WaitGoal::ConditionBy(now.due_after(timeout_ns)),
                    step: WaitStep::ClockBefore,
                },
                WaitAction::ReadClock,
            ),
    {
        self.wait_until_deadline(now.deadline_after(timeout_ns))
    }

    /// Waits until the caller's condition holds or the deadline has passed.
    pub fn wait_until_deadline(&self, deadline: MonotonicDeadline) -> (next: (WaitCall, WaitAction))
        ensures
            next == (
                WaitCall { goal: WaitGoal::ConditionBy(deadline), step: WaitStep::ClockBefore },
                WaitAction::ReadClock,
            ),
    {
        (
            WaitCall { goal: WaitGoal::ConditionBy(deadline), step: WaitStep::ClockBefore },
            WaitAction::ReadClock,
        )
    }

    /// Takes the outcome of the last action and names the next one.
    pub fn advance(&mut self, call: WaitCall, event: WaitEvent) -> (next: (WaitCall, WaitAction))
        requires
            call.wf(),
            call.expects(event),
        ensures
            next.0.wf(),
            next.0.goal == call.goal,
            ({
                let after = answered(
                    call,
                    event,
                    old(self).waiters@,
                    old(self).notification_generation,
                );
                &&& next == (after.0, after.1)
                &&& final(self).waiters@ == after.2
            }),
            final(self).notification_generation == old(self).notification_generation,
    {
        let goal = call.goal;
        match (call.step, event) {
            (WaitStep::ClockBefore, WaitEvent::Clock(now)) => {
                let deadline = goal.deadline().unwrap();
                if !now.reached(deadline) {
                    (WaitCall { goal, step: WaitStep::Permit }, WaitAction::AcquirePermit)
                } else if goal.is_conditional() {
                    (WaitCall { goal, step: WaitStep::FinalCondition }, WaitAction::CheckCondition)
                } else {
                    call.end(Ok(true))
                }
            },
            (WaitStep::ClockAfter, WaitEvent::Clock(now)) => {
                let deadline = goal.deadline().unwrap();
                if !now.reached(deadline) {
                    (WaitCall { goal, step: WaitStep::ClockBefore }, WaitAction::ReadClock)
                } else {
                    call.end(Ok(true))
                }
            },
            (WaitStep::FinalCondition, WaitEvent::Condition(met)) => call.end(Ok(!met)),
            (WaitStep::Permit, WaitEvent::Permit(permit)) => match permit {
                Err(error) => call.end(Err(error)),
                Ok(_) => if goal.is_conditional() {
                    (
                        WaitCall {
                            goal,
                            step: WaitStep::Condition { observed: self.notification_generation },
                        },
                        WaitAction::CheckCondition,
                    )
                } else {
                    (WaitCall { goal, step: WaitStep::ParkStart }, WaitAction::BeginPark)
                },
            },
            (WaitStep::Condition { observed }, WaitEvent::Condition(met)) => if met {
                call.pass(WaitOutcome::Condition)
            } else if self.notification_generation != observed {
                call.pass(WaitOutcome::OtherWake)
            } else {
                (WaitCall { goal, step: WaitStep::ParkStart }, WaitAction::BeginPark)
            },
            (WaitStep::ParkStart, WaitEvent::ParkStart(start)) => match start {
                Err(error) => call.end(Err(error)),
                Ok(CurrentParkStart::Notified) => call.pass(WaitOutcome::OtherWake),
                Ok(CurrentParkStart::Prepared(thread)) => {
                    self.waiters.push(thread);
                    match goal.deadline() {
                        Some(deadline) => (
                            WaitCall { goal, step: WaitStep::Arming { thread } },
                            WaitAction::ArmDeadline(deadline),
                        ),
                        None => (
                            WaitCall { goal, step: WaitStep::Parked { thread } },
                            WaitAction::CommitPark,
                        ),
                    }
                },
            },
            (WaitStep::Arming { thread }, WaitEvent::Armed(armed)) => match armed {
                Ok(_) => (
                    WaitCall { goal, step: WaitStep::Parked { thread } },
                    WaitAction::CommitPark,
                ),
                Err(error) => {
                    let _ = self.remove_waiter(thread);
                    (
                        WaitCall { goal, step: WaitStep::Cancelling { error } },
                        WaitAction::CancelPark,
                    )
                },
            },
            (WaitStep::Cancelling { error }, WaitEvent::Cancelled(cancelled)) => match cancelled {
                Ok(_) => call.end(Err(error)),
                Err(second) => call.end(Err(second)),
            },
            (WaitStep::Parked { thread }, WaitEvent::Resumed(resumed)) => {
                let removed = self.remove_waiter(thread);
                match resumed {
                    Err(error) => call.end(Err(error)),
                    Ok(_) => call.pass(
                        if removed {
                            WaitOutcome::OtherWake
                        } else {
                            WaitOutcome::Notified
                        },
                    ),
                }
            },
            _ => call.end(Err(TaskError::InvalidConfiguration)),
        }
    }

    /// Withdraws a waiter that no notification has chosen.
    pub fn remove_waiter(&mut self, thread: ThreadId) -> (removed: bool)
        ensures
            removed == waits(old(self).waiters@, thread),
            final(self).waiters@ == without(old(self).waiters@, thread),
            final(self).notification_generation == old(self).notification_generation,
    {
        let mut i: usize = 0;
        while i < self.waiters.len()
            invariant
                i <= self.waiters.len(),
                *self == *old(self),
                forall|j: int| 0 <= j < i ==> #[trigger] self.waiters@[j] != thread,
            decreases self.waiters.len() - i,
        {
            if self.waiters[i] == thread {
                proof {
                    oldest_exists(self.waiters@, thread, i as int);
                }
                let _ = self.waiters.remove(i);
                return true;
            }
            i = i + 1;
        }
        false
    }

    /// Chooses the oldest waiter, for the caller to wake. Interrupt handlers may
    /// not notify.
    pub fn notify_one(&mut self, in_hard_irq: bool) -> (chosen: Option<ThreadId>)
        requires
            !in_hard_irq,
        ensures
            chosen == if old(self).waiters@.len() > 0 {
                Some(old(self).waiters@[0])
            } else {
                None
            },
            final(self).waiters@ == if old(self).waiters@.len() > 0 {
                old(self).waiters@.skip(1)
            } else {
                old(self).waiters@
            },
            final(self).notification_generation == advanced(old(self).notification_generation, 1),
    {
        self.notification_generation = if self.notification_generation == u64::MAX {
            0
        } else {
            self.notification_generation + 1
        };
        if self.waiters.len() == 0 {
            return None;
        }
        let ghost before = self.waiters@;
        let chosen = self.waiters.remove(0);
        assert(self.waiters@ =~= before.skip(1));
        Some(chosen)
    }

    /// Chooses every waiter, oldest first, for the caller to wake.
    pub fn notify_all(&mut self, in_hard_irq: bool) -> (chosen: Vec<ThreadId>)
        requires
            !in_hard_irq,
        ensures
            chosen@ == old(self).waiters@,
            final(self).waiters@ == Seq::<ThreadId>::empty(),
            final(self).notification_generation == advanced(
                old(self).notification_generation,
                old(self).waiters@.len() + 1,
            ),
    {
        let mut chosen: Vec<ThreadId> = Vec::new();
        let ghost start = self.waiters@;
        loop
            invariant_except_break
                !in_hard_irq,
                start == old(self).waiters@,
                chosen@ + self.waiters@ == start,
                self.notification_generation == advanced(
                    old(self).notification_generation,
                    chosen@.len(),
                ),
            ensures
                start == old(self).waiters@,
                chosen@ == start,
                self.waiters@ == Seq::<ThreadId>::empty(),
                self.notification_generation == advanced(
                    old(self).notification_generation,
                    (chosen@.len() + 1) as nat,
                ),
            decreases self.waiters@.len(),
        {
            let ghost rest = self.waiters@;
            let ghost taken = chosen@;
            match self.notify_one(in_hard_irq) {
                Some(thread) => {
                    chosen.push(thread);
                    assert(chosen@ + self.waiters@ =~= taken + rest);
                },
                None => {
                    assert(self.waiters@ =~= Seq::<ThreadId>::empty());
                    assert(taken + rest =~= taken);
                    break;
                },
            }
        }
        chosen
    }
}

impl Default for WaitQueue {
    fn default() -> (queue: Self)
        ensures
            queue.waiters@ == Seq::<ThreadId>::empty(),
            queue.notification_generation == 0,
    {
        WaitQueue::new()
    }
}

/// Sleeps for a span from `now`.
pub fn sleep(now: MonotonicInstant, duration_ns: u64) -> (next: (WaitCall, WaitAction))
    ensures
        next == (
            WaitCall {
                goal: WaitGoal::Deadline(now.due_after(duration_ns)),
                step: WaitStep::ClockBefore,
            },
            WaitAction::ReadClock,
        ),
{
    sleep_until(now.deadline_after(duration_ns))
}

/// Sleeps until a deadline has passed, whatever wakes the thread before.
pub fn sleep_until(deadline: MonotonicDeadline) -> (next: (WaitCall, WaitAction))
    ensures
        next == (
            WaitCall { goal: WaitGoal::Deadline(deadline), step: WaitStep::ClockBefore },
            WaitAction::ReadClock,
        ),
{
    (
        WaitCall { goal: WaitGoal::Deadline(deadline), step: WaitStep::ClockBefore },
        WaitAction::ReadClock,
    )
}

/// No wake-up is lost: a conditional wait does not park if a notification came
/// after its condition was looked at.
pub proof fn no_lost_wakeup(call: WaitCall, observed: u64, waiters: Seq<ThreadId>, generation: u64)
    requires
        call.step == (WaitStep::Condition { observed }),
        generation != observed,
    ensures
        ({
            let after = answered(call, WaitEvent::Condition(false), waiters, generation);
            after.1 != WaitAction::BeginPark && after.2 == waiters
        }),
{
}

/// A parked thread that a notification has chosen, and no other, is reported
/// as notified.
pub proof fn chosen_waiters_are_notified(call: WaitCall, thread: ThreadId, waiters: Seq<ThreadId>, generation: u64)
    requires
        call.step == (WaitStep::Parked { thread }),
    ensures
        ({
            let after = answered(call, WaitEvent::Resumed(Ok(())), waiters, generation);
            &&& (after.0, after.1) == call.passed(
                if waits(waiters, thread) {
                    WaitOutcome::OtherWake
                } else {
                    WaitOutcome::Notified
                },
            )
            &&& !waits(waiters, thread) ==> after.2 == waiters
        }),
{
}

/// A wait by a deadline ends as timed out only once the deadline has passed.
pub proof fn timeouts_are_not_early(call: WaitCall, now: MonotonicInstant, waiters: Seq<ThreadId>, generation: u64)
    requires
        call.wf(),
        call.expects(WaitEvent::Clock(now)),
        answered(call, WaitEvent::Clock(now), waiters, generation).1 == WaitAction::Done(Ok(true)),
    ensures
        now.ns >= (call.goal.due()->0).ns,
{
}

/// A sleep ends well only once its deadline has passed, and a wait for a
/// notification only with one or once its deadline has passed.
pub proof fn sleeps_last(call: WaitCall, event: WaitEvent, waiters: Seq<ThreadId>, generation: u64, timed_out: bool)
    requires
        call.wf(),
        call.expects(event),
        answered(call, event, waiters, generation).1 == WaitAction::Done(Ok(timed_out)),
    ensures
        call.goal is Deadline ==> timed_out && (event matches WaitEvent::Clock(now) && now.ns
            >= (call.goal.due()->0).ns),
        call.goal is NotificationBy ==> if timed_out {
            event matches WaitEvent::Clock(now) && now.ns >= (call.goal.due()->0).ns
        } else {
            call.step matches WaitStep::Parked { thread } && !waits(waiters, thread)
        },
{
}

/// A wait that is refused because of its context ends before its condition is
/// looked at and before the thread is queued or parked.
pub proof fn unsafe_waits_are_refused(call: WaitCall, sleepable: Result<(), TaskError>, waiters: Seq<ThreadId>, generation: u64)
    requires
        call.step == WaitStep::Permit,
    ensures
        ({
            let after = answered(
                call,
                WaitEvent::Permit(permitted(true, sleepable)),
                waiters,
                generation,
            );
            after.1 == WaitAction::Done(Err(TaskError::UnsafeContext)) && after.2 == waiters
        }),
{
}

} // verus!
