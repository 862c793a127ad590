//! Task deadlines of one CPU and the clock event that they ask for.
use vstd::prelude::*;
use crate::config::TaskSystemConfig;
use crate::error::TaskError;
use crate::time::{
    MonotonicDeadline, MonotonicInstant, circular_before, circular_distance, wrapping_before,
    wrapping_distance,
};
use crate::timer::{
    ExpiredTaskDeadline, TaskDeadlineQueue, TaskDeadlineRegistration,
};

verus! {

/// When a scheduler instant comes, on the monotonic clock.
#[derive(Clone, Copy, Debug, PartialEq, Eq, Structural)]
pub enum SchedulerClockEvent {
    Due,
    Future(MonotonicDeadline),
}

pub open spec fn clock_event(scheduler_now_ns: u64, monotonic_now: MonotonicInstant, deadline_ns: u64) -> SchedulerClockEvent {
    if circular_before(scheduler_now_ns, deadline_ns) {
        SchedulerClockEvent::Future(
            monotonic_now.due_after((-circular_distance(scheduler_now_ns, deadline_ns)) as u64),
        )
    } else {
        SchedulerClockEvent::Due
    }
}

/// Carries a scheduler instant over to the monotonic clock.
pub fn scheduler_clock_event(scheduler_now_ns: u64, monotonic_now: MonotonicInstant, deadline_ns: u64) -> (event: SchedulerClockEvent)
    ensures
        event == clock_event(scheduler_now_ns, monotonic_now, deadline_ns),
{
    if wrapping_before(scheduler_now_ns, deadline_ns) {
        let ahead: i64 = wrapping_distance(scheduler_now_ns, deadline_ns);
        let span_ns: u64 = if ahead == i64::MIN {
            0x8000_0000_0000_0000
        } else {
            (-ahead) as u64
        };
        SchedulerClockEvent::Future(monotonic_now.deadline_after(span_ns))
    } else {
        SchedulerClockEvent::Due
    }
}

/// The clock event that was asked for last.
#[derive(Clone, Copy, Debug, PartialEq, Eq, Structural)]
pub struct SchedulerDeadlinePublicationState {
    pub deadline: Option<MonotonicDeadline>,
}

/// A request to the clock device. Later generations supersede earlier ones.
#[derive(Clone, Copy, Debug, PartialEq, Eq, Structural)]
pub struct SchedulerDeadlineUpdate {
    pub generation: u64,
    pub deadline: Option<MonotonicDeadline>,
}

/// Armed and expired deadlines of one CPU.
#[derive(Debug)]
pub struct CpuDeadlineState {
    pub queue: TaskDeadlineQueue,
    pub expired: Vec<ExpiredTaskDeadline>,
    pub expired_room: usize,
    pub generation: u64,
    pub publication: Option<SchedulerDeadlinePublicationState>,
}

impl CpuDeadlineState {
    pub open spec fn wf(&self) -> bool {
        self.queue.wf() && self.expired@.len() <= self.expired_room
    }

    /// No deadline is armed, and none ever was.
    pub open spec fn blank(&self, config: TaskSystemConfig) -> bool {
        &&& self.queue.entries@.len() == 0
        &&& self.queue.capacity_per_class == config.thread_capacity
        &&& self.expired@.len() == 0
        &&& self.expired_room == config.batch_limit
        &&& self.generation == 0
        &&& self.publication is None
    }

    pub fn new(config: TaskSystemConfig) -> (state: Self)
        ensures
            state.blank(config),
            state.wf(),
    {
        CpuDeadlineState {
            queue: TaskDeadlineQueue::new(config.thread_capacity),
            expired: Vec::new(),
            expired_room: config.batch_limit,
            generation: 0,
            publication: None,
        }
    }

    /// Whether the expiration of a registration waits to be handled.
    pub open spec fn buffers(&self, registration: TaskDeadlineRegistration) -> bool {
        exists|i: int|
            0 <= i < self.expired@.len() && (#[trigger] self.expired@[i]).entry
                == registration.entry
    }

    pub fn owns_buffered_expiration(&self, registration: &TaskDeadlineRegistration) -> (owns: bool)
        ensures
            owns == self.buffers(*registration),
    {
        let mut i: usize = 0;
        while i < self.expired.len()
            invariant
                i <= self.expired.len(),
                forall|j: int|
                    0 <= j < i ==> (#[trigger] self.expired@[j]).entry != registration.entry,
            decreases self.expired.len() - i,
        {
            if self.expired[i].entry == registration.entry {
                assert(self.expired@[i as int].entry == registration.entry);
                return true;
            }
            i = i + 1;
        }
        false
    }

    /// Takes the oldest expired deadlines, at most `limit`.
    pub fn take_expired(&mut self, limit: usize) -> (taken: Vec<ExpiredTaskDeadline>)
        ensures
            ({
                let count = if old(self).expired@.len() < limit {
                    old(self).expired@.len() as int
                } else {
                    limit as int
                };
                &&& taken@ == old(self).expired@.take(count)
                &&& final(self).expired@ == old(self).expired@.skip(count)
            }),
            *final(self) == (CpuDeadlineState { expired: final(self).expired, ..*old(self) }),
            old(self).wf() ==> final(self).wf(),
    {
        let count: usize = if self.expired.len() < limit {
            self.expired.len()
        } else {
            limit
        };
        let mut taken: Vec<ExpiredTaskDeadline> = Vec::new();
        let mut rest: Vec<ExpiredTaskDeadline> = Vec::new();
        let mut i: usize = 0;
        while i < self.expired.len()
            invariant
                i <= self.expired.len(),
                count <= self.expired.len(),
                *self == *old(self),
                taken@ == self.expired@.take(
                    if i < count {
                        i as int
                    } else {
                        count as int
                    },
                ),
                rest@ == if i < count {
                    Seq::empty()
                } else {
                    self.expired@.subrange(count as int, i as int)
                },
            decreases self.expired.len() - i,
        {
            let event = self.expired[i];
            if i < count {
                taken.push(event);
            } else {
                rest.push(event);
            }
            i = i + 1;
        }
        self.expired = rest;
        taken
    }

    /// Numbers a new request to the clock device.
    pub fn commit_publication(&mut self, publication: SchedulerDeadlinePublicationState) -> (result: Result<SchedulerDeadlineUpdate, TaskError>)
        ensures
            result == if old(self).generation < u64::MAX {
                Ok(
                    SchedulerDeadlineUpdate {
                        generation: (old(self).generation + 1) as u64,
                        deadline: publication.deadline,
                    },
                )
            } else {
                Err(TaskError::InvalidConfiguration)
            },
            *final(self) == match result {
                Ok(update) => CpuDeadlineState {
                    generation: update.generation,
                    publication: Some(publication),
                    ..*old(self)
                },
                Err(_) => *old(self),
            },
    {
        if self.generation == u64::MAX {
            return Err(TaskError::InvalidConfiguration);
        }
        self.generation = self.generation + 1;
        self.publication = Some(publication);
        Ok(SchedulerDeadlineUpdate { generation: self.generation, deadline: publication.deadline })
    }
}

} // verus!
