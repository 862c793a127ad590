//! Monotone per-run-queue view of the wrapping scheduler counter.
use vstd::prelude::*;
use crate::time::SchedulerTimestamp;

verus! {

/// One reading of a run-queue clock.
#[derive(Clone, Copy, Debug, PartialEq, Eq, Structural)]
pub struct RunQueueClockSnapshot {
    pub now: SchedulerTimestamp,
}

impl RunQueueClockSnapshot {
    pub fn as_nanos(&self) -> (ns: u64)
        ensures
            ns == self.now.ns,
    {
        self.now.as_nanos()
    }
}

/// Clock of one run queue: never moves behind an earlier reading.
#[derive(Clone, Copy, Debug, PartialEq, Eq, Structural)]
pub struct RunQueueClock {
    pub now: Option<SchedulerTimestamp>,
}

impl RunQueueClock {
    /// The reading after a sample of the source counter.
    pub open spec fn reading(self, source: SchedulerTimestamp) -> SchedulerTimestamp {
        match self.now {
            Some(now) if crate::time::circular_before(source.ns, now.ns) => now,
            _ => source,
        }
    }

    pub fn new() -> (clock: Self)
        ensures
            clock.now is None,
    {
        RunQueueClock { now: None }
    }

    pub fn update(&mut self, source: SchedulerTimestamp) -> (snapshot: RunQueueClockSnapshot)
        ensures
            snapshot.now == old(self).reading(source),
            final(self).now == Some(snapshot.now),
    {
        let now = match self.now {
            Some(now) => if source.is_before(now) {
                now
            } else {
                source
            },
            None => source,
        };
        self.now = Some(now);
        RunQueueClockSnapshot { now }
    }

    pub fn snapshot(&self) -> (snapshot: Option<RunQueueClockSnapshot>)
        ensures
            snapshot == match self.now {
                Some(now) => Some(RunQueueClockSnapshot { now }),
                None => None,
            },
    {
        match self.now {
            Some(now) => Some(RunQueueClockSnapshot { now }),
            None => None,
        }
    }
}

/// No sample of the source counter moves a run-queue clock backwards.
pub proof fn run_queue_clock_is_monotone(clock: RunQueueClock, source: SchedulerTimestamp)
    ensures
        clock.now matches Some(now) ==> !crate::time::circular_before(clock.reading(source).ns, now.ns),
{
}

} // verus!
