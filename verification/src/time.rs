//! Clock domains: a free-running scheduler counter that wraps, and a monotonic
//! clock that does not.
use vstd::prelude::*;

verus! {

pub const HALF_RANGE: u64 = 0x8000_0000_0000_0000;

/// Largest nanosecond value of the monotonic clock domain.
pub const MONOTONIC_MAX_NS: u64 = 0x7fff_ffff_ffff_ffff;

/// Signed distance from `b` to `a` on the circle of 64-bit counters.
pub open spec fn circular_distance(a: u64, b: u64) -> int {
    let d = a - b;
    if d >= 0x8000_0000_0000_0000 {
        d - 0x1_0000_0000_0000_0000
    } else if d < -0x8000_0000_0000_0000 {
        d + 0x1_0000_0000_0000_0000
    } else {
        d
    }
}

/// The counter value at a signed distance from `a`.
pub open spec fn circular_offset(a: u64, distance: int) -> u64 {
    ((a + distance) % 0x1_0000_0000_0000_0000) as u64
}

/// `a` precedes `b` on the counter circle.
pub open spec fn circular_before(a: u64, b: u64) -> bool {
    circular_distance(a, b) < 0
}

/// Signed distance from `b` to `a`.
pub fn wrapping_distance(a: u64, b: u64) -> (distance: i64)
    ensures
        distance == circular_distance(a, b),
{
    let d: u64 = a.wrapping_sub(b);
    if d < HALF_RANGE {
        d as i64
    } else {
        -((u64::MAX - d) as i64) - 1
    }
}

pub fn wrapping_before(a: u64, b: u64) -> (before: bool)
    ensures
        before == circular_before(a, b),
{
    wrapping_distance(a, b) < 0
}

/// The counter value at a signed distance from `a`.
pub fn wrapping_offset(a: u64, distance: i64) -> (result: u64)
    ensures
        result == circular_offset(a, distance as int),
{
    if distance >= 0 {
        a.wrapping_add(distance as u64)
    } else {
        a.wrapping_sub((-(distance as i128)) as u64)
    }
}

/// Advances a scheduler counter by a span.
pub fn scheduler_time_advance(now_ns: u64, span_ns: u64) -> (result: u64)
    ensures
        result == circular_offset(now_ns, span_ns as int),
{
    now_ns.wrapping_add(span_ns)
}

/// A point on the wrapping scheduler counter.
#[derive(Clone, Copy, Debug, PartialEq, Eq, Structural)]
pub struct SchedulerTimestamp {
    pub ns: u64,
}

impl SchedulerTimestamp {
    pub fn from_nanos(ns: u64) -> (stamp: Self)
        ensures
            stamp.ns == ns,
    {
        SchedulerTimestamp { ns }
    }

    pub fn as_nanos(&self) -> (ns: u64)
        ensures
            ns == self.ns,
    {
        self.ns
    }

    pub fn is_before(&self, other: SchedulerTimestamp) -> (before: bool)
        ensures
            before == circular_before(self.ns, other.ns),
    {
        wrapping_before(self.ns, other.ns)
    }
}

/// A reading of the monotonic clock.
#[derive(Clone, Copy, Debug, PartialEq, Eq, Structural)]
pub struct MonotonicInstant {
    pub ns: u64,
}

/// A point of the monotonic clock at which something is due.
#[derive(Clone, Copy, Debug, PartialEq, Eq, Structural)]
pub struct MonotonicDeadline {
    pub ns: u64,
}

impl MonotonicInstant {
    pub open spec fn valid(self) -> bool {
        self.ns <= MONOTONIC_MAX_NS
    }

    /// The deadline `span_ns` later, clamped to the end of the clock domain.
    pub open spec fn due_after(self, span_ns: u64) -> MonotonicDeadline {
        MonotonicDeadline {
            ns: if self.ns + span_ns <= MONOTONIC_MAX_NS {
                (self.ns + span_ns) as u64
            } else {
                MONOTONIC_MAX_NS
            },
        }
    }

    pub fn from_nanos(ns: u64) -> (instant: Option<Self>)
        ensures
            instant == if ns <= MONOTONIC_MAX_NS {
                Some(MonotonicInstant { ns })
            } else {
                None::<MonotonicInstant>
            },
    {
        if ns <= MONOTONIC_MAX_NS {
            Some(MonotonicInstant { ns })
        } else {
            None
        }
    }

    pub fn as_nanos(&self) -> (ns: u64)
        ensures
            ns == self.ns,
    {
        self.ns
    }

    pub fn deadline_after(&self, span_ns: u64) -> (deadline: MonotonicDeadline)
        ensures
            deadline == self.due_after(span_ns),
            deadline.valid(),
    {
        let sum: u64 = self.ns.saturating_add(span_ns);
        MonotonicDeadline { ns: if sum <= MONOTONIC_MAX_NS { sum } else { MONOTONIC_MAX_NS } }
    }

    pub fn reached(&self, deadline: MonotonicDeadline) -> (reached: bool)
        ensures
            reached == (self.ns >= deadline.ns),
    {
        self.ns >= deadline.ns
    }
}

impl MonotonicDeadline {
    pub open spec fn valid(self) -> bool {
        self.ns <= MONOTONIC_MAX_NS
    }

    pub fn from_nanos(ns: u64) -> (deadline: Option<Self>)
        ensures
            deadline == if ns <= MONOTONIC_MAX_NS {
                Some(MonotonicDeadline { ns })
            } else {
                None::<MonotonicDeadline>
            },
    {
        if ns <= MONOTONIC_MAX_NS {
            Some(MonotonicDeadline { ns })
        } else {
            None
        }
    }

    pub fn as_nanos(&self) -> (ns: u64)
        ensures
            ns == self.ns,
    {
        self.ns
    }
}

/// Distances invert offsets: moving by a representable distance and measuring
/// it again gives the distance back.
pub proof fn circular_distance_inverts_offset(a: u64, distance: int)
    requires
        -0x8000_0000_0000_0000 <= distance < 0x8000_0000_0000_0000,
    ensures
        circular_distance(circular_offset(a, distance), a) == distance,
{
}

/// Distances add up as long as the sum is representable.
pub proof fn circular_distance_composes(base: u64, a: u64, q: int)
    requires
        -0x8000_0000_0000_0000 <= q < 0x8000_0000_0000_0000,
        -0x8000_0000_0000_0000 <= q - circular_distance(a, base) < 0x8000_0000_0000_0000,
    ensures
        circular_distance(circular_offset(base, q), a) == q - circular_distance(a, base),
{
    let m = 0x1_0000_0000_0000_0000int;
    let v = (base + q) % m;
    assert(v == base + q || v == base + q - m || v == base + q + m);
}

/// Of two different counter values that are not diametrically opposed exactly
/// one precedes the other.
pub proof fn circular_order_is_antisymmetric(a: u64, b: u64)
    requires
        circular_distance(a, b) != -0x8000_0000_0000_0000,
    ensures
        a != b ==> (circular_before(a, b) <==> !circular_before(b, a)),
        a == b ==> !circular_before(a, b),
{
}

/// The order of counter values does not depend on where the counter stands.
pub proof fn circular_distance_is_translation_invariant(a: u64, b: u64, shift: int)
    ensures
        circular_distance(circular_offset(a, shift), circular_offset(b, shift)) == circular_distance(a, b),
{
    let m = 0x1_0000_0000_0000_0000int;
    let x = (a + shift) % m;
    let y = (b + shift) % m;
    let p = (a + shift) / m;
    let q = (b + shift) / m;
    assert(a + shift == p * m + x);
    assert(b + shift == q * m + y);
    assert(x - y == a - b - (p - q) * m);
    assert(-1 <= p - q <= 1);
}

/// Going back by a distance leaves that distance ahead.
pub proof fn circular_distance_of_step_back(a: u64, distance: int)
    requires
        -0x8000_0000_0000_0000 < distance < 0x8000_0000_0000_0000,
    ensures
        circular_distance(a, circular_offset(a, -distance)) == distance,
{
}

} // verus!
