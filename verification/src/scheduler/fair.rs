//! The fair class: earliest eligible virtual deadline first.
use vstd::prelude::*;
use crate::ids::ThreadId;
use crate::scheduler::entity::{FairEntity, SchedulingEntity, advance, retreat};
use crate::scheduler::policy::MAX_WEIGHT;
use crate::scheduler::task::{
    QueuedThread, QueuedThreadSnapshot, distinct, earliest_where, first_due,
    first_due_is_admitted, first_where, holds, index_of, position, verdicts,
};
use crate::time::{circular_distance, circular_offset, wrapping_distance};

verus! {

/// Most records that one fair queue can hold.
pub const MAX_ENTRIES: usize = 0xffff_ffff;

pub open spec fn fair_of(thread: QueuedThread) -> FairEntity {
    thread.entity()->Fair_0
}

/// Every record competes with a well-formed fair entity.
pub open spec fn all_fair(list: Seq<QueuedThread>) -> bool {
    forall|i: int|
        0 <= i < list.len() ==> (#[trigger] list[i]).entity() is Fair && fair_of(list[i]).wf()
}

/// Total load weight of the records.
pub open spec fn weight_sum(list: Seq<QueuedThread>) -> int
    decreases list.len(),
{
    if list.len() == 0 {
        0
    } else {
        weight_sum(list.drop_last()) + fair_of(list.last()).weight
    }
}

/// Weighted sum of the records' distances from `base`.
pub open spec fn moment(list: Seq<QueuedThread>, base: u64) -> int
    decreases list.len(),
{
    if list.len() == 0 {
        0
    } else {
        moment(list.drop_last(), base) + fair_of(list.last()).weight * circular_distance(
            fair_of(list.last()).vruntime,
            base,
        )
    }
}

/// The weighted mean of the records and an optional running entity, measured
/// from `base`; an empty queue stays where it is.
pub open spec fn mean_time(list: Seq<QueuedThread>, base: u64, current: Option<FairEntity>) -> u64 {
    let weight = weight_sum(list) + match current {
        Some(entity) => entity.weight as int,
        None => 0,
    };
    let total = moment(list, base) + match current {
        Some(entity) => entity.weight * circular_distance(entity.vruntime, base),
        None => 0,
    };
    if weight == 0 {
        base
    } else {
        circular_offset(base, total / weight)
    }
}

/// The record that the class runs next at `virtual_time`: the first deadline
/// among the eligible ones, or among all if none is.
pub open spec fn fair_choice(list: Seq<QueuedThread>, virtual_time: u64) -> Option<int> {
    let eligible = first_where(list, |t: QueuedThread| fair_of(t).eligible(virtual_time));
    if eligible is Some {
        eligible
    } else {
        first_where(list, |t: QueuedThread| true)
    }
}

pub(crate) proof fn weight_sum_bounds(list: Seq<QueuedThread>)
    requires
        all_fair(list),
    ensures
        0 <= weight_sum(list) <= list.len() * MAX_WEIGHT,
        list.len() > 0 ==> weight_sum(list) > 0,
    decreases list.len(),
{
    if list.len() > 0 {
        let rest = list.drop_last();
        assert forall|i: int| 0 <= i < rest.len() implies (#[trigger] rest[i]).entity() is Fair
            && fair_of(rest[i]).wf() by {
            assert(rest[i] == list[i]);
        }
        weight_sum_bounds(rest);
        assert(list.last() == list[list.len() - 1]);
    }
}

proof fn floor_of_negative(n: int, w: int)
    requires
        n > 0,
        w > 0,
    ensures
        (-n) / w == -((n + w - 1) / w),
{
    let q = (n + w - 1) / w;
    let r = (n + w - 1) % w;
    vstd::arithmetic::div_mod::lemma_fundamental_div_mod(n + w - 1, w);
    assert(w * (-q) == -(w * q)) by (nonlinear_arith);
    assert(-n == (-q) * w + (w - 1 - r)) by (nonlinear_arith)
        requires
            n + w - 1 == w * q + r,
    ;
    vstd::arithmetic::div_mod::lemma_fundamental_div_mod_converse(-n, w, -q, w - 1 - r);
}

/// Runnable threads of the fair class and the virtual time that they share.
#[derive(Debug)]
pub struct FairRunQueue {
    pub entries: Vec<QueuedThread>,
    pub virtual_time: u64,
}

impl FairRunQueue {
    pub open spec fn wf(&self) -> bool {
        &&& distinct(self.entries@)
        &&& all_fair(self.entries@)
        &&& self.entries@.len() <= MAX_ENTRIES
    }

    pub fn new() -> (queue: Self)
        ensures
            queue.entries@ == Seq::<QueuedThread>::empty(),
            queue.virtual_time == 0,
            queue.wf(),
    {
        FairRunQueue { entries: Vec::new(), virtual_time: 0 }
    }

    pub fn is_empty(&self) -> (empty: bool)
        ensures
            empty == (self.entries@.len() == 0),
    {
        self.entries.len() == 0
    }

    pub fn virtual_time(&self) -> (virtual_time: u64)
        ensures
            virtual_time == self.virtual_time,
    {
        self.virtual_time
    }

    /// Starts the queue at another virtual time.
    pub fn set_virtual_time(&mut self, virtual_time: u64)
        ensures
            final(self).virtual_time == virtual_time,
            final(self).entries == old(self).entries,
    {
        self.virtual_time = virtual_time;
    }

    pub fn total_weight(&self) -> (weight: u64)
        requires
            self.wf(),
        ensures
            weight == weight_sum(self.entries@),
            weight <= self.entries@.len() * MAX_WEIGHT,
    {
        let mut weight: u64 = 0;
        let mut i: usize = 0;
        while i < self.entries.len()
            invariant
                self.wf(),
                i <= self.entries.len(),
                weight == weight_sum(self.entries@.take(i as int)),
                weight <= i * MAX_WEIGHT,
            decreases self.entries.len() - i,
        {
            assert(self.entries@.take(i + 1).drop_last() =~= self.entries@.take(i as int));
            assert(self.entries@[i as int].entity() is Fair && fair_of(self.entries@[i as int]).wf());
            if let SchedulingEntity::Fair(fair) = self.entries[i].scheduling_entity() {
                weight = weight + fair.weight as u64;
            }
            i = i + 1;
        }
        assert(self.entries@.take(self.entries@.len() as int) =~= self.entries@);
        weight
    }

    fn total_moment(&self) -> (total: i128)
        requires
            self.wf(),
        ensures
            total == moment(self.entries@, self.virtual_time),
            -(self.entries@.len() * 0x1_0000_0000_0000_0000_0000) <= total
                <= self.entries@.len() * 0x1_0000_0000_0000_0000_0000,
    {
        let mut total: i128 = 0;
        let mut i: usize = 0;
        while i < self.entries.len()
            invariant
                self.wf(),
                i <= self.entries.len(),
                total == moment(self.entries@.take(i as int), self.virtual_time),
                -(i * 0x1_0000_0000_0000_0000_0000) <= total <= i
                    * 0x1_0000_0000_0000_0000_0000,
            decreases self.entries.len() - i,
        {
            assert(self.entries@.take(i + 1).drop_last() =~= self.entries@.take(i as int));
            assert(self.entries@[i as int].entity() is Fair && fair_of(self.entries@[i as int]).wf());
            if let SchedulingEntity::Fair(fair) = self.entries[i].scheduling_entity() {
                let distance: i64 = wrapping_distance(fair.vruntime, self.virtual_time);
                assert(-0x1_0000_0000_0000_0000_0000 <= fair.weight * distance
                    <= 0x1_0000_0000_0000_0000_0000) by (nonlinear_arith)
                    requires
                        0 <= fair.weight <= 88761,
                        -0x8000_0000_0000_0000 <= distance <= 0x8000_0000_0000_0000,
                ;
                total = total + (fair.weight as i128) * (distance as i128);
            }
            i = i + 1;
        }
        assert(self.entries@.take(self.entries@.len() as int) =~= self.entries@);
        total
    }

    /// Moves the virtual time to the weighted mean of the queue and the running
    /// entity.
    pub fn update_virtual_time(&mut self, current: Option<FairEntity>)
        requires
            old(self).wf(),
            current matches Some(entity) ==> entity.wf(),
        ensures
            final(self).virtual_time == mean_time(
                old(self).entries@,
                old(self).virtual_time,
                current,
            ),
            final(self).entries == old(self).entries,
            final(self).wf(),
    {
        let mut weight: u64 = self.total_weight();
        let mut total: i128 = self.total_moment();
        if let Some(entity) = current {
            let distance: i64 = wrapping_distance(entity.vruntime, self.virtual_time);
            assert(-0x1_0000_0000_0000_0000_0000 <= entity.weight * distance
                <= 0x1_0000_0000_0000_0000_0000) by (nonlinear_arith)
                requires
                    0 <= entity.weight <= 88761,
                    -0x8000_0000_0000_0000 <= distance <= 0x8000_0000_0000_0000,
            ;
            weight = weight + entity.weight as u64;
            total = total + (entity.weight as i128) * (distance as i128);
        }
        if weight == 0 {
            return;
        }
        if total >= 0 {
            self.virtual_time = advance(self.virtual_time, (total as u128) / (weight as u128));
        } else {
            let size: u128 = (-total) as u128;
            proof {
                floor_of_negative(size as int, weight as int);
            }
            self.virtual_time = retreat(
                self.virtual_time,
                (size + (weight as u128) - 1) / (weight as u128),
            );
        }
    }

    /// Adds a record.
    pub fn insert(&mut self, thread: QueuedThread)
        requires
            old(self).wf(),
            old(self).entries@.len() < MAX_ENTRIES,
            thread.entity() is Fair,
            fair_of(thread).wf(),
            forall|i: int|
                0 <= i < old(self).entries@.len() ==> (#[trigger] old(self).entries@[i]).id.slot
                    != thread.id.slot,
        ensures
            final(self).entries@ == old(self).entries@.push(thread),
            final(self).virtual_time == old(self).virtual_time,
            final(self).wf(),
    {
        self.entries.push(thread);
    }

    /// Takes the record of `id` out.
    pub fn remove(&mut self, id: ThreadId) -> (removed: Option<QueuedThread>)
        requires
            old(self).wf(),
        ensures
            removed is Some <==> holds(old(self).entries@, id),
            removed matches Some(thread) ==> {
                &&& 0 <= index_of(old(self).entries@, id) < old(self).entries@.len()
                &&& thread == old(self).entries@[index_of(old(self).entries@, id)]
                &&& thread.id == id
                &&& final(self).entries@ == old(self).entries@.remove(index_of(old(self).entries@, id))
            },
            removed is None ==> *final(self) == *old(self),
            final(self).virtual_time == old(self).virtual_time,
            final(self).wf(),
    {
        match position(&self.entries, id) {
            Some(i) => Some(self.entries.remove(i)),
            None => None,
        }
    }

    /// The record of `id`.
    pub fn get(&self, id: ThreadId) -> (found: Option<QueuedThread>)
        requires
            self.wf(),
        ensures
            found is Some <==> holds(self.entries@, id),
            found matches Some(thread) ==> thread == self.entries@[index_of(self.entries@, id)]
                && thread.id == id,
    {
        match position(&self.entries, id) {
            Some(i) => Some(self.entries[i]),
            None => None,
        }
    }

    /// Replaces the record of a thread in place.
    pub fn update(&mut self, thread: QueuedThread)
        requires
            old(self).wf(),
            holds(old(self).entries@, thread.id),
            thread.entity() is Fair,
            fair_of(thread).wf(),
        ensures
            final(self).entries@ == old(self).entries@.update(
                index_of(old(self).entries@, thread.id),
                thread,
            ),
            final(self).virtual_time == old(self).virtual_time,
            final(self).wf(),
    {
        if let Some(i) = position(&self.entries, thread.id) {
            self.entries.set(i, thread);
        }
    }

    /// Whether any queued thread may leave this CPU.
    pub fn has_migratable(&self) -> (any: bool)
        ensures
            any == exists|i: int|
                0 <= i < self.entries@.len() && (#[trigger] self.entries@[i]).migration_capable,
    {
        let mut i: usize = 0;
        while i < self.entries.len()
            invariant
                i <= self.entries.len(),
                forall|j: int| 0 <= j < i ==> !(#[trigger] self.entries@[j]).migration_capable,
            decreases self.entries.len() - i,
        {
            if self.entries[i].migration_capable {
                return true;
            }
            i = i + 1;
        }
        false
    }

    fn eligible_position(&self, virtual_time: u64) -> (found: Option<usize>)
        requires
            self.wf(),
        ensures
            ({
                let choice = first_where(
                    self.entries@,
                    |t: QueuedThread| fair_of(t).eligible(virtual_time),
                );
                match found {
                    Some(i) => i < self.entries@.len() && choice == Some(i as int),
                    None => choice is None,
                }
            }),
    {
        let test = |thread: &QueuedThread| -> (r: bool)
            requires
                thread.entity() is Fair,
            ensures
                r == fair_of(*thread).eligible(virtual_time),
            {
                match thread.scheduling_entity() {
                    SchedulingEntity::Fair(fair) => fair.is_eligible(virtual_time),
                    _ => false,
                }
            };
        let found = earliest_where(&self.entries, test);
        proof {
            let mask = choose|admitted: Seq<bool>|
                #[trigger] verdicts(self.entries@, test, admitted) && match found {
                    Some(i) => i < self.entries@.len() && first_due(
                        self.entries@,
                        admitted,
                        self.entries@.len() as int,
                    ) == Some(i as int),
                    None => first_due(self.entries@, admitted, self.entries@.len() as int) is None,
                };
            let expected = |t: QueuedThread| fair_of(t).eligible(virtual_time);
            assert(mask =~= Seq::new(self.entries@.len(), |i: int| expected(self.entries@[i])));
        }
        found
    }

    fn any_position(&self) -> (found: Option<usize>)
        ensures
            ({
                let choice = first_where(self.entries@, |t: QueuedThread| true);
                match found {
                    Some(i) => i < self.entries@.len() && choice == Some(i as int),
                    None => choice is None,
                }
            }),
    {
        let test = |thread: &QueuedThread| -> (r: bool)
            ensures
                r,
            { true };
        let found = earliest_where(&self.entries, test);
        proof {
            let mask = choose|admitted: Seq<bool>|
                #[trigger] verdicts(self.entries@, test, admitted) && match found {
                    Some(i) => i < self.entries@.len() && first_due(
                        self.entries@,
                        admitted,
                        self.entries@.len() as int,
                    ) == Some(i as int),
                    None => first_due(self.entries@, admitted, self.entries@.len() as int) is None,
                };
            let expected = |t: QueuedThread| true;
            assert(mask =~= Seq::new(self.entries@.len(), |i: int| expected(self.entries@[i])));
        }
        found
    }

    /// The thread with the first deadline among those eligible at
    /// `virtual_time`.
    pub fn earliest_eligible(&self, virtual_time: u64) -> (found: Option<ThreadId>)
        requires
            self.wf(),
        ensures
            found == match first_where(
                self.entries@,
                |t: QueuedThread| fair_of(t).eligible(virtual_time),
            ) {
                Some(i) => Some(self.entries@[i].id),
                None => None,
            },
    {
        match self.eligible_position(virtual_time) {
            Some(i) => Some(self.entries[i].id),
            None => None,
        }
    }

    /// Brings the virtual time up to date and names the thread to run next.
    pub fn choose_next(&mut self) -> (chosen: Option<ThreadId>)
        requires
            old(self).wf(),
        ensures
            final(self).virtual_time == mean_time(old(self).entries@, old(self).virtual_time, None),
            final(self).entries == old(self).entries,
            chosen is Some <==> old(self).entries@.len() > 0,
            ({
                let choice = fair_choice(old(self).entries@, final(self).virtual_time);
                chosen matches Some(id) ==> choice is Some && 0 <= choice->0
                    < old(self).entries@.len() && id == old(self).entries@[choice->0].id
            }),
            final(self).wf(),
    {
        self.update_virtual_time(None);
        let eligible = self.eligible_position(self.virtual_time);
        let found = match eligible {
            Some(i) => Some(i),
            None => self.any_position(),
        };
        proof {
            let expected = |t: QueuedThread| true;
            let mask = Seq::new(self.entries@.len(), |i: int| expected(self.entries@[i]));
            first_due_is_admitted(self.entries@, mask, self.entries@.len() as int);
            if self.entries@.len() > 0 && found is None {
                assert(!mask[0]);
            }
        }
        match found {
            Some(i) => Some(self.entries[i].id),
            None => None,
        }
    }

    /// The first thread in deadline order that passes a test.
    pub fn find_first_matching<F: Fn(&QueuedThread) -> bool>(&self, test: F) -> (found: Option<QueuedThreadSnapshot>)
        requires
            forall|i: int|
                0 <= i < self.entries@.len() ==> call_requires(test, (&#[trigger] self.entries@[i],)),
        ensures
            exists|admitted: Seq<bool>|
                #[trigger] verdicts(self.entries@, test, admitted) && found == match first_due(
                    self.entries@,
                    admitted,
                    self.entries@.len() as int,
                ) {
                    Some(i) => Some(self.entries@[i].snapshot()),
                    None => None,
                },
    {
        match earliest_where(&self.entries, test) {
            Some(i) => Some(self.entries[i].to_snapshot()),
            None => None,
        }
    }
}

/// All virtual runtimes lie within a quarter of the counter range of `base`.
pub open spec fn vruntimes_within_quarter(list: Seq<QueuedThread>, base: u64) -> bool {
    forall|i: int|
        0 <= i < list.len() ==> -0x4000_0000_0000_0000 <= circular_distance(
            fair_of(#[trigger] list[i]).vruntime,
            base,
        ) < 0x4000_0000_0000_0000
}

pub(crate) proof fn moment_lower_bound(list: Seq<QueuedThread>, base: u64, floor: int)
    requires
        all_fair(list),
        forall|i: int|
            0 <= i < list.len() ==> circular_distance(fair_of(#[trigger] list[i]).vruntime, base)
                >= floor,
    ensures
        moment(list, base) >= floor * weight_sum(list),
    decreases list.len(),
{
    if list.len() > 0 {
        let rest = list.drop_last();
        assert forall|i: int| 0 <= i < rest.len() implies (#[trigger] rest[i]).entity() is Fair
            && fair_of(rest[i]).wf() && circular_distance(fair_of(rest[i]).vruntime, base) >= floor by {
            assert(rest[i] == list[i]);
        }
        moment_lower_bound(rest, base, floor);
        let last = list[list.len() - 1];
        assert(list.last() == last);
        let w = fair_of(last).weight as int;
        let d = circular_distance(fair_of(last).vruntime, base);
        assert(w * d >= floor * w) by (nonlinear_arith)
            requires
                w > 0,
                d >= floor,
        ;
        assert(floor * (weight_sum(rest) + w) == floor * weight_sum(rest) + floor * w)
            by (nonlinear_arith);
    }
}

pub(crate) proof fn moment_upper_bound(list: Seq<QueuedThread>, base: u64, ceiling: int)
    requires
        all_fair(list),
        forall|i: int|
            0 <= i < list.len() ==> circular_distance(fair_of(#[trigger] list[i]).vruntime, base)
                <= ceiling,
    ensures
        moment(list, base) <= ceiling * weight_sum(list),
    decreases list.len(),
{
    if list.len() > 0 {
        let rest = list.drop_last();
        assert forall|i: int| 0 <= i < rest.len() implies (#[trigger] rest[i]).entity() is Fair
            && fair_of(rest[i]).wf() && circular_distance(fair_of(rest[i]).vruntime, base) <= ceiling by {
            assert(rest[i] == list[i]);
        }
        moment_upper_bound(rest, base, ceiling);
        let last = list[list.len() - 1];
        assert(list.last() == last);
        let w = fair_of(last).weight as int;
        let d = circular_distance(fair_of(last).vruntime, base);
        assert(w * d <= ceiling * w) by (nonlinear_arith)
            requires
                w > 0,
                d <= ceiling,
        ;
        assert(ceiling * (weight_sum(rest) + w) == ceiling * weight_sum(rest) + ceiling * w)
            by (nonlinear_arith);
    }
}

/// At the weighted mean of a queue whose virtual runtimes span less than half
/// the counter range, some queued thread has received no more than its share:
/// the class never has to run a thread that is not eligible.
pub proof fn the_mean_makes_some_thread_eligible(list: Seq<QueuedThread>, base: u64) -> (i: int)
    requires
        all_fair(list),
        list.len() > 0,
        vruntimes_within_quarter(list, base),
    ensures
        0 <= i < list.len(),
        fair_of(list[i]).eligible(mean_time(list, base, None)),
        first_where(list, |t: QueuedThread| fair_of(t).eligible(mean_time(list, base, None))) is Some,
{
    weight_sum_bounds(list);
    let w = weight_sum(list);
    let m = moment(list, base);
    let q = m / w;
    vstd::arithmetic::div_mod::lemma_fundamental_div_mod(m, w);
    assert(m < (q + 1) * w) by (nonlinear_arith)
        requires
            m == w * q + m % w,
            0 <= m % w < w,
    ;
    let quarter = 0x4000_0000_0000_0000int;
    moment_lower_bound(list, base, -quarter);
    moment_upper_bound(list, base, quarter - 1);
    assert(-quarter <= q <= quarter - 1) by (nonlinear_arith)
        requires
            -quarter * w <= m <= (quarter - 1) * w,
            w > 0,
            m == w * q + m % w,
            0 <= m % w < w,
    ;
    if forall|i: int|
        0 <= i < list.len() ==> circular_distance(fair_of(#[trigger] list[i]).vruntime, base) >= q
            + 1 {
        moment_lower_bound(list, base, q + 1);
        assert(false);
    }
    let i = choose|i: int|
        0 <= i < list.len() && circular_distance(fair_of(#[trigger] list[i]).vruntime, base) <= q;
    let v = mean_time(list, base, None);
    assert(v == circular_offset(base, q));
    let d = circular_distance(fair_of(list[i]).vruntime, base);
    assert(-quarter <= d <= q);
    crate::time::circular_distance_composes(base, fair_of(list[i]).vruntime, q);
    let test = |t: QueuedThread| fair_of(t).eligible(v);
    let mask = Seq::new(list.len(), |j: int| test(list[j]));
    first_due_is_admitted(list, mask, list.len() as int);
    assert(mask[i]);
    i
}

} // verus!
