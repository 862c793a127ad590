//! Thread, CPU and CPU-set identities.
use vstd::prelude::*;

verus! {

/// Registry slot plus the generation under which the slot was published.
#[derive(Clone, Copy, Debug, PartialEq, Eq, Structural)]
pub struct ThreadId {
    pub slot: u32,
    pub generation: u32,
}

impl ThreadId {
    /// The packed form: generation in the upper half, slot in the lower half.
    pub open spec fn packed(self) -> int {
        self.generation * 0x1_0000_0000 + self.slot
    }

    pub fn from_parts(slot: u32, generation: u32) -> (id: Self)
        ensures
            id == (ThreadId { slot, generation }),
    {
        ThreadId { slot, generation }
    }

    pub fn slot(&self) -> (slot: u32)
        ensures
            slot == self.slot,
    {
        self.slot
    }

    pub fn generation(&self) -> (generation: u32)
        ensures
            generation == self.generation,
    {
        self.generation
    }

    pub fn as_u64(&self) -> (packed: u64)
        ensures
            packed == self.packed(),
    {
        (self.generation as u64) * 0x1_0000_0000 + (self.slot as u64)
    }
}

/// Two identities with the same packed form are the same identity.
pub proof fn thread_id_packing_is_injective(a: ThreadId, b: ThreadId)
    requires
        a.packed() == b.packed(),
    ensures
        a == b,
{
}

/// Index of one CPU of the machine.
#[derive(Clone, Copy, Debug, PartialEq, Eq, Structural)]
pub struct CpuId {
    pub index: u32,
}

impl CpuId {
    pub fn new(index: u32) -> (id: Self)
        ensures
            id.index == index,
    {
        CpuId { index }
    }
}

/// Number of members among the first entries of a membership sequence.
pub open spec fn members(bits: Seq<bool>) -> nat
    decreases bits.len(),
{
    if bits.len() == 0 {
        0
    } else {
        members(bits.drop_last()) + if bits.last() { 1nat } else { 0nat }
    }
}

/// Changing one entry changes the number of members by that entry.
pub proof fn members_after_update(bits: Seq<bool>, at: int, member: bool)
    requires
        0 <= at < bits.len(),
    ensures
        members(bits.update(at, member)) == members(bits) - (if bits[at] {
            1int
        } else {
            0int
        }) + (if member {
            1int
        } else {
            0int
        }),
    decreases bits.len(),
{
    let changed = bits.update(at, member);
    if at == bits.len() - 1 {
        assert(changed.drop_last() =~= bits.drop_last());
    } else {
        members_after_update(bits.drop_last(), at, member);
        assert(changed.drop_last() =~= bits.drop_last().update(at, member));
        assert(changed.last() == bits.last());
    }
}

/// A set of CPUs out of a fixed topology.
#[derive(Debug)]
pub struct CpuSet {
    pub bits: Vec<bool>,
}

impl CpuSet {
    /// Whether `cpu` belongs to the set.
    pub open spec fn has(&self, cpu: CpuId) -> bool {
        cpu.index < self.bits@.len() && self.bits@[cpu.index as int]
    }

    pub open spec fn size(&self) -> nat {
        members(self.bits@)
    }

    pub open spec fn includes(&self, other: &CpuSet) -> bool {
        forall|cpu: CpuId| other.has(cpu) ==> #[trigger] self.has(cpu)
    }

    fn filled(cpu_count: usize, member: bool) -> (set: Self)
        ensures
            set.bits@ == Seq::new(cpu_count as nat, |i: int| member),
    {
        let mut bits: Vec<bool> = Vec::new();
        let mut i: usize = 0;
        while i < cpu_count
            invariant
                i <= cpu_count,
                bits@ == Seq::new(i as nat, |j: int| member),
            decreases cpu_count - i,
        {
            bits.push(member);
            i = i + 1;
            assert(bits@ =~= Seq::new(i as nat, |j: int| member));
        }
        CpuSet { bits }
    }

    /// The set without members over `cpu_count` CPUs.
    pub fn empty(cpu_count: usize) -> (set: Self)
        ensures
            set.bits@ == Seq::new(cpu_count as nat, |i: int| false),
            forall|cpu: CpuId| !set.has(cpu),
    {
        Self::filled(cpu_count, false)
    }

    /// The set of all `cpu_count` CPUs.
    pub fn all(cpu_count: usize) -> (set: Self)
        ensures
            set.bits@ == Seq::new(cpu_count as nat, |i: int| true),
            forall|cpu: CpuId| #[trigger] set.has(cpu) <==> cpu.index < cpu_count,
    {
        Self::filled(cpu_count, true)
    }

    pub fn contains(&self, cpu: CpuId) -> (found: bool)
        ensures
            found == self.has(cpu),
    {
        (cpu.index as usize) < self.bits.len() && self.bits[cpu.index as usize]
    }

    /// Adds `cpu`; reports whether membership changed. A CPU outside the
    /// topology is never added.
    pub fn insert(&mut self, cpu: CpuId) -> (changed: bool)
        ensures
            changed == (cpu.index < old(self).bits@.len() && !old(self).has(cpu)),
            final(self).bits@ == if cpu.index < old(self).bits@.len() {
                old(self).bits@.update(cpu.index as int, true)
            } else {
                old(self).bits@
            },
    {
        if (cpu.index as usize) < self.bits.len() && !self.bits[cpu.index as usize] {
            self.bits.set(cpu.index as usize, true);
            true
        } else {
            proof {
                if cpu.index < self.bits@.len() {
                    assert(self.bits@.update(cpu.index as int, true) =~= self.bits@);
                }
            }
            false
        }
    }

    /// Removes `cpu`; reports whether membership changed.
    pub fn remove(&mut self, cpu: CpuId) -> (changed: bool)
        ensures
            changed == old(self).has(cpu),
            final(self).bits@ == if cpu.index < old(self).bits@.len() {
                old(self).bits@.update(cpu.index as int, false)
            } else {
                old(self).bits@
            },
    {
        if (cpu.index as usize) < self.bits.len() && self.bits[cpu.index as usize] {
            self.bits.set(cpu.index as usize, false);
            true
        } else {
            proof {
                if cpu.index < self.bits@.len() {
                    assert(self.bits@.update(cpu.index as int, false) =~= self.bits@);
                }
            }
            false
        }
    }

    /// The number of members.
    pub fn count(&self) -> (count: usize)
        ensures
            count == self.size(),
            count <= self.bits@.len(),
    {
        let mut count: usize = 0;
        let mut i: usize = 0;
        while i < self.bits.len()
            invariant
                i <= self.bits.len(),
                count <= i,
                count == members(self.bits@.take(i as int)),
            decreases self.bits.len() - i,
        {
            assert(self.bits@.take(i + 1).drop_last() =~= self.bits@.take(i as int));
            if self.bits[i] {
                count = count + 1;
            }
            i = i + 1;
        }
        assert(self.bits@.take(self.bits@.len() as int) =~= self.bits@);
        count
    }

    /// Whether every member of `other` is a member of this set.
    pub fn covers(&self, other: &CpuSet) -> (covers: bool)
        requires
            other.bits@.len() <= u32::MAX,
        ensures
            covers == self.includes(other),
    {
        let mut i: usize = 0;
        while i < other.bits.len()
            invariant
                i <= other.bits.len(),
                other.bits@.len() <= u32::MAX,
                forall|cpu: CpuId| cpu.index < i && other.has(cpu) ==> #[trigger] self.has(cpu),
            decreases other.bits.len() - i,
        {
            if other.bits[i] && !(i < self.bits.len() && self.bits[i]) {
                proof {
                    let cpu = CpuId { index: i as u32 };
                    assert(other.has(cpu) && !self.has(cpu));
                }
                return false;
            }
            i = i + 1;
        }
        true
    }

    /// Whether the set leaves a scheduler any choice of CPU.
    pub fn is_migration_capable(&self) -> (capable: bool)
        ensures
            capable == (self.size() > 1),
    {
        self.count() > 1
    }
}

/// Adding a CPU of the topology and taking it out again restores a set that
/// did not hold it.
pub proof fn cpu_set_remove_undoes_insert(set: CpuSet, added: CpuSet, restored: CpuSet, cpu: CpuId)
    requires
        cpu.index < set.bits@.len(),
        !set.has(cpu),
        added.bits@ == set.bits@.update(cpu.index as int, true),
        restored.bits@ == added.bits@.update(cpu.index as int, false),
    ensures
        added.has(cpu),
        restored.bits@ == set.bits@,
{
    assert(restored.bits@ =~= set.bits@);
}

} // verus!
