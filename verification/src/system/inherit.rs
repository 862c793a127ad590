//! Policies that threads inherit from those that wait for them.
use vstd::prelude::*;
use crate::cpu::local::CpuLocal;
use crate::error::TaskError;
use crate::ids::{CpuId, ThreadId};
use crate::scheduler::entity::SchedulingEntity;
use crate::scheduler::policy::SchedulePolicy;
use crate::scheduler::run_queue::RunQueue;
use crate::scheduler::task::ActiveSchedulingState;
use crate::system::affinity::shown;
use crate::system::restate::{
    SchedulePosition, can_restate, find_state, position_of, record_restated, restate, restated,
    schedule_position, state_at,
};
use crate::system::task_system::{TaskSystem, cpus_wf_after, with_queue, with_record};
use crate::thread::pi::PiWaitEntry;
use crate::thread::record::{ThreadPiState, ThreadPolicyState, ThreadRecord};

verus! {

/// The policy that a thread of one policy inherits from a thread of another.
pub open spec fn inherited_policy(base: SchedulePolicy, donor: SchedulePolicy) -> Option<SchedulePolicy> {
    match donor {
        SchedulePolicy::Deadline(policy) => Some(SchedulePolicy::Deadline(policy)),
        SchedulePolicy::Fifo { priority } => match base {
            SchedulePolicy::RoundRobin { quantum_ns, .. } => Some(
                SchedulePolicy::RoundRobin { priority, quantum_ns },
            ),
            SchedulePolicy::KernelStop => None,
            SchedulePolicy::Deadline(_) => None,
            _ => Some(SchedulePolicy::Fifo { priority }),
        },
        SchedulePolicy::RoundRobin { priority, .. } => match base {
            SchedulePolicy::RoundRobin { quantum_ns, .. } => Some(
                SchedulePolicy::RoundRobin { priority, quantum_ns },
            ),
            SchedulePolicy::KernelStop => None,
            SchedulePolicy::Deadline(_) => None,
            _ => Some(SchedulePolicy::Fifo { priority }),
        },
        SchedulePolicy::Fair { .. } => if base is Fair {
            Some(donor)
        } else {
            None
        },
        SchedulePolicy::KernelStop => None,
    }
}

pub fn pi_inherited_policy(base: SchedulePolicy, donor: SchedulePolicy) -> (policy: Option<SchedulePolicy>)
    ensures
        policy == inherited_policy(base, donor),
        base.valid() && donor.valid() ==> (policy matches Some(policy) ==> policy.valid()),
{
    let priority = match donor {
        SchedulePolicy::Deadline(policy) => {
            return Some(SchedulePolicy::Deadline(policy));
        },
        SchedulePolicy::Fifo { priority } => priority,
        SchedulePolicy::RoundRobin { priority, .. } => priority,
        SchedulePolicy::Fair { .. } => {
            return match base {
                SchedulePolicy::Fair { .. } => Some(donor),
                _ => None,
            };
        },
        SchedulePolicy::KernelStop => {
            return None;
        },
    };
    match base {
        SchedulePolicy::RoundRobin { quantum_ns, .. } => Some(
            SchedulePolicy::RoundRobin { priority, quantum_ns },
        ),
        SchedulePolicy::KernelStop | SchedulePolicy::Deadline(_) => None,
        SchedulePolicy::Fair { .. } | SchedulePolicy::Fifo { .. } => Some(
            SchedulePolicy::Fifo { priority },
        ),
    }
}

/// What a thread inherits: the policy in effect, the thread at the end of the
/// chain from which it comes, and the same if that runs on a Deadline budget.
#[derive(Clone, Copy, Debug, PartialEq, Eq, Structural)]
pub struct PiScheduleUpdate {
    pub policy: SchedulePolicy,
    pub donor: Option<ThreadId>,
    pub deadline_donor: Option<ThreadId>,
}

/// What a thread inherits from the first of those that wait for it: nothing,
/// unless that one is more urgent and its policy can be inherited.
pub open spec fn resolved(base: SchedulePolicy, entity: SchedulingEntity, top: Option<PiWaitEntry>) -> PiScheduleUpdate {
    let own = PiScheduleUpdate { policy: base, donor: None, deadline_donor: None };
    match top {
        Some(top) => if top.donation.boost_urgency.before(entity.urgency(base)) {
            match inherited_policy(base, top.donation.policy) {
                Some(policy) => PiScheduleUpdate {
                    policy,
                    donor: Some(top.donation.root),
                    deadline_donor: if top.donation.policy is Deadline {
                        Some(top.donation.root)
                    } else {
                        None
                    },
                },
                None => own,
            }
        } else {
            own
        },
        None => own,
    }
}

pub fn resolved_pi_schedule_update(base: SchedulePolicy, entity: SchedulingEntity, top: Option<PiWaitEntry>) -> (update: PiScheduleUpdate)
    ensures
        update == resolved(base, entity, top),
{
    let own = PiScheduleUpdate { policy: base, donor: None, deadline_donor: None };
    let top = match top {
        Some(top) => top,
        None => {
            return own;
        },
    };
    if !top.donation.boost_urgency.precedes(entity.scheduling_urgency(base)) {
        return own;
    }
    match pi_inherited_policy(base, top.donation.policy) {
        Some(policy) => PiScheduleUpdate {
            policy,
            donor: Some(top.donation.root),
            deadline_donor: match top.donation.policy {
                SchedulePolicy::Deadline(_) => Some(top.donation.root),
                _ => None,
            },
        },
        None => own,
    }
}

/// The virtual time at which an inherited fair entity starts.
pub open spec fn starting_vruntime(entity: SchedulingEntity) -> u64 {
    match entity {
        SchedulingEntity::Fair(fair) => fair.vruntime,
        _ => 0,
    }
}

/// The scheduling state that an update leads to. An inherited entity starts
/// afresh; the thread's own is kept for the end of the inheritance.
pub open spec fn inheriting(next: ActiveSchedulingState, state: ActiveSchedulingState, base: SchedulePolicy, update: PiScheduleUpdate, slice_ns: u64, now_ns: u64) -> bool {
    if update.donor is None {
        next == (ActiveSchedulingState { policy: base, inherited: None, ..state })
    } else {
        exists|fresh: SchedulingEntity|
            #[trigger] fresh.initial(
                update.policy,
                slice_ns,
                starting_vruntime(state.base_entity),
            ) && next == (ActiveSchedulingState {
                policy: update.policy,
                inherited: Some(fresh.activated(now_ns)),
                ..state
            })
    }
}

/// Computes the scheduling state that an update leads to.
fn inherit(state: ActiveSchedulingState, base: SchedulePolicy, update: PiScheduleUpdate, slice_ns: u64, now_ns: u64) -> (next: ActiveSchedulingState)
    requires
        state.wf(),
        base.valid(),
        update.policy.valid(),
        update.donor is None ==> state.base_entity.serves(base),
    ensures
        inheriting(next, state, base, update, slice_ns, now_ns),
        next.wf(),
{
    let mut next = state;
    if update.donor.is_none() {
        next.use_base_entity(base);
        return next;
    }
    let vruntime: u64 = match state.base_entity {
        SchedulingEntity::Fair(fair) => fair.vruntime,
        _ => 0,
    };
    let mut entity = SchedulingEntity::new(update.policy, slice_ns, vruntime);
    let ghost fresh = entity;
    entity.activate_deadline(now_ns);
    next.inherit(update.policy, entity);
    proof {
        assert(fresh.initial(update.policy, slice_ns, starting_vruntime(state.base_entity)));
    }
    next
}

/// The record that inherits.
pub open spec fn heir(record: ThreadRecord, update: PiScheduleUpdate) -> ThreadRecord {
    ThreadRecord {
        policy: ThreadPolicyState {
            dispatch_generation: (record.policy.dispatch_generation + 1) as u64,
            ..record.policy
        },
        pi: ThreadPiState {
            donor: update.donor,
            deadline_donor: update.deadline_donor,
            ..record.pi
        },
        ..record
    }
}

/// The CPU told of a thread whose schedule changed: to reschedule if it has the
/// thread, else to look at its work.
pub open spec fn told_of_change(cpu: CpuLocal, position: SchedulePosition, by: CpuId) -> CpuLocal {
    if position == SchedulePosition::Resting {
        cpu.with_remote(cpu.remote.asked_to_work())
    } else {
        cpu.with_remote(cpu.remote.told_to_reschedule(by))
    }
}

/// Lets a thread inherit on the CPU that answers for it.
fn inherit_on(local: &mut CpuLocal, record: &mut ThreadRecord, owner: CpuId, update: PiScheduleUpdate, next: ActiveSchedulingState, by: CpuId) -> (queue: Ghost<RunQueue>)
    requires
        old(local).wf(),
        old(record).wf(),
        old(record).policy.dispatch_generation < u64::MAX,
        can_restate(
            &old(local).queue(),
            &heir(*old(record), update),
            position_of(&heir(*old(record), update), owner),
            next,
        ),
    ensures
        ({
            let inherits = heir(*old(record), update);
            let position = position_of(&inherits, owner);
            &&& restated(&queue@, &old(local).queue(), &inherits, position, next)
            &&& *final(record) == record_restated(inherits, position, next)
            &&& *final(local) == told_of_change(
                shown(with_queue(*old(local), queue@)),
                position,
                by,
            )
        }),
        final(local).remote.owner == old(local).remote.owner,
        final(local).wf(),
        final(record).wf(),
{
    record.policy.dispatch_generation = record.policy.dispatch_generation + 1;
    record.pi.donor = update.donor;
    record.pi.deadline_donor = update.deadline_donor;
    let position = schedule_position(record, owner);
    restate(&mut local.remote.run_queue.queue, record, position, next);
    let ghost queue = local.queue();
    local.remote.publish_run_queue_load_summary();
    match position {
        SchedulePosition::Resting => {
            local.remote.request_scheduler_work();
        },
        _ => {
            local.remote.request_remote_reschedule(by);
        },
    }
    Ghost(queue)
}

/// What comes of the inheritance of a thread.
#[derive(Clone, Copy, Debug, PartialEq, Eq)]
pub enum InheritanceStep {
    Refused(TaskError),
    Unchanged,
    Change { update: PiScheduleUpdate, next: ActiveSchedulingState },
}

impl TaskSystem {
    /// What the inheritance of a thread on a CPU comes to.
    pub open spec fn inheritance_step(&self, thread: ThreadId, owner: CpuId, top: Option<PiWaitEntry>, now_ns: u64, step: InheritanceStep) -> bool {
        let record = self.record(thread)->0;
        let queue = self.cpu(owner).queue();
        let position = position_of(&record, owner);
        match state_at(&queue, &record, position) {
            None => step == InheritanceStep::Refused(TaskError::InvalidPiState),
            Some(state) => {
                let update = resolved(record.policy.base, state.base_entity, top);
                if record.policy.dispatch_generation == u64::MAX {
                    step == InheritanceStep::Refused(TaskError::InvalidConfiguration)
                } else if record.policy.effective == update.policy && record.pi.donor
                    == update.donor && record.pi.deadline_donor == update.deadline_donor {
                    step == InheritanceStep::Unchanged
                } else if !state.wf() || !update.policy.valid() || (update.donor is None
                    && !state.base_entity.serves(record.policy.base)) {
                    step == InheritanceStep::Refused(TaskError::InvalidPiState)
                } else {
                    exists|next: ActiveSchedulingState|
                        #[trigger] inheriting(
                            next,
                            state,
                            record.policy.base,
                            update,
                            self.config.fair_slice_ns,
                            now_ns,
                        ) && step == if can_restate(&queue, &heir(record, update), position, next) {
                            InheritanceStep::Change { update, next }
                        } else {
                            InheritanceStep::Refused(TaskError::InvalidPiState)
                        }
                }
            },
        }
    }

    /// The system after a thread came to inherit.
    pub open spec fn inheritance_applied(&self, before: &Self, thread: ThreadId, owner: CpuId, update: PiScheduleUpdate, next: ActiveSchedulingState, by: CpuId) -> bool {
        let heir = heir(before.record(thread)->0, update);
        let position = position_of(&heir, owner);
        exists|queue: RunQueue|
            #[trigger] restated(&queue, &before.cpu(owner).queue(), &heir, position, next)
                && self.relinked(
                before,
                record_restated(heir, position, next),
                before.cpus@.update(
                    owner.index as int,
                    told_of_change(shown(with_queue(before.cpu(owner), queue)), position, by),
                ),
                before.root_domain,
            )
    }

    /// The system after what a thread inherits was computed anew.
    #[verifier::opaque]
    pub open spec fn inheritance_computed(&self, before: &Self, thread: ThreadId, top: Option<PiWaitEntry>, now_ns: u64, by: CpuId, result: Result<bool, TaskError>) -> bool {
        let record = before.record(thread)->0;
        match record.placement.task_cpu {
            None => result == Err::<bool, TaskError>(TaskError::InvalidPiState) && *self == *before,
            Some(owner) => if !before.has_cpu(owner) {
                result == Err::<bool, TaskError>(TaskError::InvalidPiState) && *self == *before
            } else if !before.online(owner) {
                result == Err::<bool, TaskError>(TaskError::CpuOffline(owner.index)) && *self
                    == *before
            } else {
                exists|settled: TaskSystem, reschedule: bool, step: InheritanceStep|
                    #[trigger] settled.charged_on(before, owner, now_ns, reschedule)
                        && #[trigger] settled.inheritance_step(thread, owner, top, now_ns, step)
                        && match step {
                        InheritanceStep::Refused(error) => result == Err::<bool, TaskError>(error)
                            && *self == settled,
                        InheritanceStep::Unchanged => result == Ok::<bool, TaskError>(false)
                            && *self == settled,
                        InheritanceStep::Change { update, next } => result == Ok::<bool, TaskError>(
                            true,
                        ) && self.inheritance_applied(&settled, thread, owner, update, next, by),
                    }
            },
        }
    }

    fn plan_inheritance(&self, thread: ThreadId, owner: CpuId, top: Option<PiWaitEntry>, now_ns: u64) -> (step: InheritanceStep)
        requires
            self.wf(),
            self.has_cpu(owner),
            self.record(thread) is Some,
        ensures
            self.inheritance_step(thread, owner, top, now_ns, step),
    {
        let record = match self.thread_record(thread) {
            Ok(record) => record,
            Err(error) => {
                return InheritanceStep::Refused(error);
            },
        };
        assert(self.cpus@[owner.index as int].wf());
        let queue = &self.cpus[owner.index as usize].remote.run_queue.queue;
        let position = schedule_position(record, owner);
        let state = match find_state(queue, record, position) {
            Some(state) => state,
            None => {
                return InheritanceStep::Refused(TaskError::InvalidPiState);
            },
        };
        if record.policy.dispatch_generation == u64::MAX {
            return InheritanceStep::Refused(TaskError::InvalidConfiguration);
        }
        let base = record.policy.base;
        let update = resolved_pi_schedule_update(base, state.base_entity, top);
        if record.policy.effective == update.policy && record.pi.donor == update.donor
            && record.pi.deadline_donor == update.deadline_donor {
            return InheritanceStep::Unchanged;
        }
        let fits = update.donor.is_some() || state.base_entity.belongs_to(base);
        if !state.is_consistent() || update.policy.validate().is_err() || !fits {
            return InheritanceStep::Refused(TaskError::InvalidPiState);
        }
        let next = inherit(state, base, update, self.config.fair_slice_ns, now_ns);
        if may_restate_heir(queue, record, update, position, next) {
            InheritanceStep::Change { update, next }
        } else {
            InheritanceStep::Refused(TaskError::InvalidPiState)
        }
    }

    fn apply_inheritance(&mut self, thread: ThreadId, owner: CpuId, update: PiScheduleUpdate, next: ActiveSchedulingState, by: CpuId)
        requires
            old(self).wf(),
            old(self).has_cpu(owner),
            old(self).record(thread) is Some,
            (old(self).record(thread)->0).policy.dispatch_generation < u64::MAX,
            can_restate(
                &old(self).cpu(owner).queue(),
                &heir(old(self).record(thread)->0, update),
                position_of(&heir(old(self).record(thread)->0, update), owner),
                next,
            ),
        ensures
            final(self).inheritance_applied(old(self), thread, owner, update, next, by),
            final(self).wf(),
    {
        let ghost before = *self;
        let at: usize = owner.index as usize;
        assert(before.cpus@[at as int].wf());
        let mut record = self.take_record(thread);
        let Ghost(queue) = inherit_on(&mut self.cpus[at], &mut record, owner, update, next, by);
        proof {
            assert(self.cpus@ =~= before.cpus@.update(at as int, self.cpus@[at as int]));
            cpus_wf_after(before.cpus@, self.cpus@, at as int);
        }
        self.put_record(record);
        assert(self.slots@ =~= with_record(before.slots@, record));
    }

    /// Computes anew what a thread inherits from the first of those that wait
    /// for it. Says whether anything changed.
    pub fn recompute_pi_owner(&mut self, thread: ThreadId, top: Option<PiWaitEntry>, now_ns: u64, by: CpuId) -> (result: Result<bool, TaskError>)
        requires
            old(self).wf(),
            old(self).record(thread) is Some,
        ensures
            final(self).inheritance_computed(old(self), thread, top, now_ns, by, result),
            final(self).wf(),
    {
        proof {
            reveal(TaskSystem::inheritance_computed);
        }
        let owner = match self.thread_record(thread) {
            Ok(record) => match record.placement.task_cpu {
                Some(owner) => owner,
                None => {
                    return Err(TaskError::InvalidPiState);
                },
            },
            Err(_) => {
                return Err(TaskError::InvalidPiState);
            },
        };
        if owner.index as usize >= self.cpus.len() {
            return Err(TaskError::InvalidPiState);
        }
        if !self.cpus[owner.index as usize].is_online() {
            return Err(TaskError::CpuOffline(owner.index));
        }
        let _ = self.charge_cpu(owner, now_ns);
        let ghost settled = *self;
        let step = self.plan_inheritance(thread, owner, top, now_ns);
        assert(settled.inheritance_step(thread, owner, top, now_ns, step));
        match step {
            InheritanceStep::Refused(error) => Err(error),
            InheritanceStep::Unchanged => Ok(false),
            InheritanceStep::Change { update, next } => {
                self.apply_inheritance(thread, owner, update, next, by);
                Ok(true)
            },
        }
    }
}

/// Tests whether a thread that inherits can be given a scheduling state.
fn may_restate_heir(queue: &RunQueue, record: &ThreadRecord, update: PiScheduleUpdate, position: SchedulePosition, next: ActiveSchedulingState) -> (may: bool)
    requires
        queue.wf(),
        next.wf(),
        record.policy.dispatch_generation < u64::MAX,
    ensures
        may == can_restate(queue, &heir(*record, update), position, next),
{
    proof {
        reveal(can_restate);
    }
    if find_state(queue, record, position).is_none() {
        return false;
    }
    match position {
        SchedulePosition::Resting => true,
        _ => {
            let stops = match next.policy {
                SchedulePolicy::KernelStop => true,
                _ => false,
            };
            !stops && queue.may_enqueue(record.queued_thread(next)) && queue.nr_running
                < usize::MAX - 1
        },
    }
}

} // verus!
