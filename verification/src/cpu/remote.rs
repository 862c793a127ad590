//! The part of a CPU that other CPUs reach.
use vstd::prelude::*;
use crate::config::TaskSystemConfig;
use crate::cpu::doorbell::{
    SchedulerDoorbell, SchedulerRequestClaim, SchedulerRequestReason, next_generation,
};
use crate::cpu::inbox::{IdlePullState, InboxMessage, SchedulerInbox};
use crate::cpu::ktimer::{KtimerWorker, KtimerWorkerPhase};
use crate::cpu::load::{CpuLoadSummary, RemoteLoadState};
use crate::cpu::run_queue::CpuRunQueueState;
use crate::ids::{CpuId, ThreadId};
use crate::scheduler::policy::DEADLINE_UTILIZATION_SCALE;

verus! {

/// Whether a CPU takes part in scheduling.
#[derive(Clone, Copy, Debug, PartialEq, Eq, Structural)]
pub enum CpuLifecycleState {
    Offline,
    Online,
    /// Leaving: finishes what it has and takes nothing new.
    Draining,
}

#[derive(Debug)]
pub struct CpuRemote {
    pub owner: CpuId,
    pub lifecycle: CpuLifecycleState,
    pub run_queue: CpuRunQueueState,
    pub deadline_extra_bw_scaled: u64,
    pub doorbell: SchedulerDoorbell,
    pub load: RemoteLoadState,
    pub idle_pull: IdlePullState,
    pub inbox: SchedulerInbox,
    pub ktimer: KtimerWorker,
    pub current_thread: Option<ThreadId>,
    pub idle_thread: Option<ThreadId>,
}

impl CpuRemote {
    pub open spec fn wf(&self) -> bool {
        &&& self.run_queue.wf()
        &&& self.run_queue.owner == self.owner
        &&& self.doorbell.wf()
        &&& self.ktimer.wf()
        &&& self.load.wf()
    }

    /// A CPU on its way out still hears of its own work.
    pub open spec fn hears(&self) -> bool {
        self.lifecycle != CpuLifecycleState::Offline
    }

    pub open spec fn with_doorbell(self, doorbell: SchedulerDoorbell) -> CpuRemote {
        CpuRemote { doorbell, ..self }
    }

    /// The CPU is offline and was never online.
    pub open spec fn blank(&self, owner: CpuId, config: TaskSystemConfig) -> bool {
        &&& self.owner == owner
        &&& self.lifecycle == CpuLifecycleState::Offline
        &&& self.run_queue.blank(owner, config)
        &&& self.deadline_extra_bw_scaled == config.deadline_cap_percent
            * DEADLINE_UTILIZATION_SCALE / 100
        &&& self.doorbell == SchedulerDoorbell::initial()
        &&& self.load == RemoteLoadState::initial()
        &&& self.idle_pull == IdlePullState::initial()
        &&& self.inbox.messages@.len() == 0
        &&& self.ktimer == KtimerWorker::initial()
        &&& self.current_thread is None
        &&& self.idle_thread is None
    }

    pub fn create(owner: CpuId, config: TaskSystemConfig) -> (remote: Self)
        requires
            config.valid(),
        ensures
            remote.blank(owner, config),
            remote.wf(),
    {
        CpuRemote {
            owner,
            lifecycle: CpuLifecycleState::Offline,
            run_queue: CpuRunQueueState::new(owner, config),
            deadline_extra_bw_scaled: config.deadline_cap_percent as u64
                * DEADLINE_UTILIZATION_SCALE / 100,
            doorbell: SchedulerDoorbell::new(),
            load: RemoteLoadState::new(),
            idle_pull: IdlePullState::new(),
            inbox: SchedulerInbox::new(),
            ktimer: KtimerWorker::new(),
            current_thread: None,
            idle_thread: None,
        }
    }

    pub fn owner(&self) -> (owner: CpuId)
        ensures
            owner == self.owner,
    {
        self.owner
    }

    pub fn is_online(&self) -> (online: bool)
        ensures
            online == (self.lifecycle == CpuLifecycleState::Online),
    {
        self.lifecycle == CpuLifecycleState::Online
    }

    /// Whether new threads may be placed here.
    pub fn accepts_placement(&self) -> (accepts: bool)
        ensures
            accepts == (self.lifecycle == CpuLifecycleState::Online),
    {
        self.lifecycle == CpuLifecycleState::Online
    }

    pub fn publish_deadline_extra_bw(&mut self, extra_bw_scaled: u64)
        ensures
            *final(self) == (CpuRemote {
                deadline_extra_bw_scaled: extra_bw_scaled,
                ..*old(self)
            }),
    {
        self.deadline_extra_bw_scaled = extra_bw_scaled;
    }

    pub fn deadline_extra_bw_scaled(&self) -> (extra: u64)
        ensures
            extra == self.deadline_extra_bw_scaled,
    {
        self.deadline_extra_bw_scaled
    }

    pub fn mark_scheduler_ready(&mut self)
        ensures
            *final(self) == old(self).with_doorbell(
                SchedulerDoorbell { ready: true, ..old(self).doorbell },
            ),
    {
        self.doorbell.mark_ready();
    }

    pub fn is_scheduler_ready(&self) -> (ready: bool)
        ensures
            ready == self.doorbell.ready,
    {
        self.doorbell.is_ready()
    }

    /// Asks for a reschedule without announcing it.
    pub open spec fn asked_to_reschedule(self) -> CpuRemote {
        if self.hears() {
            self.with_doorbell(self.doorbell.requested(SchedulerRequestReason::Preempt))
        } else {
            self
        }
    }

    pub fn request_reschedule(&mut self)
        ensures
            *final(self) == old(self).asked_to_reschedule(),
            old(self).wf() ==> final(self).wf(),
    {
        if self.lifecycle != CpuLifecycleState::Offline {
            let _ = self.doorbell.publish(SchedulerRequestReason::Preempt);
        }
    }

    /// Asks for a reschedule and announces it.
    pub open spec fn told_to_reschedule(self, by: CpuId) -> CpuRemote {
        if self.hears() {
            self.with_doorbell(
                self.doorbell.delivered(SchedulerRequestReason::Preempt, by == self.owner),
            )
        } else {
            self
        }
    }

    pub fn request_remote_reschedule(&mut self, by: CpuId)
        ensures
            *final(self) == old(self).told_to_reschedule(by),
            old(self).wf() ==> final(self).wf(),
    {
        if self.lifecycle != CpuLifecycleState::Offline {
            self.doorbell.request(SchedulerRequestReason::Preempt, by == self.owner);
        }
    }

    /// Asks the owner to look at its work, without announcing it.
    pub open spec fn asked_to_work(self) -> CpuRemote {
        if self.hears() {
            self.with_doorbell(self.doorbell.requested(SchedulerRequestReason::OwnerWork))
        } else {
            self
        }
    }

    pub fn request_scheduler_work(&mut self)
        ensures
            *final(self) == old(self).asked_to_work(),
            old(self).wf() ==> final(self).wf(),
    {
        if self.lifecycle != CpuLifecycleState::Offline {
            let _ = self.doorbell.publish(SchedulerRequestReason::OwnerWork);
        }
    }

    /// Asks the owner to look at its work and announces it.
    pub open spec fn kicked(self, by: CpuId) -> CpuRemote {
        if self.hears() {
            self.with_doorbell(
                self.doorbell.delivered(SchedulerRequestReason::OwnerWork, by == self.owner),
            )
        } else {
            self
        }
    }

    pub fn kick_scheduler_work(&mut self, by: CpuId) -> (delivered: bool)
        ensures
            delivered == old(self).hears(),
            *final(self) == old(self).kicked(by),
            old(self).wf() ==> final(self).wf(),
    {
        if self.lifecycle == CpuLifecycleState::Offline {
            return false;
        }
        self.doorbell.request(SchedulerRequestReason::OwnerWork, by == self.owner);
        true
    }

    pub open spec fn deferred_work(self) -> CpuRemote {
        self.with_doorbell(
            SchedulerDoorbell {
                ring: Some(next_generation(self.doorbell.generation)),
                ..self.doorbell.requested(SchedulerRequestReason::OwnerWork)
            },
        )
    }

    /// Tests `hears`.
    pub fn is_hearing(&self) -> (hearing: bool)
        ensures
            hearing == self.hears(),
    {
        self.lifecycle != CpuLifecycleState::Offline
    }

    /// Leaves work for a later scheduler entry, which the doorbell brings about.
    pub fn defer_scheduler_work(&mut self)
        requires
            old(self).hears(),
        ensures
            *final(self) == old(self).deferred_work(),
            old(self).wf() ==> final(self).wf(),
    {
        self.doorbell.request_and_ring(SchedulerRequestReason::OwnerWork);
    }

    pub fn publish_soft_timer_work(&mut self)
        ensures
            *final(self) == old(self).with_doorbell(
                old(self).doorbell.requested(SchedulerRequestReason::SoftTimer),
            ),
            old(self).wf() ==> final(self).wf(),
    {
        let _ = self.doorbell.publish(SchedulerRequestReason::SoftTimer);
    }

    pub fn soft_timer_work_pending(&self) -> (pending: bool)
        ensures
            pending == self.doorbell.soft_timer,
    {
        self.doorbell.soft_timer_work_pending()
    }

    /// Whether the scheduler has something to do.
    pub fn needs_reschedule(&self) -> (needed: bool)
        ensures
            needed == self.doorbell.pending(),
    {
        self.doorbell.needs_reschedule()
    }

    pub fn claim_scheduler_request(&mut self) -> (claim: SchedulerRequestClaim)
        ensures
            claim == (SchedulerRequestClaim {
                generation: old(self).doorbell.generation,
                preempt: old(self).doorbell.preempt,
            }),
            *final(self) == old(self).with_doorbell(
                SchedulerDoorbell { preempt: false, owner_work: false, ..old(self).doorbell },
            ),
            old(self).wf() ==> final(self).wf(),
    {
        self.doorbell.claim()
    }

    /// The CPU after a scheduler entry has served a claim. Messages that are
    /// left make new work.
    pub open spec fn acknowledged(self, claim: SchedulerRequestClaim) -> CpuRemote {
        let served = self.with_doorbell(
            SchedulerDoorbell { acknowledged_generation: claim.generation, ..self.doorbell },
        );
        if self.inbox.messages@.len() > 0 && !self.doorbell.preempt && !self.doorbell.owner_work {
            served.asked_to_work()
        } else {
            served
        }
    }

    pub fn acknowledge_scheduler_request(&mut self, claim: SchedulerRequestClaim)
        ensures
            *final(self) == old(self).acknowledged(claim),
            old(self).wf() ==> final(self).wf(),
    {
        self.doorbell.acknowledged_generation = claim.generation;
        if self.has_remote_work() && !self.doorbell.preempt && !self.doorbell.owner_work {
            self.request_scheduler_work();
        }
    }

    /// Takes the preemption request, if there is one.
    pub fn take_preempt_requested(&mut self) -> (preempt: bool)
        ensures
            preempt == old(self).doorbell.preempt,
            *final(self) == old(self).with_doorbell(
                SchedulerDoorbell { preempt: false, owner_work: false, ..old(self).doorbell },
            ).acknowledged(
                SchedulerRequestClaim {
                    generation: old(self).doorbell.generation,
                    preempt: old(self).doorbell.preempt,
                },
            ),
            old(self).wf() ==> final(self).wf(),
    {
        let claim = self.claim_scheduler_request();
        self.acknowledge_scheduler_request(claim);
        claim.preempt_requested()
    }

    pub fn has_remote_work(&self) -> (pending: bool)
        ensures
            pending == (self.inbox.messages@.len() > 0),
    {
        self.inbox.has_pending()
    }

    /// Whether the owner may go to sleep: nothing is asked, nothing waits in
    /// the inbox, and the published load shows nothing runnable.
    pub open spec fn may_sleep(&self) -> bool {
        &&& !self.doorbell.pending()
        &&& self.inbox.messages@.len() == 0
        &&& self.load.summary() matches Some(summary) && summary.runnable_count == 0
    }

    /// Declares that the owner polls, unless there is something to do.
    pub fn prepare_idle_wait(&mut self) -> (may_wait: bool)
        ensures
            may_wait == old(self).may_sleep(),
            *final(self) == old(self).with_doorbell(
                SchedulerDoorbell { idle_polling: may_wait, ..old(self).doorbell },
            ),
            old(self).wf() ==> final(self).wf(),
    {
        self.doorbell.begin_polling();
        let nothing_runnable = match self.try_runnable_summary() {
            Some(count) => count == 0,
            None => false,
        };
        let may_wait = !self.needs_reschedule() && !self.has_remote_work() && nothing_runnable;
        if !may_wait {
            self.finish_idle_wait();
        }
        may_wait
    }

    pub fn finish_idle_wait(&mut self)
        ensures
            *final(self) == old(self).with_doorbell(
                SchedulerDoorbell { idle_polling: false, ..old(self).doorbell },
            ),
    {
        self.doorbell.end_polling();
    }

    pub fn is_idle_polling(&self) -> (polling: bool)
        ensures
            polling == self.doorbell.idle_polling,
    {
        self.doorbell.idle_polling
    }

    /// Shows the present load to other CPUs.
    pub fn publish_run_queue_load_summary(&mut self)
        requires
            old(self).wf(),
        ensures
            *final(self) == old(self).showing_load(),
            final(self).wf(),
    {
        let publication = self.run_queue.queue.load_publication(self.idle_thread);
        self.load.publish(publication);
    }

    pub open spec fn showing_load(self) -> CpuRemote {
        CpuRemote {
            load: self.load.showing(self.run_queue.queue.load_of(self.idle_thread)),
            ..self
        }
    }

    /// One consistent reading of the published load, unless a write is in
    /// progress.
    pub fn try_load_summary(&self) -> (summary: Option<CpuLoadSummary>)
        ensures
            summary == self.load.summary(),
            self.wf() ==> (summary matches Some(read) ==> {
                &&& read.epoch % 2 == 0
                &&& read.runnable_count <= read.workload_count <= read.runnable_count + 1
                &&& read.overloaded == (read.pushable_class is Some && read.workload_count > 1)
            }),
    {
        self.load.try_load_summary()
    }

    pub open spec fn runnable(&self) -> Option<usize> {
        match self.load.summary() {
            Some(summary) => Some(summary.runnable_count),
            None => None,
        }
    }

    pub fn try_runnable_summary(&self) -> (count: Option<usize>)
        ensures
            count == self.runnable(),
    {
        match self.try_load_summary() {
            Some(summary) => Some(summary.runnable_count()),
            None => None,
        }
    }

    pub fn try_placement_demand(&self) -> (demand: Option<u64>)
        ensures
            demand == self.load.placement(),
    {
        self.load.try_placement_demand()
    }

    /// Queues a message for the owner.
    pub fn post(&mut self, message: InboxMessage)
        ensures
            final(self).inbox.messages@ == old(self).inbox.messages@.push(message),
            *final(self) == (CpuRemote { inbox: final(self).inbox, ..*old(self) }),
            old(self).wf() ==> final(self).wf(),
    {
        self.inbox.publish(message);
    }

    pub fn owner_control_inbox(&self) -> (inbox: &SchedulerInbox)
        ensures
            *inbox == self.inbox,
    {
        &self.inbox
    }

    pub fn cancel_idle_pull_if_uncommitted(&mut self)
        ensures
            *final(self) == (CpuRemote {
                idle_pull: old(self).idle_pull.cancelled(),
                ..*old(self)
            }),
            old(self).wf() ==> final(self).wf(),
    {
        self.idle_pull.cancel_if_uncommitted();
    }

    pub fn publish_current_thread(&mut self, thread: Option<ThreadId>)
        ensures
            *final(self) == (CpuRemote { current_thread: thread, ..*old(self) }),
    {
        self.current_thread = thread;
    }

    pub fn publish_idle_thread(&mut self, thread: ThreadId)
        ensures
            *final(self) == (CpuRemote { idle_thread: Some(thread), ..*old(self) }),
    {
        self.idle_thread = Some(thread);
    }

    pub fn idle_thread(&self) -> (thread: Option<ThreadId>)
        ensures
            thread == self.idle_thread,
    {
        self.idle_thread
    }

    /// Whether nothing that others have started keeps the CPU from going
    /// offline.
    pub fn is_quiescent_for_offline(&self) -> (quiescent: bool)
        ensures
            quiescent == (self.inbox.messages@.len() == 0 && self.load.incoming_migration_demand
                == 0 && match self.ktimer.phase {
                KtimerWorkerPhase::Uninstalled => true,
                KtimerWorkerPhase::Starting => false,
                KtimerWorkerPhase::Installed => !self.ktimer.event_pending,
            }),
    {
        !self.inbox.has_pending() && self.load.incoming_migration_demand == 0
            && self.ktimer.is_quiescent_for_offline()
    }

    /// Forgets requests and balancing of a CPU that has gone offline.
    pub fn reset_for_offline(&mut self)
        ensures
            *final(self) == (CpuRemote {
                doorbell: final(self).doorbell,
                load: final(self).load,
                ..*old(self)
            }),
            !final(self).doorbell.pending(),
            !final(self).doorbell.idle_polling,
            !final(self).load.fair_balance_armed,
            final(self).load.published == old(self).load.published,
            old(self).wf() ==> final(self).wf(),
    {
        self.doorbell.reset_for_offline();
        self.load.reset_fair_balance_for_offline();
    }
}

/// A CPU that sleeps has nothing asked of it, and a request made while it
/// polls needs no doorbell.
pub proof fn polling_owner_needs_no_doorbell(remote: CpuRemote, by: CpuId)
    requires
        remote.doorbell.idle_polling,
    ensures
        remote.kicked(by).doorbell.ring == remote.doorbell.ring,
        remote.hears() ==> remote.kicked(by).doorbell.pending(),
        !remote.kicked(by).may_sleep() || !remote.hears(),
{
    reveal(SchedulerDoorbell::requested);
    reveal(SchedulerDoorbell::delivered);
}

} // verus!
