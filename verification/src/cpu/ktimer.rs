//! Installation of the worker that runs a CPU's deferred timers.
use vstd::prelude::*;
use crate::error::TaskError;
use crate::ids::ThreadId;

verus! {

/// How far the worker of a CPU has been installed.
#[derive(Clone, Copy, Debug, PartialEq, Eq, Structural)]
pub enum KtimerWorkerPhase {
    Uninstalled,
    Starting,
    Installed,
}

#[derive(Clone, Copy, Debug, PartialEq, Eq, Structural)]
pub struct KtimerWorker {
    pub phase: KtimerWorkerPhase,
    pub worker: Option<ThreadId>,
    pub event_pending: bool,
}

impl KtimerWorker {
    /// A worker is named exactly when it is installed.
    pub open spec fn wf(self) -> bool {
        self.worker is Some <==> self.phase == KtimerWorkerPhase::Installed
    }

    /// A CPU without a timer worker.
    pub open spec fn initial() -> Self {
        KtimerWorker {
            phase: KtimerWorkerPhase::Uninstalled,
            worker: None,
            event_pending: false,
        }
    }

    pub fn new() -> (worker: Self)
        ensures
            worker == Self::initial(),
            worker.wf(),
    {
        KtimerWorker { phase: KtimerWorkerPhase::Uninstalled, worker: None, event_pending: false }
    }

    /// Claims the installation.
    pub fn begin_install(&mut self) -> (result: Result<(), TaskError>)
        ensures
            result == if old(self).phase == KtimerWorkerPhase::Uninstalled {
                Ok::<(), TaskError>(())
            } else {
                Err(TaskError::InvalidConfiguration)
            },
            *final(self) == if result is Ok {
                KtimerWorker { phase: KtimerWorkerPhase::Starting, ..*old(self) }
            } else {
                *old(self)
            },
            old(self).wf() ==> final(self).wf(),
    {
        match self.phase {
            KtimerWorkerPhase::Uninstalled => {
                self.phase = KtimerWorkerPhase::Starting;
                Ok(())
            },
            KtimerWorkerPhase::Starting | KtimerWorkerPhase::Installed => Err(
                TaskError::InvalidConfiguration,
            ),
        }
    }

    /// Names the worker of a claimed installation.
    pub fn finish_install(&mut self, thread: ThreadId)
        requires
            old(self).phase == KtimerWorkerPhase::Starting,
            old(self).worker is None,
            thread.packed() != 0,
        ensures
            *final(self) == (KtimerWorker {
                phase: KtimerWorkerPhase::Installed,
                worker: Some(thread),
                ..*old(self)
            }),
            final(self).wf(),
    {
        self.worker = Some(thread);
        self.phase = KtimerWorkerPhase::Installed;
    }

    /// Gives a claimed installation up.
    pub fn cancel_install(&mut self)
        requires
            old(self).phase == KtimerWorkerPhase::Starting,
        ensures
            *final(self) == (KtimerWorker {
                phase: KtimerWorkerPhase::Uninstalled,
                ..*old(self)
            }),
            old(self).wf() ==> final(self).wf(),
    {
        self.phase = KtimerWorkerPhase::Uninstalled;
    }

    pub fn worker_thread(&self) -> (worker: Option<ThreadId>)
        ensures
            worker == self.worker,
    {
        self.worker
    }

    /// Whether the CPU may go offline as far as its worker is concerned.
    pub fn is_quiescent_for_offline(&self) -> (quiescent: bool)
        ensures
            quiescent == match self.phase {
                KtimerWorkerPhase::Uninstalled => true,
                KtimerWorkerPhase::Starting => false,
                KtimerWorkerPhase::Installed => !self.event_pending,
            },
    {
        match self.phase {
            KtimerWorkerPhase::Uninstalled => true,
            KtimerWorkerPhase::Starting => false,
            KtimerWorkerPhase::Installed => !self.event_pending,
        }
    }

    /// Tells the worker that timers are due.
    pub fn publish(&mut self)
        ensures
            *final(self) == (KtimerWorker { event_pending: true, ..*old(self) }),
    {
        self.event_pending = true;
    }

    /// Takes the worker's notice.
    pub fn take_event(&mut self) -> (pending: bool)
        ensures
            pending == old(self).event_pending,
            *final(self) == (KtimerWorker { event_pending: false, ..*old(self) }),
    {
        let pending = self.event_pending;
        self.event_pending = false;
        pending
    }
}

} // verus!
