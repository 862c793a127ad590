//! Messages to the owner of a CPU, and the reservation by which an idle CPU
//! pulls work.
use vstd::prelude::*;
use crate::ids::{CpuId, ThreadId};

verus! {

/// What the owner of a CPU is asked to do.
#[derive(Clone, Copy, Debug, PartialEq, Eq, Structural)]
pub enum InboxOperation {
    BalanceRequest,
    Reclaim,
    DeadlineRefresh,
    AffinityUpdate,
    PolicyUpdate,
    Migration,
}

/// Right of one CPU to be given a thread by another.
#[derive(Clone, Copy, Debug, PartialEq, Eq, Structural)]
pub struct IdlePullReservation {
    pub source: CpuId,
    pub generation: u64,
}

/// One message. A message without a thread has lost its payload.
#[derive(Clone, Copy, Debug, PartialEq, Eq, Structural)]
pub struct InboxMessage {
    pub operation: InboxOperation,
    pub thread: Option<ThreadId>,
    pub source: Option<CpuId>,
    pub target: Option<CpuId>,
    pub generation: u64,
    pub placement_demand: u64,
    pub reservation: Option<IdlePullReservation>,
}

/// First-in, first-out queue of messages.
#[derive(Debug)]
pub struct SchedulerInbox {
    pub messages: Vec<InboxMessage>,
}

impl SchedulerInbox {
    pub fn new() -> (inbox: Self)
        ensures
            inbox.messages@ == Seq::<InboxMessage>::empty(),
    {
        SchedulerInbox { messages: Vec::new() }
    }

    pub fn publish(&mut self, message: InboxMessage)
        ensures
            final(self).messages@ == old(self).messages@.push(message),
    {
        self.messages.push(message);
    }

    pub fn has_pending(&self) -> (pending: bool)
        ensures
            pending == (self.messages@.len() > 0),
    {
        self.messages.len() > 0
    }

    /// Copies the oldest messages, at most `limit`.
    pub fn peek(&self, limit: usize) -> (batch: Vec<InboxMessage>)
        ensures
            batch@ == self.messages@.take(
                if self.messages@.len() < limit {
                    self.messages@.len() as int
                } else {
                    limit as int
                },
            ),
    {
        let taken: usize = if self.messages.len() < limit {
            self.messages.len()
        } else {
            limit
        };
        let mut batch: Vec<InboxMessage> = Vec::new();
        let mut i: usize = 0;
        while i < taken
            invariant
                i <= taken,
                taken <= self.messages.len(),
                batch@ == self.messages@.take(i as int),
            decreases taken - i,
        {
            batch.push(self.messages[i]);
            i = i + 1;
        }
        batch
    }

    /// Takes the oldest messages, at most `limit`.
    pub fn drain(&mut self, limit: usize) -> (batch: Vec<InboxMessage>)
        ensures
            ({
                let taken = if old(self).messages@.len() < limit {
                    old(self).messages@.len() as int
                } else {
                    limit as int
                };
                &&& batch@ == old(self).messages@.take(taken)
                &&& final(self).messages@ == old(self).messages@.skip(taken)
            }),
    {
        let taken: usize = if self.messages.len() < limit {
            self.messages.len()
        } else {
            limit
        };
        let mut batch: Vec<InboxMessage> = Vec::new();
        let mut rest: Vec<InboxMessage> = Vec::new();
        let mut i: usize = 0;
        while i < self.messages.len()
            invariant
                i <= self.messages.len(),
                taken <= self.messages.len(),
                *self == *old(self),
                batch@ == self.messages@.take(
                    if i < taken {
                        i as int
                    } else {
                        taken as int
                    },
                ),
                rest@ == if i < taken {
                    Seq::empty()
                } else {
                    self.messages@.subrange(taken as int, i as int)
                },
            decreases self.messages.len() - i,
        {
            let message = self.messages[i];
            if i < taken {
                batch.push(message);
            } else {
                rest.push(message);
            }
            i = i + 1;
        }
        self.messages = rest;
        batch
    }
}

/// Reservation of an idle CPU for one thread of a busier one.
#[derive(Clone, Copy, Debug, PartialEq, Eq, Structural)]
pub struct IdlePullState {
    pub reservation: Option<IdlePullReservation>,
    pub committed: bool,
    pub generation: u64,
}

impl IdlePullState {
    /// A CPU that has asked for nothing yet.
    pub open spec fn initial() -> Self {
        IdlePullState { reservation: None, committed: false, generation: 0 }
    }

    pub fn new() -> (state: Self)
        ensures
            state == Self::initial(),
    {
        IdlePullState { reservation: None, committed: false, generation: 0 }
    }

    /// Asks one source for a thread; refused while another request stands.
    pub fn reserve(&mut self, source: CpuId) -> (reservation: Option<IdlePullReservation>)
        ensures
            reservation is Some <==> old(self).reservation is None && old(self).generation
                < u64::MAX,
            reservation matches Some(held) ==> {
                &&& held == (IdlePullReservation {
                    source,
                    generation: (old(self).generation + 1) as u64,
                })
                &&& *final(self) == (IdlePullState {
                    reservation: Some(held),
                    committed: false,
                    generation: held.generation,
                })
            },
            reservation is None ==> *final(self) == *old(self),
    {
        if self.reservation.is_some() || self.generation == u64::MAX {
            return None;
        }
        self.generation = self.generation + 1;
        let held = IdlePullReservation { source, generation: self.generation };
        self.reservation = Some(held);
        self.committed = false;
        Some(held)
    }

    /// Whether a reservation still stands and waits for an answer.
    pub open spec fn claimable(self, reservation: IdlePullReservation) -> bool {
        self.reservation == Some(reservation) && !self.committed
    }

    pub fn claim(&self, reservation: IdlePullReservation) -> (claimed: bool)
        ensures
            claimed == self.claimable(reservation),
    {
        match self.reservation {
            Some(held) => held == reservation && !self.committed,
            None => false,
        }
    }

    /// Fixes a standing reservation so that it can no longer be withdrawn.
    pub fn commit(&mut self, reservation: IdlePullReservation) -> (committed: bool)
        ensures
            committed == old(self).claimable(reservation),
            *final(self) == if committed {
                IdlePullState { committed: true, ..*old(self) }
            } else {
                *old(self)
            },
    {
        if self.claim(reservation) {
            self.committed = true;
            true
        } else {
            false
        }
    }

    /// Ends a reservation.
    pub fn release(&mut self, reservation: IdlePullReservation)
        ensures
            *final(self) == if old(self).reservation == Some(reservation) {
                IdlePullState { reservation: None, committed: false, ..*old(self) }
            } else {
                *old(self)
            },
    {
        if let Some(held) = self.reservation {
            if held == reservation {
                self.reservation = None;
                self.committed = false;
            }
        }
    }

    pub open spec fn cancelled(self) -> Self {
        if self.committed {
            self
        } else {
            IdlePullState { reservation: None, ..self }
        }
    }

    /// Withdraws a reservation that no source has fixed.
    pub fn cancel_if_uncommitted(&mut self)
        ensures
            *final(self) == old(self).cancelled(),
    {
        if !self.committed {
            self.reservation = None;
        }
    }
}

/// Draining delivers every message once and in order.
pub proof fn inbox_keeps_order(messages: Seq<InboxMessage>, taken: int)
    requires
        0 <= taken <= messages.len(),
    ensures
        messages.take(taken) + messages.skip(taken) == messages,
{
    assert(messages.take(taken) + messages.skip(taken) =~= messages);
}

} // verus!
