//! State machines of INVITE and non-INVITE client and server transactions,
//! and the enum that holds any one of them.
pub mod uac;
pub mod uac_invite;
pub mod uas_invite;

use crate::sip::SipMessage;
use crate::transaction::{TransactionError, TrxAction};
use vstd::prelude::*;

verus! {

/// The state machine of one transaction, of whichever kind.
#[derive(Debug)]
pub enum TrxStateSm {
    UacInvite(uac_invite::TrxStateMachine),
    Uac(uac::TrxStateMachine),
    UasInvite(uas_invite::TrxStateMachine),
}

/// `sm` is a new client INVITE machine for `request`, with this id, started at `now`.
pub open spec fn is_new_uac_invite(sm: TrxStateSm, id: Seq<char>, request: rsip::Request, now: u64) -> bool {
    &&& sm matches TrxStateSm::UacInvite(m)
    &&& m.id@ == id
    &&& m.request == request
    &&& m.created_at == now
    &&& m.state == uac_invite::TrxState::Calling(uac_invite::Calling { entered_at: now, retransmissions_count: 0, last_retransmission_at: now })
}

/// `sm` is a new server INVITE machine for `request`, keeping `response`, started at `now`.
pub open spec fn is_new_uas_invite(sm: TrxStateSm, id: Seq<char>, request: rsip::Request, response: rsip::Response, now: u64) -> bool {
    &&& sm matches TrxStateSm::UasInvite(m)
    &&& m.id@ == id
    &&& m.request == request
    &&& m.response == response
    &&& m.created_at == now
    &&& m.state == uas_invite::TrxState::Proceeding(uas_invite::Proceeding { entered_at: now })
}

/// The machine after `response` arrives at `now`, with the actions it asks
/// for; `None` where the machine does not take responses.
pub open spec fn after_response(sm: TrxStateSm, response: rsip::Response, now: u64) -> Option<(TrxStateSm, Seq<TrxAction>)> {
    match sm {
        TrxStateSm::UacInvite(m) => {
            let (state, actions) = uac_invite::on_response(m.state, response, now);
            Some((TrxStateSm::UacInvite(uac_invite::TrxStateMachine { state, ..m }), actions))
        },
        TrxStateSm::Uac(m) => {
            let (state, actions) = uac::on_response(m.state, response, now);
            Some((TrxStateSm::Uac(uac::TrxStateMachine { state, ..m }), actions))
        },
        TrxStateSm::UasInvite(_) => None,
    }
}

/// The machine after `request` arrives at `now`; `None` where the machine
/// does not take requests.
pub open spec fn after_request(sm: TrxStateSm, request: rsip::Request, now: u64) -> Option<(TrxStateSm, Seq<TrxAction>)> {
    match sm {
        TrxStateSm::UasInvite(m) => {
            let (state, actions) = uas_invite::on_request(m.state, m.response, request, now);
            Some((TrxStateSm::UasInvite(uas_invite::TrxStateMachine { state, ..m }), actions))
        },
        _ => None,
    }
}

/// The machine after the user hands over `reply` at `now`; `None` where the
/// machine does not take replies.
pub open spec fn after_reply(sm: TrxStateSm, reply: rsip::Response, now: u64) -> Option<(TrxStateSm, Seq<TrxAction>)> {
    match sm {
        TrxStateSm::UasInvite(m) => {
            let (state, response, actions) = uas_invite::on_reply(m.state, m.response, reply, now);
            Some((TrxStateSm::UasInvite(uas_invite::TrxStateMachine { state, response, ..m }), actions))
        },
        _ => None,
    }
}

/// The machine after a timer tick at `now`.
pub open spec fn after_tick(sm: TrxStateSm, now: u64) -> (TrxStateSm, Seq<TrxAction>) {
    match sm {
        TrxStateSm::UacInvite(m) => {
            let (state, actions) = uac_invite::tick(m.state, m.request, now);
            (TrxStateSm::UacInvite(uac_invite::TrxStateMachine { state, ..m }), actions)
        },
        TrxStateSm::Uac(m) => {
            let (state, actions) = uac::tick(m.state, m.request, now);
            (TrxStateSm::Uac(uac::TrxStateMachine { state, ..m }), actions)
        },
        TrxStateSm::UasInvite(m) => {
            let (state, actions) = uas_invite::tick(m.state, m.response, now);
            (TrxStateSm::UasInvite(uas_invite::TrxStateMachine { state, ..m }), actions)
        },
    }
}

/// The machine after it fails for `reason` at `now`: it ends in error.
pub open spec fn after_failure(sm: TrxStateSm, cause: crate::transaction::TrxErrorCause, now: u64) -> TrxStateSm {
    match sm {
        TrxStateSm::UacInvite(m) => TrxStateSm::UacInvite(uac_invite::TrxStateMachine {
            state: uac_invite::errored(cause, None, now),
            ..m
        }),
        TrxStateSm::Uac(m) => TrxStateSm::Uac(uac::TrxStateMachine { state: uac::errored(cause, None, now), ..m }),
        TrxStateSm::UasInvite(m) => TrxStateSm::UasInvite(uas_invite::TrxStateMachine {
            state: uas_invite::errored(cause, None, now),
            ..m
        }),
    }
}

impl TrxStateSm {
    pub open spec fn wf(self) -> bool {
        match self {
            TrxStateSm::UacInvite(m) => m.wf(),
            TrxStateSm::Uac(m) => m.wf(),
            TrxStateSm::UasInvite(m) => m.wf(),
        }
    }

    pub open spec fn active(self) -> bool {
        match self {
            TrxStateSm::UacInvite(m) => m.active(),
            TrxStateSm::Uac(m) => m.active(),
            TrxStateSm::UasInvite(m) => m.active(),
        }
    }

    pub open spec fn trx_id(self) -> Seq<char> {
        match self {
            TrxStateSm::UacInvite(m) => m.id@,
            TrxStateSm::Uac(m) => m.id@,
            TrxStateSm::UasInvite(m) => m.id@,
        }
    }

    pub fn new_uac_invite(id: String, request: rsip::Request, now: u64) -> (sm: Self)
        ensures
            sm == TrxStateSm::UacInvite(uac_invite::TrxStateMachine {
                id,
                state: uac_invite::TrxState::Calling(uac_invite::Calling { entered_at: now, retransmissions_count: 0, last_retransmission_at: now }),
                request,
                created_at: now,
            }),
            sm.wf(),
    {
        TrxStateSm::UacInvite(uac_invite::TrxStateMachine::new(id, request, now))
    }

    pub fn new_uac(id: String, request: rsip::Request, now: u64) -> (sm: Self)
        ensures
            sm == TrxStateSm::Uac(uac::TrxStateMachine {
                id,
                state: uac::TrxState::Trying(uac::Trying { entered_at: now, retransmissions_count: 0, last_retransmission_at: now }),
                request,
                created_at: now,
            }),
            sm.wf(),
    {
        TrxStateSm::Uac(uac::TrxStateMachine::new(id, request, now))
    }

    pub fn new_uas_invite(id: String, request: rsip::Request, response: rsip::Response, now: u64) -> (sm: Self)
        ensures
            sm == TrxStateSm::UasInvite(uas_invite::TrxStateMachine {
                id,
                state: uas_invite::TrxState::Proceeding(uas_invite::Proceeding { entered_at: now }),
                request,
                response,
                created_at: now,
            }),
            sm.wf(),
    {
        TrxStateSm::UasInvite(uas_invite::TrxStateMachine::new(id, request, response, now))
    }

    pub fn id(&self) -> (id: String)
        ensures
            id@ == self.trx_id(),
    {
        match self {
            TrxStateSm::UacInvite(m) => m.id.clone(),
            TrxStateSm::Uac(m) => m.id.clone(),
            TrxStateSm::UasInvite(m) => m.id.clone(),
        }
    }

    pub fn has_id(&self, id: &String) -> (b: bool)
        ensures
            b == (self.trx_id() == id@),
    {
        match self {
            TrxStateSm::UacInvite(m) => m.id == *id,
            TrxStateSm::Uac(m) => m.id == *id,
            TrxStateSm::UasInvite(m) => m.id == *id,
        }
    }

    pub fn is_active(&self) -> (b: bool)
        ensures
            b == self.active(),
    {
        match self {
            TrxStateSm::UacInvite(m) => m.is_active(),
            TrxStateSm::Uac(m) => m.is_active(),
            TrxStateSm::UasInvite(m) => m.is_active(),
        }
    }

    pub fn transport_error(&mut self, reason: String, now: u64)
        ensures
            *final(self) == after_failure(*old(self), crate::transaction::TrxErrorCause::Transport(reason), now),
            final(self).wf(),
    {
        match self {
            TrxStateSm::UacInvite(m) => m.transport_error(reason, now),
            TrxStateSm::Uac(m) => m.transport_error(reason, now),
            TrxStateSm::UasInvite(m) => m.transport_error(reason, now),
        }
    }

    /// Work that a step of this transaction asked for failed.
    pub fn step_failed(&mut self, error: String, now: u64)
        ensures
            exists|text: String| #![auto] text@ == crate::transaction::step_error_text(old(self).trx_id(), error@)
                && *final(self) == after_failure(*old(self), crate::transaction::TrxErrorCause::Step(text), now),
            final(self).wf(),
    {
        match self {
            TrxStateSm::UacInvite(m) => m.step_failed(error, now),
            TrxStateSm::Uac(m) => m.step_failed(error, now),
            TrxStateSm::UasInvite(m) => m.step_failed(error, now),
        }
    }

    /// A timer tick at `now`.
    pub fn tick(&mut self, now: u64) -> (actions: Vec<TrxAction>)
        requires
            old(self).wf(),
        ensures
            final(self).wf(),
            (*final(self), actions@) == after_tick(*old(self), now),
    {
        match self {
            TrxStateSm::UacInvite(m) => m.next(None, now),
            TrxStateSm::Uac(m) => m.next(None, now),
            TrxStateSm::UasInvite(m) => m.next(None, now),
        }
    }

    /// Only client transactions take responses from the transport layer.
    pub fn process_response(&mut self, msg: rsip::Response, now: u64) -> (r: Result<Vec<TrxAction>, TransactionError>)
        requires
            old(self).wf(),
        ensures
            final(self).wf(),
            match after_response(*old(self), msg, now) {
                Some((sm, actions)) => r matches Ok(a) && a@ == actions && *final(self) == sm,
                None => r == Err::<Vec<TrxAction>, TransactionError>(TransactionError::UnexpectedState)
                    && *final(self) == *old(self),
            },
    {
        match self {
            TrxStateSm::UacInvite(m) => Ok(m.next(Some(msg), now)),
            TrxStateSm::Uac(m) => Ok(m.next(Some(msg), now)),
            _ => Err(TransactionError::UnexpectedState),
        }
    }

    /// Only server transactions take requests from the transport layer.
    pub fn process_request(&mut self, msg: rsip::Request, now: u64) -> (r: Result<Vec<TrxAction>, TransactionError>)
        requires
            old(self).wf(),
        ensures
            final(self).wf(),
            match after_request(*old(self), msg, now) {
                Some((sm, actions)) => r matches Ok(a) && a@ == actions && *final(self) == sm,
                None => r == Err::<Vec<TrxAction>, TransactionError>(TransactionError::UnexpectedState)
                    && *final(self) == *old(self),
            },
    {
        match self {
            TrxStateSm::UasInvite(m) => Ok(m.next(Some(SipMessage::Request(msg)), now)),
            _ => Err(TransactionError::UnexpectedState),
        }
    }

    /// Only server transactions take replies from the transaction user.
    pub fn process_tu_reply(&mut self, msg: rsip::Response, now: u64) -> (r: Result<Vec<TrxAction>, TransactionError>)
        requires
            old(self).wf(),
        ensures
            final(self).wf(),
            match after_reply(*old(self), msg, now) {
                Some((sm, actions)) => r matches Ok(a) && a@ == actions && *final(self) == sm,
                None => r == Err::<Vec<TrxAction>, TransactionError>(TransactionError::UnexpectedState)
                    && *final(self) == *old(self),
            },
    {
        match self {
            TrxStateSm::UasInvite(m) => Ok(m.next(Some(SipMessage::Response(msg)), now)),
            _ => Err(TransactionError::UnexpectedState),
        }
    }
}

} // verus!
