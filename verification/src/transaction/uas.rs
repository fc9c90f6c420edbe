//! Server INVITE transaction with a separate `Errored` state (the variant
//! driven by a shared server manager).
use crate::sip::{clone_response, request_method, request_method_of, response_code, response_kind,
    response_status_code, status_kind_of, Method, SipMessage, StatusCodeKind};
use crate::transaction::sm::uas_invite::{lemma_completed_retransmit_keeps_timers, Completed};
use crate::transaction::{step_error, step_error_text, addressed_request, addressed_response, elapsed, elapsed_ms, TrxAction, TrxErrorCause,
    TrxStateName};
use crate::transport::{clone_host_with_port, RequestMsg, ResponseMsg};
use vstd::prelude::*;

verus! {

pub const TIMER_T1: u64 = 500;
pub const TIMER_T2: u64 = 4000;
pub const TIMER_G: u64 = TIMER_T1;
pub const TIMER_H: u64 = 64 * TIMER_T1;
pub const TIMER_T4: u64 = 5000;
pub const TIMER_I: u64 = TIMER_T4;
pub const TIMER_L: u64 = 64 * TIMER_T1;

/// The request arrived; the user has not sent a final response yet.
#[derive(Clone, Copy, Debug)]
pub struct Proceeding {
    pub entered_at: u64,
}

/// A 2xx final response was sent; ACKs for it go to the user.
#[derive(Clone, Copy, Debug)]
pub struct Accepted {
    pub entered_at: u64,
}

impl Accepted {
    pub open spec fn terminates_at(self, now: u64) -> bool {
        elapsed(now, self.entered_at) > TIMER_L
    }

    pub fn should_terminate(&self, now: u64) -> (b: bool)
        ensures
            b == self.terminates_at(now),
    {
        elapsed_ms(now, self.entered_at) > TIMER_L
    }
}

/// The ACK for a non-2xx final response arrived; later ACKs are absorbed.
#[derive(Debug)]
pub struct Confirmed {
    pub request: rsip::Request,
    pub entered_at: u64,
}

impl Confirmed {
    pub open spec fn terminates_at(self, now: u64) -> bool {
        elapsed(now, self.entered_at) > TIMER_I
    }

    pub fn should_terminate(&self, now: u64) -> (b: bool)
        ensures
            b == self.terminates_at(now),
    {
        elapsed_ms(now, self.entered_at) > TIMER_I
    }
}

/// The transaction ended, on a timer that expired or not.
#[derive(Debug)]
pub struct Terminated {
    pub timedout: bool,
    pub entered_at: u64,
}

/// The transaction failed.
#[derive(Debug)]
pub struct Errored {
    pub error: TrxErrorCause,
    pub sip_message: Option<SipMessage>,
    pub entered_at: u64,
}

pub const TIMED_OUT: bool = true;
pub const DID_NOT_TIME_OUT: bool = false;

#[derive(Debug)]
pub enum TrxState {
    Proceeding(Proceeding),
    Completed(Completed),
    Accepted(Accepted),
    Confirmed(Confirmed),
    Terminated(Terminated),
    Errored(Errored),
}

impl TrxState {
    pub open spec fn name(self) -> TrxStateName {
        match self {
            TrxState::Proceeding(_) => TrxStateName::Proceeding,
            TrxState::Completed(_) => TrxStateName::Completed,
            TrxState::Accepted(_) => TrxStateName::Accepted,
            TrxState::Confirmed(_) => TrxStateName::Confirmed,
            TrxState::Terminated(_) => TrxStateName::Terminated,
            TrxState::Errored(_) => TrxStateName::Errored,
        }
    }

    pub fn state_name(&self) -> (n: TrxStateName)
        ensures
            n == self.name(),
    {
        match self {
            TrxState::Proceeding(_) => TrxStateName::Proceeding,
            TrxState::Completed(_) => TrxStateName::Completed,
            TrxState::Accepted(_) => TrxStateName::Accepted,
            TrxState::Confirmed(_) => TrxStateName::Confirmed,
            TrxState::Terminated(_) => TrxStateName::Terminated,
            TrxState::Errored(_) => TrxStateName::Errored,
        }
    }

    pub open spec fn wf(self) -> bool {
        match self {
            TrxState::Completed(c) => c.wf(),
            _ => true,
        }
    }
}

pub open spec fn errored(error: TrxErrorCause, sip_message: Option<SipMessage>, now: u64) -> TrxState {
    TrxState::Errored(Errored { error, sip_message, entered_at: now })
}

/// The state and the actions after a timer tick at `now`; `msg` is the
/// request of the transaction with its peer and transport, and `response`
/// the response that the transaction last sent.
pub open spec fn tick(state: TrxState, msg: RequestMsg, response: rsip::Response, now: u64) -> (TrxState, Seq<TrxAction>) {
    match state {
        TrxState::Completed(c) => if c.timed_out_at(now) {
            (TrxState::Terminated(Terminated { timedout: TIMED_OUT, entered_at: now }), seq![])
        } else if c.retransmit_due_at(now) {
            (TrxState::Completed(c.retransmitted_at(now)), seq![TrxAction::SendResponseMsg(addressed_response(msg, response))])
        } else {
            (state, seq![])
        },
        TrxState::Accepted(a) => if a.terminates_at(now) {
            (TrxState::Terminated(Terminated { timedout: TIMED_OUT, entered_at: now }), seq![])
        } else {
            (state, seq![])
        },
        TrxState::Confirmed(c) => if c.terminates_at(now) {
            (TrxState::Terminated(Terminated { timedout: DID_NOT_TIME_OUT, entered_at: now }), seq![])
        } else {
            (state, seq![])
        },
        _ => (state, seq![]),
    }
}

/// The state and the actions after `request` arrives at `now`; `msg` is the
/// request of the transaction with its peer and transport, and `response`
/// the response that the transaction last sent.
pub open spec fn on_request(state: TrxState, msg: RequestMsg, response: rsip::Response, request: rsip::Request, now: u64) -> (TrxState, Seq<TrxAction>) {
    let method = request_method_of(request);
    let resend = TrxAction::SendResponseMsg(addressed_response(msg, response));
    match state {
        TrxState::Proceeding(_) if method == Method::Invite => (state, seq![resend]),
        TrxState::Completed(_) if method == Method::Invite => (state, seq![resend]),
        TrxState::Completed(_) if method == Method::Ack => (
            TrxState::Confirmed(Confirmed { request, entered_at: now }),
            seq![],
        ),
        TrxState::Accepted(_) if method == Method::Invite => (state, seq![resend]),
        TrxState::Accepted(_) if method == Method::Ack => (state, seq![TrxAction::RequestMsgToTu(addressed_request(msg, request))]),
        TrxState::Confirmed(_) if method == Method::Ack => (state, seq![]),
        _ => (
            errored(
                TrxErrorCause::UnknownRequest { method, state: state.name() },
                Some(SipMessage::Request(request)),
                now,
            ),
            seq![],
        ),
    }
}

/// The state, the response kept for retransmission, and the actions after
/// the user hands over `reply` at `now`; `msg` is the request of the
/// transaction with its peer and transport, and `response` the response
/// kept so far.
pub open spec fn on_reply(state: TrxState, msg: RequestMsg, response: rsip::Response, reply: rsip::Response, now: u64) -> (TrxState, rsip::Response, Seq<TrxAction>) {
    let kind = response_kind(reply);
    let send = TrxAction::SendResponseMsg(addressed_response(msg, reply));
    match state {
        TrxState::Proceeding(_) => if kind == StatusCodeKind::Provisional {
            (state, reply, seq![send])
        } else if kind == StatusCodeKind::Successful {
            (TrxState::Accepted(Accepted { entered_at: now }), reply, seq![send])
        } else {
            (
                TrxState::Completed(Completed { entered_at: now, retransmissions_count: 0, last_retransmission_at: now }),
                reply,
                seq![send],
            )
        },
        TrxState::Accepted(_) if kind == StatusCodeKind::Successful => (
            state,
            response,
            seq![TrxAction::SendResponseMsg(addressed_response(msg, response))],
        ),
        _ => (
            errored(
                TrxErrorCause::UnknownResponse { status_code: response_status_code(reply), state: state.name() },
                Some(SipMessage::Response(reply)),
                now,
            ),
            response,
            seq![],
        ),
    }
}

/// State machine of a server INVITE transaction.
#[derive(Debug)]
pub struct TrxStateMachine {
    pub id: String,
    pub state: TrxState,
    pub msg: RequestMsg,
    /// The last response sent, which retransmissions repeat.
    pub response: rsip::Response,
    pub created_at: u64,
}

impl TrxStateMachine {
    /// `request` addressed to the peer of this transaction, over its transport.
    pub fn request_msg_from(&self, request: rsip::Request) -> (m: RequestMsg)
        ensures
            m == (RequestMsg { sip_request: request, peer: self.msg.peer, transport: self.msg.transport }),
    {
        RequestMsg { sip_request: request, peer: clone_host_with_port(&self.msg.peer), transport: self.msg.transport }
    }

    /// `response` addressed to the peer of this transaction, over its transport.
    pub fn response_msg_from(&self, response: rsip::Response) -> (m: ResponseMsg)
        ensures
            m == (ResponseMsg { sip_response: response, peer: self.msg.peer, transport: self.msg.transport }),
    {
        ResponseMsg { sip_response: response, peer: clone_host_with_port(&self.msg.peer), transport: self.msg.transport }
    }

    pub open spec fn wf(self) -> bool {
        self.state.wf()
    }

    pub open spec fn active(self) -> bool {
        !(self.state is Errored) && !(self.state is Terminated)
    }

    /// A new transaction for the INVITE in `msg`, in `Proceeding` from `now`,
    /// keeping `response` (the user's response, or a provisional 100) to resend.
    pub fn new(id: String, msg: RequestMsg, response: rsip::Response, now: u64) -> (sm: Self)
        ensures
            sm.id == id,
            sm.msg == msg,
            sm.response == response,
            sm.created_at == now,
            sm.state == TrxState::Proceeding(Proceeding { entered_at: now }),
            sm.wf(),
    {
        TrxStateMachine { id, state: TrxState::Proceeding(Proceeding { entered_at: now }), msg, response, created_at: now }
    }

    pub fn is_active(&self) -> (b: bool)
        ensures
            b == self.active(),
    {
        !matches!(self.state, TrxState::Errored(_) | TrxState::Terminated(_))
    }

    /// One step: a timer tick when `sip_message` is `None`, an incoming
    /// request, or an outgoing response that the user hands over.
    pub fn next(&mut self, sip_message: Option<SipMessage>, now: u64) -> (actions: Vec<TrxAction>)
        requires
            old(self).wf(),
        ensures
            final(self).wf(),
            final(self).id == old(self).id,
            final(self).msg == old(self).msg,
            final(self).created_at == old(self).created_at,
            match sip_message {
                Some(SipMessage::Request(r)) => {
                    &&& (final(self).state, actions@) == on_request(old(self).state, old(self).msg, old(self).response, r, now)
                    &&& final(self).response == old(self).response
                },
                Some(SipMessage::Response(r)) => (final(self).state, final(self).response, actions@)
                    == on_reply(old(self).state, old(self).msg, old(self).response, r, now),
                None => {
                    &&& (final(self).state, actions@) == tick(old(self).state, old(self).msg, old(self).response, now)
                    &&& final(self).response == old(self).response
                },
            },
    {
        match sip_message {
            Some(SipMessage::Request(request)) => self.next_step_with_incoming_request(request, now),
            Some(SipMessage::Response(response)) => self.next_step_with_outgoing_response(response, now),
            None => self.next_step(now),
        }
    }

    /// Work that a step asked for failed: the transaction ends in error.
    pub fn step_failed(&mut self, error: String, now: u64)
        ensures
            final(self).id == old(self).id,
            final(self).msg == old(self).msg,
            final(self).response == old(self).response,
            final(self).created_at == old(self).created_at,
            exists|text: String| #![auto] text@ == step_error_text(old(self).id@, error@)
                && final(self).state == errored(TrxErrorCause::Step(text), None, now),
    {
        let text = step_error(&self.id, &error);
        self.error(TrxErrorCause::Step(text), None, now);
    }

    fn next_step(&mut self, now: u64) -> (actions: Vec<TrxAction>)
        requires
            old(self).wf(),
        ensures
            final(self).wf(),
            final(self).id == old(self).id,
            final(self).msg == old(self).msg,
            final(self).response == old(self).response,
            final(self).created_at == old(self).created_at,
            (final(self).state, actions@) == tick(old(self).state, old(self).msg, old(self).response, now),
    {
        let mut actions: Vec<TrxAction> = Vec::new();
        match &self.state {
            TrxState::Completed(completed) => {
                let completed = *completed;
                if completed.has_timedout(now) {
                    self.terminate(TIMED_OUT, now);
                } else if completed.should_retransmit(now) {
                    proof {
                        lemma_completed_retransmit_keeps_timers(completed, now);
                    }
                    actions.push(TrxAction::SendResponseMsg(self.response_msg_from(clone_response(&self.response))));
                    self.state = TrxState::Completed(completed.retransmit(now));
                }
            },
            TrxState::Accepted(accepted) => {
                if accepted.should_terminate(now) {
                    self.terminate(TIMED_OUT, now);
                }
            },
            TrxState::Confirmed(confirmed) => {
                if confirmed.should_terminate(now) {
                    self.terminate(DID_NOT_TIME_OUT, now);
                }
            },
            _ => {},
        }
        actions
    }

    fn next_step_with_incoming_request(&mut self, request: rsip::Request, now: u64) -> (actions: Vec<TrxAction>)
        requires
            old(self).wf(),
        ensures
            final(self).wf(),
            final(self).id == old(self).id,
            final(self).msg == old(self).msg,
            final(self).response == old(self).response,
            final(self).created_at == old(self).created_at,
            (final(self).state, actions@) == on_request(old(self).state, old(self).msg, old(self).response, request, now),
    {
        let method = request_method(&request);
        let name = self.state.state_name();
        let mut actions: Vec<TrxAction> = Vec::new();
        match &self.state {
            TrxState::Proceeding(_) if method == Method::Invite => {
                actions.push(TrxAction::SendResponseMsg(self.response_msg_from(clone_response(&self.response))));
            },
            TrxState::Completed(_) if method == Method::Invite => {
                actions.push(TrxAction::SendResponseMsg(self.response_msg_from(clone_response(&self.response))));
            },
            TrxState::Completed(_) if method == Method::Ack => {
                self.confirm(request, now);
            },
            TrxState::Accepted(_) if method == Method::Invite => {
                actions.push(TrxAction::SendResponseMsg(self.response_msg_from(clone_response(&self.response))));
            },
            TrxState::Accepted(_) if method == Method::Ack => {
                actions.push(TrxAction::RequestMsgToTu(self.request_msg_from(request)));
            },
            TrxState::Confirmed(_) if method == Method::Ack => {},
            _ => {
                self.error(
                    TrxErrorCause::UnknownRequest { method, state: name },
                    Some(SipMessage::Request(request)),
                    now,
                );
            },
        }
        actions
    }

    fn next_step_with_outgoing_response(&mut self, response: rsip::Response, now: u64) -> (actions: Vec<TrxAction>)
        requires
            old(self).wf(),
        ensures
            final(self).wf(),
            final(self).id == old(self).id,
            final(self).msg == old(self).msg,
            final(self).created_at == old(self).created_at,
            (final(self).state, final(self).response, actions@) == on_reply(old(self).state, old(self).msg, old(self).response, response, now),
    {
        let kind = status_kind_of(&response);
        let name = self.state.state_name();
        let mut actions: Vec<TrxAction> = Vec::new();
        match &self.state {
            TrxState::Proceeding(_) => {
                self.response = clone_response(&response);
                actions.push(TrxAction::SendResponseMsg(self.response_msg_from(response)));
                if kind == StatusCodeKind::Successful {
                    self.accept(now);
                } else if kind != StatusCodeKind::Provisional {
                    self.complete(now);
                }
            },
            TrxState::Accepted(_) if kind == StatusCodeKind::Successful => {
                actions.push(TrxAction::SendResponseMsg(self.response_msg_from(clone_response(&self.response))));
            },
            _ => {
                let code = response_code(&response);
                self.error(
                    TrxErrorCause::UnknownResponse { status_code: code, state: name },
                    Some(SipMessage::Response(response)),
                    now,
                );
            },
        }
        actions
    }

    fn complete(&mut self, now: u64)
        ensures
            final(self).id == old(self).id,
            final(self).msg == old(self).msg,
            final(self).response == old(self).response,
            final(self).created_at == old(self).created_at,
            final(self).state == TrxState::Completed(Completed { entered_at: now, retransmissions_count: 0, last_retransmission_at: now }),
    {
        self.state = TrxState::Completed(Completed::new(now));
    }

    fn accept(&mut self, now: u64)
        ensures
            final(self).id == old(self).id,
            final(self).msg == old(self).msg,
            final(self).response == old(self).response,
            final(self).created_at == old(self).created_at,
            final(self).state == TrxState::Accepted(Accepted { entered_at: now }),
    {
        self.state = TrxState::Accepted(Accepted { entered_at: now });
    }

    fn confirm(&mut self, request: rsip::Request, now: u64)
        ensures
            final(self).id == old(self).id,
            final(self).msg == old(self).msg,
            final(self).response == old(self).response,
            final(self).created_at == old(self).created_at,
            final(self).state == TrxState::Confirmed(Confirmed { request, entered_at: now }),
    {
        self.state = TrxState::Confirmed(Confirmed { request, entered_at: now });
    }

    fn terminate(&mut self, timedout: bool, now: u64)
        ensures
            final(self).id == old(self).id,
            final(self).msg == old(self).msg,
            final(self).response == old(self).response,
            final(self).created_at == old(self).created_at,
            final(self).state == TrxState::Terminated(Terminated { timedout, entered_at: now }),
    {
        self.state = TrxState::Terminated(Terminated { timedout, entered_at: now });
    }

    fn error(&mut self, error: TrxErrorCause, sip_message: Option<SipMessage>, now: u64)
        ensures
            final(self).id == old(self).id,
            final(self).msg == old(self).msg,
            final(self).response == old(self).response,
            final(self).created_at == old(self).created_at,
            final(self).state == errored(error, sip_message, now),
    {
        self.state = TrxState::Errored(Errored { error, sip_message, entered_at: now });
    }
}

} // verus!
