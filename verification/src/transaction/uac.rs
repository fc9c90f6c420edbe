//! Client INVITE transaction whose states keep the last response, with a
//! separate `Errored` state (the variant driven by a shared server manager).
use crate::sip::{clone_request, clone_response, response_code, response_kind,
    response_status_code, status_kind_of, StatusCodeKind};
use crate::transaction::sm::uac::{kind_rank_after_successful, lemma_retransmit_keeps_timers};
use crate::transaction::sm::uac_invite::Calling;
use crate::transaction::{step_error, step_error_text, addressed_response, elapsed, elapsed_ms, TrxAction, TrxErrorCause, TrxStateName};
use crate::transport::{clone_host_with_port, RequestMsg, ResponseMsg};
use vstd::prelude::*;

verus! {

pub const TIMER_T1: u64 = 500;
pub const TIMER_B: u64 = 64 * TIMER_T1;
pub const TIMER_M: u64 = 64 * TIMER_T1;
pub const TIMER_D: u64 = 32000;

/// A provisional response arrived; `response` is the latest one.
#[derive(Debug)]
pub struct Proceeding {
    pub response: rsip::Response,
    pub entered_at: u64,
}

impl Proceeding {
    pub fn with_response(&mut self, response: rsip::Response)
        ensures
            final(self).response == response,
            final(self).entered_at == old(self).entered_at,
    {
        self.response = response;
    }
}

/// A non-2xx final response arrived and was acknowledged.
#[derive(Debug)]
pub struct Completed {
    pub response: rsip::Response,
    pub entered_at: u64,
}

impl Completed {
    pub open spec fn terminates_at(self, now: u64) -> bool {
        elapsed(now, self.entered_at) > TIMER_D
    }

    pub fn should_terminate(&self, now: u64) -> (b: bool)
        ensures
            b == self.terminates_at(now),
    {
        elapsed_ms(now, self.entered_at) > TIMER_D
    }
}

/// A 2xx final response arrived; `response` is the latest one.
#[derive(Debug)]
pub struct Accepted {
    pub response: rsip::Response,
    pub entered_at: u64,
}

impl Accepted {
    pub open spec fn terminates_at(self, now: u64) -> bool {
        elapsed(now, self.entered_at) > TIMER_M
    }

    pub fn should_terminate(&self, now: u64) -> (b: bool)
        ensures
            b == self.terminates_at(now),
    {
        elapsed_ms(now, self.entered_at) > TIMER_M
    }
}

/// The transaction ended; `response` is its final response, `None` when it timed out.
#[derive(Debug)]
pub struct Terminated {
    pub response: Option<rsip::Response>,
    pub entered_at: u64,
}

/// The transaction failed.
#[derive(Debug)]
pub struct Errored {
    pub error: TrxErrorCause,
    pub response: Option<rsip::Response>,
    pub entered_at: u64,
}

#[derive(Debug)]
pub enum TrxState {
    Calling(Calling),
    Proceeding(Proceeding),
    Completed(Completed),
    Accepted(Accepted),
    Terminated(Terminated),
    Errored(Errored),
}

impl TrxState {
    pub open spec fn name(self) -> TrxStateName {
        match self {
            TrxState::Calling(_) => TrxStateName::Calling,
            TrxState::Proceeding(_) => TrxStateName::Proceeding,
            TrxState::Completed(_) => TrxStateName::Completed,
            TrxState::Accepted(_) => TrxStateName::Accepted,
            TrxState::Terminated(_) => TrxStateName::Terminated,
            TrxState::Errored(_) => TrxStateName::Errored,
        }
    }

    pub fn state_name(&self) -> (n: TrxStateName)
        ensures
            n == self.name(),
    {
        match self {
            TrxState::Calling(_) => TrxStateName::Calling,
            TrxState::Proceeding(_) => TrxStateName::Proceeding,
            TrxState::Completed(_) => TrxStateName::Completed,
            TrxState::Accepted(_) => TrxStateName::Accepted,
            TrxState::Terminated(_) => TrxStateName::Terminated,
            TrxState::Errored(_) => TrxStateName::Errored,
        }
    }

    pub open spec fn wf(self) -> bool {
        match self {
            TrxState::Calling(c) => c.timers().wf(),
            _ => true,
        }
    }
}

pub open spec fn errored(error: TrxErrorCause, response: Option<rsip::Response>, now: u64) -> TrxState {
    TrxState::Errored(Errored { error, response, entered_at: now })
}

/// The state entered on termination: it keeps the final response of an
/// accepted or completed transaction.
pub open spec fn terminated(state: TrxState, now: u64) -> TrxState {
    TrxState::Terminated(Terminated {
        response: match state {
            TrxState::Accepted(a) => Some(a.response),
            TrxState::Completed(c) => Some(c.response),
            _ => None,
        },
        entered_at: now,
    })
}

/// The state after the latest response is replaced by `response`; only the
/// states that keep a response allow it.
pub open spec fn response_updated(state: TrxState, response: rsip::Response, now: u64) -> TrxState {
    match state {
        TrxState::Proceeding(p) => TrxState::Proceeding(Proceeding { response, entered_at: p.entered_at }),
        TrxState::Completed(c) => TrxState::Completed(Completed { response, entered_at: c.entered_at }),
        TrxState::Accepted(a) => TrxState::Accepted(Accepted { response, entered_at: a.entered_at }),
        TrxState::Errored(e) => TrxState::Errored(Errored { response: Some(response), entered_at: e.entered_at, error: e.error }),
        _ => errored(
            TrxErrorCause::WrongTransition { from: state.name(), to: state.name() },
            Some(response),
            now,
        ),
    }
}

/// The state and the actions after a timer tick at `now`; `msg` is the
/// request of the transaction with its peer and transport.
pub open spec fn tick(state: TrxState, msg: RequestMsg, now: u64) -> (TrxState, Seq<TrxAction>) {
    match state {
        TrxState::Calling(c) => if c.timers().timed_out_at(now) {
            (terminated(state, now), seq![])
        } else if c.timers().retransmit_due_at(now) {
            (
                TrxState::Calling(Calling::from_timers(c.timers().retransmitted_at(now))),
                seq![TrxAction::SendRequestMsg(msg)],
            )
        } else {
            (state, seq![])
        },
        TrxState::Completed(c) => if c.terminates_at(now) { (terminated(state, now), seq![]) } else { (state, seq![]) },
        TrxState::Accepted(a) => if a.terminates_at(now) { (terminated(state, now), seq![]) } else { (state, seq![]) },
        _ => (state, seq![]),
    }
}

/// The state and the actions after `response` arrives at `now`; `msg` is
/// the request of the transaction with its peer and transport, which the
/// response goes to the user with and the ACK goes out to.
pub open spec fn on_response(state: TrxState, msg: RequestMsg, response: rsip::Response, now: u64) -> (TrxState, Seq<TrxAction>) {
    let kind = response_kind(response);
    let to_tu = TrxAction::ResponseMsgToTu(addressed_response(msg, response));
    match state {
        TrxState::Calling(_) => if kind == StatusCodeKind::Provisional {
            (TrxState::Proceeding(Proceeding { response, entered_at: now }), seq![to_tu])
        } else if kind == StatusCodeKind::Successful {
            (TrxState::Accepted(Accepted { response, entered_at: now }), seq![to_tu])
        } else {
            (TrxState::Completed(Completed { response, entered_at: now }), seq![to_tu])
        },
        TrxState::Proceeding(_) => if kind == StatusCodeKind::Provisional {
            (response_updated(state, response, now), seq![to_tu])
        } else if kind == StatusCodeKind::Successful {
            (TrxState::Accepted(Accepted { response, entered_at: now }), seq![to_tu])
        } else {
            (
                TrxState::Completed(Completed { response, entered_at: now }),
                seq![to_tu, TrxAction::SendAckTo(msg, response)],
            )
        },
        TrxState::Accepted(_) if kind == StatusCodeKind::Successful => (response_updated(state, response, now), seq![to_tu]),
        TrxState::Completed(_) if kind_rank_after_successful(kind) => (
            TrxState::Completed(Completed { response, entered_at: now }),
            seq![TrxAction::SendAckTo(msg, response)],
        ),
        _ => (
            errored(
                TrxErrorCause::UnknownResponse { status_code: response_status_code(response), state: state.name() },
                Some(response),
                now,
            ),
            seq![],
        ),
    }
}

/// State machine of a client INVITE transaction.
#[derive(Debug)]
pub struct TrxStateMachine {
    pub id: String,
    pub state: TrxState,
    pub msg: RequestMsg,
    pub created_at: u64,
}

impl TrxStateMachine {
    /// `request` addressed to the peer of this transaction, over its transport.
    pub fn request_msg_from(&self, request: rsip::Request) -> (m: RequestMsg)
        ensures
            m == (RequestMsg { sip_request: request, peer: self.msg.peer, transport: self.msg.transport }),
    {
        RequestMsg { sip_request: request, peer: clone_host_with_port(&self.msg.peer), transport: self.msg.transport }
    }

    /// `response` addressed to the peer of this transaction, over its transport.
    pub fn response_msg_from(&self, response: rsip::Response) -> (m: ResponseMsg)
        ensures
            m == (ResponseMsg { sip_response: response, peer: self.msg.peer, transport: self.msg.transport }),
    {
        ResponseMsg { sip_response: response, peer: clone_host_with_port(&self.msg.peer), transport: self.msg.transport }
    }

    pub open spec fn wf(self) -> bool {
        self.state.wf()
    }

    pub open spec fn active(self) -> bool {
        !(self.state is Errored) && !(self.state is Terminated)
    }

    /// A new transaction for the INVITE in `msg`, in `Calling` from `now`.
    pub fn new(id: String, msg: RequestMsg, now: u64) -> (sm: Self)
        ensures
            sm.id == id,
            sm.msg == msg,
            sm.created_at == now,
            sm.state == TrxState::Calling(Calling { entered_at: now, retransmissions_count: 0, last_retransmission_at: now }),
            sm.wf(),
    {
        TrxStateMachine { id, state: TrxState::Calling(Calling::new(now)), msg, created_at: now }
    }

    pub fn is_active(&self) -> (b: bool)
        ensures
            b == self.active(),
    {
        !matches!(self.state, TrxState::Errored(_) | TrxState::Terminated(_))
    }

    /// One step: a timer tick when `response` is `None`, else the arrival of `response`.
    pub fn next(&mut self, response: Option<rsip::Response>, now: u64) -> (actions: Vec<TrxAction>)
        requires
            old(self).wf(),
        ensures
            final(self).wf(),
            final(self).id == old(self).id,
            final(self).msg == old(self).msg,
            final(self).created_at == old(self).created_at,
            (final(self).state, actions@) == (match response {
                Some(r) => on_response(old(self).state, old(self).msg, r, now),
                None => tick(old(self).state, old(self).msg, now),
            }),
    {
        match response {
            Some(response) => self.next_step_with(response, now),
            None => self.next_step(now),
        }
    }

    /// Work that a step asked for failed: the transaction ends in error.
    pub fn step_failed(&mut self, error: String, now: u64)
        ensures
            final(self).id == old(self).id,
            final(self).msg == old(self).msg,
            final(self).created_at == old(self).created_at,
            exists|text: String| #![auto] text@ == step_error_text(old(self).id@, error@)
                && final(self).state == errored(TrxErrorCause::Step(text), None, now),
    {
        let text = step_error(&self.id, &error);
        self.error(TrxErrorCause::Step(text), None, now);
    }

    fn next_step(&mut self, now: u64) -> (actions: Vec<TrxAction>)
        requires
            old(self).wf(),
        ensures
            final(self).wf(),
            final(self).id == old(self).id,
            final(self).msg == old(self).msg,
            final(self).created_at == old(self).created_at,
            (final(self).state, actions@) == tick(old(self).state, old(self).msg, now),
    {
        let mut actions: Vec<TrxAction> = Vec::new();
        match &self.state {
            TrxState::Calling(calling) => {
                let calling = *calling;
                if calling.has_timedout(now) {
                    self.terminate(now);
                } else if calling.should_retransmit(now) {
                    proof {
                        lemma_retransmit_keeps_timers(calling.timers(), now);
                    }
                    actions.push(TrxAction::SendRequestMsg(self.request_msg_from(clone_request(&self.msg.sip_request))));
                    self.state = TrxState::Calling(calling.retransmit(now));
                }
            },
            TrxState::Completed(completed) => {
                if completed.should_terminate(now) {
                    self.terminate(now);
                }
            },
            TrxState::Accepted(accepted) => {
                if accepted.should_terminate(now) {
                    self.terminate(now);
                }
            },
            _ => {},
        }
        actions
    }

    fn next_step_with(&mut self, response: rsip::Response, now: u64) -> (actions: Vec<TrxAction>)
        requires
            old(self).wf(),
        ensures
            final(self).wf(),
            final(self).id == old(self).id,
            final(self).msg == old(self).msg,
            final(self).created_at == old(self).created_at,
            (final(self).state, actions@) == on_response(old(self).state, old(self).msg, response, now),
    {
        let kind = status_kind_of(&response);
        let name = self.state.state_name();
        let mut actions: Vec<TrxAction> = Vec::new();
        match &self.state {
            TrxState::Calling(_) => {
                actions.push(TrxAction::ResponseMsgToTu(self.response_msg_from(clone_response(&response))));
                if kind == StatusCodeKind::Provisional {
                    self.proceed(response, now);
                } else if kind == StatusCodeKind::Successful {
                    self.accept(response, now);
                } else {
                    self.complete(response, now);
                }
            },
            TrxState::Proceeding(_) => {
                actions.push(TrxAction::ResponseMsgToTu(self.response_msg_from(clone_response(&response))));
                if kind == StatusCodeKind::Provisional {
                    self.update_response(response, now);
                } else if kind == StatusCodeKind::Successful {
                    self.accept(response, now);
                } else {
                    actions.push(TrxAction::SendAckTo(
                    self.request_msg_from(clone_request(&self.msg.sip_request)),
                    clone_response(&response),
                ));
                    self.complete(response, now);
                }
            },
            TrxState::Accepted(_) if kind == StatusCodeKind::Successful => {
                actions.push(TrxAction::ResponseMsgToTu(self.response_msg_from(clone_response(&response))));
                self.update_response(response, now);
            },
            TrxState::Completed(_) if kind.is_after_successful() => {
                actions.push(TrxAction::SendAckTo(
                    self.request_msg_from(clone_request(&self.msg.sip_request)),
                    clone_response(&response),
                ));
                self.complete(response, now);
            },
            _ => {
                let code = response_code(&response);
                self.error(
                    TrxErrorCause::UnknownResponse { status_code: code, state: name },
                    Some(response),
                    now,
                );
            },
        }
        actions
    }

    fn proceed(&mut self, response: rsip::Response, now: u64)
        ensures
            final(self).id == old(self).id,
            final(self).msg == old(self).msg,
            final(self).created_at == old(self).created_at,
            final(self).state == TrxState::Proceeding(Proceeding { response, entered_at: now }),
    {
        self.state = TrxState::Proceeding(Proceeding { response, entered_at: now });
    }

    fn update_response(&mut self, response: rsip::Response, now: u64)
        ensures
            final(self).id == old(self).id,
            final(self).msg == old(self).msg,
            final(self).created_at == old(self).created_at,
            final(self).state == response_updated(old(self).state, response, now),
    {
        let name = self.state.state_name();
        let new_state = match &self.state {
            TrxState::Proceeding(state) => TrxState::Proceeding(Proceeding { response, entered_at: state.entered_at }),
            TrxState::Completed(state) => TrxState::Completed(Completed { response, entered_at: state.entered_at }),
            TrxState::Accepted(state) => TrxState::Accepted(Accepted { response, entered_at: state.entered_at }),
            TrxState::Errored(state) => TrxState::Errored(Errored {
                response: Some(response),
                entered_at: state.entered_at,
                error: clone_cause(&state.error),
            }),
            _ => TrxState::Errored(Errored {
                error: TrxErrorCause::WrongTransition { from: name, to: name },
                response: Some(response),
                entered_at: now,
            }),
        };
        self.state = new_state;
    }

    fn complete(&mut self, response: rsip::Response, now: u64)
        ensures
            final(self).id == old(self).id,
            final(self).msg == old(self).msg,
            final(self).created_at == old(self).created_at,
            final(self).state == TrxState::Completed(Completed { response, entered_at: now }),
    {
        self.state = TrxState::Completed(Completed { response, entered_at: now });
    }

    fn accept(&mut self, response: rsip::Response, now: u64)
        ensures
            final(self).id == old(self).id,
            final(self).msg == old(self).msg,
            final(self).created_at == old(self).created_at,
            final(self).state == TrxState::Accepted(Accepted { response, entered_at: now }),
    {
        self.state = TrxState::Accepted(Accepted { response, entered_at: now });
    }

    fn terminate(&mut self, now: u64)
        ensures
            final(self).id == old(self).id,
            final(self).msg == old(self).msg,
            final(self).created_at == old(self).created_at,
            final(self).state == terminated(old(self).state, now),
    {
        let response = match &self.state {
            TrxState::Accepted(accepted) => Some(clone_response(&accepted.response)),
            TrxState::Completed(completed) => Some(clone_response(&completed.response)),
            _ => None,
        };
        self.state = TrxState::Terminated(Terminated { response, entered_at: now });
    }

    fn error(&mut self, error: TrxErrorCause, response: Option<rsip::Response>, now: u64)
        ensures
            final(self).id == old(self).id,
            final(self).msg == old(self).msg,
            final(self).created_at == old(self).created_at,
            final(self).state == errored(error, response, now),
    {
        self.state = TrxState::Errored(Errored { error, response, entered_at: now });
    }
}

/// A copy of an error cause.
pub fn clone_cause(cause: &TrxErrorCause) -> (copy: TrxErrorCause)
    ensures
        copy == *cause,
{
    match cause {
        TrxErrorCause::Transport(s) => TrxErrorCause::Transport(s.clone()),
        TrxErrorCause::Step(s) => TrxErrorCause::Step(s.clone()),
        TrxErrorCause::UnknownResponse { status_code, state } => TrxErrorCause::UnknownResponse { status_code: *status_code, state: *state },
        TrxErrorCause::UnknownRequest { method, state } => TrxErrorCause::UnknownRequest { method: *method, state: *state },
        TrxErrorCause::WrongTransition { from, to } => TrxErrorCause::WrongTransition { from: *from, to: *to },
    }
}

} // verus!
