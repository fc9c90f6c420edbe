//! Server INVITE transaction (RFC 3261, section 17.2.1, with the
//! `Accepted` state of RFC 6026).
use crate::sip::{clone_response, request_method, request_method_of, response_code, response_kind,
    response_status_code, status_kind_of, Method, SipMessage, StatusCodeKind};
use crate::transaction::{step_error, step_error_text, elapsed, elapsed_ms, pow2, doubled_interval, lemma_pow2_monotone,
    TrxAction, TrxErrorCause, TrxStateName};
use vstd::prelude::*;

verus! {

pub const TIMER_T1: u64 = 500;
pub const TIMER_T2: u64 = 4000;
pub const TIMER_G: u64 = TIMER_T1;
pub const TIMER_H: u64 = 64 * TIMER_T1;
pub const TIMER_T4: u64 = 5000;
pub const TIMER_I: u64 = TIMER_T4;
pub const TIMER_L: u64 = 64 * TIMER_T1;

/// The request arrived; the user has not sent a final response yet.
#[derive(Clone, Copy, Debug)]
pub struct Proceeding {
    pub entered_at: u64,
}

/// A non-2xx final response was sent; it is retransmitted until an ACK arrives or timer H fires.
#[derive(Clone, Copy, Debug)]
pub struct Completed {
    pub entered_at: u64,
    pub retransmissions_count: u8,
    pub last_retransmission_at: u64,
}

/// The smaller of two naturals.
pub open spec fn min_nat(a: nat, b: nat) -> nat {
    if a <= b { a } else { b }
}

impl Completed {
    /// Interval after the last retransmission when the next one is due:
    /// `G * 2^count`, at most `T2`.
    pub open spec fn interval(self) -> nat {
        min_nat((TIMER_G * pow2(self.retransmissions_count as nat)) as nat, TIMER_T2 as nat)
    }

    /// Every retransmission came at least `G` after the one before it.
    pub open spec fn wf(self) -> bool {
        &&& self.last_retransmission_at >= self.entered_at
        &&& self.last_retransmission_at - self.entered_at >= TIMER_G * self.retransmissions_count
    }

    pub open spec fn timed_out_at(self, now: u64) -> bool {
        elapsed(now, self.entered_at) >= TIMER_H
    }

    pub open spec fn retransmit_due_at(self, now: u64) -> bool {
        elapsed(now, self.last_retransmission_at) > self.interval()
    }

    pub open spec fn retransmitted_at(self, now: u64) -> Completed {
        Completed {
            retransmissions_count: (self.retransmissions_count + 1) as u8,
            last_retransmission_at: now,
            ..self
        }
    }

    pub fn new(now: u64) -> (c: Completed)
        ensures
            c == (Completed { entered_at: now, retransmissions_count: 0, last_retransmission_at: now }),
            c.wf(),
    {
        Completed { entered_at: now, retransmissions_count: 0, last_retransmission_at: now }
    }

    pub fn next_retrasmission(&self) -> (ms: u64)
        ensures
            ms == self.interval(),
    {
        if self.retransmissions_count >= 3 {
            proof {
                lemma_pow2_monotone(3, self.retransmissions_count as nat);
                assert(pow2(3) == 8) by {
                    reveal_with_fuel(pow2, 4);
                }
            }
            TIMER_T2
        } else {
            let ms = doubled_interval(TIMER_G, self.retransmissions_count);
            if ms < TIMER_T2 {
                ms
            } else {
                TIMER_T2
            }
        }
    }

    pub fn has_timedout(&self, now: u64) -> (b: bool)
        ensures
            b == self.timed_out_at(now),
    {
        elapsed_ms(now, self.entered_at) >= TIMER_H
    }

    pub fn should_retransmit(&self, now: u64) -> (b: bool)
        ensures
            b == self.retransmit_due_at(now),
    {
        elapsed_ms(now, self.last_retransmission_at) > self.next_retrasmission()
    }

    pub fn retransmit(self, now: u64) -> (c: Completed)
        requires
            self.retransmissions_count < 255,
        ensures
            c == self.retransmitted_at(now),
    {
        Completed {
            retransmissions_count: self.retransmissions_count + 1,
            last_retransmission_at: now,
            ..self
        }
    }
}

/// Intervals are never shorter than `G`.
pub proof fn lemma_interval_at_least_g(c: Completed)
    ensures
        c.interval() >= TIMER_G,
{
    lemma_pow2_monotone(0, c.retransmissions_count as nat);
    assert(TIMER_G * pow2(c.retransmissions_count as nat) >= TIMER_G) by (nonlinear_arith)
        requires
            pow2(c.retransmissions_count as nat) >= 1,
    ;
}

/// A retransmission that is due before timer H keeps the timers consistent.
pub proof fn lemma_completed_retransmit_keeps_timers(c: Completed, now: u64)
    requires
        c.wf(),
        !c.timed_out_at(now),
        c.retransmit_due_at(now),
    ensures
        c.retransmissions_count < 64,
        c.retransmitted_at(now).wf(),
{
    lemma_interval_at_least_g(c);
}

/// A 2xx final response was sent; ACKs for it go to the user.
#[derive(Clone, Copy, Debug)]
pub struct Accepted {
    pub entered_at: u64,
}

impl Accepted {
    pub open spec fn terminates_at(self, now: u64) -> bool {
        elapsed(now, self.entered_at) > TIMER_L
    }

    pub fn should_terminate(&self, now: u64) -> (b: bool)
        ensures
            b == self.terminates_at(now),
    {
        elapsed_ms(now, self.entered_at) > TIMER_L
    }
}

/// The ACK for a non-2xx final response arrived; later ACKs are absorbed.
#[derive(Debug)]
pub struct Confirmed {
    pub request: rsip::Request,
    pub entered_at: u64,
}

impl Confirmed {
    pub open spec fn terminates_at(self, now: u64) -> bool {
        elapsed(now, self.entered_at) > TIMER_I
    }

    pub fn should_terminate(&self, now: u64) -> (b: bool)
        ensures
            b == self.terminates_at(now),
    {
        elapsed_ms(now, self.entered_at) > TIMER_I
    }
}

/// How a transaction ended.
#[derive(Debug)]
pub enum Terminated {
    Expected { entered_at: u64 },
    TimedOut { response: Option<rsip::Response>, entered_at: u64 },
    Errored { error: TrxErrorCause, sip_message: Option<SipMessage>, entered_at: u64 },
}

#[derive(Debug)]
pub enum TrxState {
    Proceeding(Proceeding),
    Completed(Completed),
    Accepted(Accepted),
    Confirmed(Confirmed),
    Terminated(Terminated),
}

impl TrxState {
    pub open spec fn name(self) -> TrxStateName {
        match self {
            TrxState::Proceeding(_) => TrxStateName::Proceeding,
            TrxState::Completed(_) => TrxStateName::Completed,
            TrxState::Accepted(_) => TrxStateName::Accepted,
            TrxState::Confirmed(_) => TrxStateName::Confirmed,
            TrxState::Terminated(_) => TrxStateName::Terminated,
        }
    }

    pub fn state_name(&self) -> (n: TrxStateName)
        ensures
            n == self.name(),
    {
        match self {
            TrxState::Proceeding(_) => TrxStateName::Proceeding,
            TrxState::Completed(_) => TrxStateName::Completed,
            TrxState::Accepted(_) => TrxStateName::Accepted,
            TrxState::Confirmed(_) => TrxStateName::Confirmed,
            TrxState::Terminated(_) => TrxStateName::Terminated,
        }
    }

    pub open spec fn wf(self) -> bool {
        match self {
            TrxState::Completed(c) => c.wf(),
            _ => true,
        }
    }
}

pub open spec fn errored(error: TrxErrorCause, sip_message: Option<SipMessage>, now: u64) -> TrxState {
    TrxState::Terminated(Terminated::Errored { error, sip_message, entered_at: now })
}

/// The state and the actions after a timer tick at `now`; `response` is the
/// response that the transaction last sent.
pub open spec fn tick(state: TrxState, response: rsip::Response, now: u64) -> (TrxState, Seq<TrxAction>) {
    match state {
        TrxState::Completed(c) => if c.timed_out_at(now) {
            (TrxState::Terminated(Terminated::TimedOut { response: None, entered_at: now }), seq![])
        } else if c.retransmit_due_at(now) {
            (TrxState::Completed(c.retransmitted_at(now)), seq![TrxAction::SendResponse(response)])
        } else {
            (state, seq![])
        },
        TrxState::Accepted(a) => if a.terminates_at(now) {
            (TrxState::Terminated(Terminated::TimedOut { response: None, entered_at: now }), seq![])
        } else {
            (state, seq![])
        },
        TrxState::Confirmed(c) => if c.terminates_at(now) {
            (TrxState::Terminated(Terminated::Expected { entered_at: now }), seq![])
        } else {
            (state, seq![])
        },
        _ => (state, seq![]),
    }
}

/// The state and the actions after `request` arrives at `now`; `response` is
/// the response that the transaction last sent.
pub open spec fn on_request(state: TrxState, response: rsip::Response, request: rsip::Request, now: u64) -> (TrxState, Seq<TrxAction>) {
    let method = request_method_of(request);
    match state {
        TrxState::Proceeding(_) if method == Method::Invite => (state, seq![TrxAction::SendResponse(response)]),
        TrxState::Completed(_) if method == Method::Invite => (state, seq![TrxAction::SendResponse(response)]),
        TrxState::Completed(_) if method == Method::Ack => (
            TrxState::Confirmed(Confirmed { request, entered_at: now }),
            seq![],
        ),
        TrxState::Accepted(_) if method == Method::Invite => (state, seq![TrxAction::SendResponse(response)]),
        TrxState::Accepted(_) if method == Method::Ack => (state, seq![TrxAction::RequestToTu(request)]),
        TrxState::Confirmed(_) if method == Method::Ack => (state, seq![]),
        _ => (
            errored(
                TrxErrorCause::UnknownRequest { method, state: state.name() },
                Some(SipMessage::Request(request)),
                now,
            ),
            seq![],
        ),
    }
}

/// The state, the response kept for retransmission, and the actions after
/// the user hands over `reply` at `now`; `response` is the one kept so far.
pub open spec fn on_reply(state: TrxState, response: rsip::Response, reply: rsip::Response, now: u64) -> (TrxState, rsip::Response, Seq<TrxAction>) {
    let kind = response_kind(reply);
    match state {
        TrxState::Proceeding(_) => if kind == StatusCodeKind::Provisional {
            (state, reply, seq![TrxAction::SendResponse(reply)])
        } else if kind == StatusCodeKind::Successful {
            (TrxState::Accepted(Accepted { entered_at: now }), reply, seq![TrxAction::SendResponse(reply)])
        } else {
            (
                TrxState::Completed(Completed { entered_at: now, retransmissions_count: 0, last_retransmission_at: now }),
                reply,
                seq![TrxAction::SendResponse(reply)],
            )
        },
        TrxState::Accepted(_) if kind == StatusCodeKind::Successful => (state, response, seq![TrxAction::SendResponse(response)]),
        _ => (
            errored(
                TrxErrorCause::UnknownResponse { status_code: response_status_code(reply), state: state.name() },
                Some(SipMessage::Response(reply)),
                now,
            ),
            response,
            seq![],
        ),
    }
}

/// State machine of a server INVITE transaction.
#[derive(Debug)]
pub struct TrxStateMachine {
    pub id: String,
    pub state: TrxState,
    pub request: rsip::Request,
    /// The last response sent, which retransmissions repeat.
    pub response: rsip::Response,
    pub created_at: u64,
}

impl TrxStateMachine {
    pub open spec fn wf(self) -> bool {
        self.state.wf()
    }

    pub open spec fn active(self) -> bool {
        !(self.state is Terminated)
    }

    /// A new transaction for the INVITE `request`, in `Proceeding` from `now`,
    /// keeping `response` (the user's response, or a provisional 100) to resend.
    pub fn new(id: String, request: rsip::Request, response: rsip::Response, now: u64) -> (sm: Self)
        ensures
            sm.id == id,
            sm.request == request,
            sm.response == response,
            sm.created_at == now,
            sm.state == TrxState::Proceeding(Proceeding { entered_at: now }),
            sm.wf(),
    {
        TrxStateMachine { id, state: TrxState::Proceeding(Proceeding { entered_at: now }), request, response, created_at: now }
    }

    pub fn is_active(&self) -> (b: bool)
        ensures
            b == self.active(),
    {
        !matches!(self.state, TrxState::Terminated(_))
    }

    /// One step: a timer tick when `sip_message` is `None`, an incoming
    /// request, or an outgoing response that the user hands over.
    pub fn next(&mut self, sip_message: Option<SipMessage>, now: u64) -> (actions: Vec<TrxAction>)
        requires
            old(self).wf(),
        ensures
            final(self).wf(),
            final(self).id == old(self).id,
            final(self).request == old(self).request,
            final(self).created_at == old(self).created_at,
            match sip_message {
                Some(SipMessage::Request(r)) => {
                    &&& (final(self).state, actions@) == on_request(old(self).state, old(self).response, r, now)
                    &&& final(self).response == old(self).response
                },
                Some(SipMessage::Response(r)) => (final(self).state, final(self).response, actions@)
                    == on_reply(old(self).state, old(self).response, r, now),
                None => {
                    &&& (final(self).state, actions@) == tick(old(self).state, old(self).response, now)
                    &&& final(self).response == old(self).response
                },
            },
    {
        match sip_message {
            Some(SipMessage::Request(request)) => self.next_step_with_incoming_request(request, now),
            Some(SipMessage::Response(response)) => self.next_step_with_outgoing_response(response, now),
            None => self.next_step(now),
        }
    }

    /// Work that a step asked for failed: the transaction ends in error.
    pub fn step_failed(&mut self, error: String, now: u64)
        ensures
            final(self).id == old(self).id,
            final(self).request == old(self).request,
            final(self).response == old(self).response,
            final(self).created_at == old(self).created_at,
            exists|text: String| #![auto] text@ == step_error_text(old(self).id@, error@)
                && final(self).state == errored(TrxErrorCause::Step(text), None, now),
    {
        let text = step_error(&self.id, &error);
        self.terminate_due_to_error(TrxErrorCause::Step(text), None, now);
    }

    pub fn transport_error(&mut self, reason: String, now: u64)
        ensures
            final(self).id == old(self).id,
            final(self).request == old(self).request,
            final(self).response == old(self).response,
            final(self).created_at == old(self).created_at,
            final(self).state == errored(TrxErrorCause::Transport(reason), None, now),
    {
        self.terminate_due_to_error(TrxErrorCause::Transport(reason), None, now);
    }

    fn next_step(&mut self, now: u64) -> (actions: Vec<TrxAction>)
        requires
            old(self).wf(),
        ensures
            final(self).wf(),
            final(self).id == old(self).id,
            final(self).request == old(self).request,
            final(self).response == old(self).response,
            final(self).created_at == old(self).created_at,
            (final(self).state, actions@) == tick(old(self).state, old(self).response, now),
    {
        let mut actions: Vec<TrxAction> = Vec::new();
        match &self.state {
            TrxState::Completed(completed) => {
                let completed = *completed;
                if completed.has_timedout(now) {
                    self.terminate_due_to_timeout(now);
                } else if completed.should_retransmit(now) {
                    proof {
                        lemma_completed_retransmit_keeps_timers(completed, now);
                    }
                    actions.push(TrxAction::SendResponse(clone_response(&self.response)));
                    self.state = TrxState::Completed(completed.retransmit(now));
                }
            },
            TrxState::Accepted(accepted) => {
                if accepted.should_terminate(now) {
                    self.terminate_due_to_timeout(now);
                }
            },
            TrxState::Confirmed(confirmed) => {
                if confirmed.should_terminate(now) {
                    self.terminate(now);
                }
            },
            _ => {},
        }
        actions
    }

    fn next_step_with_incoming_request(&mut self, request: rsip::Request, now: u64) -> (actions: Vec<TrxAction>)
        requires
            old(self).wf(),
        ensures
            final(self).wf(),
            final(self).id == old(self).id,
            final(self).request == old(self).request,
            final(self).response == old(self).response,
            final(self).created_at == old(self).created_at,
            (final(self).state, actions@) == on_request(old(self).state, old(self).response, request, now),
    {
        let method = request_method(&request);
        let name = self.state.state_name();
        let mut actions: Vec<TrxAction> = Vec::new();
        match &self.state {
            TrxState::Proceeding(_) if method == Method::Invite => {
                actions.push(TrxAction::SendResponse(clone_response(&self.response)));
            },
            TrxState::Completed(_) if method == Method::Invite => {
                actions.push(TrxAction::SendResponse(clone_response(&self.response)));
            },
            TrxState::Completed(_) if method == Method::Ack => {
                self.confirm(request, now);
            },
            TrxState::Accepted(_) if method == Method::Invite => {
                actions.push(TrxAction::SendResponse(clone_response(&self.response)));
            },
            TrxState::Accepted(_) if method == Method::Ack => {
                actions.push(TrxAction::RequestToTu(request));
            },
            TrxState::Confirmed(_) if method == Method::Ack => {},
            _ => {
                self.terminate_due_to_error(
                    TrxErrorCause::UnknownRequest { method, state: name },
                    Some(SipMessage::Request(request)),
                    now,
                );
            },
        }
        actions
    }

    fn next_step_with_outgoing_response(&mut self, response: rsip::Response, now: u64) -> (actions: Vec<TrxAction>)
        requires
            old(self).wf(),
        ensures
            final(self).wf(),
            final(self).id == old(self).id,
            final(self).request == old(self).request,
            final(self).created_at == old(self).created_at,
            (final(self).state, final(self).response, actions@) == on_reply(old(self).state, old(self).response, response, now),
    {
        let kind = status_kind_of(&response);
        let name = self.state.state_name();
        let mut actions: Vec<TrxAction> = Vec::new();
        match &self.state {
            TrxState::Proceeding(_) => {
                self.response = clone_response(&response);
                actions.push(TrxAction::SendResponse(response));
                if kind == StatusCodeKind::Successful {
                    self.accept(now);
                } else if kind != StatusCodeKind::Provisional {
                    self.complete(now);
                }
            },
            TrxState::Accepted(_) if kind == StatusCodeKind::Successful => {
                actions.push(TrxAction::SendResponse(clone_response(&self.response)));
            },
            _ => {
                let code = response_code(&response);
                self.terminate_due_to_error(
                    TrxErrorCause::UnknownResponse { status_code: code, state: name },
                    Some(SipMessage::Response(response)),
                    now,
                );
            },
        }
        actions
    }

    fn complete(&mut self, now: u64)
        ensures
            final(self).id == old(self).id,
            final(self).request == old(self).request,
            final(self).response == old(self).response,
            final(self).created_at == old(self).created_at,
            final(self).state == TrxState::Completed(Completed { entered_at: now, retransmissions_count: 0, last_retransmission_at: now }),
    {
        self.state = TrxState::Completed(Completed::new(now));
    }

    fn accept(&mut self, now: u64)
        ensures
            final(self).id == old(self).id,
            final(self).request == old(self).request,
            final(self).response == old(self).response,
            final(self).created_at == old(self).created_at,
            final(self).state == TrxState::Accepted(Accepted { entered_at: now }),
    {
        self.state = TrxState::Accepted(Accepted { entered_at: now });
    }

    fn confirm(&mut self, request: rsip::Request, now: u64)
        ensures
            final(self).id == old(self).id,
            final(self).request == old(self).request,
            final(self).response == old(self).response,
            final(self).created_at == old(self).created_at,
            final(self).state == TrxState::Confirmed(Confirmed { request, entered_at: now }),
    {
        self.state = TrxState::Confirmed(Confirmed { request, entered_at: now });
    }

    fn terminate(&mut self, now: u64)
        ensures
            final(self).id == old(self).id,
            final(self).request == old(self).request,
            final(self).response == old(self).response,
            final(self).created_at == old(self).created_at,
            final(self).state == TrxState::Terminated(Terminated::Expected { entered_at: now }),
    {
        self.state = TrxState::Terminated(Terminated::Expected { entered_at: now });
    }

    fn terminate_due_to_timeout(&mut self, now: u64)
        ensures
            final(self).id == old(self).id,
            final(self).request == old(self).request,
            final(self).response == old(self).response,
            final(self).created_at == old(self).created_at,
            final(self).state == TrxState::Terminated(Terminated::TimedOut { response: None, entered_at: now }),
    {
        self.state = TrxState::Terminated(Terminated::TimedOut { response: None, entered_at: now });
    }

    fn terminate_due_to_error(&mut self, error: TrxErrorCause, sip_message: Option<SipMessage>, now: u64)
        ensures
            final(self).id == old(self).id,
            final(self).request == old(self).request,
            final(self).response == old(self).response,
            final(self).created_at == old(self).created_at,
            final(self).state == errored(error, sip_message, now),
    {
        self.state = TrxState::Terminated(Terminated::Errored { error, sip_message, entered_at: now });
    }
}

} // verus!
