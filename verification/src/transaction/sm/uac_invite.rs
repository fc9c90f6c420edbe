//! Client INVITE transaction (RFC 3261, section 17.1.1, with the
//! `Accepted` state of RFC 6026).
use crate::sip::{clone_request, clone_response, response_code, response_kind,
    response_status_code, status_kind_of, StatusCodeKind};
use crate::transaction::sm::uac::{kind_rank_after_successful, lemma_retransmit_keeps_timers, Trying};
use crate::transaction::{step_error, step_error_text, elapsed, elapsed_ms, TrxAction, TrxErrorCause, TrxStateName};
use vstd::prelude::*;

verus! {

pub const TIMER_T1: u64 = 500;
pub const TIMER_B: u64 = 64 * TIMER_T1;
pub const TIMER_M: u64 = 64 * TIMER_T1;
pub const TIMER_D: u64 = 32000;

/// The INVITE was sent and no response has arrived yet; the INVITE is
/// retransmitted at doubling intervals until timer B fires.
#[derive(Clone, Copy, Debug)]
pub struct Calling {
    pub entered_at: u64,
    pub retransmissions_count: u8,
    pub last_retransmission_at: u64,
}

impl Calling {
    /// The same timers seen as those of a `Trying` state (timer B equals timer F).
    pub open spec fn timers(self) -> Trying {
        Trying {
            entered_at: self.entered_at,
            retransmissions_count: self.retransmissions_count,
            last_retransmission_at: self.last_retransmission_at,
        }
    }

    pub open spec fn from_timers(t: Trying) -> Calling {
        Calling {
            entered_at: t.entered_at,
            retransmissions_count: t.retransmissions_count,
            last_retransmission_at: t.last_retransmission_at,
        }
    }

    pub fn new(now: u64) -> (c: Calling)
        ensures
            c == (Calling { entered_at: now, retransmissions_count: 0, last_retransmission_at: now }),
            c.timers().wf(),
    {
        Calling { entered_at: now, retransmissions_count: 0, last_retransmission_at: now }
    }

    fn as_timers(&self) -> (t: Trying)
        ensures
            t == self.timers(),
    {
        Trying {
            entered_at: self.entered_at,
            retransmissions_count: self.retransmissions_count,
            last_retransmission_at: self.last_retransmission_at,
        }
    }

    pub fn next_retrasmission(&self) -> (ms: u64)
        requires
            self.retransmissions_count < 31,
        ensures
            ms == self.timers().interval(),
    {
        self.as_timers().next_retrasmission()
    }

    pub fn has_timedout(&self, now: u64) -> (b: bool)
        ensures
            b == self.timers().timed_out_at(now),
            b == (elapsed(now, self.entered_at) >= TIMER_B),
    {
        self.as_timers().has_timedout(now)
    }

    pub fn should_retransmit(&self, now: u64) -> (b: bool)
        requires
            self.retransmissions_count < 31,
        ensures
            b == self.timers().retransmit_due_at(now),
    {
        self.as_timers().should_retransmit(now)
    }

    pub fn retransmit(self, now: u64) -> (c: Calling)
        requires
            self.retransmissions_count < 255,
        ensures
            c == Calling::from_timers(self.timers().retransmitted_at(now)),
    {
        Calling {
            retransmissions_count: self.retransmissions_count + 1,
            last_retransmission_at: now,
            ..self
        }
    }
}

/// A provisional response arrived.
#[derive(Clone, Copy, Debug)]
pub struct Proceeding {
    pub entered_at: u64,
}

/// A non-2xx final response arrived and was acknowledged.
#[derive(Clone, Copy, Debug)]
pub struct Completed {
    pub entered_at: u64,
}

impl Completed {
    pub open spec fn terminates_at(self, now: u64) -> bool {
        elapsed(now, self.entered_at) > TIMER_D
    }

    pub fn should_terminate(&self, now: u64) -> (b: bool)
        ensures
            b == self.terminates_at(now),
    {
        elapsed_ms(now, self.entered_at) > TIMER_D
    }
}

/// A 2xx final response arrived; further 2xx responses still go to the user.
#[derive(Clone, Copy, Debug)]
pub struct Accepted {
    pub entered_at: u64,
}

impl Accepted {
    pub open spec fn terminates_at(self, now: u64) -> bool {
        elapsed(now, self.entered_at) > TIMER_M
    }

    pub fn should_terminate(&self, now: u64) -> (b: bool)
        ensures
            b == self.terminates_at(now),
    {
        elapsed_ms(now, self.entered_at) > TIMER_M
    }
}

/// How a transaction ended.
#[derive(Debug)]
pub enum Terminated {
    Expected { entered_at: u64 },
    TimedOut { entered_at: u64 },
    Errored { error: TrxErrorCause, response: Option<rsip::Response>, entered_at: u64 },
}

#[derive(Debug)]
pub enum TrxState {
    Calling(Calling),
    Proceeding(Proceeding),
    Completed(Completed),
    Accepted(Accepted),
    Terminated(Terminated),
}

impl TrxState {
    pub open spec fn name(self) -> TrxStateName {
        match self {
            TrxState::Calling(_) => TrxStateName::Calling,
            TrxState::Proceeding(_) => TrxStateName::Proceeding,
            TrxState::Completed(_) => TrxStateName::Completed,
            TrxState::Accepted(_) => TrxStateName::Accepted,
            TrxState::Terminated(_) => TrxStateName::Terminated,
        }
    }

    pub fn state_name(&self) -> (n: TrxStateName)
        ensures
            n == self.name(),
    {
        match self {
            TrxState::Calling(_) => TrxStateName::Calling,
            TrxState::Proceeding(_) => TrxStateName::Proceeding,
            TrxState::Completed(_) => TrxStateName::Completed,
            TrxState::Accepted(_) => TrxStateName::Accepted,
            TrxState::Terminated(_) => TrxStateName::Terminated,
        }
    }

    pub open spec fn wf(self) -> bool {
        match self {
            TrxState::Calling(c) => c.timers().wf(),
            _ => true,
        }
    }
}

pub open spec fn errored(error: TrxErrorCause, response: Option<rsip::Response>, now: u64) -> TrxState {
    TrxState::Terminated(Terminated::Errored { error, response, entered_at: now })
}

/// The state and the actions after a timer tick at `now`.
pub open spec fn tick(state: TrxState, request: rsip::Request, now: u64) -> (TrxState, Seq<TrxAction>) {
    match state {
        TrxState::Calling(c) => if c.timers().timed_out_at(now) {
            (TrxState::Terminated(Terminated::TimedOut { entered_at: now }), seq![])
        } else if c.timers().retransmit_due_at(now) {
            (
                TrxState::Calling(Calling::from_timers(c.timers().retransmitted_at(now))),
                seq![TrxAction::SendRequest(request)],
            )
        } else {
            (state, seq![])
        },
        TrxState::Completed(c) => if c.terminates_at(now) {
            (TrxState::Terminated(Terminated::Expected { entered_at: now }), seq![])
        } else {
            (state, seq![])
        },
        TrxState::Accepted(a) => if a.terminates_at(now) {
            (TrxState::Terminated(Terminated::Expected { entered_at: now }), seq![])
        } else {
            (state, seq![])
        },
        _ => (state, seq![]),
    }
}

/// The state and the actions after `response` arrives at `now`.
pub open spec fn on_response(state: TrxState, response: rsip::Response, now: u64) -> (TrxState, Seq<TrxAction>) {
    let kind = response_kind(response);
    let to_tu = TrxAction::ResponseToTu(response);
    match state {
        TrxState::Calling(_) => if kind == StatusCodeKind::Provisional {
            (TrxState::Proceeding(Proceeding { entered_at: now }), seq![to_tu])
        } else if kind == StatusCodeKind::Successful {
            (TrxState::Accepted(Accepted { entered_at: now }), seq![to_tu])
        } else {
            (TrxState::Completed(Completed { entered_at: now }), seq![to_tu])
        },
        TrxState::Proceeding(_) => if kind == StatusCodeKind::Provisional {
            (state, seq![to_tu])
        } else if kind == StatusCodeKind::Successful {
            (TrxState::Accepted(Accepted { entered_at: now }), seq![to_tu])
        } else {
            (
                TrxState::Completed(Completed { entered_at: now }),
                seq![to_tu, TrxAction::SendAckFor(response)],
            )
        },
        TrxState::Accepted(_) if kind == StatusCodeKind::Successful => (state, seq![to_tu]),
        TrxState::Completed(_) if kind_rank_after_successful(kind) => (
            TrxState::Completed(Completed { entered_at: now }),
            seq![TrxAction::SendAckFor(response)],
        ),
        _ => (
            errored(
                TrxErrorCause::UnknownResponse {
                    status_code: response_status_code(response),
                    state: state.name(),
                },
                Some(response),
                now,
            ),
            seq![],
        ),
    }
}

/// State machine of a client INVITE transaction.
#[derive(Debug)]
pub struct TrxStateMachine {
    pub id: String,
    pub state: TrxState,
    pub request: rsip::Request,
    pub created_at: u64,
}

impl TrxStateMachine {
    pub open spec fn wf(self) -> bool {
        self.state.wf()
    }

    pub open spec fn active(self) -> bool {
        !(self.state is Terminated)
    }

    /// A new transaction for the INVITE `request`, in `Calling` from `now`.
    pub fn new(id: String, request: rsip::Request, now: u64) -> (sm: Self)
        ensures
            sm.id == id,
            sm.request == request,
            sm.created_at == now,
            sm.state == TrxState::Calling(Calling { entered_at: now, retransmissions_count: 0, last_retransmission_at: now }),
            sm.wf(),
    {
        TrxStateMachine { id, state: TrxState::Calling(Calling::new(now)), request, created_at: now }
    }

    pub fn is_active(&self) -> (b: bool)
        ensures
            b == self.active(),
    {
        !matches!(self.state, TrxState::Terminated(_))
    }

    /// One step: a timer tick when `response` is `None`, else the arrival of `response`.
    pub fn next(&mut self, response: Option<rsip::Response>, now: u64) -> (actions: Vec<TrxAction>)
        requires
            old(self).wf(),
        ensures
            final(self).wf(),
            final(self).id == old(self).id,
            final(self).request == old(self).request,
            final(self).created_at == old(self).created_at,
            (final(self).state, actions@) == (match response {
                Some(r) => on_response(old(self).state, r, now),
                None => tick(old(self).state, old(self).request, now),
            }),
    {
        match response {
            Some(response) => self.next_step_with(response, now),
            None => self.next_step(now),
        }
    }

    /// Work that a step asked for failed: the transaction ends in error.
    pub fn step_failed(&mut self, error: String, now: u64)
        ensures
            final(self).id == old(self).id,
            final(self).request == old(self).request,
            final(self).created_at == old(self).created_at,
            exists|text: String| #![auto] text@ == step_error_text(old(self).id@, error@)
                && final(self).state == errored(TrxErrorCause::Step(text), None, now),
    {
        let text = step_error(&self.id, &error);
        self.terminate_due_to_error(TrxErrorCause::Step(text), None, now);
    }

    pub fn transport_error(&mut self, reason: String, now: u64)
        ensures
            final(self).id == old(self).id,
            final(self).request == old(self).request,
            final(self).created_at == old(self).created_at,
            final(self).state == errored(TrxErrorCause::Transport(reason), None, now),
    {
        self.terminate_due_to_error(TrxErrorCause::Transport(reason), None, now);
    }

    fn next_step(&mut self, now: u64) -> (actions: Vec<TrxAction>)
        requires
            old(self).wf(),
        ensures
            final(self).wf(),
            final(self).id == old(self).id,
            final(self).request == old(self).request,
            final(self).created_at == old(self).created_at,
            (final(self).state, actions@) == tick(old(self).state, old(self).request, now),
    {
        let mut actions: Vec<TrxAction> = Vec::new();
        match &self.state {
            TrxState::Calling(calling) => {
                let calling = *calling;
                if calling.has_timedout(now) {
                    self.terminate_due_to_timeout(now);
                } else if calling.should_retransmit(now) {
                    proof {
                        lemma_retransmit_keeps_timers(calling.timers(), now);
                    }
                    actions.push(TrxAction::SendRequest(clone_request(&self.request)));
                    self.state = TrxState::Calling(calling.retransmit(now));
                }
            },
            TrxState::Completed(completed) => {
                if completed.should_terminate(now) {
                    self.terminate(now);
                }
            },
            TrxState::Accepted(accepted) => {
                if accepted.should_terminate(now) {
                    self.terminate(now);
                }
            },
            _ => {},
        }
        actions
    }

    fn next_step_with(&mut self, response: rsip::Response, now: u64) -> (actions: Vec<TrxAction>)
        requires
            old(self).wf(),
        ensures
            final(self).wf(),
            final(self).id == old(self).id,
            final(self).request == old(self).request,
            final(self).created_at == old(self).created_at,
            (final(self).state, actions@) == on_response(old(self).state, response, now),
    {
        let kind = status_kind_of(&response);
        let mut actions: Vec<TrxAction> = Vec::new();
        let name = self.state.state_name();
        match &self.state {
            TrxState::Calling(_) => {
                actions.push(TrxAction::ResponseToTu(response));
                if kind == StatusCodeKind::Provisional {
                    self.proceed(now);
                } else if kind == StatusCodeKind::Successful {
                    self.accept(now);
                } else {
                    self.complete(now);
                }
            },
            TrxState::Proceeding(_) => {
                if kind == StatusCodeKind::Provisional {
                    actions.push(TrxAction::ResponseToTu(response));
                } else if kind == StatusCodeKind::Successful {
                    actions.push(TrxAction::ResponseToTu(response));
                    self.accept(now);
                } else {
                    actions.push(TrxAction::ResponseToTu(clone_response(&response)));
                    actions.push(TrxAction::SendAckFor(response));
                    self.complete(now);
                }
            },
            TrxState::Accepted(_) if kind == StatusCodeKind::Successful => {
                actions.push(TrxAction::ResponseToTu(response));
            },
            TrxState::Completed(_) if kind.is_after_successful() => {
                self.complete(now);
                actions.push(TrxAction::SendAckFor(response));
            },
            _ => {
                let code = response_code(&response);
                self.terminate_due_to_error(
                    TrxErrorCause::UnknownResponse { status_code: code, state: name },
                    Some(response),
                    now,
                );
            },
        }
        actions
    }

    fn proceed(&mut self, now: u64)
        ensures
            final(self).id == old(self).id,
            final(self).request == old(self).request,
            final(self).created_at == old(self).created_at,
            final(self).state == TrxState::Proceeding(Proceeding { entered_at: now }),
    {
        self.state = TrxState::Proceeding(Proceeding { entered_at: now });
    }

    fn complete(&mut self, now: u64)
        ensures
            final(self).id == old(self).id,
            final(self).request == old(self).request,
            final(self).created_at == old(self).created_at,
            final(self).state == TrxState::Completed(Completed { entered_at: now }),
    {
        self.state = TrxState::Completed(Completed { entered_at: now });
    }

    fn accept(&mut self, now: u64)
        ensures
            final(self).id == old(self).id,
            final(self).request == old(self).request,
            final(self).created_at == old(self).created_at,
            final(self).state == TrxState::Accepted(Accepted { entered_at: now }),
    {
        self.state = TrxState::Accepted(Accepted { entered_at: now });
    }

    fn terminate(&mut self, now: u64)
        ensures
            final(self).id == old(self).id,
            final(self).request == old(self).request,
            final(self).created_at == old(self).created_at,
            final(self).state == TrxState::Terminated(Terminated::Expected { entered_at: now }),
    {
        self.state = TrxState::Terminated(Terminated::Expected { entered_at: now });
    }

    fn terminate_due_to_timeout(&mut self, now: u64)
        ensures
            final(self).id == old(self).id,
            final(self).request == old(self).request,
            final(self).created_at == old(self).created_at,
            final(self).state == TrxState::Terminated(Terminated::TimedOut { entered_at: now }),
    {
        self.state = TrxState::Terminated(Terminated::TimedOut { entered_at: now });
    }

    fn terminate_due_to_error(&mut self, error: TrxErrorCause, response: Option<rsip::Response>, now: u64)
        ensures
            final(self).id == old(self).id,
            final(self).request == old(self).request,
            final(self).created_at == old(self).created_at,
            final(self).state == errored(error, response, now),
    {
        self.state = TrxState::Terminated(Terminated::Errored { error, response, entered_at: now });
    }
}

} // verus!
