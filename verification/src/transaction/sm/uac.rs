//! Client non-INVITE transaction (RFC 3261, section 17.1.2).
use crate::sip::{clone_request, clone_response, response_kind, response_status_code,
    status_kind_of, response_code, StatusCodeKind};
use crate::transaction::{step_error, step_error_text, doubled_interval, elapsed, elapsed_ms, lemma_pow2_monotone, pow2,
    TrxAction, TrxErrorCause, TrxStateName};
use vstd::prelude::*;

verus! {

pub const TIMER_T1: u64 = 500;
pub const TIMER_T2: u64 = 4000;
pub const TIMER_F: u64 = 64 * TIMER_T1;
pub const TIMER_K: u64 = 5000;

/// Retransmission timers are consistent: the last retransmission is no earlier
/// than the state was entered, and came after the intervals of all earlier ones.
pub open spec fn timers_wf(entered_at: u64, retransmissions_count: u8, last_retransmission_at: u64) -> bool {
    &&& last_retransmission_at >= entered_at
    &&& last_retransmission_at - entered_at >= TIMER_T1 * (pow2(retransmissions_count as nat) - 1)
    &&& retransmissions_count < 31
}

/// The request was sent and no response has arrived yet.
#[derive(Clone, Copy, Debug)]
pub struct Trying {
    pub entered_at: u64,
    pub retransmissions_count: u8,
    pub last_retransmission_at: u64,
}

impl Trying {
    /// Interval after the last retransmission when the next one is due: `T1 * 2^count`.
    pub open spec fn interval(self) -> nat {
        (TIMER_T1 * pow2(self.retransmissions_count as nat)) as nat
    }

    pub open spec fn wf(self) -> bool {
        timers_wf(self.entered_at, self.retransmissions_count, self.last_retransmission_at)
    }

    pub open spec fn timed_out_at(self, now: u64) -> bool {
        elapsed(now, self.entered_at) >= TIMER_F
    }

    pub open spec fn retransmit_due_at(self, now: u64) -> bool {
        elapsed(now, self.last_retransmission_at) > self.interval()
    }

    pub open spec fn retransmitted_at(self, now: u64) -> Trying {
        Trying {
            retransmissions_count: (self.retransmissions_count + 1) as u8,
            last_retransmission_at: now,
            ..self
        }
    }

    /// Entered at `now`, nothing retransmitted yet.
    pub fn new(now: u64) -> (t: Trying)
        ensures
            t == (Trying { entered_at: now, retransmissions_count: 0, last_retransmission_at: now }),
            t.wf(),
    {
        Trying { entered_at: now, retransmissions_count: 0, last_retransmission_at: now }
    }

    pub fn next_retrasmission(&self) -> (ms: u64)
        requires
            self.retransmissions_count < 31,
        ensures
            ms == self.interval(),
    {
        doubled_interval(TIMER_T1, self.retransmissions_count)
    }

    pub fn has_timedout(&self, now: u64) -> (b: bool)
        ensures
            b == self.timed_out_at(now),
    {
        elapsed_ms(now, self.entered_at) >= TIMER_F
    }

    pub fn should_retransmit(&self, now: u64) -> (b: bool)
        requires
            self.retransmissions_count < 31,
        ensures
            b == self.retransmit_due_at(now),
    {
        elapsed_ms(now, self.last_retransmission_at) > self.next_retrasmission()
    }

    pub fn retransmit(self, now: u64) -> (t: Trying)
        requires
            self.retransmissions_count < 255,
        ensures
            t == self.retransmitted_at(now),
    {
        Trying {
            retransmissions_count: self.retransmissions_count + 1,
            last_retransmission_at: now,
            ..self
        }
    }
}

/// A retransmission that is due before the timeout keeps the timers consistent.
pub proof fn lemma_retransmit_keeps_timers(t: Trying, now: u64)
    requires
        t.wf(),
        !t.timed_out_at(now),
        t.retransmit_due_at(now),
    ensures
        t.retransmitted_at(now).wf(),
{
    let c = t.retransmissions_count as nat;
    assert(pow2(c + 1) == 2 * pow2(c));
    assert(now >= t.last_retransmission_at);
    assert(now - t.entered_at < TIMER_F);
    if c + 1 >= 7 {
        lemma_pow2_monotone(7, c + 1);
        assert(pow2(7) == 128) by {
            reveal_with_fuel(pow2, 8);
        }
        assert(TIMER_T1 * pow2(c) >= TIMER_T1 * 64) by (nonlinear_arith)
            requires
                pow2(c) * 2 >= 128,
        ;
    }
    assert(TIMER_T1 * (pow2(c + 1) - 1) == TIMER_T1 * (pow2(c) - 1) + TIMER_T1 * pow2(c)) by (nonlinear_arith)
        requires
            pow2(c + 1) == 2 * pow2(c),
    ;
}

/// A provisional response arrived; retransmissions go on on the timers of `Trying`.
#[derive(Debug)]
pub struct Proceeding {
    pub entered_at: u64,
    pub retransmissions_count: u8,
    pub last_retransmission_at: u64,
    pub response: Option<rsip::Response>,
}

impl Proceeding {
    /// The retransmission timers this state carries.
    pub open spec fn timers(self) -> Trying {
        Trying {
            entered_at: self.entered_at,
            retransmissions_count: self.retransmissions_count,
            last_retransmission_at: self.last_retransmission_at,
        }
    }

    pub open spec fn with_timers(self, t: Trying) -> Proceeding {
        Proceeding {
            entered_at: t.entered_at,
            retransmissions_count: t.retransmissions_count,
            last_retransmission_at: t.last_retransmission_at,
            response: self.response,
        }
    }

    /// Takes over the timers of `trying`.
    pub fn from_trying(trying: Trying) -> (p: Proceeding)
        ensures
            p.timers() == trying,
            p.response is None,
    {
        Proceeding {
            entered_at: trying.entered_at,
            retransmissions_count: trying.retransmissions_count,
            last_retransmission_at: trying.last_retransmission_at,
            response: None,
        }
    }

    pub fn with_response(&mut self, response: rsip::Response)
        ensures
            final(self).timers() == old(self).timers(),
            final(self).response == Some(response),
    {
        self.response = Some(response);
    }

    fn timer_state(&self) -> (t: Trying)
        ensures
            t == self.timers(),
    {
        Trying {
            entered_at: self.entered_at,
            retransmissions_count: self.retransmissions_count,
            last_retransmission_at: self.last_retransmission_at,
        }
    }
}

/// A final response arrived; the transaction waits for retransmissions of it.
#[derive(Debug)]
pub struct Completed {
    pub response: rsip::Response,
    pub entered_at: u64,
}

impl Completed {
    pub open spec fn terminates_at(self, now: u64) -> bool {
        elapsed(now, self.entered_at) > TIMER_F
    }

    pub fn should_terminate(&self, now: u64) -> (b: bool)
        ensures
            b == self.terminates_at(now),
    {
        elapsed_ms(now, self.entered_at) > TIMER_F
    }
}

/// A transaction that ended in error.
#[derive(Debug)]
pub struct Errored {
    pub error: TrxErrorCause,
    pub response: Option<rsip::Response>,
    pub entered_at: u64,
}

/// How a transaction ended.
#[derive(Debug)]
pub enum Terminated {
    Expected { entered_at: u64 },
    TimedOut { response: Option<rsip::Response>, entered_at: u64 },
    Errored(Errored),
}

#[derive(Debug)]
pub enum TrxState {
    Trying(Trying),
    Proceeding(Proceeding),
    Completed(Completed),
    Terminated(Terminated),
}

impl TrxState {
    pub open spec fn name(self) -> TrxStateName {
        match self {
            TrxState::Trying(_) => TrxStateName::Trying,
            TrxState::Proceeding(_) => TrxStateName::Proceeding,
            TrxState::Completed(_) => TrxStateName::Completed,
            TrxState::Terminated(_) => TrxStateName::Terminated,
        }
    }

    pub fn state_name(&self) -> (n: TrxStateName)
        ensures
            n == self.name(),
    {
        match self {
            TrxState::Trying(_) => TrxStateName::Trying,
            TrxState::Proceeding(_) => TrxStateName::Proceeding,
            TrxState::Completed(_) => TrxStateName::Completed,
            TrxState::Terminated(_) => TrxStateName::Terminated,
        }
    }

    pub open spec fn wf(self) -> bool {
        match self {
            TrxState::Trying(t) => t.wf(),
            TrxState::Proceeding(p) => p.timers().wf(),
            _ => true,
        }
    }
}

/// The state entered when the transaction fails with `error`.
pub open spec fn errored(error: TrxErrorCause, response: Option<rsip::Response>, now: u64) -> TrxState {
    TrxState::Terminated(Terminated::Errored(Errored { error, response, entered_at: now }))
}

/// The state and the actions after a timer tick at `now`.
pub open spec fn tick(state: TrxState, request: rsip::Request, now: u64) -> (TrxState, Seq<TrxAction>) {
    match state {
        TrxState::Trying(t) => if t.timed_out_at(now) {
            (TrxState::Terminated(Terminated::TimedOut { response: None, entered_at: now }), seq![])
        } else if t.retransmit_due_at(now) {
            (TrxState::Trying(t.retransmitted_at(now)), seq![TrxAction::SendRequest(request)])
        } else {
            (state, seq![])
        },
        TrxState::Proceeding(p) => if p.timers().timed_out_at(now) {
            (TrxState::Terminated(Terminated::TimedOut { response: None, entered_at: now }), seq![])
        } else if p.timers().retransmit_due_at(now) {
            (
                TrxState::Proceeding(p.with_timers(p.timers().retransmitted_at(now))),
                seq![TrxAction::SendRequest(request)],
            )
        } else {
            (state, seq![])
        },
        TrxState::Completed(c) => if c.terminates_at(now) {
            (TrxState::Terminated(Terminated::Expected { entered_at: now }), seq![])
        } else {
            (state, seq![])
        },
        TrxState::Terminated(_) => (state, seq![]),
    }
}

/// The state and the actions after `response` arrives at `now`.
pub open spec fn on_response(state: TrxState, response: rsip::Response, now: u64) -> (TrxState, Seq<TrxAction>) {
    let kind = response_kind(response);
    match state {
        TrxState::Trying(t) => if kind == StatusCodeKind::Provisional {
            (
                TrxState::Proceeding(Proceeding {
                    entered_at: t.entered_at,
                    retransmissions_count: t.retransmissions_count,
                    last_retransmission_at: t.last_retransmission_at,
                    response: None,
                }),
                seq![TrxAction::ResponseToTu(response)],
            )
        } else {
            (
                TrxState::Completed(Completed { response, entered_at: now }),
                seq![TrxAction::ResponseToTu(response)],
            )
        },
        TrxState::Proceeding(_) => if kind == StatusCodeKind::Provisional {
            (state, seq![TrxAction::ResponseToTu(response)])
        } else {
            (
                TrxState::Completed(Completed { response, entered_at: now }),
                seq![TrxAction::ResponseToTu(response)],
            )
        },
        TrxState::Completed(_) if kind_rank_after_successful(kind) => (state, seq![]),
        _ => (
            errored(
                TrxErrorCause::UnknownResponse {
                    status_code: response_status_code(response),
                    state: state.name(),
                },
                Some(response),
                now,
            ),
            seq![],
        ),
    }
}

/// 3xx and above: retransmissions of a final response that the `Completed` state absorbs.
pub open spec fn kind_rank_after_successful(kind: StatusCodeKind) -> bool {
    crate::sip::kind_rank(kind) > crate::sip::kind_rank(StatusCodeKind::Successful)
}

/// State machine of a client non-INVITE transaction.
#[derive(Debug)]
pub struct TrxStateMachine {
    pub id: String,
    pub state: TrxState,
    pub request: rsip::Request,
    pub created_at: u64,
}

impl TrxStateMachine {
    pub open spec fn wf(self) -> bool {
        self.state.wf()
    }

    pub open spec fn active(self) -> bool {
        !(self.state is Terminated)
    }

    /// A new transaction for `request`, in `Trying` from `now`.
    pub fn new(id: String, request: rsip::Request, now: u64) -> (sm: Self)
        ensures
            sm.id == id,
            sm.request == request,
            sm.created_at == now,
            sm.state == TrxState::Trying(Trying { entered_at: now, retransmissions_count: 0, last_retransmission_at: now }),
            sm.wf(),
    {
        TrxStateMachine { id, state: TrxState::Trying(Trying::new(now)), request, created_at: now }
    }

    pub fn is_active(&self) -> (b: bool)
        ensures
            b == self.active(),
    {
        !matches!(self.state, TrxState::Terminated(_))
    }

    /// One step: a timer tick when `response` is `None`, else the arrival of `response`.
    pub fn next(&mut self, response: Option<rsip::Response>, now: u64) -> (actions: Vec<TrxAction>)
        requires
            old(self).wf(),
        ensures
            final(self).wf(),
            final(self).id == old(self).id,
            final(self).request == old(self).request,
            final(self).created_at == old(self).created_at,
            (final(self).state, actions@) == (match response {
                Some(r) => on_response(old(self).state, r, now),
                None => tick(old(self).state, old(self).request, now),
            }),
    {
        match response {
            Some(response) => self.next_step_with(response, now),
            None => self.next_step(now),
        }
    }

    /// Work that a step asked for failed: the transaction ends in error.
    pub fn step_failed(&mut self, error: String, now: u64)
        ensures
            final(self).id == old(self).id,
            final(self).request == old(self).request,
            final(self).created_at == old(self).created_at,
            exists|text: String| #![auto] text@ == step_error_text(old(self).id@, error@)
                && final(self).state == errored(TrxErrorCause::Step(text), None, now),
    {
        let text = step_error(&self.id, &error);
        self.terminate_due_to_error(TrxErrorCause::Step(text), None, now);
    }

    pub fn transport_error(&mut self, reason: String, now: u64)
        ensures
            final(self).id == old(self).id,
            final(self).request == old(self).request,
            final(self).created_at == old(self).created_at,
            final(self).state == errored(TrxErrorCause::Transport(reason), None, now),
    {
        self.terminate_due_to_error(TrxErrorCause::Transport(reason), None, now);
    }

    fn next_step(&mut self, now: u64) -> (actions: Vec<TrxAction>)
        requires
            old(self).wf(),
        ensures
            final(self).wf(),
            final(self).id == old(self).id,
            final(self).request == old(self).request,
            final(self).created_at == old(self).created_at,
            (final(self).state, actions@) == tick(old(self).state, old(self).request, now),
    {
        let mut actions: Vec<TrxAction> = Vec::new();
        match &self.state {
            TrxState::Trying(trying) => {
                let trying = *trying;
                if trying.has_timedout(now) {
                    self.terminate_due_to_timeout(now);
                } else if trying.should_retransmit(now) {
                    proof {
                        lemma_retransmit_keeps_timers(trying, now);
                    }
                    actions.push(TrxAction::SendRequest(clone_request(&self.request)));
                    self.state = TrxState::Trying(trying.retransmit(now));
                }
            },
            TrxState::Proceeding(proceeding) => {
                let timers = proceeding.timer_state();
                if timers.has_timedout(now) {
                    self.terminate_due_to_timeout(now);
                } else if timers.should_retransmit(now) {
                    proof {
                        lemma_retransmit_keeps_timers(timers, now);
                    }
                    actions.push(TrxAction::SendRequest(clone_request(&self.request)));
                    let t = timers.retransmit(now);
                    if let TrxState::Proceeding(p) = &mut self.state {
                        p.entered_at = t.entered_at;
                        p.retransmissions_count = t.retransmissions_count;
                        p.last_retransmission_at = t.last_retransmission_at;
                    }
                }
            },
            TrxState::Completed(completed) => {
                if completed.should_terminate(now) {
                    self.terminate(now);
                }
            },
            TrxState::Terminated(_) => {},
        }
        actions
    }

    fn next_step_with(&mut self, response: rsip::Response, now: u64) -> (actions: Vec<TrxAction>)
        requires
            old(self).wf(),
        ensures
            final(self).wf(),
            final(self).id == old(self).id,
            final(self).request == old(self).request,
            final(self).created_at == old(self).created_at,
            (final(self).state, actions@) == on_response(old(self).state, response, now),
    {
        let kind = status_kind_of(&response);
        let mut actions: Vec<TrxAction> = Vec::new();
        match &self.state {
            TrxState::Trying(trying) => {
                let trying = *trying;
                actions.push(TrxAction::ResponseToTu(clone_response(&response)));
                if kind == StatusCodeKind::Provisional {
                    self.state = TrxState::Proceeding(Proceeding::from_trying(trying));
                } else {
                    self.complete(response, now);
                }
            },
            TrxState::Proceeding(_) => {
                actions.push(TrxAction::ResponseToTu(clone_response(&response)));
                if kind != StatusCodeKind::Provisional {
                    self.complete(response, now);
                }
            },
            TrxState::Completed(_) => {
                if !kind.is_after_successful() {
                    let code = response_code(&response);
                    let name = self.state.state_name();
                    self.terminate_due_to_error(
                        TrxErrorCause::UnknownResponse { status_code: code, state: name },
                        Some(response),
                        now,
                    );
                }
            },
            TrxState::Terminated(_) => {
                let code = response_code(&response);
                self.terminate_due_to_error(
                    TrxErrorCause::UnknownResponse { status_code: code, state: TrxStateName::Terminated },
                    Some(response),
                    now,
                );
            },
        }
        actions
    }

    fn complete(&mut self, response: rsip::Response, now: u64)
        ensures
            final(self).id == old(self).id,
            final(self).request == old(self).request,
            final(self).created_at == old(self).created_at,
            final(self).state == TrxState::Completed(Completed { response, entered_at: now }),
    {
        self.state = TrxState::Completed(Completed { response, entered_at: now });
    }

    fn terminate(&mut self, now: u64)
        ensures
            final(self).id == old(self).id,
            final(self).request == old(self).request,
            final(self).created_at == old(self).created_at,
            final(self).state == TrxState::Terminated(Terminated::Expected { entered_at: now }),
    {
        self.state = TrxState::Terminated(Terminated::Expected { entered_at: now });
    }

    fn terminate_due_to_timeout(&mut self, now: u64)
        ensures
            final(self).id == old(self).id,
            final(self).request == old(self).request,
            final(self).created_at == old(self).created_at,
            final(self).state == TrxState::Terminated(Terminated::TimedOut { response: None, entered_at: now }),
    {
        self.state = TrxState::Terminated(Terminated::TimedOut { response: None, entered_at: now });
    }

    fn terminate_due_to_error(&mut self, error: TrxErrorCause, response: Option<rsip::Response>, now: u64)
        ensures
            final(self).id == old(self).id,
            final(self).request == old(self).request,
            final(self).created_at == old(self).created_at,
            final(self).state == errored(error, response, now),
    {
        self.state = TrxState::Terminated(Terminated::Errored(Errored { error, response, entered_at: now }));
    }
}

} // verus!
