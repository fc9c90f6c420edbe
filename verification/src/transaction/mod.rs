//! The transaction layer: one state machine per client or server
//! transaction, and the table that routes messages to them.
pub mod laws;
pub mod sm;
pub mod uac;
pub mod uas;

use crate::error::ServerError;
use crate::sip::clone_request;
use crate::sip::{opt_view, request_branch, request_transaction_id, request_via_parses,
    response_branch, response_transaction_id, response_via_parses, Method, SipMessage};
use crate::transport::{RequestMsg, ResponseMsg};
use sm::{after_reply, after_request, after_response, after_tick, after_failure, TrxStateSm};
use vstd::prelude::*;
use vstd::string::StringExecFns;

verus! {

/// Milliseconds that passed from `since` to `now` on the layer's monotonic
/// clock; zero when `now` is not later than `since`.
pub open spec fn elapsed(now: u64, since: u64) -> nat {
    if now >= since {
        (now - since) as nat
    } else {
        0
    }
}

/// Computes `elapsed(now, since)`.
pub fn elapsed_ms(now: u64, since: u64) -> (ms: u64)
    ensures
        ms == elapsed(now, since),
{
    if now >= since {
        now - since
    } else {
        0
    }
}

/// Two to the power `n`.
pub open spec fn pow2(n: nat) -> nat
    decreases n,
{
    if n == 0 {
        1
    } else {
        2 * pow2((n - 1) as nat)
    }
}

/// Powers of two grow with the exponent.
pub proof fn lemma_pow2_monotone(a: nat, b: nat)
    requires
        a <= b,
    ensures
        pow2(a) <= pow2(b),
    decreases b,
{
    if a < b {
        lemma_pow2_monotone(a, (b - 1) as nat);
    }
}

/// Two to the thirtieth.
pub proof fn lemma_pow2_30()
    ensures
        pow2(30) == 1073741824,
{
    reveal_with_fuel(pow2, 31);
}

/// `base` doubled `count` times: `base * 2^count` milliseconds.
pub fn doubled_interval(base: u64, count: u8) -> (ms: u64)
    requires
        base <= 1000,
        count < 31,
    ensures
        ms == base * pow2(count as nat),
{
    let mut ms: u64 = base;
    let mut i: u8 = 0;
    assert(pow2(0) == 1);
    proof {
        lemma_pow2_30();
    }
    while i < count
        invariant
            i <= count,
            count < 31,
            base <= 1000,
            ms == base * pow2(i as nat),
            pow2(30) == 1073741824,
        decreases count - i,
    {
        proof {
            lemma_pow2_monotone((i + 1) as nat, 30);
            assert(base * pow2((i + 1) as nat) <= 1000 * 1073741824) by (nonlinear_arith)
                requires
                    base <= 1000,
                    pow2((i + 1) as nat) <= 1073741824,
            ;
            assert(base * pow2((i + 1) as nat) == 2 * (base * pow2(i as nat))) by (nonlinear_arith)
                requires
                    pow2((i + 1) as nat) == 2 * pow2(i as nat),
            ;
        }
        ms = ms * 2;
        i = i + 1;
    }
    ms
}

/// Names of the states of all transaction state machines.
#[derive(Clone, Copy, Debug, PartialEq, Eq, Structural)]
pub enum TrxStateName {
    Trying,
    Calling,
    Proceeding,
    Completed,
    Accepted,
    Confirmed,
    Terminated,
    Errored,
}

/// Why a transaction ended in error.
#[derive(Debug)]
pub enum TrxErrorCause {
    /// The transport layer could not deliver a message of this transaction.
    Transport(String),
    /// Work that the layer did for a step of this transaction failed.
    Step(String),
    /// A response of this status code arrived in a state that does not take it.
    UnknownResponse { status_code: u16, state: TrxStateName },
    /// A request of this method arrived in a state that does not take it.
    UnknownRequest { method: Method, state: TrxStateName },
    /// A state change was asked from a state that does not allow it.
    WrongTransition { from: TrxStateName, to: TrxStateName },
}

/// The text a transaction records when work that a step asked for fails.
pub open spec fn step_error_text(id: Seq<char>, error: Seq<char>) -> Seq<char> {
    "transaction "@ + id + " errored: "@ + error
}

/// Builds `step_error_text(id, error)`.
pub fn step_error(id: &String, error: &String) -> (s: String)
    ensures
        s@ == step_error_text(id@, error@),
{
    let mut s = String::from_str("transaction ");
    s.append(id.as_str());
    s.append(" errored: ");
    s.append(error.as_str());
    s
}

/// What the layer must do after a step of a transaction state machine.
pub enum TrxAction {
    /// Send (or send again) this request through the transport layer.
    SendRequest(rsip::Request),
    /// Send (or send again) this response through the transport layer.
    SendResponse(rsip::Response),
    /// Send the ACK that the transaction's request calls for, given this final response.
    SendAckFor(rsip::Response),
    /// Hand this response to the transaction user.
    ResponseToTu(rsip::Response),
    /// Hand this request to the transaction user.
    RequestToTu(rsip::Request),
    /// Send (or send again) this request to the peer, over the transport, it names.
    SendRequestMsg(RequestMsg),
    /// Send (or send again) this response to the peer, over the transport, it names.
    SendResponseMsg(ResponseMsg),
    /// Send the ACK that the request of this message calls for, given this
    /// final response, to the peer and over the transport of the message.
    SendAckTo(RequestMsg, rsip::Response),
    /// Hand this response, with the peer and transport it came from, to the transaction user.
    ResponseMsgToTu(ResponseMsg),
    /// Hand this request, with the peer and transport it came from, to the transaction user.
    RequestMsgToTu(RequestMsg),
}

/// `response` with the peer and transport of the transaction message `msg`.
pub open spec fn addressed_response(msg: RequestMsg, response: rsip::Response) -> ResponseMsg {
    ResponseMsg { sip_response: response, peer: msg.peer, transport: msg.transport }
}

/// `request` with the peer and transport of the transaction message `msg`.
pub open spec fn addressed_request(msg: RequestMsg, request: rsip::Request) -> RequestMsg {
    RequestMsg { sip_request: request, peer: msg.peer, transport: msg.transport }
}

/// Errors of the transaction layer.
#[derive(Clone, Copy, Debug, PartialEq, Eq, Structural)]
pub enum TransactionError {
    NotFound,
    UnexpectedState,
}


/// Messages that the transaction layer handles.
pub enum TransactionLayerMsg {
    /// Start a client INVITE transaction for this request.
    NewUacInvite(rsip::Request),
    /// Start a server INVITE transaction for this request, keeping this response to resend.
    NewUasInvite(rsip::Request, rsip::Response),
    /// Start a client non-INVITE transaction (not supported yet).
    NewUac(rsip::Request),
    /// Start a server non-INVITE transaction (not supported yet).
    NewUas(rsip::Request, Option<rsip::Response>),
    /// A response of the transaction user for a server transaction.
    Reply(rsip::Response),
    /// A message from the transport layer.
    Incoming(SipMessage),
    /// The transport layer could not deliver this message.
    TransportError(SipMessage, String),
    /// Whether a transaction with this id is held.
    HasTransaction(String),
}

/// The answer of the transaction layer to a message.
pub enum LayerReply {
    Actions(Vec<TrxAction>),
    HasTransaction(bool),
}

/// The answer with the error replaced by its kind.
pub open spec fn reply_outcome_of(r: Result<LayerReply, ServerError>) -> Result<Seq<TrxAction>, ServerErrorKind> {
    match r {
        Ok(LayerReply::Actions(a)) => Ok(a@),
        Ok(LayerReply::HasTransaction(_)) => Ok(seq![]),
        Err(e) => Err(error_kind(e)),
    }
}

/// The transactions that the layer holds, at most one per transaction id.
#[derive(Debug)]
pub struct Inner {
    pub state: Vec<TrxStateSm>,
}

/// The ids of a sequence of transactions.
pub open spec fn ids_of(states: Seq<TrxStateSm>) -> Seq<Seq<char>> {
    states.map_values(|sm: TrxStateSm| sm.trx_id())
}

/// The actions that ticking each of `states` at `now` asks for, in order.
pub open spec fn ticked_actions(states: Seq<TrxStateSm>, now: u64) -> Seq<TrxAction>
    decreases states.len(),
{
    if states.len() == 0 {
        seq![]
    } else {
        ticked_actions(states.drop_last(), now) + after_tick(states.last(), now).1
    }
}

/// The id of a transaction a message belongs to, when it carries one.
pub open spec fn message_transaction_id(msg: SipMessage) -> Option<Seq<char>> {
    match msg {
        SipMessage::Request(r) => request_branch(r),
        SipMessage::Response(r) => response_branch(r),
    }
}

/// Whether the Via header of a message is there and parses.
pub open spec fn message_via_parses(msg: SipMessage) -> bool {
    match msg {
        SipMessage::Request(r) => request_via_parses(r),
        SipMessage::Response(r) => response_via_parses(r),
    }
}

/// The outcome of looking a transaction up by the id a message carries:
/// `Ok(i)` with its position, or the error the layer answers.
pub open spec fn lookup_outcome(states: Seq<TrxStateSm>, parses: bool, id: Option<Seq<char>>) -> Result<int, ServerErrorKind> {
    if !parses {
        Err(ServerErrorKind::Sip)
    } else {
        match id {
            None => Err(ServerErrorKind::MissingTransactionId),
            Some(id) => if ids_of(states).contains(id) {
                Ok(ids_of(states).index_of(id))
            } else {
                Err(ServerErrorKind::Transaction(TransactionError::NotFound))
            },
        }
    }
}

/// Replacing a transaction by one with the same id keeps the ids distinct.
pub proof fn lemma_update_keeps_wf(states: Seq<TrxStateSm>, i: int, sm: TrxStateSm)
    requires
        0 <= i < states.len(),
        ids_of(states).no_duplicates(),
        forall|j: int| 0 <= j < states.len() && j != i ==> (#[trigger] states[j]).wf(),
        sm.trx_id() == states[i].trx_id(),
        sm.wf(),
    ensures
        ids_of(states.update(i, sm)) == ids_of(states),
        forall|j: int| 0 <= j < states.len() ==> (#[trigger] states.update(i, sm)[j]).wf(),
{
    assert(ids_of(states.update(i, sm)) =~= ids_of(states));
}

/// The transactions after `sm` is added: it replaces one with the same id.
pub open spec fn inserted(states: Seq<TrxStateSm>, sm: TrxStateSm) -> Seq<TrxStateSm> {
    if ids_of(states).contains(sm.trx_id()) {
        states.update(ids_of(states).index_of(sm.trx_id()), sm)
    } else {
        states.push(sm)
    }
}

/// The outcome of a step on the transaction at the looked-up position: the
/// transactions after it, and the actions or the error the layer answers.
pub open spec fn step_outcome(
    states: Seq<TrxStateSm>,
    lookup: Result<int, ServerErrorKind>,
    step: spec_fn(TrxStateSm) -> Option<(TrxStateSm, Seq<TrxAction>)>,
) -> (Seq<TrxStateSm>, Result<Seq<TrxAction>, ServerErrorKind>) {
    match lookup {
        Err(k) => (states, Err(k)),
        Ok(i) => match step(states[i]) {
            Some((sm, actions)) => (states.update(i, sm), Ok(actions)),
            None => (states, Err(ServerErrorKind::Transaction(TransactionError::UnexpectedState))),
        },
    }
}

/// What a response from the transport layer does to the transactions.
pub open spec fn response_outcome(states: Seq<TrxStateSm>, response: rsip::Response, now: u64) -> (Seq<TrxStateSm>, Result<Seq<TrxAction>, ServerErrorKind>) {
    step_outcome(
        states,
        lookup_outcome(states, response_via_parses(response), response_branch(response)),
        |sm: TrxStateSm| after_response(sm, response, now),
    )
}

/// What a request from the transport layer does to the transactions.
pub open spec fn request_outcome(states: Seq<TrxStateSm>, request: rsip::Request, now: u64) -> (Seq<TrxStateSm>, Result<Seq<TrxAction>, ServerErrorKind>) {
    step_outcome(
        states,
        lookup_outcome(states, request_via_parses(request), request_branch(request)),
        |sm: TrxStateSm| after_request(sm, request, now),
    )
}

/// What a reply of the transaction user does to the transactions.
pub open spec fn reply_outcome(states: Seq<TrxStateSm>, response: rsip::Response, now: u64) -> (Seq<TrxStateSm>, Result<Seq<TrxAction>, ServerErrorKind>) {
    step_outcome(
        states,
        lookup_outcome(states, response_via_parses(response), response_branch(response)),
        |sm: TrxStateSm| after_reply(sm, response, now),
    )
}

/// What a delivery failure of `msg` does to the transactions.
pub open spec fn transport_error_outcome(states: Seq<TrxStateSm>, msg: SipMessage, reason: String, now: u64) -> (Seq<TrxStateSm>, Result<Seq<TrxAction>, ServerErrorKind>) {
    step_outcome(
        states,
        lookup_outcome(states, message_via_parses(msg), message_transaction_id(msg)),
        |sm: TrxStateSm| Some((after_failure(sm, TrxErrorCause::Transport(reason), now), Seq::<TrxAction>::empty())),
    )
}

/// A result with the error replaced by its kind and the actions by their sequence.
pub open spec fn outcome_of(r: Result<Vec<TrxAction>, ServerError>) -> Result<Seq<TrxAction>, ServerErrorKind> {
    match r {
        Ok(a) => Ok(a@),
        Err(e) => Err(error_kind(e)),
    }
}

/// A new client INVITE transaction for `request` took the transactions from
/// `before` to `after` with outcome `r`: the request goes out and its machine
/// is added under the request's transaction id.
pub open spec fn new_uac_invite_done(
    before: Seq<TrxStateSm>,
    after: Seq<TrxStateSm>,
    r: Result<Seq<TrxAction>, ServerErrorKind>,
    request: rsip::Request,
    now: u64,
) -> bool {
    if !request_via_parses(request) {
        after == before && r == Err::<Seq<TrxAction>, ServerErrorKind>(ServerErrorKind::Sip)
    } else {
        match request_branch(request) {
            None => after == before && r == Err::<Seq<TrxAction>, ServerErrorKind>(ServerErrorKind::MissingTransactionId),
            Some(id) => exists|sm: TrxStateSm|
                sm::is_new_uac_invite(sm, id, request, now) && #[trigger] inserted(before, sm) == after
                    && r == Ok::<Seq<TrxAction>, ServerErrorKind>(seq![TrxAction::SendRequest(request)]),
        }
    }
}

/// A new server INVITE transaction for `request` took the transactions from
/// `before` to `after` with outcome `r`: the request goes to the transport
/// layer and its machine, keeping `response`, is added.
pub open spec fn new_uas_invite_done(
    before: Seq<TrxStateSm>,
    after: Seq<TrxStateSm>,
    r: Result<Seq<TrxAction>, ServerErrorKind>,
    request: rsip::Request,
    response: rsip::Response,
    now: u64,
) -> bool {
    if !request_via_parses(request) {
        after == before && r == Err::<Seq<TrxAction>, ServerErrorKind>(ServerErrorKind::Sip)
    } else {
        match request_branch(request) {
            None => after == before && r == Err::<Seq<TrxAction>, ServerErrorKind>(ServerErrorKind::MissingTransactionId),
            Some(id) => exists|sm: TrxStateSm|
                sm::is_new_uas_invite(sm, id, request, response, now) && #[trigger] inserted(before, sm) == after
                    && r == Ok::<Seq<TrxAction>, ServerErrorKind>(seq![TrxAction::SendRequest(request)]),
        }
    }
}

/// The kind of a `ServerError`, without the outside error it may carry.
#[derive(Clone, Copy, Debug, PartialEq, Eq, Structural)]
pub enum ServerErrorKind {
    Sip,
    Transaction(TransactionError),
    Dialog(crate::error::DialogError),
    MissingTransactionId,
    Other,
}

/// The kind of an error.
pub open spec fn error_kind(e: ServerError) -> ServerErrorKind {
    match e {
        ServerError::Sip(_) => ServerErrorKind::Sip,
        ServerError::Transaction(t) => ServerErrorKind::Transaction(t),
        ServerError::Dialog(d) => ServerErrorKind::Dialog(d),
        ServerError::MissingTransactionId => ServerErrorKind::MissingTransactionId,
        _ => ServerErrorKind::Other,
    }
}

impl Inner {
    pub open spec fn ids(self) -> Seq<Seq<char>> {
        ids_of(self.state@)
    }

    pub open spec fn wf(self) -> bool {
        &&& self.ids().no_duplicates()
        &&& forall|i: int| 0 <= i < self.state@.len() ==> (#[trigger] self.state@[i]).wf()
    }

    /// An empty layer.
    pub fn new() -> (inner: Inner)
        ensures
            inner.state@ == Seq::<TrxStateSm>::empty(),
            inner.wf(),
    {
        let inner = Inner { state: Vec::new() };
        assert(inner.ids() =~= Seq::<Seq<char>>::empty());
        inner
    }

    fn find(&self, id: &String) -> (r: Option<usize>)
        requires
            self.wf(),
        ensures
            match r {
                Some(i) => i < self.state@.len() && self.ids().contains(id@) && i == self.ids().index_of(id@),
                None => !self.ids().contains(id@),
            },
    {
        let mut i: usize = 0;
        while i < self.state.len()
            invariant
                i <= self.state@.len(),
                self.wf(),
                forall|j: int| 0 <= j < i ==> self.ids()[j] != id@,
            decreases self.state.len() - i,
        {
            if self.state[i].has_id(id) {
                proof {
                    assert(self.ids()[i as int] == id@);
                    self.ids().index_of_first_ensures(id@);
                    assert(self.ids().contains(id@));
                    let k = self.ids().index_of(id@);
                    assert(self.ids()[k] == id@);
                    if k != i {
                        assert(self.ids().no_duplicates());
                    }
                }
                return Some(i);
            }
            i = i + 1;
        }
        proof {
            if self.ids().contains(id@) {
                let k = choose|k: int| 0 <= k < self.ids().len() && self.ids()[k] == id@;
                assert(self.ids()[k] == id@);
            }
        }
        None
    }

    /// Finds the transaction that a message's id lookup names, where `id` is
    /// what reading the id from the message gave.
    fn locate(&self, id: Result<Option<String>, rsip::Error>) -> (r: Result<usize, ServerError>)
        requires
            self.wf(),
        ensures
            match lookup_outcome(self.state@, id is Ok, match id { Ok(o) => opt_view(o), Err(_) => None }) {
                Ok(i) => r matches Ok(u) && u as int == i && i < self.state@.len(),
                Err(k) => r matches Err(e) && error_kind(e) == k,
            },
    {
        match id {
            Err(e) => Err(ServerError::Sip(e)),
            Ok(None) => Err(ServerError::MissingTransactionId),
            Ok(Some(id)) => match self.find(&id) {
                Some(i) => Ok(i),
                None => Err(ServerError::Transaction(TransactionError::NotFound)),
            },
        }
    }

    /// Adds a transaction; one already held under the same id is replaced.
    pub fn insert(&mut self, sm: TrxStateSm)
        requires
            old(self).wf(),
            sm.wf(),
        ensures
            final(self).wf(),
            final(self).state@ == inserted(old(self).state@, sm),
    {
        let id = sm.id();
        match self.find(&id) {
            Some(i) => {
                proof {
                    lemma_update_keeps_wf(self.state@, i as int, sm);
                }
                self.state.set(i, sm);
            },
            None => {
                proof {
                    let s = self.state@;
                    assert(ids_of(s.push(sm)) =~= ids_of(s).push(sm.trx_id()));
                    assert forall|a: int, b: int| 0 <= a < b < ids_of(s.push(sm)).len() implies ids_of(s.push(sm))[a] != ids_of(s.push(sm))[b] by {
                        if b == s.len() {
                            assert(ids_of(s)[a] == ids_of(s.push(sm))[a]);
                        }
                    }
                }
                self.state.push(sm);
            },
        }
    }

    /// A response from the transport layer, for the client transaction whose id it carries.
    pub fn process_incoming_response(&mut self, response: rsip::Response, now: u64) -> (r: Result<Vec<TrxAction>, ServerError>)
        requires
            old(self).wf(),
        ensures
            final(self).wf(),
            (final(self).state@, outcome_of(r)) == response_outcome(old(self).state@, response, now),
    {
        let id = response_transaction_id(&response);
        let i = match self.locate(id) {
            Ok(i) => i,
            Err(e) => {
                return Err(e);
            },
        };
        let mut sm = self.state.remove(i);
        let r = sm.process_response(response, now);
        proof {
            lemma_update_keeps_wf(old(self).state@, i as int, sm);
        }
        self.state.insert(i, sm);
        assert(self.state@ =~= old(self).state@.update(i as int, sm));
        match r {
            Ok(actions) => Ok(actions),
            Err(e) => Err(ServerError::Transaction(e)),
        }
    }

    /// A request from the transport layer, for the server transaction whose id it carries.
    pub fn process_incoming_request(&mut self, request: rsip::Request, now: u64) -> (r: Result<Vec<TrxAction>, ServerError>)
        requires
            old(self).wf(),
        ensures
            final(self).wf(),
            (final(self).state@, outcome_of(r)) == request_outcome(old(self).state@, request, now),
    {
        let id = request_transaction_id(&request);
        let i = match self.locate(id) {
            Ok(i) => i,
            Err(e) => {
                return Err(e);
            },
        };
        let mut sm = self.state.remove(i);
        let r = sm.process_request(request, now);
        proof {
            lemma_update_keeps_wf(old(self).state@, i as int, sm);
        }
        self.state.insert(i, sm);
        assert(self.state@ =~= old(self).state@.update(i as int, sm));
        match r {
            Ok(actions) => Ok(actions),
            Err(e) => Err(ServerError::Transaction(e)),
        }
    }

    /// A response from the transaction user, for the server transaction whose id it carries.
    pub fn process_tu_reply(&mut self, response: rsip::Response, now: u64) -> (r: Result<Vec<TrxAction>, ServerError>)
        requires
            old(self).wf(),
        ensures
            final(self).wf(),
            (final(self).state@, outcome_of(r)) == reply_outcome(old(self).state@, response, now),
    {
        let id = response_transaction_id(&response);
        let i = match self.locate(id) {
            Ok(i) => i,
            Err(e) => {
                return Err(e);
            },
        };
        let mut sm = self.state.remove(i);
        let r = sm.process_tu_reply(response, now);
        proof {
            lemma_update_keeps_wf(old(self).state@, i as int, sm);
        }
        self.state.insert(i, sm);
        assert(self.state@ =~= old(self).state@.update(i as int, sm));
        match r {
            Ok(actions) => Ok(actions),
            Err(e) => Err(ServerError::Transaction(e)),
        }
    }

    /// The transport layer could not deliver `msg`: its transaction ends in error.
    pub fn process_transport_error(&mut self, msg: SipMessage, reason: String, now: u64) -> (r: Result<Vec<TrxAction>, ServerError>)
        requires
            old(self).wf(),
        ensures
            final(self).wf(),
            (final(self).state@, outcome_of(r)) == transport_error_outcome(old(self).state@, msg, reason, now),
    {
        let id = match &msg {
            SipMessage::Request(request) => request_transaction_id(request),
            SipMessage::Response(response) => response_transaction_id(response),
        };
        let i = match self.locate(id) {
            Ok(i) => i,
            Err(e) => {
                return Err(e);
            },
        };
        let mut sm = self.state.remove(i);
        sm.transport_error(reason, now);
        proof {
            lemma_update_keeps_wf(old(self).state@, i as int, sm);
        }
        self.state.insert(i, sm);
        assert(self.state@ =~= old(self).state@.update(i as int, sm));
        Ok(Vec::new())
    }

    /// A timer tick for every transaction held.
    pub fn check_transactions(&mut self, now: u64) -> (actions: Vec<TrxAction>)
        requires
            old(self).wf(),
        ensures
            final(self).wf(),
            final(self).state@.len() == old(self).state@.len(),
            forall|i: int| 0 <= i < old(self).state@.len() ==> final(self).state@[i] == after_tick(old(self).state@[i], now).0,
            actions@ == ticked_actions(old(self).state@, now),
    {
        let mut actions: Vec<TrxAction> = Vec::new();
        let mut i: usize = 0;
        let ghost initial = self.state@;
        while i < self.state.len()
            invariant
                self.wf(),
                0 <= i <= self.state@.len(),
                self.state@.len() == initial.len(),
                forall|j: int| 0 <= j < i ==> self.state@[j] == after_tick(initial[j], now).0,
                forall|j: int| i <= j < initial.len() ==> self.state@[j] == initial[j],
                actions@ == ticked_actions(initial.take(i as int), now),
            decreases self.state@.len() - i,
        {
            let ghost before = self.state@;
            let mut sm = self.state.remove(i);
            let mut more = sm.tick(now);
            proof {
                lemma_update_keeps_wf(before, i as int, sm);
                assert(initial.take(i as int + 1).drop_last() =~= initial.take(i as int));
                assert(initial.take(i as int + 1).last() == initial[i as int]);
            }
            self.state.insert(i, sm);
            assert(self.state@ =~= before.update(i as int, sm));
            actions.append(&mut more);
            i = i + 1;
        }
        assert(initial.take(initial.len() as int) =~= initial);
        actions
    }

    /// Sends `request` and starts a client INVITE transaction for it.
    pub fn new_uac_invite_transaction(&mut self, request: rsip::Request, now: u64) -> (r: Result<Vec<TrxAction>, ServerError>)
        requires
            old(self).wf(),
        ensures
            final(self).wf(),
            new_uac_invite_done(old(self).state@, final(self).state@, outcome_of(r), request, now),
    {
        let id = match request_transaction_id(&request) {
            Err(e) => {
                return Err(ServerError::Sip(e));
            },
            Ok(None) => {
                return Err(ServerError::MissingTransactionId);
            },
            Ok(Some(id)) => id,
        };
        let mut actions: Vec<TrxAction> = Vec::new();
        actions.push(TrxAction::SendRequest(clone_request(&request)));
        let sm = TrxStateSm::new_uac_invite(id, request, now);
        let ghost g = sm;
        self.insert(sm);
        assert(sm::is_new_uac_invite(g, g.trx_id(), request, now));
        Ok(actions)
    }

    /// Passes `request` to the transport layer and starts a server INVITE
    /// transaction for it that keeps `response` to resend.
    pub fn new_uas_invite_transaction(&mut self, request: rsip::Request, response: rsip::Response, now: u64) -> (r: Result<Vec<TrxAction>, ServerError>)
        requires
            old(self).wf(),
        ensures
            final(self).wf(),
            new_uas_invite_done(old(self).state@, final(self).state@, outcome_of(r), request, response, now),
    {
        let id = match request_transaction_id(&request) {
            Err(e) => {
                return Err(ServerError::Sip(e));
            },
            Ok(None) => {
                return Err(ServerError::MissingTransactionId);
            },
            Ok(Some(id)) => id,
        };
        let mut actions: Vec<TrxAction> = Vec::new();
        actions.push(TrxAction::SendRequest(clone_request(&request)));
        let sm = TrxStateSm::new_uas_invite(id, request, response, now);
        let ghost g = sm;
        self.insert(sm);
        assert(sm::is_new_uas_invite(g, g.trx_id(), request, response, now));
        Ok(actions)
    }

    /// A message from the transport layer: a request for a server
    /// transaction or a response for a client one.
    pub fn process_incoming(&mut self, msg: SipMessage, now: u64) -> (r: Result<Vec<TrxAction>, ServerError>)
        requires
            old(self).wf(),
        ensures
            final(self).wf(),
            (final(self).state@, outcome_of(r)) == match msg {
                SipMessage::Request(request) => request_outcome(old(self).state@, request, now),
                SipMessage::Response(response) => response_outcome(old(self).state@, response, now),
            },
    {
        match msg {
            SipMessage::Request(request) => self.process_incoming_request(request, now),
            SipMessage::Response(response) => self.process_incoming_response(response, now),
        }
    }

    /// Handles one message of the transaction layer.
    pub fn receive(&mut self, msg: TransactionLayerMsg, now: u64) -> (r: Result<LayerReply, ServerError>)
        requires
            old(self).wf(),
            !(msg is NewUac),
            !(msg is NewUas),
        ensures
            final(self).wf(),
            match msg {
                TransactionLayerMsg::HasTransaction(id) => r matches Ok(LayerReply::HasTransaction(b))
                    && b == old(self).ids().contains(id@) && final(self).state@ == old(self).state@,
                TransactionLayerMsg::NewUacInvite(request) =>
                    new_uac_invite_done(old(self).state@, final(self).state@, reply_outcome_of(r), request, now),
                TransactionLayerMsg::NewUasInvite(request, response) =>
                    new_uas_invite_done(old(self).state@, final(self).state@, reply_outcome_of(r), request, response, now),
                TransactionLayerMsg::Reply(response) =>
                    (final(self).state@, reply_outcome_of(r)) == reply_outcome(old(self).state@, response, now),
                TransactionLayerMsg::Incoming(SipMessage::Request(request)) =>
                    (final(self).state@, reply_outcome_of(r)) == request_outcome(old(self).state@, request, now),
                TransactionLayerMsg::Incoming(SipMessage::Response(response)) =>
                    (final(self).state@, reply_outcome_of(r)) == response_outcome(old(self).state@, response, now),
                TransactionLayerMsg::TransportError(m, reason) =>
                    (final(self).state@, reply_outcome_of(r)) == transport_error_outcome(old(self).state@, m, reason, now),
                _ => true,
            },
    {
        let actions = match msg {
            TransactionLayerMsg::NewUacInvite(request) => self.new_uac_invite_transaction(request, now),
            TransactionLayerMsg::NewUasInvite(request, response) => self.new_uas_invite_transaction(request, response, now),
            TransactionLayerMsg::Reply(response) => self.process_tu_reply(response, now),
            TransactionLayerMsg::Incoming(m) => self.process_incoming(m, now),
            TransactionLayerMsg::TransportError(m, reason) => self.process_transport_error(m, reason, now),
            TransactionLayerMsg::HasTransaction(id) => {
                return Ok(LayerReply::HasTransaction(self.has_transaction(&id)));
            },
            TransactionLayerMsg::NewUac(_) => Err(ServerError::MissingTransactionId),
            TransactionLayerMsg::NewUas(_, _) => Err(ServerError::MissingTransactionId),
        };
        match actions {
            Ok(actions) => Ok(LayerReply::Actions(actions)),
            Err(e) => Err(e),
        }
    }

    /// Whether a transaction with this id is held.
    pub fn has_transaction(&self, transaction_id: &String) -> (b: bool)
        requires
            self.wf(),
        ensures
            b == self.ids().contains(transaction_id@),
    {
        self.find(transaction_id).is_some()
    }
}

} // verus!
