//! The state machine of a dialog in which this side sent the INVITE.
use crate::error::ServerError;
use crate::sip::{clone_request, clone_response, request_method, request_method_of, response_code,
    response_kind, response_status_code, status_kind_of, Method, SipMessage, StatusCodeKind};
use crate::tu::dialogs::headers::{body_is_empty, call_id_of, call_id_value, contact_of, cseq_of,
    from_tag_of, from_uri_of, is_session_of, record_route_of, request_body_empty, request_call_id, request_contact,
    request_cseq, request_from_tag, request_from_uri, request_is_session, request_record_route, request_to_tag,
    request_to_uri, response_contact_uri, response_contact_uri_of, response_cseq, response_cseq_of,
    response_to_tag, response_to_tag_of, set_call_id, set_contact, set_cseq, set_from_tag, set_from_uri,
    set_request_uri, set_to_tag, set_to_uri, to_tag_of, to_uri_of, with_call_id, with_contact, with_cseq,
    with_from_tag, with_from_uri, with_request_uri, with_to_tag, with_to_uri, call_id_text};
use crate::tu::dialogs::{DialogAction, DialogErrorCause, DialogFailure, DialogId, DialogIdView, DialogStateName};
use crate::tu::dialogs::uac::validations;
use vstd::prelude::*;

verus! {

/// Who makes the SDP offer of a session.
#[derive(Clone, Copy, Debug, PartialEq, Eq, Structural)]
pub enum SessionType {
    UacOffer,
    UasOffer,
    Other,
}

/// Just created.
#[derive(Clone, Copy, Debug)]
pub struct Unconfirmed {
    pub entered_at: u64,
}

/// A provisional response arrived.
#[derive(Debug)]
pub struct Early {
    pub response: rsip::Response,
    pub entered_at: u64,
}

/// A 2xx response arrived.
#[derive(Debug)]
pub struct Confirmed {
    pub response: rsip::Response,
    pub entered_at: u64,
}

/// The dialog ended.
#[derive(Clone, Copy, Debug)]
pub struct Terminated {
    pub entered_at: u64,
}

/// The dialog failed.
#[derive(Debug)]
pub struct Errored {
    pub error: DialogErrorCause,
    pub sip_message: Option<SipMessage>,
    pub entered_at: u64,
}

#[derive(Debug)]
pub enum DialogState {
    Unconfirmed(Unconfirmed),
    Early(Early),
    Confirmed(Confirmed),
    Terminated(Terminated),
    Errored(Errored),
}

impl DialogState {
    pub open spec fn name(self) -> DialogStateName {
        match self {
            DialogState::Unconfirmed(_) => DialogStateName::Unconfirmed,
            DialogState::Early(_) => DialogStateName::Early,
            DialogState::Confirmed(_) => DialogStateName::Confirmed,
            DialogState::Terminated(_) => DialogStateName::Terminated,
            DialogState::Errored(_) => DialogStateName::Errored,
        }
    }

    pub fn state_name(&self) -> (n: DialogStateName)
        ensures
            n == self.name(),
    {
        match self {
            DialogState::Unconfirmed(_) => DialogStateName::Unconfirmed,
            DialogState::Early(_) => DialogStateName::Early,
            DialogState::Confirmed(_) => DialogStateName::Confirmed,
            DialogState::Terminated(_) => DialogStateName::Terminated,
            DialogState::Errored(_) => DialogStateName::Errored,
        }
    }
}

/// The state of a client dialog.
#[derive(Debug)]
pub struct DialogSm {
    pub id: DialogId,
    pub call_id: rsip::headers::CallId,
    pub transaction_id: String,
    pub local_tag: String,
    pub local_seqn: u32,
    pub local_uri: rsip::Uri,
    pub remote_tag: Option<String>,
    pub remote_seqn: Option<u32>,
    pub remote_uri: rsip::Uri,
    pub remote_target: Option<rsip::Uri>,
    pub secure: bool,
    pub route_set: Vec<rsip::UriWithParams>,
    pub session_type: SessionType,
    pub contact_header: rsip::headers::Contact,
    pub request: rsip::Request,
    pub state: DialogState,
    pub created_at: u64,
}

/// What a client dialog is, with its strings and lists as their views.
pub struct DialogView {
    pub id: DialogIdView,
    pub call_id: rsip::headers::CallId,
    pub transaction_id: Seq<char>,
    pub local_tag: Seq<char>,
    pub local_seqn: u32,
    pub local_uri: rsip::Uri,
    pub remote_tag: Option<Seq<char>>,
    pub remote_seqn: Option<u32>,
    pub remote_uri: rsip::Uri,
    pub remote_target: Option<rsip::Uri>,
    pub secure: bool,
    pub route_set: Seq<rsip::UriWithParams>,
    pub session_type: SessionType,
    pub contact_header: rsip::headers::Contact,
    pub request: rsip::Request,
    pub state: DialogState,
    pub created_at: u64,
}

impl View for DialogSm {
    type V = DialogView;

    open spec fn view(&self) -> DialogView {
        DialogView {
            id: self.id@,
            call_id: self.call_id,
            transaction_id: self.transaction_id@,
            local_tag: self.local_tag@,
            local_seqn: self.local_seqn,
            local_uri: self.local_uri,
            remote_tag: crate::sip::opt_view(self.remote_tag),
            remote_seqn: self.remote_seqn,
            remote_uri: self.remote_uri,
            remote_target: self.remote_target,
            secure: self.secure,
            route_set: self.route_set@,
            session_type: self.session_type,
            contact_header: self.contact_header,
            request: self.request,
            state: self.state,
            created_at: self.created_at,
        }
    }
}

/// A confirmed dialog knows its remote tag and its remote target.
pub open spec fn dialog_wf(d: DialogView) -> bool {
    d.state is Confirmed ==> d.remote_tag is Some && d.remote_target is Some
}

/// `d` in the error state.
pub open spec fn errored(d: DialogView, error: DialogErrorCause, sip_message: Option<SipMessage>, now: u64) -> DialogView {
    DialogView { state: DialogState::Errored(Errored { error, sip_message, entered_at: now }), ..d }
}

/// `d` after a failed step: it ends in error, without a message.
pub open spec fn failed(d: DialogView, failure: DialogFailure, now: u64) -> DialogView {
    errored(d, DialogErrorCause::Failed(failure), None, now)
}

/// `d` after a state change that its state does not allow.
pub open spec fn wrong_transition(d: DialogView, to: DialogStateName, msg: SipMessage, now: u64) -> DialogView {
    errored(d, DialogErrorCause::WrongTransition { from: d.state.name(), to }, Some(msg), now)
}

/// `d` after the dialog ends: an errored dialog stays errored (as a wrong transition).
pub open spec fn terminated(d: DialogView, msg: SipMessage, now: u64) -> DialogView {
    if d.state is Errored {
        wrong_transition(d, DialogStateName::Terminated, msg, now)
    } else {
        DialogView { state: DialogState::Terminated(Terminated { entered_at: now }), ..d }
    }
}

/// `d` after the 2xx `response` confirms it: the remote tag, sequence number
/// and target come from the response; `Err` with the dialog as far as it got
/// and the failure when one of them is missing.
pub open spec fn confirmed(d: DialogView, response: rsip::Response, now: u64) -> Result<DialogView, (DialogView, DialogFailure)> {
    match response_to_tag(response) {
        None => Err((d, DialogFailure::Sip)),
        Some(None) => Err((d, DialogFailure::MissingRemoteTag)),
        Some(Some(tag)) => {
            let d1 = DialogView { remote_tag: Some(tag), ..d };
            match response_cseq(response) {
                None => Err((d1, DialogFailure::Sip)),
                Some(seq) => {
                    let d2 = DialogView { remote_seqn: Some(seq), ..d1 };
                    match response_contact_uri(response) {
                        None => Err((d2, DialogFailure::Sip)),
                        Some(uri) => Ok(DialogView {
                            remote_target: Some(uri),
                            state: DialogState::Confirmed(Confirmed { response, entered_at: now }),
                            ..d2
                        }),
                    }
                },
            }
        },
    }
}

/// The dialog and the actions after `response` arrives at `now`.
pub open spec fn on_incoming_response(d: DialogView, response: rsip::Response, now: u64) -> (DialogView, Seq<DialogAction>) {
    let kind = response_kind(response);
    if kind == StatusCodeKind::Provisional {
        if d.state is Unconfirmed {
            (DialogView { state: DialogState::Early(Early { response, entered_at: now }), ..d }, seq![])
        } else {
            (wrong_transition(d, DialogStateName::Early, SipMessage::Response(response), now), seq![])
        }
    } else if kind == StatusCodeKind::Successful {
        if !(d.state is Early || d.state is Unconfirmed) {
            (
                wrong_transition(d, DialogStateName::Confirmed, SipMessage::Response(response), now),
                seq![DialogAction::SendAckFor(response)],
            )
        } else {
            match confirmed(d, response, now) {
                Ok(d2) => (d2, seq![DialogAction::SendAckFor(response)]),
                Err((d2, failure)) => (failed(d2, failure, now), seq![]),
            }
        }
    } else if kind == StatusCodeKind::Redirection {
        (
            errored(d, DialogErrorCause::Redirection(response_status_code(response)), Some(SipMessage::Response(response)), now),
            seq![],
        )
    } else {
        (
            errored(
                d,
                DialogErrorCause::UnknownResponse { status_code: response_status_code(response), state: d.state.name() },
                Some(SipMessage::Response(response)),
                now,
            ),
            seq![],
        )
    }
}

/// The dialog and the actions after `request` arrives at `now`: only a
/// confirmed dialog takes requests, their sequence numbers never go down, and
/// a BYE ends the dialog and is answered 200.
pub open spec fn on_incoming_request(d: DialogView, request: rsip::Request, now: u64) -> (DialogView, Seq<DialogAction>) {
    if !(d.state is Confirmed) {
        (failed(d, DialogFailure::NotConfirmed(d.state.name()), now), seq![])
    } else {
        match request_cseq(request) {
            None => (failed(d, DialogFailure::Sip, now), seq![]),
            Some(req_seqn) => if d.remote_seqn matches Some(remote) && remote > req_seqn {
                (failed(d, DialogFailure::SeqnTooLow { remote_seqn: d.remote_seqn->0, request_seqn: req_seqn }, now), seq![])
            } else {
                let d1 = DialogView { remote_seqn: Some(req_seqn), ..d };
                if request_method_of(request) == Method::Bye {
                    (
                        terminated(d1, SipMessage::Request(request), now),
                        seq![DialogAction::NewUas { request, status_code: 200 }],
                    )
                } else {
                    (
                        errored(d1, DialogErrorCause::UnknownMethod(request_method_of(request)), Some(SipMessage::Request(request)), now),
                        seq![],
                    )
                }
            },
        }
    }
}

/// Whether the CSeq of an outgoing request of this method is renumbered.
pub open spec fn renumbers(method: Method) -> bool {
    method != Method::Ack && method != Method::Cancel
}

/// `request` with the dialog's From, To and Call-ID; `None` when a header is
/// missing or does not parse.
pub open spec fn with_dialog_headers(d: DialogView, request: rsip::Request) -> Option<rsip::Request> {
    match with_from_tag(request, d.local_tag) {
        None => None,
        Some(r1) => match with_from_uri(r1, d.local_uri) {
            None => None,
            Some(r2) => match with_to_tag(r2, d.remote_tag->0) {
                None => None,
                Some(r3) => match with_to_uri(r3, d.remote_uri) {
                    None => None,
                    Some(r4) => with_call_id(r4, d.call_id),
                },
            },
        },
    }
}

/// `request` (of `method`) after its CSeq, Request-URI and Contact are set
/// for a dialog whose local sequence number is now `seqn`.
pub open spec fn with_target(d: DialogView, request: rsip::Request, method: Method, seqn: u32) -> Option<rsip::Request> {
    let r5 = if renumbers(method) { with_cseq(request, seqn) } else { Some(request) };
    match r5 {
        None => None,
        Some(r5) => {
            let r6 = with_request_uri(r5, d.remote_target->0);
            if method != Method::Invite { with_contact(r6, d.contact_header) } else { Some(r6) }
        },
    }
}

/// The dialog and the actions after the user sends `request` in it at `now`.
pub open spec fn on_outgoing_request(d: DialogView, request: rsip::Request, now: u64) -> (DialogView, Seq<DialogAction>) {
    let method = request_method_of(request);
    if !(d.state is Confirmed) {
        (failed(d, DialogFailure::NotConfirmed(d.state.name()), now), seq![])
    } else {
        match with_dialog_headers(d, request) {
            None => (failed(d, DialogFailure::Sip, now), seq![]),
            Some(r) => {
                let d1 = if renumbers(method) { DialogView { local_seqn: (d.local_seqn + 1) as u32, ..d } } else { d };
                match with_target(d1, r, method, d1.local_seqn) {
                    None => (failed(d1, DialogFailure::Sip, now), seq![]),
                    Some(out) => if method == Method::Invite {
                        (d1, seq![DialogAction::NewUacInvite(out)])
                    } else if method == Method::Bye {
                        (terminated(d1, SipMessage::Request(out), now), seq![DialogAction::NewUac(out)])
                    } else {
                        (errored(d1, DialogErrorCause::UnknownMethod(method), Some(SipMessage::Request(out)), now), seq![])
                    },
                }
            },
        }
    }
}


/// Who makes the offer of the session a request starts: with a session
/// disposition (the default), the client when the request has a body and the
/// server otherwise; `None` when the Content-Disposition does not parse.
pub open spec fn session_type_of(request: rsip::Request) -> Option<SessionType> {
    match request_is_session(request) {
        None => None,
        Some(true) => if request_body_empty(request) { Some(SessionType::UasOffer) } else { Some(SessionType::UacOffer) },
        Some(false) => Some(SessionType::Other),
    }
}

pub fn session_type(request: &rsip::Request) -> (r: Result<SessionType, ServerError>)
    ensures
        match session_type_of(*request) {
            Some(t) => r matches Ok(x) && x == t,
            None => r matches Err(ServerError::Sip(_)),
        },
{
    let is_session = match is_session_of(request) {
        Ok(b) => b,
        Err(e) => {
            return Err(ServerError::Sip(e));
        },
    };
    if is_session {
        if body_is_empty(request) {
            Ok(SessionType::UasOffer)
        } else {
            Ok(SessionType::UacOffer)
        }
    } else {
        Ok(SessionType::Other)
    }
}

/// Whether the Request-URI of `request` is a SIPS URI.
pub fn is_secure(request: &rsip::Request) -> (r: Result<bool, ServerError>)
    ensures
        match validations::request_uri_sips(*request) {
            Some(b) => r matches Ok(x) && x == b,
            None => r matches Err(ServerError::Sip(_)),
        },
{
    match validations::uri_is_sips(request) {
        Ok(b) => Ok(b),
        Err(e) => Err(ServerError::Sip(e)),
    }
}

/// The reverse of a sequence.
pub open spec fn reversed<T>(s: Seq<T>) -> Seq<T> {
    Seq::new(s.len(), |i: int| s[s.len() - 1 - i])
}

fn reverse_vec(v: Vec<rsip::UriWithParams>) -> (r: Vec<rsip::UriWithParams>)
    ensures
        r@ == reversed(v@),
{
    let mut v = v;
    let mut r: Vec<rsip::UriWithParams> = Vec::new();
    let ghost all = v@;
    while v.len() > 0
        invariant
            v@ == all.subrange(0, v@.len() as int),
            r@.len() + v@.len() == all.len(),
            forall|i: int| 0 <= i < r@.len() ==> r@[i] == all[all.len() - 1 - i],
        decreases v@.len(),
    {
        let x = v.pop().unwrap();
        r.push(x);
    }
    assert(r@ =~= reversed(all));
    r
}

/// Everything that a client dialog reads from the request that starts it is there.
pub open spec fn dialog_request_ok(request: rsip::Request) -> bool {
    &&& validations::contact_header_count(request) == 1
    &&& validations::contact_secure(request) == Some(true)
    &&& request_record_route(request) is Some
    &&& request_call_id(request) is Some
    &&& request_from_tag(request) matches Some(Some(_))
    &&& request_to_tag(request) is Some
    &&& crate::sip::request_via_parses(request)
    &&& crate::sip::request_branch(request) is Some
    &&& request_cseq(request) is Some
    &&& request_from_uri(request) is Some
    &&& request_to_uri(request) is Some
    &&& session_type_of(request) is Some
    &&& validations::request_uri_sips(request) is Some
    &&& request_contact(request) is Some
}

impl DialogSm {
    /// A new client dialog for the INVITE `request`, which goes out in a new
    /// client INVITE transaction.
    pub fn new(request: rsip::Request, now: u64) -> (r: Result<(DialogSm, Vec<DialogAction>), ServerError>)
        ensures
            r is Ok == dialog_request_ok(request),
            validations::contact_header_count(request) != 1 ==> r matches Err(ServerError::ContactNotUnique),
            validations::contact_header_count(request) == 1 && validations::contact_secure(request) == Some(false)
                ==> r matches Err(ServerError::ContactNotSecure),
            r matches Ok((d, actions)) ==> {
                &&& dialog_wf(d@)
                &&& d@.id == (DialogIdView {
                    call_id: call_id_text(request_call_id(request)->0),
                    local_tag: request_from_tag(request)->0->0,
                    remote_tag: request_to_tag(request)->0,
                })
                &&& Some(d@.call_id) == request_call_id(request)
                &&& Some(d@.transaction_id) == crate::sip::request_branch(request)
                &&& Some(Some(d@.local_tag)) == request_from_tag(request)
                &&& Some(d@.local_seqn) == request_cseq(request)
                &&& Some(d@.local_uri) == request_from_uri(request)
                &&& d@.remote_tag is None
                &&& d@.remote_seqn is None
                &&& Some(d@.remote_uri) == request_to_uri(request)
                &&& d@.remote_target is None
                &&& d@.route_set == reversed(request_record_route(request)->0)
                &&& Some(d@.session_type) == session_type_of(request)
                &&& Some(d@.secure) == validations::request_uri_sips(request)
                &&& Some(d@.contact_header) == request_contact(request)
                &&& d@.request == request
                &&& d@.state == DialogState::Unconfirmed(Unconfirmed { entered_at: now })
                &&& d@.created_at == now
                &&& actions@ == seq![DialogAction::NewUacInvite(request)]
            },
    {
        validations::run(&request)?;
        let route_set = match record_route_of(&request) {
            Ok(v) => reverse_vec(v),
            Err(e) => {
                return Err(ServerError::Sip(e));
            },
        };
        let call_id = match call_id_of(&request) {
            Ok(c) => c,
            Err(e) => {
                return Err(ServerError::Sip(e));
            },
        };
        let local_tag = match from_tag_of(&request) {
            Ok(Some(t)) => t,
            Ok(None) => {
                return Err(ServerError::MissingFromTag);
            },
            Err(e) => {
                return Err(ServerError::Sip(e));
            },
        };
        let remote_tag_in_request = match to_tag_of(&request) {
            Ok(t) => t,
            Err(e) => {
                return Err(ServerError::Sip(e));
            },
        };
        let transaction_id = match crate::sip::request_transaction_id(&request) {
            Ok(Some(id)) => id,
            Ok(None) => {
                return Err(ServerError::MissingTransactionId);
            },
            Err(e) => {
                return Err(ServerError::Sip(e));
            },
        };
        let local_seqn = match cseq_of(&request) {
            Ok(s) => s,
            Err(e) => {
                return Err(ServerError::Sip(e));
            },
        };
        let local_uri = match from_uri_of(&request) {
            Ok(u) => u,
            Err(e) => {
                return Err(ServerError::Sip(e));
            },
        };
        let remote_uri = match to_uri_of(&request) {
            Ok(u) => u,
            Err(e) => {
                return Err(ServerError::Sip(e));
            },
        };
        let session_type = session_type(&request)?;
        let secure = is_secure(&request)?;
        let contact_header = match contact_of(&request) {
            Ok(c) => c,
            Err(e) => {
                return Err(ServerError::Sip(e));
            },
        };
        let id = DialogId { call_id: call_id_value(&call_id), local_tag: local_tag.clone(), remote_tag: remote_tag_in_request };
        let mut actions: Vec<DialogAction> = Vec::new();
        actions.push(DialogAction::NewUacInvite(clone_request(&request)));
        let d = DialogSm {
            id,
            call_id,
            transaction_id,
            local_tag,
            local_seqn,
            local_uri,
            remote_tag: None,
            remote_seqn: None,
            remote_uri,
            remote_target: None,
            secure,
            route_set,
            session_type,
            contact_header,
            request,
            state: DialogState::Unconfirmed(Unconfirmed { entered_at: now }),
            created_at: now,
        };
        Ok((d, actions))
    }
}

impl DialogSm {
    fn error(&mut self, error: DialogErrorCause, sip_message: Option<SipMessage>, now: u64)
        ensures
            final(self)@ == errored(old(self)@, error, sip_message, now),
    {
        self.state = DialogState::Errored(Errored { error, sip_message, entered_at: now });
    }

    fn wrong_transition(&mut self, to: DialogStateName, msg: SipMessage, now: u64)
        ensures
            final(self)@ == wrong_transition(old(self)@, to, msg, now),
    {
        let from = self.state.state_name();
        self.error(DialogErrorCause::WrongTransition { from, to }, Some(msg), now);
    }

    fn terminate(&mut self, msg: SipMessage, now: u64)
        ensures
            final(self)@ == terminated(old(self)@, msg, now),
    {
        if matches!(self.state, DialogState::Errored(_)) {
            return self.wrong_transition(DialogStateName::Terminated, msg, now);
        }
        self.state = DialogState::Terminated(Terminated { entered_at: now });
    }

    /// The transport layer could not deliver `msg` of this dialog.
    pub fn transport_error(&mut self, reason: String, msg: SipMessage, now: u64)
        ensures
            final(self)@ == errored(old(self)@, DialogErrorCause::Transport(reason), Some(msg), now),
    {
        self.error(DialogErrorCause::Transport(reason), Some(msg), now);
    }

    /// A response to the dialog's INVITE arrived.
    pub fn process_incoming_response(&mut self, response: rsip::Response, now: u64) -> (actions: Vec<DialogAction>)
        requires
            dialog_wf(old(self)@),
        ensures
            dialog_wf(final(self)@),
            (final(self)@, actions@) == on_incoming_response(old(self)@, response, now),
    {
        let mut actions: Vec<DialogAction> = Vec::new();
        let kind = status_kind_of(&response);
        if kind == StatusCodeKind::Provisional {
            if matches!(self.state, DialogState::Unconfirmed(_)) {
                self.state = DialogState::Early(Early { response, entered_at: now });
            } else {
                self.wrong_transition(DialogStateName::Early, SipMessage::Response(response), now);
            }
        } else if kind == StatusCodeKind::Successful {
            if !matches!(self.state, DialogState::Early(_) | DialogState::Unconfirmed(_)) {
                actions.push(DialogAction::SendAckFor(clone_response(&response)));
                self.wrong_transition(DialogStateName::Confirmed, SipMessage::Response(response), now);
                return actions;
            }
            let tag = match response_to_tag_of(&response) {
                Ok(Some(t)) => t,
                Ok(None) => {
                    self.error(DialogErrorCause::Failed(DialogFailure::MissingRemoteTag), None, now);
                    return actions;
                },
                Err(_) => {
                    self.error(DialogErrorCause::Failed(DialogFailure::Sip), None, now);
                    return actions;
                },
            };
            self.remote_tag = Some(tag);
            let seq = match response_cseq_of(&response) {
                Ok(s) => s,
                Err(_) => {
                    self.error(DialogErrorCause::Failed(DialogFailure::Sip), None, now);
                    return actions;
                },
            };
            self.remote_seqn = Some(seq);
            let uri = match response_contact_uri_of(&response) {
                Ok(u) => u,
                Err(_) => {
                    self.error(DialogErrorCause::Failed(DialogFailure::Sip), None, now);
                    return actions;
                },
            };
            self.remote_target = Some(uri);
            actions.push(DialogAction::SendAckFor(clone_response(&response)));
            self.state = DialogState::Confirmed(Confirmed { response, entered_at: now });
        } else if kind == StatusCodeKind::Redirection {
            let code = response_code(&response);
            self.error(DialogErrorCause::Redirection(code), Some(SipMessage::Response(response)), now);
        } else {
            let code = response_code(&response);
            let name = self.state.state_name();
            self.error(
                DialogErrorCause::UnknownResponse { status_code: code, state: name },
                Some(SipMessage::Response(response)),
                now,
            );
        }
        actions
    }

    /// A request of the peer arrived in this dialog.
    pub fn process_incoming_request(&mut self, request: rsip::Request, now: u64) -> (actions: Vec<DialogAction>)
        requires
            dialog_wf(old(self)@),
        ensures
            dialog_wf(final(self)@),
            (final(self)@, actions@) == on_incoming_request(old(self)@, request, now),
    {
        let mut actions: Vec<DialogAction> = Vec::new();
        if !matches!(self.state, DialogState::Confirmed(_)) {
            let name = self.state.state_name();
            self.error(DialogErrorCause::Failed(DialogFailure::NotConfirmed(name)), None, now);
            return actions;
        }
        let req_seqn = match cseq_of(&request) {
            Ok(s) => s,
            Err(_) => {
                self.error(DialogErrorCause::Failed(DialogFailure::Sip), None, now);
                return actions;
            },
        };
        if let Some(remote) = self.remote_seqn {
            if remote > req_seqn {
                self.error(
                    DialogErrorCause::Failed(DialogFailure::SeqnTooLow { remote_seqn: remote, request_seqn: req_seqn }),
                    None,
                    now,
                );
                return actions;
            }
        }
        self.remote_seqn = Some(req_seqn);
        let method = request_method(&request);
        if method == Method::Bye {
            self.terminate(SipMessage::Request(clone_request(&request)), now);
            actions.push(DialogAction::NewUas { request, status_code: 200 });
        } else {
            self.error(DialogErrorCause::UnknownMethod(method), Some(SipMessage::Request(request)), now);
        }
        actions
    }

    /// The user sends `request` in this dialog: it gets the dialog's headers
    /// and goes out in a new client transaction.
    pub fn process_outgoing_request(&mut self, request: rsip::Request, now: u64) -> (actions: Vec<DialogAction>)
        requires
            dialog_wf(old(self)@),
            old(self).local_seqn < u32::MAX,
        ensures
            dialog_wf(final(self)@),
            (final(self)@, actions@) == on_outgoing_request(old(self)@, request, now),
    {
        let mut actions: Vec<DialogAction> = Vec::new();
        let method = request_method(&request);
        if !matches!(self.state, DialogState::Confirmed(_)) {
            let name = self.state.state_name();
            self.error(DialogErrorCause::Failed(DialogFailure::NotConfirmed(name)), None, now);
            return actions;
        }
        let mut request = request;
        let ok = set_from_tag(&mut request, &self.local_tag).is_ok()
            && set_from_uri(&mut request, &self.local_uri).is_ok()
            && set_to_tag(&mut request, self.remote_tag.as_ref().unwrap()).is_ok()
            && set_to_uri(&mut request, &self.remote_uri).is_ok()
            && set_call_id(&mut request, &self.call_id).is_ok();
        if !ok {
            self.error(DialogErrorCause::Failed(DialogFailure::Sip), None, now);
            return actions;
        }
        if method != Method::Ack && method != Method::Cancel {
            self.local_seqn = self.local_seqn + 1;
            if set_cseq(&mut request, self.local_seqn).is_err() {
                self.error(DialogErrorCause::Failed(DialogFailure::Sip), None, now);
                return actions;
            }
        }
        set_request_uri(&mut request, self.remote_target.as_ref().unwrap());
        if method != Method::Invite {
            if set_contact(&mut request, &self.contact_header).is_err() {
                self.error(DialogErrorCause::Failed(DialogFailure::Sip), None, now);
                return actions;
            }
        }
        if method == Method::Invite {
            actions.push(DialogAction::NewUacInvite(request));
        } else if method == Method::Bye {
            self.terminate(SipMessage::Request(clone_request(&request)), now);
            actions.push(DialogAction::NewUac(request));
        } else {
            self.error(DialogErrorCause::UnknownMethod(method), Some(SipMessage::Request(request)), now);
        }
        actions
    }

    /// The user sends a response in this dialog: nothing changes.
    pub fn process_outgoing_response(&mut self, response: rsip::Response, now: u64) -> (actions: Vec<DialogAction>)
        ensures
            final(self)@ == old(self)@,
            actions@ == Seq::<DialogAction>::empty(),
    {
        Vec::new()
    }
}

} // verus!
