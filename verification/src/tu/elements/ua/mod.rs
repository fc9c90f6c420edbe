//! The user agent: it routes what reaches the transaction user to the
//! registrar, the capabilities element or the dialogs.
pub mod processor;

use crate::error::ServerError;
use crate::presets::{all_methods, allow_entry, is_new_tagged_to, plain_answer, answer_head, copied_headers_present, create_405_from, response_headers};
use crate::sip::{request_method, request_method_of, response_status_code, Method, SipMessage};
use crate::tu::dialogs::dialog_sm::seq_result;
use crate::tu::dialogs::{dialog_id_of_response, position, response_dialog_id, response_taken,
    session_started, transport_error_taken, DialogAction, Dialogs};
use crate::tu::{ReqProcessor, TuAction, TuLayerMsg, TuOutcome};
use vstd::prelude::*;

verus! {

/// Dialog actions handed on as actions of the transaction user.
pub open spec fn lifted(actions: Seq<DialogAction>) -> Seq<TuAction> {
    actions.map_values(|a: DialogAction| TuAction::Dialog(a))
}

/// `actions` and `result` are what the dialog layer's `r` comes to.
pub open spec fn dialog_outcome(r: Result<Seq<DialogAction>, ServerError>, actions: Seq<TuAction>, result: Result<(), ServerError>) -> bool {
    match r {
        Ok(a) => actions == lifted(a) && result is Ok,
        Err(e) => actions.len() == 0 && result == Err::<(), ServerError>(e),
    }
}

/// Whether `action` sends a 405 answer to `request`.
pub open spec fn sends_405(action: TuAction, request: rsip::Request) -> bool {
    action matches TuAction::Send(SipMessage::Response(response)) && {
        &&& response_status_code(response) == 405
        &&& response_headers(response) == answer_head(request, response_headers(response)[1]).push(allow_entry(all_methods()))
        &&& is_new_tagged_to(request, response_headers(response)[1])
        &&& plain_answer(response)
    }
}

/// A request that no element takes is answered 405.
pub open spec fn refused_with_405(request: rsip::Request, actions: Seq<TuAction>, result: Result<(), ServerError>) -> bool {
    if copied_headers_present(request) {
        actions.len() == 1 && sends_405(actions[0], request) && result is Ok
    } else {
        actions.len() == 0 && result matches Err(ServerError::Sip(_))
    }
}

/// How an incoming request is handled: REGISTER by the registrar, OPTIONS
/// by the capabilities element, anything else answered 405.
pub open spec fn incoming_request_handled<R: ReqProcessor, C: ReqProcessor>(registrar: R, capabilities: C,
    request: rsip::Request, actions: Seq<TuAction>, result: Result<(), ServerError>) -> bool {
    match request_method_of(request) {
        Method::Register => registrar.handles(request, actions, result),
        Method::Options => capabilities.handles(request, actions, result),
        _ => refused_with_405(request, actions, result),
    }
}

/// How an incoming response is handled: it goes to the dialogs with its
/// dialog id; without such dialogs nothing happens.
pub open spec fn incoming_response_handled(before: Seq<crate::tu::dialogs::dialog_sm::DialogSm>,
    after: Seq<crate::tu::dialogs::dialog_sm::DialogSm>, response: rsip::Response, now: u64, actions: Seq<TuAction>,
    result: Result<(), ServerError>) -> bool {
    if response_dialog_id(response) matches Some(id) && position(before, id) is Some {
        exists|r: Result<Seq<DialogAction>, ServerError>| response_taken(before, after, response, now, r) && dialog_outcome(r, actions, result)
    } else {
        after == before && actions.len() == 0 && result is Ok
    }
}

/// The user agent: the two elements and the dialogs of this side.
pub struct UserAgent<R: ReqProcessor, C: ReqProcessor> {
    pub registrar: R,
    pub capabilities: C,
    pub dialogs: Dialogs,
}

impl<R: ReqProcessor, C: ReqProcessor> UserAgent<R, C> {
    pub open spec fn wf(self) -> bool {
        self.dialogs.wf()
    }

    pub fn new(registrar: R, capabilities: C) -> (ua: Self)
        ensures
            ua.wf(),
            ua.registrar == registrar,
            ua.capabilities == capabilities,
            ua.dialogs.data@.len() == 0,
    {
        UserAgent { registrar, capabilities, dialogs: Dialogs::new() }
    }

    fn lift(actions: Vec<DialogAction>) -> (r: Vec<TuAction>)
        ensures
            r@ == lifted(actions@),
    {
        let mut actions = actions;
        let ghost all = actions@;
        let mut reversed: Vec<DialogAction> = Vec::new();
        while actions.len() > 0
            invariant
                actions@ == all.subrange(0, actions@.len() as int),
                reversed@.len() + actions@.len() == all.len(),
                forall|k: int| 0 <= k < reversed@.len() ==> reversed@[k] == all[all.len() - 1 - k],
            decreases actions@.len(),
        {
            let a = actions.pop().unwrap();
            reversed.push(a);
        }
        let mut r: Vec<TuAction> = Vec::new();
        while reversed.len() > 0
            invariant
                r@.len() + reversed@.len() == all.len(),
                forall|k: int| 0 <= k < reversed@.len() ==> reversed@[k] == all[all.len() - 1 - k],
                forall|k: int| 0 <= k < r@.len() ==> r@[k] == TuAction::Dialog(all[k]),
            decreases reversed@.len(),
        {
            let a = reversed.pop().unwrap();
            r.push(TuAction::Dialog(a));
        }
        assert(r@ =~= lifted(all));
        r
    }

    fn outcome(r: Result<Vec<DialogAction>, ServerError>) -> (o: TuOutcome)
        ensures
            dialog_outcome(seq_result(r), o.actions@, o.result),
    {
        match r {
            Ok(actions) => TuOutcome { actions: Self::lift(actions), result: Ok(()) },
            Err(e) => TuOutcome { actions: Vec::new(), result: Err(e) },
        }
    }

    /// A request from a peer.
    pub fn handle_incoming_request(&self, request: rsip::Request) -> (o: TuOutcome)
        ensures
            incoming_request_handled(self.registrar, self.capabilities, request, o.actions@, o.result),
    {
        match request_method(&request) {
            Method::Register => self.registrar.process_incoming_request(request),
            Method::Options => self.capabilities.process_incoming_request(request),
            _ => match create_405_from(request) {
                Ok(response) => {
                    let mut actions: Vec<TuAction> = Vec::new();
                    actions.push(TuAction::Send(SipMessage::Response(response)));
                    TuOutcome { actions, result: Ok(()) }
                },
                Err(e) => TuOutcome { actions: Vec::new(), result: Err(e) },
            },
        }
    }

    /// A response from a peer: the dialogs it belongs to take it.
    pub fn handle_incoming_response(&mut self, response: rsip::Response, now: u64) -> (o: TuOutcome)
        requires
            old(self).wf(),
        ensures
            final(self).wf(),
            final(self).registrar == old(self).registrar,
            final(self).capabilities == old(self).capabilities,
            incoming_response_handled(old(self).dialogs.data@, final(self).dialogs.data@, response, now, o.actions@, o.result),
    {
        if let Ok(id) = dialog_id_of_response(&response) {
            if self.dialogs.has_dialog(&id) {
                let r = self.dialogs.process_incoming_response(response, now);
                let ghost dr = seq_result(r);
                let o = Self::outcome(r);
                assert(dialog_outcome(dr, o.actions@, o.result));
                return o;
            }
        }
        TuOutcome { actions: Vec::new(), result: Ok(()) }
    }

    /// A request this side sends: an INVITE starts a client session in the
    /// dialog layer; any other request goes out as it is.
    pub fn handle_outgoing_request(&mut self, request: rsip::Request, now: u64) -> (o: TuOutcome)
        requires
            old(self).wf(),
        ensures
            final(self).wf(),
            final(self).registrar == old(self).registrar,
            final(self).capabilities == old(self).capabilities,
            request_method_of(request) == Method::Invite ==> exists|r: Result<Seq<DialogAction>, ServerError>|
                session_started(old(self).dialogs.data@, final(self).dialogs.data@, request, r) && dialog_outcome(r, o.actions@, o.result),
            request_method_of(request) != Method::Invite ==> {
                &&& final(self).dialogs.data@ == old(self).dialogs.data@
                &&& o.actions@ == seq![TuAction::Send(SipMessage::Request(request))]
                &&& o.result is Ok
            },
    {
        if request_method(&request) == Method::Invite {
            let r = self.dialogs.new_uac_session(request, now);
            let ghost dr = seq_result(r);
            let o = Self::outcome(r);
            assert(dialog_outcome(dr, o.actions@, o.result));
            o
        } else {
            let mut actions: Vec<TuAction> = Vec::new();
            actions.push(TuAction::Send(SipMessage::Request(request)));
            TuOutcome { actions, result: Ok(()) }
        }
    }

    /// What reaches the transaction user, at `now`.
    pub fn receive(&mut self, msg: TuLayerMsg, now: u64) -> (o: TuOutcome)
        requires
            old(self).wf(),
        ensures
            final(self).wf(),
            final(self).registrar == old(self).registrar,
            final(self).capabilities == old(self).capabilities,
            match msg {
                TuLayerMsg::Incoming(SipMessage::Request(request)) => {
                    &&& final(self).dialogs.data@ == old(self).dialogs.data@
                    &&& incoming_request_handled(old(self).registrar, old(self).capabilities, request, o.actions@, o.result)
                },
                TuLayerMsg::Incoming(SipMessage::Response(response)) => incoming_response_handled(
                    old(self).dialogs.data@, final(self).dialogs.data@, response, now, o.actions@, o.result),
                TuLayerMsg::Outgoing(SipMessage::Request(request)) => if request_method_of(request) == Method::Invite {
                    exists|r: Result<Seq<DialogAction>, ServerError>|
                        session_started(old(self).dialogs.data@, final(self).dialogs.data@, request, r) && dialog_outcome(r, o.actions@, o.result)
                } else {
                    &&& final(self).dialogs.data@ == old(self).dialogs.data@
                    &&& o.actions@ == seq![TuAction::Send(SipMessage::Request(request))]
                    &&& o.result is Ok
                },
                TuLayerMsg::Outgoing(SipMessage::Response(response)) => {
                    &&& final(self).dialogs.data@ == old(self).dialogs.data@
                    &&& o.actions@ == seq![TuAction::Send(SipMessage::Response(response))]
                    &&& o.result is Ok
                },
                TuLayerMsg::TransportError(failed, reason) => {
                    &&& o.actions@.len() == 0
                    &&& transport_error_taken(old(self).dialogs.data@, final(self).dialogs.data@, failed, reason, now, o.result)
                },
            },
    {
        match msg {
            TuLayerMsg::Incoming(SipMessage::Request(request)) => self.handle_incoming_request(request),
            TuLayerMsg::Incoming(SipMessage::Response(response)) => self.handle_incoming_response(response, now),
            TuLayerMsg::Outgoing(SipMessage::Request(request)) => self.handle_outgoing_request(request, now),
            TuLayerMsg::Outgoing(SipMessage::Response(response)) => {
                let mut actions: Vec<TuAction> = Vec::new();
                actions.push(TuAction::Send(SipMessage::Response(response)));
                TuOutcome { actions, result: Ok(()) }
            },
            TuLayerMsg::TransportError(failed, reason) => {
                let result = self.dialogs.transport_error(failed, reason, now);
                TuOutcome { actions: Vec::new(), result }
            },
        }
    }
}

} // verus!
