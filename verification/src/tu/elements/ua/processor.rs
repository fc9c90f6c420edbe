//! A user agent element that asks REGISTER requests for credentials.
use crate::error::{ServerError, Unsupported};
use crate::presets::{is_new_tagged_to, plain_answer, answer_head, copied_headers_present, create_405_from, create_unauthorized_from, response_headers};
use crate::sip::{request_method, request_method_of, response_status_code, Method, SipMessage};
use crate::tu::elements::ua::refused_with_405;
use crate::tu::{ReqProcessor, TuAction, TuOutcome};
use vstd::prelude::*;

verus! {

/// Whether `request` has an Authorization header.
pub uninterp spec fn request_has_authorization(request: rsip::Request) -> bool;

/// `HeadersExt::authorization_header` on `request`, and whether it found one.
#[verifier::external_body]
fn has_authorization(request: &rsip::Request) -> (b: bool)
    ensures
        b == request_has_authorization(*request),
{
    rsip::message::HeadersExt::authorization_header(request).is_some()
}

/// Whether `action` sends a 401 answer to `request`.
pub open spec fn sends_401(action: TuAction, request: rsip::Request) -> bool {
    action matches TuAction::Send(SipMessage::Response(response)) && {
        &&& response_status_code(response) == 401
        &&& response_headers(response) == answer_head(request, response_headers(response)[1])
        &&& is_new_tagged_to(request, response_headers(response)[1])
        &&& plain_answer(response)
    }
}

/// What a REGISTER without credentials gets: a 401 answer (when one can be
/// built), and the step fails.
pub open spec fn asked_for_credentials(request: rsip::Request, actions: Seq<TuAction>, result: Result<(), ServerError>) -> bool {
    if copied_headers_present(request) {
        &&& actions.len() == 1
        &&& sends_401(actions[0], request)
        &&& result == Err::<(), ServerError>(ServerError::MissingAuthorization)
    } else {
        actions.len() == 0 && result matches Err(ServerError::Sip(_))
    }
}

/// How the element handles `request`: a REGISTER with credentials goes to
/// the registrar, one without is asked for them, an OPTIONS goes to the
/// capabilities element, anything else is answered 405.
pub open spec fn ua_request_handled<R: ReqProcessor, C: ReqProcessor>(registrar: R, capabilities: C,
    request: rsip::Request, actions: Seq<TuAction>, result: Result<(), ServerError>) -> bool {
    match request_method_of(request) {
        Method::Register => if request_has_authorization(request) {
            registrar.handles(request, actions, result)
        } else {
            asked_for_credentials(request, actions, result)
        },
        Method::Options => capabilities.handles(request, actions, result),
        _ => refused_with_405(request, actions, result),
    }
}

/// The element: the registrar and the capabilities element it hands requests to.
pub struct UaProcessor<R: ReqProcessor, C: ReqProcessor> {
    pub registrar: R,
    pub capabilities: C,
}

impl<R: ReqProcessor, C: ReqProcessor> UaProcessor<R, C> {
    pub fn new(registrar: R, capabilities: C) -> (p: Self)
        ensures
            p.registrar == registrar,
            p.capabilities == capabilities,
    {
        UaProcessor { registrar, capabilities }
    }

    /// A message from a peer: requests are handled, responses refused.
    pub fn process_incoming_message(&self, msg: SipMessage) -> (o: TuOutcome)
        ensures
            match msg {
                SipMessage::Request(request) => ua_request_handled(self.registrar, self.capabilities, request, o.actions@, o.result),
                SipMessage::Response(_) => o.actions@.len() == 0
                    && o.result == Err::<(), ServerError>(ServerError::NotSupported(Unsupported::Responses)),
            },
    {
        match msg {
            SipMessage::Request(request) => self.handle_request(request),
            SipMessage::Response(_) => TuOutcome {
                actions: Vec::new(),
                result: Err(ServerError::NotSupported(Unsupported::Responses)),
            },
        }
    }

    fn handle_request(&self, request: rsip::Request) -> (o: TuOutcome)
        ensures
            ua_request_handled(self.registrar, self.capabilities, request, o.actions@, o.result),
    {
        match request_method(&request) {
            Method::Register => {
                let mut actions: Vec<TuAction> = Vec::new();
                match self.with_auth(request, &mut actions) {
                    Ok(request) => self.registrar.process_incoming_request(request),
                    Err(e) => TuOutcome { actions, result: Err(e) },
                }
            },
            Method::Options => self.capabilities.process_incoming_request(request),
            _ => match create_405_from(request) {
                Ok(response) => {
                    let mut actions: Vec<TuAction> = Vec::new();
                    actions.push(TuAction::Send(SipMessage::Response(response)));
                    TuOutcome { actions, result: Ok(()) }
                },
                Err(e) => TuOutcome { actions: Vec::new(), result: Err(e) },
            },
        }
    }

    /// Hands `request` back when it carries credentials; otherwise adds the
    /// 401 answer to `actions` and fails.
    fn with_auth(&self, request: rsip::Request, actions: &mut Vec<TuAction>) -> (r: Result<rsip::Request, ServerError>)
        requires
            old(actions)@.len() == 0,
        ensures
            request_has_authorization(request) ==> r == Ok::<rsip::Request, ServerError>(request) && final(actions)@.len() == 0,
            !request_has_authorization(request) ==> r is Err && asked_for_credentials(request, final(actions)@, match r {
                Ok(_) => Ok(()),
                Err(e) => Err(e),
            }),
    {
        if has_authorization(&request) {
            return Ok(request);
        }
        match create_unauthorized_from(request) {
            Ok(response) => {
                actions.push(TuAction::Send(SipMessage::Response(response)));
                Err(ServerError::MissingAuthorization)
            },
            Err(e) => Err(e),
        }
    }
}

} // verus!
