//! The answer to OPTIONS: what the server supports.
use crate::error::ServerError;
use crate::presets::{all_methods, allow_entry, is_new_tagged_to, plain_answer, busy_here_headers, copied_headers_present, create_busy_here_from, response_headers};
use crate::sip::{request_method_of, response_status_code, Method, SipMessage};
use crate::transport::Config;
use crate::tu::dialogs::headers::{host_of_uri, request_uri, request_uri_of, uri_host};
use crate::tu::{ReqProcessor, TuAction, TuOutcome};
use vstd::prelude::*;

verus! {

/// Whether `action` sends the 486 answer to the OPTIONS `request`.
pub open spec fn sends_busy_here(action: TuAction, request: rsip::Request) -> bool {
    action matches TuAction::Send(SipMessage::Response(response)) && {
        &&& response_status_code(response) == 486
        &&& response_headers(response) == busy_here_headers(request, response_headers(response)[1], allow_entry(all_methods()))
        &&& is_new_tagged_to(request, response_headers(response)[1])
        &&& plain_answer(response)
    }
}

/// What the capabilities element does with `request`: an OPTIONS to one of
/// the server's addresses is answered 486 with what the server supports;
/// anything else is refused and nothing is sent.
pub open spec fn capabilities_handle(config: Config, request: rsip::Request, actions: Seq<TuAction>, result: Result<(), ServerError>) -> bool {
    if !config.listen_addrs@.contains(uri_host(request_uri(request))) {
        actions.len() == 0 && result == Err::<(), ServerError>(ServerError::InvalidRequestUri)
    } else if request_method_of(request) != Method::Options {
        &&& actions.len() == 0
        &&& result == Err::<(), ServerError>(ServerError::UnexpectedMethod { expected: Method::Options, found: request_method_of(request) })
    } else if !copied_headers_present(request) {
        actions.len() == 0 && result matches Err(ServerError::Sip(_))
    } else {
        actions.len() == 1 && sends_busy_here(actions[0], request) && result is Ok
    }
}

/// Answers OPTIONS requests.
pub struct Capabilities {
    pub config: Config,
}

impl Capabilities {
    pub fn new(config: Config) -> (c: Capabilities)
        ensures
            c.config == config,
    {
        Capabilities { config }
    }
}

impl ReqProcessor for Capabilities {
    open spec fn handles(&self, request: rsip::Request, actions: Seq<TuAction>, result: Result<(), ServerError>) -> bool {
        capabilities_handle(self.config, request, actions, result)
    }

    fn process_incoming_request(&self, request: rsip::Request) -> (r: TuOutcome) {
        if !self.config.contains_addr(&host_of_uri(&request_uri_of(&request))) {
            return TuOutcome { actions: Vec::new(), result: Err(ServerError::InvalidRequestUri) };
        }
        let response = match create_busy_here_from(request) {
            Ok(response) => response,
            Err(e) => {
                return TuOutcome { actions: Vec::new(), result: Err(e) };
            },
        };
        let mut actions: Vec<TuAction> = Vec::new();
        actions.push(TuAction::Send(SipMessage::Response(response)));
        TuOutcome { actions, result: Ok(()) }
    }
}

} // verus!
