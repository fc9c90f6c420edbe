//! The default processing of messages as they pass the transport layer.
use crate::error::ServerError;
use crate::transport::{request_via_present, Config, RequestMsg, ResponseMsg};
use crate::transport::uac;
use crate::transport::uas;
use vstd::prelude::*;

verus! {

/// How the transport layer processes messages on their way in and out; a
/// processor may drop a message by answering `None`.
pub trait TransportProcessor {
    fn process_outgoing_request(&self, msg: RequestMsg) -> Result<Option<RequestMsg>, ServerError>
        requires
            request_via_present(msg.sip_request),
    ;

    fn process_incoming_response(&self, msg: ResponseMsg) -> Result<Option<ResponseMsg>, ServerError>;

    fn process_incoming_request(&self, msg: RequestMsg) -> Result<Option<RequestMsg>, ServerError>
        requires
            request_via_present(msg.sip_request),
    ;

    fn process_outgoing_response(&self, msg: ResponseMsg) -> Result<Option<ResponseMsg>, ServerError>;
}

/// The default processor: applies the client and server defaults.
pub struct Processor {
    pub config: Config,
}

impl TransportProcessor for Processor {
    fn process_outgoing_request(&self, msg: RequestMsg) -> (r: Result<Option<RequestMsg>, ServerError>)
        ensures
            match uac::request_defaults(msg.sip_request, msg.peer) {
                Some(x) => r matches Ok(Some(m)) && m == (RequestMsg { sip_request: x, ..msg }),
                None => r matches Err(ServerError::Sip(_)),
            },
    {
        let RequestMsg { sip_request, peer, transport } = msg;
        let sip_request = uac::apply_request_defaults(sip_request, &peer, transport)?;
        Ok(Some(RequestMsg { sip_request, peer, transport }))
    }

    fn process_incoming_response(&self, msg: ResponseMsg) -> (r: Result<Option<ResponseMsg>, ServerError>)
        ensures
            r is Ok == uac::response_defaults_hold(msg.sip_response, self.config),
            r matches Ok(x) ==> x == Some(msg),
    {
        let ResponseMsg { sip_response, peer, transport } = msg;
        let sip_response = uac::apply_response_defaults(sip_response, &peer, transport, &self.config)?;
        Ok(Some(ResponseMsg { sip_response, peer, transport }))
    }

    fn process_incoming_request(&self, msg: RequestMsg) -> (r: Result<Option<RequestMsg>, ServerError>)
        ensures
            match uas::with_received(msg.sip_request, msg.peer) {
                Some(x) => r matches Ok(Some(m)) && m == (RequestMsg { sip_request: x, ..msg }),
                None => r matches Err(ServerError::Sip(_)),
            },
    {
        let RequestMsg { sip_request, peer, transport } = msg;
        let sip_request = uas::apply_request_defaults(sip_request, &peer, transport)?;
        Ok(Some(RequestMsg { sip_request, peer, transport }))
    }

    fn process_outgoing_response(&self, msg: ResponseMsg) -> (r: Result<Option<ResponseMsg>, ServerError>)
        ensures
            r matches Ok(x) && x == Some(msg),
    {
        let ResponseMsg { sip_response, peer, transport } = msg;
        let sip_response = uas::apply_response_defaults(sip_response, &peer, transport);
        Ok(Some(ResponseMsg { sip_response, peer, transport }))
    }
}

} // verus!
