//! Where responses go back to (RFC 3261, section 18.2.2).
use crate::error::ServerError;
use crate::sip::response_via_parses;
use crate::transport::{host_of, hwp_host, hwp_is_domain, hwp_make, hwp_port, is_domain, port_of,
    response_protocol, response_received, response_sent_by, response_via_protocol,
    response_via_received, response_via_sent_by, with_port, ResponseMsg, Transport};
use vstd::prelude::*;

verus! {

/// The port a response goes back to: the sent-by port, 5060 when there is none.
pub open spec fn response_port(response: rsip::Response) -> u16 {
    match hwp_port(response_via_sent_by(response)) {
        Some(p) => p,
        None => 5060,
    }
}

/// The peer a response goes back to over UDP: the `received` address when
/// the Via header has one, else the sent-by address; `None` for a sent-by
/// domain without `received` (which needs RFC 3263) and for other transports.
pub open spec fn response_peer(response: rsip::Response) -> Option<rsip::HostWithPort> {
    if response_via_protocol(response) != Transport::Udp {
        None
    } else {
        match response_via_received(response) {
            Some(received) => Some(hwp_make(received, response_port(response))),
            None => if hwp_is_domain(response_via_sent_by(response)) {
                None
            } else {
                Some(hwp_make(hwp_host(response_via_sent_by(response)), response_port(response)))
            },
        }
    }
}

/// The DNS lookup that comes with the server.
pub struct DefaultDnsLookup;

impl DefaultDnsLookup {
    /// The response with the peer it goes back to, over UDP.
    pub fn response_msg_from(&self, response: rsip::Response) -> (r: Result<ResponseMsg, ServerError>)
        requires
            response_via_parses(response) ==> response_peer(response) is Some,
        ensures
            !response_via_parses(response) ==> r matches Err(ServerError::Sip(_)),
            response_via_parses(response) ==> (r matches Ok(m) && m == (ResponseMsg {
                sip_response: response,
                peer: response_peer(response)->0,
                transport: Transport::Udp,
            })),
    {
        match self.try_response_msg_from(response) {
            Some(r) => r,
            None => Err(ServerError::UnsupportedResponseRoute),
        }
    }

    /// The response with the peer it goes back to, over UDP; `None` where
    /// the peer cannot be told (a sent-by domain without `received`, or a
    /// transport other than UDP).
    pub fn try_response_msg_from(&self, response: rsip::Response) -> (r: Option<Result<ResponseMsg, ServerError>>)
        ensures
            !response_via_parses(response) ==> r matches Some(Err(ServerError::Sip(_))),
            response_via_parses(response) ==> match response_peer(response) {
                Some(peer) => r matches Some(Ok(m)) && m == (ResponseMsg {
                    sip_response: response,
                    peer,
                    transport: Transport::Udp,
                }),
                None => r is None,
            },
    {
        let sent_by = match response_sent_by(&response) {
            Ok(s) => s,
            Err(e) => {
                return Some(Err(ServerError::Sip(e)));
            },
        };
        let protocol = match response_protocol(&response) {
            Ok(p) => p,
            Err(e) => {
                return Some(Err(ServerError::Sip(e)));
            },
        };
        let received = match response_received(&response) {
            Ok(r) => r,
            Err(e) => {
                return Some(Err(ServerError::Sip(e)));
            },
        };
        let port: u16 = match port_of(&sent_by) {
            Some(p) => p,
            None => 5060,
        };
        if protocol != Transport::Udp {
            return None;
        }
        let peer = match received {
            Some(received) => with_port(received, port),
            None => {
                if is_domain(&sent_by) {
                    return None;
                }
                with_port(host_of(&sent_by), port)
            },
        };
        Some(Ok(ResponseMsg { sip_response: response, peer, transport: Transport::Udp }))
    }
}

} // verus!
