//! Defaults the transport layer applies as a server: to requests that come
//! in and to the responses that go back.
use crate::error::ServerError;
use crate::sip::request_via_parses;
use crate::transport::{add_via_param, clone_host_with_port, hwp_host, hwp_is_domain, hwp_port, is_domain,
    port_of, request_sent_by, request_via_present, request_via_sent_by, request_with_via_param, same_host,
    Transport, ViaParam};
use vstd::prelude::*;

verus! {

/// Whether a request whose Via sent-by is `sent_by` and that came from `peer`
/// needs a `received` parameter: the sent-by is a domain, or names another
/// address or port than the one the request came from.
pub open spec fn needs_received(sent_by: rsip::HostWithPort, peer: rsip::HostWithPort) -> bool {
    if hwp_is_domain(sent_by) {
        true
    } else {
        match hwp_port(sent_by) {
            Some(port) => hwp_host(sent_by) != hwp_host(peer) || Some(port) != hwp_port(peer),
            None => hwp_host(sent_by) != hwp_host(peer),
        }
    }
}

/// `request` with `received` applied; `None` when its Via header does not parse.
pub open spec fn with_received(request: rsip::Request, peer: rsip::HostWithPort) -> Option<rsip::Request> {
    if !request_via_parses(request) {
        None
    } else if needs_received(request_via_sent_by(request), peer) {
        Some(request_with_via_param(request, ViaParam::Received(peer)))
    } else {
        Some(request)
    }
}

/// Adds `received` with the peer's address to the Via header of `request`
/// where the sent-by does not name that address.
pub fn apply_received_value(request: &mut rsip::Request, peer: &rsip::HostWithPort) -> (r: Result<(), ServerError>)
    requires
        request_via_present(*old(request)),
    ensures
        match with_received(*old(request), *peer) {
            Some(x) => r is Ok && *final(request) == x,
            None => r matches Err(ServerError::Sip(_)) && *final(request) == *old(request),
        },
{
    let sent_by = match request_sent_by(request) {
        Ok(s) => s,
        Err(e) => {
            return Err(ServerError::Sip(e));
        },
    };
    let needed = if is_domain(&sent_by) {
        true
    } else {
        match port_of(&sent_by) {
            Some(port) => !same_host(&sent_by, peer) || !matches!(port_of(peer), Some(p) if p == port),
            None => !same_host(&sent_by, peer),
        }
    };
    if needed {
        match add_via_param(request, ViaParam::Received(clone_host_with_port(peer))) {
            Ok(()) => {},
            Err(e) => {
                return Err(ServerError::Sip(e));
            },
        }
    }
    Ok(())
}

/// The server defaults for an incoming request.
pub fn apply_request_defaults(request: rsip::Request, peer: &rsip::HostWithPort, transport: Transport) -> (r: Result<rsip::Request, ServerError>)
    requires
        request_via_present(request),
    ensures
        match with_received(request, *peer) {
            Some(x) => r matches Ok(y) && y == x,
            None => r matches Err(ServerError::Sip(_)),
        },
{
    let mut request = request;
    apply_received_value(&mut request, peer)?;
    Ok(request)
}

/// The server defaults for an outgoing response: none.
pub fn apply_response_defaults(response: rsip::Response, peer: &rsip::HostWithPort, transport: Transport) -> (r: rsip::Response)
    ensures
        r == response,
{
    response
}


/// An incoming request whose Via sent-by is a domain name always gets a
/// `received` parameter with the address of the peer it came from.
pub proof fn law_domain_sent_by_gets_received(request: rsip::Request, peer: rsip::HostWithPort)
    requires
        request_via_parses(request),
        hwp_is_domain(request_via_sent_by(request)),
    ensures
        with_received(request, peer) == Some(request_with_via_param(request, ViaParam::Received(peer))),
{
}

/// An incoming request whose Via sent-by is an address gets `received` with
/// the peer's address exactly when the sent-by names another host than the
/// peer, or gives a port that the peer does not have; otherwise the request
/// is left as it came.
pub proof fn law_address_sent_by_gets_received_when_it_differs(request: rsip::Request, peer: rsip::HostWithPort)
    requires
        request_via_parses(request),
        !hwp_is_domain(request_via_sent_by(request)),
    ensures
        hwp_host(request_via_sent_by(request)) != hwp_host(peer)
            ==> with_received(request, peer) == Some(request_with_via_param(request, ViaParam::Received(peer))),
        hwp_port(request_via_sent_by(request)) is Some && hwp_port(request_via_sent_by(request)) != hwp_port(peer)
            ==> with_received(request, peer) == Some(request_with_via_param(request, ViaParam::Received(peer))),
        hwp_host(request_via_sent_by(request)) == hwp_host(peer)
            && (hwp_port(request_via_sent_by(request)) is None || hwp_port(request_via_sent_by(request)) == hwp_port(peer))
            ==> with_received(request, peer) == Some(request),
{
}

} // verus!
