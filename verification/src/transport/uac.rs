//! Defaults the transport layer applies as a client: to requests going out
//! and to the responses that come back.
use crate::error::ServerError;
use crate::sip::{request_via_parses, response_via_parses};
use crate::transport::{add_via_param, host_of, hwp_host, hwp_is_ipv4, hwp_is_multicast, is_ipv4,
    is_multicast, request_via_present, request_with_via_param, request_with_via_rewritten, response_sent_by,
    response_via_sent_by, rewrite_via, Config, Transport, ViaParam};
use vstd::prelude::*;

verus! {

/// `request` after the `maddr` step: a `maddr` parameter naming the peer when
/// it is a multicast address; `None` when the Via header does not parse.
pub open spec fn with_maddr(request: rsip::Request, peer: rsip::HostWithPort) -> Option<rsip::Request> {
    if hwp_is_multicast(peer) {
        if request_via_parses(request) {
            Some(request_with_via_param(request, ViaParam::Maddr(hwp_host(peer))))
        } else {
            None
        }
    } else {
        Some(request)
    }
}

/// `request` after the `ttl` step: `ttl=1` when the peer is an IPv4 address.
pub open spec fn with_ttl(request: rsip::Request, peer: rsip::HostWithPort) -> Option<rsip::Request> {
    if hwp_is_ipv4(peer) {
        if request_via_parses(request) {
            Some(request_with_via_param(request, ViaParam::Ttl(1)))
        } else {
            None
        }
    } else {
        Some(request)
    }
}

/// `request` after the sent-by step: its Via header written anew.
pub open spec fn with_sent_by(request: rsip::Request) -> Option<rsip::Request> {
    if request_via_parses(request) {
        Some(request_with_via_rewritten(request))
    } else {
        None
    }
}

/// An outgoing request with the client defaults applied in order: `maddr`,
/// `ttl`, sent-by; `None` where a step finds a Via header that does not parse.
pub open spec fn request_defaults(request: rsip::Request, peer: rsip::HostWithPort) -> Option<rsip::Request> {
    match with_maddr(request, peer) {
        None => None,
        Some(a) => match with_ttl(a, peer) {
            None => None,
            Some(b) => with_sent_by(b),
        },
    }
}

/// Adds `maddr` to the Via header of `request` when `peer` is a multicast address.
pub fn apply_via_maddr_address(request: &mut rsip::Request, peer: &rsip::HostWithPort) -> (r: Result<(), ServerError>)
    requires
        request_via_present(*old(request)),
    ensures
        request_via_present(*final(request)),
        match with_maddr(*old(request), *peer) {
            Some(x) => r is Ok && *final(request) == x,
            None => r matches Err(ServerError::Sip(_)) && *final(request) == *old(request),
        },
{
    if is_multicast(peer) {
        match add_via_param(request, ViaParam::Maddr(host_of(peer))) {
            Ok(()) => {},
            Err(e) => {
                return Err(ServerError::Sip(e));
            },
        }
    }
    Ok(())
}

/// Adds `ttl=1` to the Via header of `request` when `peer` is an IPv4 address.
pub fn apply_via_ttl(request: &mut rsip::Request, peer: &rsip::HostWithPort) -> (r: Result<(), ServerError>)
    requires
        request_via_present(*old(request)),
    ensures
        request_via_present(*final(request)),
        match with_ttl(*old(request), *peer) {
            Some(x) => r is Ok && *final(request) == x,
            None => r matches Err(ServerError::Sip(_)) && *final(request) == *old(request),
        },
{
    if is_ipv4(peer) {
        match add_via_param(request, ViaParam::Ttl(1)) {
            Ok(()) => {},
            Err(e) => {
                return Err(ServerError::Sip(e));
            },
        }
    }
    Ok(())
}

/// Writes the Via header of `request` anew from its parsed form.
pub fn apply_via_sent_by(request: &mut rsip::Request) -> (r: Result<(), ServerError>)
    requires
        request_via_present(*old(request)),
    ensures
        request_via_present(*final(request)),
        match with_sent_by(*old(request)) {
            Some(x) => r is Ok && *final(request) == x,
            None => r matches Err(ServerError::Sip(_)) && *final(request) == *old(request),
        },
{
    match rewrite_via(request) {
        Ok(()) => Ok(()),
        Err(e) => Err(ServerError::Sip(e)),
    }
}

/// The client defaults for an outgoing request.
pub fn apply_request_defaults(request: rsip::Request, peer: &rsip::HostWithPort, transport: Transport) -> (r: Result<rsip::Request, ServerError>)
    requires
        request_via_present(request),
    ensures
        match request_defaults(request, *peer) {
            Some(x) => r matches Ok(y) && y == x,
            None => r matches Err(ServerError::Sip(_)),
        },
{
    let mut request = request;
    apply_via_maddr_address(&mut request, peer)?;
    apply_via_ttl(&mut request, peer)?;
    apply_via_sent_by(&mut request)?;
    Ok(request)
}

/// The sent-by of a response that comes back is an address the server listens on.
pub open spec fn response_defaults_hold(response: rsip::Response, config: Config) -> bool {
    response_via_parses(response) && config.listen_addrs@.contains(response_via_sent_by(response))
}

/// Checks that the sent-by of the Via header of `response` is an address the
/// server listens on.
pub fn assert_sent_by_value(response: &rsip::Response, config: &Config) -> (r: Result<(), ServerError>)
    ensures
        r is Ok == response_defaults_hold(*response, *config),
        !response_via_parses(*response) ==> r matches Err(ServerError::Sip(_)),
        response_via_parses(*response) && !response_defaults_hold(*response, *config)
            ==> (r matches Err(ServerError::SentByMismatch(s)) && s == response_via_sent_by(*response)),
{
    let sent_by = match response_sent_by(response) {
        Ok(s) => s,
        Err(e) => {
            return Err(ServerError::Sip(e));
        },
    };
    if config.contains_addr(&sent_by) {
        Ok(())
    } else {
        Err(ServerError::SentByMismatch(sent_by))
    }
}

/// The client defaults for an incoming response: its sent-by must be ours.
pub fn apply_response_defaults(response: rsip::Response, peer: &rsip::HostWithPort, transport: Transport, config: &Config) -> (r: Result<rsip::Response, ServerError>)
    ensures
        r is Ok == response_defaults_hold(response, *config),
        r matches Ok(x) ==> x == response,
{
    assert_sent_by_value(&response, config)?;
    Ok(response)
}

} // verus!
