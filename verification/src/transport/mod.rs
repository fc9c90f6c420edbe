//! The transport layer: the messages it carries with their peers, and the
//! defaults it applies to outgoing and incoming messages.
pub mod dns_lookup;
pub mod processor;
pub mod uac;
pub mod uas;

use crate::error::ServerError;
use vstd::prelude::*;

verus! {

#[verifier::external_type_specification]
#[verifier::external_body]
pub struct ExHostWithPort(rsip::HostWithPort);

#[verifier::external_type_specification]
#[verifier::external_body]
pub struct ExHost(rsip::Host);

/// The transports SIP runs over.
#[derive(Clone, Copy, Debug, PartialEq, Eq, Structural)]
pub enum Transport {
    Udp,
    Tcp,
    Tls,
    TlsSctp,
    Sctp,
    Ws,
    Wss,
}

/// A request with the peer it comes from or goes to.
#[derive(Debug)]
pub struct RequestMsg {
    pub sip_request: rsip::Request,
    pub peer: rsip::HostWithPort,
    pub transport: Transport,
}

/// A response with the peer it comes from or goes to.
#[derive(Debug)]
pub struct ResponseMsg {
    pub sip_response: rsip::Response,
    pub peer: rsip::HostWithPort,
    pub transport: Transport,
}

/// A message with the peer it comes from or goes to.
#[derive(Debug)]
pub struct TransportMsg {
    pub sip_message: crate::sip::SipMessage,
    pub peer: rsip::HostWithPort,
    pub transport: Transport,
}

/// A parameter that the transport layer adds to a Via header.
pub enum ViaParam {
    /// `maddr`: the multicast address the request goes to.
    Maddr(rsip::Host),
    /// `ttl`: the time-to-live of a multicast request.
    Ttl(u8),
    /// `received`: the address a request really came from.
    Received(rsip::HostWithPort),
}

/// Whether the host of `h` is a domain name (not an IP address).
pub uninterp spec fn hwp_is_domain(h: rsip::HostWithPort) -> bool;

/// Whether the host of `h` is a multicast IP address.
pub uninterp spec fn hwp_is_multicast(h: rsip::HostWithPort) -> bool;

/// Whether the host of `h` is an IPv4 address.
pub uninterp spec fn hwp_is_ipv4(h: rsip::HostWithPort) -> bool;

/// The port of `h`, when it has one.
pub uninterp spec fn hwp_port(h: rsip::HostWithPort) -> Option<u16>;

/// The host of `h`.
pub uninterp spec fn hwp_host(h: rsip::HostWithPort) -> rsip::Host;

/// `host` with `port`.
pub uninterp spec fn hwp_make(host: rsip::Host, port: u16) -> rsip::HostWithPort;

/// Whether `host` is a domain name.
pub uninterp spec fn host_is_domain(host: rsip::Host) -> bool;

/// Whether the first Via header of `request` is there (parsed or not).
pub uninterp spec fn request_via_present(request: rsip::Request) -> bool;

/// `request` with `param` added to its first Via header.
pub uninterp spec fn request_with_via_param(request: rsip::Request, param: ViaParam) -> rsip::Request;

/// `request` with its first Via header written anew from its parsed form.
pub uninterp spec fn request_with_via_rewritten(request: rsip::Request) -> rsip::Request;

/// The sent-by part of the first Via header of `request`.
pub uninterp spec fn request_via_sent_by(request: rsip::Request) -> rsip::HostWithPort;

/// The sent-by part of the first Via header of `response`.
pub uninterp spec fn response_via_sent_by(response: rsip::Response) -> rsip::HostWithPort;

/// The transport of the first Via header of `response`.
pub uninterp spec fn response_via_protocol(response: rsip::Response) -> Transport;

/// The `received` parameter of the first Via header of `response`, when it is an IP address.
pub uninterp spec fn response_via_received(response: rsip::Response) -> Option<rsip::Host>;

/// Tells the variants of `rsip::Host` apart: whether the host of `h` is a `Domain`.
#[verifier::external_body]
pub(crate) fn is_domain(h: &rsip::HostWithPort) -> (b: bool)
    ensures
        b == hwp_is_domain(*h),
        b == host_is_domain(hwp_host(*h)),
{
    matches!(h.host, rsip::Host::Domain(_))
}

/// `IpAddr::is_multicast` on the host of `h`; `false` for a domain.
#[verifier::external_body]
pub(crate) fn is_multicast(h: &rsip::HostWithPort) -> (b: bool)
    ensures
        b == hwp_is_multicast(*h),
        b ==> !hwp_is_domain(*h),
{
    match &h.host {
        rsip::Host::IpAddr(ip) => ip.is_multicast(),
        rsip::Host::Domain(_) => false,
    }
}

/// `IpAddr::is_ipv4` on the host of `h`; `false` for a domain.
#[verifier::external_body]
pub(crate) fn is_ipv4(h: &rsip::HostWithPort) -> (b: bool)
    ensures
        b == hwp_is_ipv4(*h),
        b ==> !hwp_is_domain(*h),
{
    match &h.host {
        rsip::Host::IpAddr(ip) => ip.is_ipv4(),
        rsip::Host::Domain(_) => false,
    }
}

/// The port of `h` (`Port::value`).
#[verifier::external_body]
pub(crate) fn port_of(h: &rsip::HostWithPort) -> (p: Option<u16>)
    ensures
        p == hwp_port(*h),
{
    h.port.as_ref().map(|p| *p.value())
}

/// A copy of the host of `h`.
#[verifier::external_body]
pub(crate) fn host_of(h: &rsip::HostWithPort) -> (host: rsip::Host)
    ensures
        host == hwp_host(*h),
{
    h.host.clone()
}

/// Whether the hosts of `a` and `b` are equal (`PartialEq` of `rsip::Host`).
#[verifier::external_body]
pub(crate) fn same_host(a: &rsip::HostWithPort, b: &rsip::HostWithPort) -> (eq: bool)
    ensures
        eq == (hwp_host(*a) == hwp_host(*b)),
{
    a.host == b.host
}

/// `host` with `port`, built from `(host, port)` (`From<(H, P)> for HostWithPort`).
#[verifier::external_body]
pub(crate) fn with_port(host: rsip::Host, port: u16) -> (h: rsip::HostWithPort)
    ensures
        h == hwp_make(host, port),
        hwp_host(h) == host,
        hwp_port(h) == Some(port),
{
    rsip::HostWithPort::from((host, port))
}

/// Whether two hosts with ports are equal (`PartialEq` of `rsip::HostWithPort`,
/// which compares the host, domains as text, and the port).
#[verifier::external_body]
pub(crate) fn same_host_with_port(a: &rsip::HostWithPort, b: &rsip::HostWithPort) -> (eq: bool)
    ensures
        eq == (*a == *b),
{
    *a == *b
}

/// A copy of `h` (`derive(Clone)`).
#[verifier::external_body]
pub(crate) fn clone_host_with_port(h: &rsip::HostWithPort) -> (copy: rsip::HostWithPort)
    ensures
        copy == *h,
{
    h.clone()
}

/// The addresses the server listens on.
pub struct Config {
    pub listen_addrs: Vec<rsip::HostWithPort>,
}

impl Config {
    /// Whether `addr` is one of the addresses the server listens on.
    pub fn contains_addr(&self, addr: &rsip::HostWithPort) -> (b: bool)
        ensures
            b == self.listen_addrs@.contains(*addr),
    {
        let mut i: usize = 0;
        while i < self.listen_addrs.len()
            invariant
                i <= self.listen_addrs@.len(),
                forall|j: int| 0 <= j < i ==> self.listen_addrs@[j] != *addr,
            decreases self.listen_addrs@.len() - i,
        {
            if same_host_with_port(&self.listen_addrs[i], addr) {
                return true;
            }
            i = i + 1;
        }
        false
    }
}

/// Calls `rsip::message::HeadersExt::via_header` on `request` and says
/// whether it found one.
#[verifier::external_body]
pub(crate) fn has_via_header(request: &rsip::Request) -> (b: bool)
    ensures
        b == request_via_present(*request),
{
    rsip::message::HeadersExt::via_header(request).is_ok()
}

/// Whether `request` has a Via header, which the transport layer's steps need.
pub fn has_via(request: &rsip::Request) -> (b: bool)
    ensures
        b == request_via_present(*request),
{
    has_via_header(request)
}

/// Parses the first Via header of `request` (`ToTypedHeader::typed`), adds
/// `param` (`with_param`) and writes it back (`UntypedHeader::replace`). The
/// `maddr` and `received` values are the text forms (`Display`) of the host
/// and of the host with port. When parsing fails the header is left as it was.
#[verifier::external_body]
pub(crate) fn add_via_param(request: &mut rsip::Request, param: ViaParam) -> (r: Result<(), rsip::Error>)
    requires
        request_via_present(*old(request)),
    ensures
        r is Ok == crate::sip::request_via_parses(*old(request)),
        r is Ok ==> *final(request) == request_with_via_param(*old(request), param),
        r is Ok ==> request_via_present(*final(request)),
        r is Err ==> *final(request) == *old(request),
{
    let via = rsip::message::HeadersExt::via_header_mut(request).expect("present");
    let typed = rsip::headers::ToTypedHeader::typed(via)?;
    let param = match param {
        ViaParam::Maddr(host) => rsip::Param::Maddr(rsip::param::Maddr::new(host.to_string())),
        ViaParam::Ttl(ttl) => rsip::Param::Ttl(rsip::param::Ttl::new(ttl.to_string())),
        ViaParam::Received(peer) => rsip::Param::Received(rsip::param::Received::new(peer.to_string())),
    };
    rsip::headers::UntypedHeader::replace(via, typed.with_param(param));
    Ok(())
}

/// Parses the first Via header of `request` and writes its parsed form back.
/// When parsing fails the header is left as it was.
#[verifier::external_body]
pub(crate) fn rewrite_via(request: &mut rsip::Request) -> (r: Result<(), rsip::Error>)
    requires
        request_via_present(*old(request)),
    ensures
        r is Ok == crate::sip::request_via_parses(*old(request)),
        r is Ok ==> *final(request) == request_with_via_rewritten(*old(request)),
        r is Ok ==> request_via_present(*final(request)),
        r is Err ==> *final(request) == *old(request),
{
    let via = rsip::message::HeadersExt::via_header_mut(request).expect("present");
    let typed = rsip::headers::ToTypedHeader::typed(via)?;
    rsip::headers::UntypedHeader::replace(via, typed.to_string());
    Ok(())
}

/// Parses the first Via header of `request` and gives its sent-by part.
#[verifier::external_body]
pub(crate) fn request_sent_by(request: &rsip::Request) -> (r: Result<rsip::HostWithPort, rsip::Error>)
    ensures
        r is Ok == crate::sip::request_via_parses(*request),
        r matches Ok(h) ==> h == request_via_sent_by(*request),
{
    let via = rsip::message::HeadersExt::via_header(request)?;
    Ok(rsip::headers::ToTypedHeader::typed(via)?.uri.host_with_port)
}

/// Parses the first Via header of `response` and gives its sent-by part.
#[verifier::external_body]
pub(crate) fn response_sent_by(response: &rsip::Response) -> (r: Result<rsip::HostWithPort, rsip::Error>)
    ensures
        r is Ok == crate::sip::response_via_parses(*response),
        r matches Ok(h) ==> h == response_via_sent_by(*response),
{
    let via = rsip::message::HeadersExt::via_header(response)?;
    Ok(rsip::headers::ToTypedHeader::typed(via)?.uri.host_with_port)
}

/// Parses the first Via header of `response` and gives its transport
/// (`sent_protocol`).
#[verifier::external_body]
pub(crate) fn response_protocol(response: &rsip::Response) -> (r: Result<Transport, rsip::Error>)
    ensures
        r is Ok == crate::sip::response_via_parses(*response),
        r matches Ok(t) ==> t == response_via_protocol(*response),
{
    let via = rsip::message::HeadersExt::via_header(response)?;
    Ok(match rsip::headers::ToTypedHeader::typed(via)?.transport {
        rsip::Transport::Udp => Transport::Udp,
        rsip::Transport::Tcp => Transport::Tcp,
        rsip::Transport::Tls => Transport::Tls,
        rsip::Transport::TlsSctp => Transport::TlsSctp,
        rsip::Transport::Sctp => Transport::Sctp,
        rsip::Transport::Ws => Transport::Ws,
        rsip::Transport::Wss => Transport::Wss,
    })
}

/// Parses the first Via header of `response` and gives its `received`
/// parameter as a host (`received`), `None` when it is missing or not an IP address.
#[verifier::external_body]
pub(crate) fn response_received(response: &rsip::Response) -> (r: Result<Option<rsip::Host>, rsip::Error>)
    ensures
        r is Ok == crate::sip::response_via_parses(*response),
        r matches Ok(h) ==> h == response_via_received(*response),
        r matches Ok(Some(h)) ==> !host_is_domain(h),
{
    let via = rsip::message::HeadersExt::via_header(response)?;
    let typed = rsip::headers::ToTypedHeader::typed(via)?;
    Ok(typed.received().ok().flatten().map(rsip::Host::from))
}

/// Where the transport layer hands a message next.
#[derive(Clone, Copy, Debug, PartialEq, Eq, Structural)]
pub enum Destination {
    /// The transaction layer, which has the message's transaction.
    Transaction,
    /// The transaction user.
    TransactionUser,
}

/// The next step of routing a message: ask the transaction layer whether it
/// has the transaction with this id, or hand the message to the
/// transaction user at once (it has no transaction id).
pub enum Route {
    AskTransactionLayer(String),
    ToTransactionUser,
}

/// How an incoming response is routed: by the `branch` of its Via header.
pub fn response_route(response: &rsip::Response) -> (r: Result<Route, ServerError>)
    ensures
        r is Ok == crate::sip::response_via_parses(*response),
        r is Err ==> r matches Err(ServerError::Sip(_)),
        r matches Ok(route) ==> match crate::sip::response_branch(*response) {
            Some(id) => route matches Route::AskTransactionLayer(s) && s@ == id,
            None => route is ToTransactionUser,
        },
{
    match crate::sip::response_transaction_id(response) {
        Ok(Some(id)) => Ok(Route::AskTransactionLayer(id)),
        Ok(None) => Ok(Route::ToTransactionUser),
        Err(e) => Err(ServerError::Sip(e)),
    }
}

/// How a message that could not be delivered is reported: by the `branch`
/// of its Via header.
pub fn failed_message_route(msg: &crate::sip::SipMessage) -> (r: Result<Route, ServerError>)
    ensures
        r is Ok == match *msg {
            crate::sip::SipMessage::Request(q) => crate::sip::request_via_parses(q),
            crate::sip::SipMessage::Response(p) => crate::sip::response_via_parses(p),
        },
        r is Err ==> r matches Err(ServerError::Sip(_)),
        r matches Ok(route) ==> match match *msg {
            crate::sip::SipMessage::Request(q) => crate::sip::request_branch(q),
            crate::sip::SipMessage::Response(p) => crate::sip::response_branch(p),
        } {
            Some(id) => route matches Route::AskTransactionLayer(s) && s@ == id,
            None => route is ToTransactionUser,
        },
{
    let id = match msg {
        crate::sip::SipMessage::Request(q) => crate::sip::request_transaction_id(q),
        crate::sip::SipMessage::Response(p) => crate::sip::response_transaction_id(p),
    };
    match id {
        Ok(Some(id)) => Ok(Route::AskTransactionLayer(id)),
        Ok(None) => Ok(Route::ToTransactionUser),
        Err(e) => Err(ServerError::Sip(e)),
    }
}

/// Where a message goes once the transaction layer said whether it has its
/// transaction: there when it has it, to the transaction user otherwise.
pub fn destination_after_lookup(has_transaction: bool) -> (d: Destination)
    ensures
        d == (if has_transaction { Destination::Transaction } else { Destination::TransactionUser }),
{
    if has_transaction {
        Destination::Transaction
    } else {
        Destination::TransactionUser
    }
}

} // verus!
