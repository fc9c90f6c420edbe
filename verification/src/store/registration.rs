//! Registrations: the transport a registration is stored with, and the
//! fields a REGISTER request gives a new registration.
use crate::error::ServerError;
use crate::sip::{request_method, request_method_of, Method};
use crate::store::{ascii_lower, eq_ignore_ascii_case, same_ignoring_ascii_case};
use crate::transport::{host_of, hwp_host, hwp_port, port_of};
use crate::tu::dialogs::headers::{call_id_of, call_id_text, call_id_value, contact_of, cseq_of, from_uri_of,
    host_of_uri, request_call_id, request_contact, request_cseq, request_from_uri, uri_host};
use crate::tu::elements::registrar::{contact_expires, contact_expires_of, contact_uri_text, contact_uri_text_of,
    expires_header_of, expires_seconds, request_expires_header, seconds_of};
use vstd::prelude::*;
use vstd::string::StringExecFns;

verus! {

/// The transports a registration is stored with.
#[derive(Clone, Copy, Debug, PartialEq, Eq, Structural)]
pub enum Transport {
    Tcp,
    Udp,
    Tls,
    Sctp,
}

/// The name of a transport, as `Display` writes it.
pub open spec fn transport_name(t: Transport) -> Seq<char> {
    match t {
        Transport::Tcp => "Tcp"@,
        Transport::Udp => "Udp"@,
        Transport::Tls => "Tls"@,
        Transport::Sctp => "Sctp"@,
    }
}

/// The text the store holds for a transport: its name in lower case.
pub open spec fn transport_column(t: Transport) -> Seq<char> {
    match t {
        Transport::Tcp => "tcp"@,
        Transport::Udp => "udp"@,
        Transport::Tls => "tls"@,
        Transport::Sctp => "sctp"@,
    }
}

/// The transport whose name `text` is, whatever the case of its ASCII letters.
pub open spec fn parsed_transport(text: Seq<char>) -> Option<Transport> {
    if same_ignoring_ascii_case(text, "tcp"@) {
        Some(Transport::Tcp)
    } else if same_ignoring_ascii_case(text, "udp"@) {
        Some(Transport::Udp)
    } else if same_ignoring_ascii_case(text, "tls"@) {
        Some(Transport::Tls)
    } else if same_ignoring_ascii_case(text, "sctp"@) {
        Some(Transport::Sctp)
    } else {
        None
    }
}

/// The transport of the transport layer a stored transport stands for.
pub open spec fn as_layer_transport(t: Transport) -> crate::transport::Transport {
    match t {
        Transport::Tcp => crate::transport::Transport::Tcp,
        Transport::Udp => crate::transport::Transport::Udp,
        Transport::Tls => crate::transport::Transport::Tls,
        Transport::Sctp => crate::transport::Transport::Sctp,
    }
}

impl Transport {
    /// Reads a transport from its name, whatever the case of its letters;
    /// the error names the text.
    pub fn from_str(s: &str) -> (r: Result<Transport, String>)
        ensures
            match parsed_transport(s@) {
                Some(t) => r == Ok::<Transport, String>(t),
                None => r matches Err(message) && message@ == "failed to parse transport "@ + s@,
            },
    {
        if eq_ignore_ascii_case(s, "tcp") {
            Ok(Transport::Tcp)
        } else if eq_ignore_ascii_case(s, "udp") {
            Ok(Transport::Udp)
        } else if eq_ignore_ascii_case(s, "tls") {
            Ok(Transport::Tls)
        } else if eq_ignore_ascii_case(s, "sctp") {
            Ok(Transport::Sctp)
        } else {
            let mut message = String::from_str("failed to parse transport ");
            message.append(s);
            Err(message)
        }
    }

    /// The name of the transport (its `Display`).
    pub fn name(&self) -> (s: String)
        ensures
            s@ == transport_name(*self),
    {
        match self {
            Transport::Tcp => String::from_str("Tcp"),
            Transport::Udp => String::from_str("Udp"),
            Transport::Tls => String::from_str("Tls"),
            Transport::Sctp => String::from_str("Sctp"),
        }
    }

    /// The text the store holds for the transport.
    pub fn column_text(&self) -> (s: String)
        ensures
            s@ == transport_column(*self),
    {
        match self {
            Transport::Tcp => String::from_str("tcp"),
            Transport::Udp => String::from_str("udp"),
            Transport::Tls => String::from_str("tls"),
            Transport::Sctp => String::from_str("sctp"),
        }
    }

    /// The transport of the transport layer this one stands for.
    pub fn into_layer(self) -> (t: crate::transport::Transport)
        ensures
            t == as_layer_transport(self),
    {
        match self {
            Transport::Tcp => crate::transport::Transport::Tcp,
            Transport::Udp => crate::transport::Transport::Udp,
            Transport::Tls => crate::transport::Transport::Tls,
            Transport::Sctp => crate::transport::Transport::Sctp,
        }
    }

    /// The stored transport for a transport of the transport layer; `None`
    /// for those a registration cannot be stored with (TLS over SCTP, WS, WSS).
    pub fn from_layer(t: crate::transport::Transport) -> (r: Option<Transport>)
        ensures
            match r {
                Some(s) => as_layer_transport(s) == t,
                None => forall|s: Transport| as_layer_transport(s) != t,
            },
    {
        match t {
            crate::transport::Transport::Tcp => Some(Transport::Tcp),
            crate::transport::Transport::Udp => Some(Transport::Udp),
            crate::transport::Transport::Tls => Some(Transport::Tls),
            crate::transport::Transport::Sctp => Some(Transport::Sctp),
            _ => {
                assert forall|s: Transport| as_layer_transport(s) != t by {}
                None
            },
        }
    }
}

/// What the store writes for a transport reads back as the same transport,
/// and the transport layer's transport comes back from it unchanged.
pub proof fn law_transport_round_trip(t: Transport)
    ensures
        parsed_transport(transport_column(t)) == Some(t),
        parsed_transport(transport_name(t)) == Some(t),
{
    reveal_strlit("tcp");
    reveal_strlit("udp");
    reveal_strlit("tls");
    reveal_strlit("sctp");
    reveal_strlit("Tcp");
    reveal_strlit("Udp");
    reveal_strlit("Tls");
    reveal_strlit("Sctp");
    match t {
        Transport::Tcp => {
            assert(same_ignoring_ascii_case(transport_column(t), "tcp"@));
            assert(same_ignoring_ascii_case(transport_name(t), "tcp"@));
        },
        Transport::Udp => {
            assert(ascii_lower(transport_column(t)[0]) != ascii_lower("tcp"@[0]));
            assert(ascii_lower(transport_name(t)[0]) != ascii_lower("tcp"@[0]));
            assert(same_ignoring_ascii_case(transport_column(t), "udp"@));
            assert(same_ignoring_ascii_case(transport_name(t), "udp"@));
        },
        Transport::Tls => {
            assert(ascii_lower(transport_column(t)[1]) != ascii_lower("tcp"@[1]));
            assert(ascii_lower(transport_name(t)[1]) != ascii_lower("tcp"@[1]));
            assert(ascii_lower(transport_column(t)[0]) != ascii_lower("udp"@[0]));
            assert(ascii_lower(transport_name(t)[0]) != ascii_lower("udp"@[0]));
            assert(same_ignoring_ascii_case(transport_column(t), "tls"@));
            assert(same_ignoring_ascii_case(transport_name(t), "tls"@));
        },
        Transport::Sctp => {
            assert(same_ignoring_ascii_case(transport_column(t), "sctp"@));
            assert(same_ignoring_ascii_case(transport_name(t), "sctp"@));
        },
    }
}

/// The text of a Contact header (`UntypedHeader::value`).
pub uninterp spec fn contact_text(contact: rsip::headers::Contact) -> Seq<char>;
/// The user part of a URI, if it has one.
pub uninterp spec fn uri_user(uri: rsip::Uri) -> Option<Seq<char>>;
/// The text of a host (`Host`'s `Display`).
pub uninterp spec fn host_text(host: rsip::Host) -> Seq<char>;
/// The text of the User-Agent header of a request, if it has one.
pub uninterp spec fn request_user_agent(request: rsip::Request) -> Option<Seq<char>>;

#[verifier::external_body]
fn contact_text_of(contact: &rsip::headers::Contact) -> (s: String)
    ensures
        s@ == contact_text(*contact),
{
    rsip::headers::UntypedHeader::value(contact).to_string()
}

/// `Uri::user`, copied.
#[verifier::external_body]
fn user_of(uri: &rsip::Uri) -> (r: Option<String>)
    ensures
        crate::sip::opt_view(r) == uri_user(*uri),
{
    uri.user().map(|u| u.to_string())
}

/// `Host`'s `Display`.
#[verifier::external_body]
fn host_to_text(host: &rsip::Host) -> (s: String)
    ensures
        s@ == host_text(*host),
{
    host.to_string()
}

/// `HeadersExt::user_agent_header` on `request`, as text.
#[verifier::external_body]
fn user_agent_of(request: &rsip::Request) -> (r: Option<String>)
    ensures
        crate::sip::opt_view(r) == request_user_agent(*request),
{
    rsip::message::HeadersExt::user_agent_header(request).map(|h| rsip::headers::UntypedHeader::value(h).to_string())
}

/// What a REGISTER request gives a new registration; the time it expires
/// is `expires_in` seconds from when it is stored.
pub struct RegistrationFields {
    pub username: String,
    pub domain: String,
    pub contact: String,
    pub expires_in: i64,
    pub call_id: String,
    pub cseq: i32,
    pub user_agent: String,
    pub instance: String,
    pub port: i16,
    pub contact_uri: String,
    pub transport: Transport,
}

/// Whether a REGISTER request gives a registration: everything read from it
/// is there and parses.
pub open spec fn registration_possible(request: rsip::Request) -> bool {
    &&& request_method_of(request) == Method::Register
    &&& request_contact(request) matches Some(c) && contact_expires(c) is Some && contact_uri_text(c) is Some
    &&& request_expires_header(request) matches Some(h) ==> expires_seconds(h) is Some
    &&& request_from_uri(request) matches Some(u) && uri_user(u) is Some
    &&& request_call_id(request) is Some
    &&& request_cseq(request) is Some
    &&& request_user_agent(request) is Some
}

/// Whether what a registration reads from a REGISTER before the user of its
/// From URI is there and parses: the Contact header with its `expires` and
/// URI, the Expires header where there is one, and the From URI.
pub open spec fn read_before_user(request: rsip::Request) -> bool {
    &&& request_contact(request) matches Some(c) && contact_expires(c) is Some && contact_uri_text(c) is Some
    &&& request_expires_header(request) matches Some(h) ==> expires_seconds(h) is Some
    &&& request_from_uri(request) is Some
}

/// Whether the From URI of a REGISTER has a user part, and its Call-ID and
/// CSeq headers are there and parse.
pub open spec fn read_after_user(request: rsip::Request) -> bool {
    &&& uri_user(request_from_uri(request)->0) is Some
    &&& request_call_id(request) is Some
    &&& request_cseq(request) is Some
}

/// How long a registration lasts, in seconds: the `expires` parameter of the
/// first Contact header, else the Expires header, else an hour.
pub open spec fn registration_expiry(request: rsip::Request) -> u32 {
    match contact_expires(request_contact(request)->0)->0 {
        Some(seconds) => seconds,
        None => match request_expires_header(request) {
            Some(h) => expires_seconds(h)->0,
            None => 3600,
        },
    }
}

/// The port a registration is stored with: that of the From URI, 5060 without one.
pub open spec fn registration_port(request: rsip::Request) -> i16 {
    match hwp_port(uri_host(request_from_uri(request)->0)) {
        Some(p) => p as i16,
        None => 5060,
    }
}

/// The fields of the registration that the REGISTER `request` makes.
pub fn registration_fields(request: &rsip::Request) -> (r: Result<RegistrationFields, ServerError>)
    ensures
        request_method_of(*request) != Method::Register ==> r == Err::<RegistrationFields, ServerError>(
            ServerError::NotRegistration(request_method_of(*request))),
        request_method_of(*request) == Method::Register && !read_before_user(*request)
            ==> r matches Err(ServerError::Sip(_)),
        request_method_of(*request) == Method::Register && read_before_user(*request)
            && uri_user(request_from_uri(*request)->0) is None ==> r matches Err(ServerError::MissingUsername),
        request_method_of(*request) == Method::Register && read_before_user(*request)
            && uri_user(request_from_uri(*request)->0) is Some && !read_after_user(*request)
            ==> r matches Err(ServerError::Sip(_)),
        request_method_of(*request) == Method::Register && read_before_user(*request) && read_after_user(*request)
            && request_user_agent(*request) is None ==> r matches Err(ServerError::MissingUserAgent),
        r is Ok == registration_possible(*request),
        r matches Ok(f) ==> {
            let request = *request;
            let contact = request_contact(request)->0;
            let from = request_from_uri(request)->0;
            &&& f.username@ == uri_user(from)->0
            &&& f.domain@ == host_text(hwp_host(uri_host(from)))
            &&& f.contact@ == contact_text(contact)
            &&& f.expires_in == registration_expiry(request) as i64
            &&& f.call_id@ == call_id_text(request_call_id(request)->0)
            &&& f.cseq == request_cseq(request)->0 as i32
            &&& f.user_agent@ == request_user_agent(request)->0
            &&& f.instance@ == "something"@
            &&& f.port == registration_port(request)
            &&& f.contact_uri@ == contact_uri_text(contact)->0
            &&& f.transport == Transport::Udp
        },
{
    let method = request_method(request);
    if method != Method::Register {
        return Err(ServerError::NotRegistration(method));
    }
    let contact = match contact_of(request) {
        Ok(c) => c,
        Err(e) => {
            return Err(ServerError::Sip(e));
        },
    };
    let contact_seconds = match contact_expires_of(&contact) {
        Ok(s) => s,
        Err(e) => {
            return Err(ServerError::Sip(e));
        },
    };
    let header_seconds = match expires_header_of(request) {
        Some(h) => match seconds_of(&h) {
            Ok(s) => Some(s),
            Err(e) => {
                return Err(ServerError::Sip(e));
            },
        },
        None => None,
    };
    let expires: u32 = match (contact_seconds, header_seconds) {
        (Some(s), _) => s,
        (None, Some(s)) => s,
        _ => 3600,
    };
    let contact_uri = match contact_uri_text_of(&contact) {
        Ok(u) => u,
        Err(e) => {
            return Err(ServerError::Sip(e));
        },
    };
    let from = match from_uri_of(request) {
        Ok(u) => u,
        Err(e) => {
            return Err(ServerError::Sip(e));
        },
    };
    let username = match user_of(&from) {
        Some(u) => u,
        None => {
            return Err(ServerError::MissingUsername);
        },
    };
    let from_host = host_of_uri(&from);
    let domain = host_to_text(&host_of(&from_host));
    let call_id = match call_id_of(request) {
        Ok(c) => call_id_value(&c),
        Err(e) => {
            return Err(ServerError::Sip(e));
        },
    };
    let cseq = match cseq_of(request) {
        Ok(s) => s,
        Err(e) => {
            return Err(ServerError::Sip(e));
        },
    };
    let user_agent = match user_agent_of(request) {
        Some(u) => u,
        None => {
            return Err(ServerError::MissingUserAgent);
        },
    };
    let port: i16 = match port_of(&from_host) {
        Some(p) => p as i16,
        None => 5060,
    };
    Ok(RegistrationFields {
        username,
        domain,
        contact: contact_text_of(&contact),
        expires_in: expires as i64,
        call_id,
        cseq: cseq as i32,
        user_agent,
        instance: String::from_str("something"),
        port,
        contact_uri,
        transport: Transport::Udp,
    })
}

} // verus!
