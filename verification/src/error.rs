//! Errors of the library.
use crate::sip::Method;
use crate::store::request::{method_name, method_text};
use crate::transaction::TransactionError;
use vstd::prelude::*;
use vstd::string::StringExecFns;

verus! {

/// Errors of the dialog layer.
#[derive(Clone, Copy, Debug, PartialEq, Eq, Structural)]
pub enum DialogError {
    NotFound,
}

/// What an element does not take yet.
#[derive(Clone, Copy, Debug, PartialEq, Eq, Structural)]
pub enum Unsupported {
    Requests,
    Responses,
}

/// Errors of the SIP server layers.
#[derive(Debug)]
pub enum ServerError {
    /// A message header is missing or does not parse.
    Sip(rsip::Error),
    Transaction(TransactionError),
    Dialog(DialogError),
    /// The message carries no transaction id (no `branch` in its Via header).
    MissingTransactionId,
    /// The sent-by of a response's Via header, which is not an address the server listens on.
    SentByMismatch(rsip::HostWithPort),
    /// The peer of a response cannot be told without RFC 3263, or its transport is not supported.
    UnsupportedResponseRoute,
    /// More than one, or no, Contact header.
    ContactNotUnique,
    /// The Contact header is not a SIPS URI where one is needed.
    ContactNotSecure,
    /// The From header has no tag.
    MissingFromTag,
    /// The Request-URI is not an address the server listens on.
    InvalidRequestUri,
    /// The To URI of a REGISTER is not an address the server listens on.
    RecordNotFound,
    /// The From and To headers of a REGISTER have different URIs.
    FromToUriMismatch,
    /// The From and To headers of a REGISTER have different display names.
    FromToDisplayNameMismatch,
    /// The From URI of a REGISTER has no user part.
    MissingUsername,
    /// A REGISTER without a User-Agent header.
    MissingUserAgent,
    /// The element does not take such messages yet.
    NotSupported(Unsupported),
    /// A REGISTER without an Authorization header.
    MissingAuthorization,
    /// The request has another method than the one this answer is for.
    UnexpectedMethod { expected: Method, found: Method },
    /// A registration is made from a request of another method than REGISTER.
    NotRegistration(Method),
}

/// The text of an error of the layers; that of a SIP error is the one
/// `rsip` writes, which is not given here.
pub open spec fn error_message(e: ServerError) -> Seq<char> {
    match e {
        ServerError::Sip(_) => Seq::empty(),
        ServerError::Transaction(TransactionError::NotFound) => "transaction not found"@,
        ServerError::Transaction(TransactionError::UnexpectedState) => "unexpected transaction state"@,
        ServerError::Dialog(DialogError::NotFound) => "dialog not found"@,
        ServerError::MissingTransactionId => "missing transaction id"@,
        ServerError::SentByMismatch(sent_by) =>
            "sent-by address ("@ + hwp_debug_text(sent_by) + ") is different from listen address"@,
        ServerError::UnsupportedResponseRoute => "cannot tell the peer of the response"@,
        ServerError::ContactNotUnique => "more than one or zero Contact headers found"@,
        ServerError::ContactNotSecure => "Contact header not secure"@,
        ServerError::MissingFromTag => "missing from tag"@,
        ServerError::InvalidRequestUri => "invalid request uri"@,
        ServerError::RecordNotFound => "record not found!"@,
        ServerError::FromToUriMismatch => "mismatch between to and from header uris!"@,
        ServerError::FromToDisplayNameMismatch => "mismatch between to and from header display names!"@,
        ServerError::MissingUsername => "missing username in from header"@,
        ServerError::MissingUserAgent => "missing User-Agent header"@,
        ServerError::NotSupported(Unsupported::Requests) => "we don't support requests yet"@,
        ServerError::NotSupported(Unsupported::Responses) => "we don't support responses yet"@,
        ServerError::MissingAuthorization => "missing auth header"@,
        ServerError::UnexpectedMethod { expected, found } =>
            "must have "@ + method_text(expected) + " method, found: "@ + method_text(found),
        ServerError::NotRegistration(found) =>
            "cannot create registration from "@ + method_text(found) + " method"@,
    }
}

impl ServerError {
    /// The text of the error (its `Display`): for a SIP error what `rsip`
    /// writes (`to_string`), for the others `error_message`.
    pub fn message(&self) -> (m: String)
        ensures
            match self {
                ServerError::Sip(e) => vstd::string::to_string_from_display_ensures::<rsip::Error>(e, m),
                _ => m@ == error_message(*self),
            },
    {
        match self {
            ServerError::Sip(e) => e.to_string(),
            ServerError::Transaction(TransactionError::NotFound) => String::from_str("transaction not found"),
            ServerError::Transaction(TransactionError::UnexpectedState) => String::from_str("unexpected transaction state"),
            ServerError::Dialog(DialogError::NotFound) => String::from_str("dialog not found"),
            ServerError::MissingTransactionId => String::from_str("missing transaction id"),
            ServerError::SentByMismatch(sent_by) => {
                let mut m = String::from_str("sent-by address (");
                m.append(hwp_debug(sent_by).as_str());
                m.append(") is different from listen address");
                m
            },
            ServerError::UnsupportedResponseRoute => String::from_str("cannot tell the peer of the response"),
            ServerError::ContactNotUnique => String::from_str("more than one or zero Contact headers found"),
            ServerError::ContactNotSecure => String::from_str("Contact header not secure"),
            ServerError::MissingFromTag => String::from_str("missing from tag"),
            ServerError::InvalidRequestUri => String::from_str("invalid request uri"),
            ServerError::RecordNotFound => String::from_str("record not found!"),
            ServerError::FromToUriMismatch => String::from_str("mismatch between to and from header uris!"),
            ServerError::FromToDisplayNameMismatch => String::from_str("mismatch between to and from header display names!"),
            ServerError::MissingUsername => String::from_str("missing username in from header"),
            ServerError::MissingUserAgent => String::from_str("missing User-Agent header"),
            ServerError::NotSupported(Unsupported::Requests) => String::from_str("we don't support requests yet"),
            ServerError::NotSupported(Unsupported::Responses) => String::from_str("we don't support responses yet"),
            ServerError::MissingAuthorization => String::from_str("missing auth header"),
            ServerError::UnexpectedMethod { expected, found } => {
                let mut m = String::from_str("must have ");
                m.append(method_name(*expected).as_str());
                m.append(" method, found: ");
                m.append(method_name(*found).as_str());
                m
            },
            ServerError::NotRegistration(found) => {
                let mut m = String::from_str("cannot create registration from ");
                m.append(method_name(*found).as_str());
                m.append(" method");
                m
            },
        }
    }
}

/// The text `Debug` writes for a host with port.
pub uninterp spec fn hwp_debug_text(h: rsip::HostWithPort) -> Seq<char>;

/// `HostWithPort`'s `Debug` (`format!("{:?}", h)`).
#[verifier::external_body]
fn hwp_debug(h: &rsip::HostWithPort) -> (s: String)
    ensures
        s@ == hwp_debug_text(*h),
{
    format!("{:?}", h)
}

/// The character of a decimal digit.
pub open spec fn digit_char(d: nat) -> char {
    if d == 0 { '0' }
    else if d == 1 { '1' }
    else if d == 2 { '2' }
    else if d == 3 { '3' }
    else if d == 4 { '4' }
    else if d == 5 { '5' }
    else if d == 6 { '6' }
    else if d == 7 { '7' }
    else if d == 8 { '8' }
    else { '9' }
}

/// The decimal digits of `n`, without leading zeros.
pub open spec fn decimal(n: nat) -> Seq<char>
    decreases n,
{
    if n < 10 {
        seq![digit_char(n)]
    } else {
        decimal(n / 10).push(digit_char(n % 10))
    }
}

fn digit_text(d: u32) -> (s: &'static str)
    requires
        d < 10,
    ensures
        s@ == seq![digit_char(d as nat)],
{
    proof {
        reveal_strlit("0");
        reveal_strlit("1");
        reveal_strlit("2");
        reveal_strlit("3");
        reveal_strlit("4");
        reveal_strlit("5");
        reveal_strlit("6");
        reveal_strlit("7");
        reveal_strlit("8");
        reveal_strlit("9");
    }
    if d == 0 { "0" }
    else if d == 1 { "1" }
    else if d == 2 { "2" }
    else if d == 3 { "3" }
    else if d == 4 { "4" }
    else if d == 5 { "5" }
    else if d == 6 { "6" }
    else if d == 7 { "7" }
    else if d == 8 { "8" }
    else { "9" }
}

/// `n` written in decimal.
pub fn decimal_text(n: u32) -> (s: String)
    ensures
        s@ == decimal(n as nat),
    decreases n,
{
    if n < 10 {
        let s = String::from_str(digit_text(n));
        assert(s@ =~= decimal(n as nat));
        s
    } else {
        let mut s = decimal_text(n / 10);
        s.append(digit_text(n % 10));
        assert(s@ =~= decimal(n as nat));
        s
    }
}


} // verus!
