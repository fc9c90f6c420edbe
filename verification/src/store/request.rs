//! Requests as the store keeps them: their parts as text.
use crate::sip::{request_method_of, Method};
use crate::tu::dialogs::headers::{request_uri, request_uri_of};
use vstd::prelude::*;

verus! {

/// The name of a method as SIP writes it.
pub open spec fn method_text(method: Method) -> Seq<char> {
    match method {
        Method::Ack => "ACK"@,
        Method::Bye => "BYE"@,
        Method::Cancel => "CANCEL"@,
        Method::Info => "INFO"@,
        Method::Invite => "INVITE"@,
        Method::Message => "MESSAGE"@,
        Method::Notify => "NOTIFY"@,
        Method::Options => "OPTIONS"@,
        Method::PRack => "PRACK"@,
        Method::Publish => "PUBLISH"@,
        Method::Refer => "REFER"@,
        Method::Register => "REGISTER"@,
        Method::Subscribe => "SUBSCRIBE"@,
        Method::Update => "UPDATE"@,
    }
}

/// The name of `method` as SIP writes it.
pub fn method_name(method: Method) -> (s: String)
    ensures
        s@ == method_text(method),
{
    match method {
        Method::Ack => String::from_str("ACK"),
        Method::Bye => String::from_str("BYE"),
        Method::Cancel => String::from_str("CANCEL"),
        Method::Info => String::from_str("INFO"),
        Method::Invite => String::from_str("INVITE"),
        Method::Message => String::from_str("MESSAGE"),
        Method::Notify => String::from_str("NOTIFY"),
        Method::Options => String::from_str("OPTIONS"),
        Method::PRack => String::from_str("PRACK"),
        Method::Publish => String::from_str("PUBLISH"),
        Method::Refer => String::from_str("REFER"),
        Method::Register => String::from_str("REGISTER"),
        Method::Subscribe => String::from_str("SUBSCRIBE"),
        Method::Update => String::from_str("UPDATE"),
    }
}

/// The text of a URI (`Uri`'s `Display`).
pub uninterp spec fn uri_text(uri: rsip::Uri) -> Seq<char>;
/// The headers of a request as `Debug` writes them.
pub uninterp spec fn request_headers_text(request: rsip::Request) -> Seq<char>;
/// The body of a request as text, with what is not UTF-8 replaced
/// (`String::from_utf8_lossy`).
pub uninterp spec fn request_body_text(request: rsip::Request) -> Seq<char>;

/// The method of `request` as text (`Method`'s `Display`, the variant's name
/// in upper case).
#[verifier::external_body]
fn method_to_text(request: &rsip::Request) -> (s: String)
    ensures
        s@ == method_text(request_method_of(*request)),
{
    request.method.to_string()
}

/// `Uri`'s `Display`.
#[verifier::external_body]
fn uri_to_text(uri: &rsip::Uri) -> (s: String)
    ensures
        s@ == uri_text(*uri),
{
    uri.to_string()
}

/// The headers of `request` through `Debug`.
#[verifier::external_body]
fn headers_to_text(request: &rsip::Request) -> (s: String)
    ensures
        s@ == request_headers_text(*request),
{
    format!("{:?}", request.headers)
}

/// The body of `request` through `String::from_utf8_lossy`.
#[verifier::external_body]
fn body_to_text(request: &rsip::Request) -> (s: String)
    ensures
        s@ == request_body_text(*request),
{
    String::from_utf8_lossy(&request.body).to_string()
}

/// The columns of a request row that is about to be written; `None` leaves
/// a column to the store.
pub struct DirtyRequest {
    pub method: Option<String>,
    pub uri: Option<String>,
    pub headers: Option<String>,
    pub body: Option<String>,
    pub raw_message: Option<String>,
}

impl DirtyRequest {
    /// The row of `request`: its method, Request-URI, headers and body as text.
    pub fn from_request(request: &rsip::Request) -> (row: DirtyRequest)
        ensures
            row.method matches Some(m) && m@ == method_text(request_method_of(*request)),
            row.uri matches Some(u) && u@ == uri_text(request_uri(*request)),
            row.headers matches Some(h) && h@ == request_headers_text(*request),
            row.body matches Some(b) && b@ == request_body_text(*request),
            row.raw_message is None,
    {
        DirtyRequest {
            method: Some(method_to_text(request)),
            uri: Some(uri_to_text(&request_uri_of(request))),
            headers: Some(headers_to_text(request)),
            body: Some(body_to_text(request)),
            raw_message: None,
        }
    }
}

} // verus!
