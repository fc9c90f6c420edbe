//! SIP primitives the layers reason about, and the calls into `rsip`
//! that read them out of parsed messages.
use vstd::prelude::*;

verus! {

#[verifier::external_type_specification]
#[verifier::external_body]
pub struct ExSipRequest(rsip::Request);

#[verifier::external_type_specification]
#[verifier::external_body]
pub struct ExSipResponse(rsip::Response);

#[verifier::external_type_specification]
#[verifier::external_body]
pub struct ExSipError(rsip::Error);

/// The view of an optional string.
pub open spec fn opt_view(s: Option<String>) -> Option<Seq<char>> {
    match s {
        Some(s) => Some(s@),
        None => None,
    }
}

/// Whether `c` is a digit or a lowercase letter from `a` to `f`.
pub open spec fn is_lower_hex_digit(c: char) -> bool {
    ('0' <= c && c <= '9') || ('a' <= c && c <= 'f')
}

/// Whether `s` is the text of a random (version 4, RFC 4122 variant) UUID as
/// `uuid` writes it: 32 lowercase hex digits in groups of 8, 4, 4, 4 and 12
/// joined by hyphens, the version digit `4` and the variant digit one of
/// `8`, `9`, `a`, `b`.
pub open spec fn is_uuid_v4_text(s: Seq<char>) -> bool {
    &&& s.len() == 36
    &&& forall|i: int| 0 <= i < 36 ==> if i == 8 || i == 13 || i == 18 || i == 23 {
        #[trigger] s[i] == '-'
    } else {
        is_lower_hex_digit(s[i])
    }
    &&& s[14] == '4'
    &&& (s[19] == '8' || s[19] == '9' || s[19] == 'a' || s[19] == 'b')
}

/// Whether `s` is a tag as `rsip`'s `Tag::default` makes it: `viska-`
/// followed by the text of a random UUID.
pub open spec fn is_viska_tag(s: Seq<char>) -> bool {
    &&& s.len() == 42
    &&& s.subrange(0, 6) == "viska-"@
    &&& is_uuid_v4_text(s.subrange(6, 42))
}

/// Whether the topmost Via header of `request` is there and parses.
pub uninterp spec fn request_via_parses(request: rsip::Request) -> bool;

/// The `branch` parameter of the topmost Via header of `request`, which
/// identifies its transaction.
pub uninterp spec fn request_branch(request: rsip::Request) -> Option<Seq<char>>;

/// Whether the topmost Via header of `response` is there and parses.
pub uninterp spec fn response_via_parses(response: rsip::Response) -> bool;

/// The `branch` parameter of the topmost Via header of `response`.
pub uninterp spec fn response_branch(response: rsip::Response) -> Option<Seq<char>>;

/// Calls `rsip::message::HeadersExt::transaction_id` on `request`, which
/// parses the first Via header and reads its `branch` parameter; it fails
/// when the header is missing or does not parse. The outcome is named by
/// `request_via_parses` and `request_branch`.
#[verifier::external_body]
pub(crate) fn request_transaction_id(request: &rsip::Request) -> (id: Result<Option<String>, rsip::Error>)
    ensures
        id is Ok == request_via_parses(*request),
        id matches Ok(b) ==> opt_view(b) == request_branch(*request),
{
    rsip::message::HeadersExt::transaction_id(request).map(|b| b.map(Into::into))
}

/// Calls `rsip::message::HeadersExt::transaction_id` on `response`; the
/// outcome is named by `response_via_parses` and `response_branch`.
#[verifier::external_body]
pub(crate) fn response_transaction_id(response: &rsip::Response) -> (id: Result<Option<String>, rsip::Error>)
    ensures
        id is Ok == response_via_parses(*response),
        id matches Ok(b) ==> opt_view(b) == response_branch(*response),
{
    rsip::message::HeadersExt::transaction_id(response).map(|b| b.map(Into::into))
}

/// A SIP message: a request or a response.
#[derive(Debug)]
pub enum SipMessage {
    Request(rsip::Request),
    Response(rsip::Response),
}

/// Class of a response status code, ordered as SIP orders the classes.
#[derive(Clone, Copy, Debug, PartialEq, Eq, Structural)]
pub enum StatusCodeKind {
    Provisional,
    Successful,
    Redirection,
    RequestFailure,
    ServerFailure,
    GlobalFailure,
    Other,
}

/// The class of a numeric status code: 1xx provisional, 2xx successful, and so on.
pub open spec fn kind_of_code(code: u16) -> StatusCodeKind {
    if 100 <= code < 200 {
        StatusCodeKind::Provisional
    } else if 200 <= code < 300 {
        StatusCodeKind::Successful
    } else if 300 <= code < 400 {
        StatusCodeKind::Redirection
    } else if 400 <= code < 500 {
        StatusCodeKind::RequestFailure
    } else if 500 <= code < 600 {
        StatusCodeKind::ServerFailure
    } else if 600 <= code < 700 {
        StatusCodeKind::GlobalFailure
    } else {
        StatusCodeKind::Other
    }
}

/// Position of a class in the order Provisional < Successful < ... < Other.
pub open spec fn kind_rank(kind: StatusCodeKind) -> int {
    match kind {
        StatusCodeKind::Provisional => 0,
        StatusCodeKind::Successful => 1,
        StatusCodeKind::Redirection => 2,
        StatusCodeKind::RequestFailure => 3,
        StatusCodeKind::ServerFailure => 4,
        StatusCodeKind::GlobalFailure => 5,
        StatusCodeKind::Other => 6,
    }
}

impl StatusCodeKind {
    /// Whether this class comes after the successful class (3xx and above).
    pub fn is_after_successful(&self) -> (b: bool)
        ensures
            b == (kind_rank(*self) > kind_rank(StatusCodeKind::Successful)),
    {
        match self {
            StatusCodeKind::Provisional => false,
            StatusCodeKind::Successful => false,
            _ => true,
        }
    }
}


/// The SIP request methods.
#[derive(Clone, Copy, Debug, PartialEq, Eq, Structural)]
pub enum Method {
    Ack,
    Bye,
    Cancel,
    Info,
    Invite,
    Message,
    Notify,
    Options,
    PRack,
    Publish,
    Refer,
    Register,
    Subscribe,
    Update,
}

/// The numeric status code of a response, as `rsip` holds it.
pub uninterp spec fn response_status_code(response: rsip::Response) -> u16;

/// The method of a request, as `rsip` holds it.
pub uninterp spec fn request_method_of(request: rsip::Request) -> Method;

/// Calls `rsip::StatusCode::from(code).kind()`. `From<u16>` keeps the code
/// (a known code maps to its named variant, any other to `Other(code, _)`) and
/// `kind` classifies the code by its hundreds, which is what `kind_of_code` states.
#[verifier::external_body]
pub(crate) fn status_code_kind(code: u16) -> (kind: StatusCodeKind)
    ensures
        kind == kind_of_code(code),
{
    match rsip::StatusCode::from(code).kind() {
        rsip::StatusCodeKind::Provisional => StatusCodeKind::Provisional,
        rsip::StatusCodeKind::Successful => StatusCodeKind::Successful,
        rsip::StatusCodeKind::Redirection => StatusCodeKind::Redirection,
        rsip::StatusCodeKind::RequestFailure => StatusCodeKind::RequestFailure,
        rsip::StatusCodeKind::ServerFailure => StatusCodeKind::ServerFailure,
        rsip::StatusCodeKind::GlobalFailure => StatusCodeKind::GlobalFailure,
        rsip::StatusCodeKind::Other => StatusCodeKind::Other,
    }
}

/// Calls `rsip::StatusCode::code` on the status code of `response`; the
/// result is named `response_status_code`.
#[verifier::external_body]
pub(crate) fn response_code(response: &rsip::Response) -> (code: u16)
    ensures
        code == response_status_code(*response),
{
    response.status_code.code()
}

/// Reads the `rsip::Method` of `request` and gives the same variant of
/// `Method`; the result is named `request_method_of`.
#[verifier::external_body]
pub(crate) fn request_method(request: &rsip::Request) -> (method: Method)
    ensures
        method == request_method_of(*request),
{
    match request.method {
        rsip::Method::Ack => Method::Ack, rsip::Method::Bye => Method::Bye,
        rsip::Method::Cancel => Method::Cancel, rsip::Method::Info => Method::Info,
        rsip::Method::Invite => Method::Invite, rsip::Method::Message => Method::Message,
        rsip::Method::Notify => Method::Notify, rsip::Method::Options => Method::Options,
        rsip::Method::PRack => Method::PRack, rsip::Method::Publish => Method::Publish,
        rsip::Method::Refer => Method::Refer, rsip::Method::Register => Method::Register,
        rsip::Method::Subscribe => Method::Subscribe, rsip::Method::Update => Method::Update,
    }
}

/// The class of the status code of `response`.
pub open spec fn response_kind(response: rsip::Response) -> StatusCodeKind {
    kind_of_code(response_status_code(response))
}

/// The class of the status code of a response.
pub fn status_kind_of(response: &rsip::Response) -> (kind: StatusCodeKind)
    ensures
        kind == response_kind(*response),
{
    let code = response_code(response);
    status_code_kind(code)
}

/// `rsip::Request::clone`, which `derive(Clone)` writes field by field.
#[verifier::external_body]
pub(crate) fn clone_request(request: &rsip::Request) -> (copy: rsip::Request)
    ensures
        copy == *request,
{
    request.clone()
}

/// `rsip::Response::clone`, which `derive(Clone)` writes field by field.
#[verifier::external_body]
pub(crate) fn clone_response(response: &rsip::Response) -> (copy: rsip::Response)
    ensures
        copy == *response,
{
    response.clone()
}

} // verus!
