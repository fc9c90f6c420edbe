//! Responses the server builds out of a request: the headers they copy from
//! it, through `rsip`, and the fixed ones they add.
use crate::error::ServerError;
use crate::sip::{is_viska_tag, request_method, request_method_of, response_status_code, Method};
use crate::tu::dialogs::headers::request_to_uri;
use rsip::headers::{ToTypedHeader, UntypedHeader};
use vstd::prelude::*;

verus! {

#[verifier::external_type_specification]
#[verifier::external_body]
pub struct ExHeader(rsip::Header);

/// The header entries of a response, in order (`Response::headers`).
pub uninterp spec fn response_headers(response: rsip::Response) -> Seq<rsip::Header>;
/// The text of the SIP version of a response (`Response::version`, as its
/// `Display` writes it).
pub uninterp spec fn response_version(response: rsip::Response) -> Seq<char>;
/// The body of a response (`Response::body`).
pub uninterp spec fn response_body(response: rsip::Response) -> Seq<u8>;
/// The To header of `request`, parsed, with its tag replaced by `tag`
/// (`To::with_tag`), as an entry: the request's display name, URI and other
/// parameters, and the tag `tag`.
pub uninterp spec fn tagged_to(request: rsip::Request, tag: Seq<char>) -> rsip::Header;
/// The From header of `request` as an entry; `None` when it is missing.
pub uninterp spec fn request_from_entry(request: rsip::Request) -> Option<rsip::Header>;
/// The Call-ID header of `request` as an entry.
pub uninterp spec fn request_call_id_entry(request: rsip::Request) -> Option<rsip::Header>;
/// The CSeq header of `request` as an entry.
pub uninterp spec fn request_cseq_entry(request: rsip::Request) -> Option<rsip::Header>;
/// The topmost Via header of `request` as an entry.
pub uninterp spec fn request_via_entry(request: rsip::Request) -> Option<rsip::Header>;
/// A Contact header as an entry.
pub uninterp spec fn contact_entry(contact: rsip::headers::Contact) -> rsip::Header;
/// A Content-Length header with this text, as an entry.
pub uninterp spec fn content_length_entry(text: Seq<char>) -> rsip::Header;
/// A Server header with this text, as an entry.
pub uninterp spec fn server_entry(text: Seq<char>) -> rsip::Header;
/// An Accept header with this text, as an entry.
pub uninterp spec fn accept_entry(text: Seq<char>) -> rsip::Header;
/// An Accept-Encoding header with this text, as an entry.
pub uninterp spec fn accept_encoding_entry(text: Seq<char>) -> rsip::Header;
/// An Allow header with this text, as an entry.
pub uninterp spec fn allow_entry(text: Seq<char>) -> rsip::Header;
/// An Accept-Language header with this text, as an entry.
pub uninterp spec fn accept_language_entry(text: Seq<char>) -> rsip::Header;

/// Builds a response with this status code and these header entries, the
/// rest as `Response::default` has it: version `SIP/2.0` (`Version::default`
/// is `V2`) and an empty body.
#[verifier::external_body]
fn response_with(status_code: u16, headers: Vec<rsip::Header>) -> (response: rsip::Response)
    ensures
        response_status_code(response) == status_code,
        response_headers(response) == headers@,
        response_version(response) == "SIP/2.0"@,
        response_body(response) == Seq::<u8>::empty(),
{
    rsip::Response { status_code: status_code.into(), headers: headers.into(), ..Default::default() }
}

/// `HeadersExt::from_header` on `request`, cloned into an entry.
#[verifier::external_body]
fn from_entry(request: &rsip::Request) -> (r: Result<rsip::Header, rsip::Error>)
    ensures
        r is Ok == request_from_entry(*request) is Some,
        r matches Ok(h) ==> request_from_entry(*request) == Some(h),
{
    Ok(rsip::message::HeadersExt::from_header(request)?.clone().into())
}

/// `HeadersExt::call_id_header` on `request`, cloned into an entry.
#[verifier::external_body]
fn call_id_entry(request: &rsip::Request) -> (r: Result<rsip::Header, rsip::Error>)
    ensures
        r is Ok == request_call_id_entry(*request) is Some,
        r matches Ok(h) ==> request_call_id_entry(*request) == Some(h),
{
    Ok(rsip::message::HeadersExt::call_id_header(request)?.clone().into())
}

/// `HeadersExt::cseq_header` on `request`, cloned into an entry.
#[verifier::external_body]
fn cseq_entry(request: &rsip::Request) -> (r: Result<rsip::Header, rsip::Error>)
    ensures
        r is Ok == request_cseq_entry(*request) is Some,
        r matches Ok(h) ==> request_cseq_entry(*request) == Some(h),
{
    Ok(rsip::message::HeadersExt::cseq_header(request)?.clone().into())
}

/// `HeadersExt::via_header` on `request`, cloned into an entry.
#[verifier::external_body]
fn via_entry(request: &rsip::Request) -> (r: Result<rsip::Header, rsip::Error>)
    ensures
        r is Ok == request_via_entry(*request) is Some,
        r matches Ok(h) ==> request_via_entry(*request) == Some(h),
{
    Ok(rsip::message::HeadersExt::via_header(request)?.clone().into())
}

/// `Tag::default()`, as text: `viska-` and a fresh random UUID
/// (`Uuid::new_v4`). Which UUID comes out is left open.
#[verifier::external_body]
fn default_tag() -> (tag: String)
    ensures
        is_viska_tag(tag@),
{
    rsip::param::Tag::default().value().to_string()
}

/// The To header of `request`, parsed, given the tag `tag`
/// (`To::with_tag`), as an entry: it can be built when the To header parses,
/// which is when `To::uri` gives a URI.
#[verifier::external_body]
fn tagged_to_entry(request: &rsip::Request, tag: &str) -> (r: Result<rsip::Header, rsip::Error>)
    ensures
        r is Ok == request_to_uri(*request) is Some,
        r matches Ok(h) ==> h == tagged_to(*request, tag@),
{
    Ok(rsip::message::HeadersExt::to_header(request)?.typed()?.with_tag(rsip::param::Tag::new(tag)).into())
}

/// Whether `h` is the To header of `request` with a new tag as
/// `Tag::default` makes one.
pub open spec fn is_new_tagged_to(request: rsip::Request, h: rsip::Header) -> bool {
    exists|tag: Seq<char>| is_viska_tag(tag) && h == #[trigger] tagged_to(request, tag)
}

/// The version and body every answer below has: `SIP/2.0`, nothing.
pub open spec fn plain_answer(response: rsip::Response) -> bool {
    &&& response_version(response) == "SIP/2.0"@
    &&& response_body(response) == Seq::<u8>::empty()
}

/// A Contact header, cloned into an entry.
#[verifier::external_body]
fn contact_to_entry(contact: rsip::headers::Contact) -> (h: rsip::Header)
    ensures
        h == contact_entry(contact),
{
    contact.into()
}

/// `ContentLength::new(text)` as an entry.
#[verifier::external_body]
fn content_length(text: &str) -> (h: rsip::Header)
    ensures
        h == content_length_entry(text@),
{
    rsip::headers::ContentLength::new(text).into()
}

/// `Server::new(text)` as an entry.
#[verifier::external_body]
fn server(text: &str) -> (h: rsip::Header)
    ensures
        h == server_entry(text@),
{
    rsip::headers::Server::new(text).into()
}

/// `Accept::new(text)` as an entry.
#[verifier::external_body]
fn accept(text: &str) -> (h: rsip::Header)
    ensures
        h == accept_entry(text@),
{
    rsip::headers::Accept::new(text).into()
}

/// `AcceptEncoding::new(text)` as an entry.
#[verifier::external_body]
fn accept_encoding(text: &str) -> (h: rsip::Header)
    ensures
        h == accept_encoding_entry(text@),
{
    rsip::headers::AcceptEncoding::new(text).into()
}

/// `AcceptLanguage::new(text)` as an entry.
#[verifier::external_body]
fn accept_language(text: &str) -> (h: rsip::Header)
    ensures
        h == accept_language_entry(text@),
{
    rsip::headers::AcceptLanguage::new(text).into()
}

/// `Allow::default()` as an entry: it holds the name of every method
/// `rsip` knows (`Method::all()`, each as its `Display` writes it), joined
/// by `", "`.
#[verifier::external_body]
fn allow_all() -> (h: rsip::Header)
    ensures
        h == allow_entry(all_methods()),
{
    rsip::headers::Allow::default().into()
}

/// The text of the Content-Length of a response without a body
/// (`ContentLength::default()` holds it).
pub open spec fn empty_length() -> Seq<char> {
    "0"@
}

/// The methods the Allow header lists, as `rsip` writes them.
pub open spec fn all_methods() -> Seq<char> {
    "ACK, BYE, CANCEL, INFO, INVITE, MESSAGE, NOTIFY, OPTIONS, PRACK, PUBLISH, REFER, REGISTER, SUBSCRIBE, UPDATE"@
}

/// The text of the Server header (`Server::default()` holds it).
pub open spec fn server_name() -> Seq<char> {
    "rsip"@
}

/// Whether the headers a response copies from `request` are all there.
pub open spec fn copied_headers_present(request: rsip::Request) -> bool {
    &&& request_from_entry(request) is Some
    &&& request_call_id_entry(request) is Some
    &&& request_cseq_entry(request) is Some
    &&& request_via_entry(request) is Some
    &&& request_to_uri(request) is Some
}

/// The headers of the answer to a REGISTER: From, Call-ID, CSeq and Via of
/// the request, its To with a new tag (`to`), an empty Content-Length, the
/// Server header, and one Contact per registration.
pub open spec fn registration_ok_headers(request: rsip::Request, to: rsip::Header, contacts: Seq<rsip::headers::Contact>) -> Seq<rsip::Header> {
    seq![
        request_from_entry(request)->0,
        request_call_id_entry(request)->0,
        request_cseq_entry(request)->0,
        request_via_entry(request)->0,
        to,
        content_length_entry(empty_length()),
        server_entry(server_name()),
    ] + contacts.map_values(|c: rsip::headers::Contact| contact_entry(c))
}

/// The 200 answer to the REGISTER `request`, listing `contacts`; refused for
/// any other method.
pub fn create_registration_ok_from(request: rsip::Request, contacts: Vec<rsip::headers::Contact>) -> (r: Result<rsip::Response, ServerError>)
    ensures
        request_method_of(request) != Method::Register ==> r == Err::<rsip::Response, ServerError>(
            ServerError::UnexpectedMethod { expected: Method::Register, found: request_method_of(request) }),
        request_method_of(request) == Method::Register ==> (r is Ok == copied_headers_present(request)),
        request_method_of(request) == Method::Register && r is Err ==> r matches Err(ServerError::Sip(_)),
        r matches Ok(response) ==> {
            &&& response_status_code(response) == 200
            &&& response_headers(response) == registration_ok_headers(request, response_headers(response)[4], contacts@)
            &&& is_new_tagged_to(request, response_headers(response)[4])
            &&& plain_answer(response)
        },
{
    let method = request_method(&request);
    if method != Method::Register {
        return Err(ServerError::UnexpectedMethod { expected: Method::Register, found: method });
    }
    let mut headers: Vec<rsip::Header> = Vec::new();
    match from_entry(&request) {
        Ok(h) => headers.push(h),
        Err(e) => {
            return Err(ServerError::Sip(e));
        },
    }
    match call_id_entry(&request) {
        Ok(h) => headers.push(h),
        Err(e) => {
            return Err(ServerError::Sip(e));
        },
    }
    match cseq_entry(&request) {
        Ok(h) => headers.push(h),
        Err(e) => {
            return Err(ServerError::Sip(e));
        },
    }
    match via_entry(&request) {
        Ok(h) => headers.push(h),
        Err(e) => {
            return Err(ServerError::Sip(e));
        },
    }
    let tag = default_tag();
    match tagged_to_entry(&request, tag.as_str()) {
        Ok(h) => headers.push(h),
        Err(e) => {
            return Err(ServerError::Sip(e));
        },
    }
    headers.push(content_length("0"));
    headers.push(server("rsip"));
    let ghost head = headers@;
    assert(head[4] == tagged_to(request, tag@));
    let mut contacts = contacts;
    let ghost all = contacts@;
    let mut rest: Vec<rsip::headers::Contact> = Vec::new();
    // Contacts are taken from the back, so gather them reversed first.
    while contacts.len() > 0
        invariant
            contacts@ == all.subrange(0, contacts@.len() as int),
            rest@.len() + contacts@.len() == all.len(),
            forall|k: int| 0 <= k < rest@.len() ==> rest@[k] == all[all.len() - 1 - k],
        decreases contacts@.len(),
    {
        let c = contacts.pop().unwrap();
        rest.push(c);
    }
    while rest.len() > 0
        invariant
            rest@.len() + (headers@.len() - head.len()) == all.len(),
            headers@.len() >= head.len(),
            headers@.subrange(0, head.len() as int) == head,
            forall|k: int| 0 <= k < rest@.len() ==> rest@[k] == all[all.len() - 1 - k],
            forall|k: int| head.len() <= k < headers@.len() ==> headers@[k] == contact_entry(all[k - head.len()]),
        decreases rest@.len(),
    {
        let c = rest.pop().unwrap();
        headers.push(contact_to_entry(c));
    }
    let response = response_with(200, headers);
    proof {
        reveal_strlit("0");
        reveal_strlit("rsip");
        let expected = registration_ok_headers(request, response_headers(response)[4], all);
        let got = response_headers(response);
        assert(got.len() == expected.len());
        assert forall|k: int| 0 <= k < got.len() implies got[k] == expected[k] by {
            if k < head.len() {
                assert(got[k] == got.subrange(0, head.len() as int)[k]);
            }
        }
        assert(got =~= expected);
        assert(got[4] == got.subrange(0, head.len() as int)[4]);
    }
    Ok(response)
}

/// The headers every answer below starts with: Via, To with a new tag
/// (`to`), From, Call-ID and CSeq of the request, an empty Content-Length and
/// the Server header.
pub open spec fn answer_head(request: rsip::Request, to: rsip::Header) -> Seq<rsip::Header> {
    seq![
        request_via_entry(request)->0,
        to,
        request_from_entry(request)->0,
        request_call_id_entry(request)->0,
        request_cseq_entry(request)->0,
        content_length_entry(empty_length()),
        server_entry(server_name()),
    ]
}

fn answer_headers(request: &rsip::Request) -> (r: Result<Vec<rsip::Header>, ServerError>)
    ensures
        r is Ok == copied_headers_present(*request),
        r is Err ==> r matches Err(ServerError::Sip(_)),
        r matches Ok(headers) ==> headers@ == answer_head(*request, headers@[1])
            && is_new_tagged_to(*request, headers@[1]),
{
    let tag = default_tag();
    let to = match tagged_to_entry(request, tag.as_str()) {
        Ok(h) => h,
        Err(e) => {
            return Err(ServerError::Sip(e));
        },
    };
    let mut headers: Vec<rsip::Header> = Vec::new();
    match via_entry(request) {
        Ok(h) => headers.push(h),
        Err(e) => {
            return Err(ServerError::Sip(e));
        },
    }
    headers.push(to);
    match from_entry(request) {
        Ok(h) => headers.push(h),
        Err(e) => {
            return Err(ServerError::Sip(e));
        },
    }
    match call_id_entry(request) {
        Ok(h) => headers.push(h),
        Err(e) => {
            return Err(ServerError::Sip(e));
        },
    }
    match cseq_entry(request) {
        Ok(h) => headers.push(h),
        Err(e) => {
            return Err(ServerError::Sip(e));
        },
    }
    headers.push(content_length("0"));
    headers.push(server("rsip"));
    proof {
        assert(headers@ =~= answer_head(*request, headers@[1]));
        assert(headers@[1] == tagged_to(*request, tag@));
    }
    Ok(headers)
}

/// The headers of the 486 answer to an OPTIONS request: the answer head, the
/// Allow header (`allow`), and what the server accepts: SDP, gzip, English.
pub open spec fn busy_here_headers(request: rsip::Request, to: rsip::Header, allow: rsip::Header) -> Seq<rsip::Header> {
    answer_head(request, to) + seq![
        allow,
        accept_entry("application/sdp"@),
        accept_encoding_entry("gzip"@),
        accept_language_entry("english"@),
    ]
}

/// The 486 (Busy Here) answer to the OPTIONS `request`, which tells what
/// the server supports; refused for any other method.
pub fn create_busy_here_from(request: rsip::Request) -> (r: Result<rsip::Response, ServerError>)
    ensures
        request_method_of(request) != Method::Options ==> r == Err::<rsip::Response, ServerError>(
            ServerError::UnexpectedMethod { expected: Method::Options, found: request_method_of(request) }),
        request_method_of(request) == Method::Options ==> (r is Ok == copied_headers_present(request)),
        request_method_of(request) == Method::Options && r is Err ==> r matches Err(ServerError::Sip(_)),
        r matches Ok(response) ==> {
            &&& response_status_code(response) == 486
            &&& response_headers(response) == busy_here_headers(request, response_headers(response)[1], allow_entry(all_methods()))
            &&& is_new_tagged_to(request, response_headers(response)[1])
            &&& plain_answer(response)
        },
{
    let method = request_method(&request);
    if method != Method::Options {
        return Err(ServerError::UnexpectedMethod { expected: Method::Options, found: method });
    }
    let mut headers = match answer_headers(&request) {
        Ok(h) => h,
        Err(e) => {
            return Err(e);
        },
    };
    headers.push(allow_all());
    headers.push(accept("application/sdp"));
    headers.push(accept_encoding("gzip"));
    headers.push(accept_language("english"));
    let response = response_with(486, headers);
    proof {
        assert(response_headers(response) =~= busy_here_headers(request, response_headers(response)[1], allow_entry(all_methods())));
    }
    Ok(response)
}

/// The 405 (Method Not Allowed) answer to `request`: the answer head and
/// the Allow header (`allow`) with the methods the server knows.
pub fn create_405_from(request: rsip::Request) -> (r: Result<rsip::Response, ServerError>)
    ensures
        r is Ok == copied_headers_present(request),
        r is Err ==> r matches Err(ServerError::Sip(_)),
        r matches Ok(response) ==> {
            &&& response_status_code(response) == 405
            &&& response_headers(response) == answer_head(request, response_headers(response)[1]).push(allow_entry(all_methods()))
            &&& is_new_tagged_to(request, response_headers(response)[1])
            &&& plain_answer(response)
        },
{
    let mut headers = match answer_headers(&request) {
        Ok(h) => h,
        Err(e) => {
            return Err(e);
        },
    };
    headers.push(allow_all());
    let response = response_with(405, headers);
    proof {
        assert(response_headers(response) =~= answer_head(request, response_headers(response)[1]).push(allow_entry(all_methods())));
    }
    Ok(response)
}

/// The 401 (Unauthorized) answer to `request`: the answer head alone.
pub fn create_unauthorized_from(request: rsip::Request) -> (r: Result<rsip::Response, ServerError>)
    ensures
        r is Ok == copied_headers_present(request),
        r is Err ==> r matches Err(ServerError::Sip(_)),
        r matches Ok(response) ==> {
            &&& response_status_code(response) == 401
            &&& response_headers(response) == answer_head(request, response_headers(response)[1])
            &&& is_new_tagged_to(request, response_headers(response)[1])
            &&& plain_answer(response)
        },
{
    let headers = match answer_headers(&request) {
        Ok(h) => h,
        Err(e) => {
            return Err(e);
        },
    };
    let response = response_with(401, headers);
    Ok(response)
}

} // verus!
