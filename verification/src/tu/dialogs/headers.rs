//! What the dialog layer reads from and writes to message headers, through
//! `rsip`. Each name below is the value `rsip` gives; `None` stands for a
//! header that is missing or does not parse.
use vstd::prelude::*;

verus! {

#[verifier::external_type_specification]
#[verifier::external_body]
pub struct ExUri(rsip::Uri);

#[verifier::external_type_specification]
#[verifier::external_body]
pub struct ExUriWithParams(rsip::UriWithParams);

#[verifier::external_type_specification]
#[verifier::external_body]
pub struct ExContactHeader(rsip::headers::Contact);

#[verifier::external_type_specification]
#[verifier::external_body]
pub struct ExCallIdHeader(rsip::headers::CallId);

#[verifier::external_type_specification]
#[verifier::external_body]
pub struct ExContentDispositionHeader(rsip::headers::ContentDisposition);

pub uninterp spec fn request_call_id(request: rsip::Request) -> Option<rsip::headers::CallId>;
pub uninterp spec fn response_call_id(response: rsip::Response) -> Option<rsip::headers::CallId>;
pub uninterp spec fn call_id_text(call_id: rsip::headers::CallId) -> Seq<char>;
pub uninterp spec fn request_from_tag(request: rsip::Request) -> Option<Option<Seq<char>>>;
pub uninterp spec fn request_to_tag(request: rsip::Request) -> Option<Option<Seq<char>>>;
pub uninterp spec fn response_from_tag(response: rsip::Response) -> Option<Option<Seq<char>>>;
pub uninterp spec fn response_to_tag(response: rsip::Response) -> Option<Option<Seq<char>>>;
pub uninterp spec fn request_cseq(request: rsip::Request) -> Option<u32>;
pub uninterp spec fn response_cseq(response: rsip::Response) -> Option<u32>;
pub uninterp spec fn request_from_uri(request: rsip::Request) -> Option<rsip::Uri>;
pub uninterp spec fn request_to_uri(request: rsip::Request) -> Option<rsip::Uri>;
pub uninterp spec fn request_contact(request: rsip::Request) -> Option<rsip::headers::Contact>;
/// Every Contact header of `request`, in order.
pub uninterp spec fn request_contacts(request: rsip::Request) -> Seq<rsip::headers::Contact>;
/// The Request-URI of `request`.
pub uninterp spec fn request_uri(request: rsip::Request) -> rsip::Uri;
/// The host and port of a URI.
pub uninterp spec fn uri_host(uri: rsip::Uri) -> rsip::HostWithPort;
/// The display name of the From header of `request`; `None` when the header
/// is missing or does not parse.
pub uninterp spec fn request_from_display_name(request: rsip::Request) -> Option<Option<Seq<char>>>;
/// The display name of the To header of `request`.
pub uninterp spec fn request_to_display_name(request: rsip::Request) -> Option<Option<Seq<char>>>;
pub uninterp spec fn response_contact_uri(response: rsip::Response) -> Option<rsip::Uri>;
/// The URIs of the first Record-Route header of `request`: `Some(None)`
/// without one, `None` when it does not parse.
pub uninterp spec fn request_record_route_header(request: rsip::Request) -> Option<Option<Seq<rsip::UriWithParams>>>;

/// The URIs of the first Record-Route header of `request`, none without one;
/// `None` when it does not parse.
pub open spec fn request_record_route(request: rsip::Request) -> Option<Seq<rsip::UriWithParams>> {
    match request_record_route_header(request) {
        None => None,
        Some(None) => Some(Seq::empty()),
        Some(Some(uris)) => Some(uris),
    }
}
/// The header entries of a request, in order.
pub uninterp spec fn request_header_entries(request: rsip::Request) -> Seq<rsip::Header>;
/// The Content-Disposition header an entry holds, if it is one.
pub uninterp spec fn entry_disposition(entry: rsip::Header) -> Option<rsip::headers::ContentDisposition>;
/// Whether a Content-Disposition header says `session`; `None` when it does not parse.
pub uninterp spec fn disposition_is_session(header: rsip::headers::ContentDisposition) -> Option<bool>;

/// The first Content-Disposition header among `entries`.
pub open spec fn first_disposition(entries: Seq<rsip::Header>) -> Option<rsip::headers::ContentDisposition>
    decreases entries.len(),
{
    if entries.len() == 0 {
        None
    } else {
        match entry_disposition(entries[0]) {
            Some(c) => Some(c),
            None => first_disposition(entries.drop_first()),
        }
    }
}

/// Whether the first Content-Disposition of `request` is `session`
/// (`Some(true)` without one); `None` when it does not parse.
pub open spec fn request_is_session(request: rsip::Request) -> Option<bool> {
    match first_disposition(request_header_entries(request)) {
        None => Some(true),
        Some(c) => disposition_is_session(c),
    }
}
pub uninterp spec fn request_body_empty(request: rsip::Request) -> bool;

/// `request` with its From tag set; `None` when the From header is missing or does not parse.
pub uninterp spec fn with_from_tag(request: rsip::Request, tag: Seq<char>) -> Option<rsip::Request>;
pub uninterp spec fn with_from_uri(request: rsip::Request, uri: rsip::Uri) -> Option<rsip::Request>;
pub uninterp spec fn with_to_tag(request: rsip::Request, tag: Seq<char>) -> Option<rsip::Request>;
pub uninterp spec fn with_to_uri(request: rsip::Request, uri: rsip::Uri) -> Option<rsip::Request>;
pub uninterp spec fn with_call_id(request: rsip::Request, call_id: rsip::headers::CallId) -> Option<rsip::Request>;
pub uninterp spec fn with_cseq(request: rsip::Request, seq: u32) -> Option<rsip::Request>;
pub uninterp spec fn with_contact(request: rsip::Request, contact: rsip::headers::Contact) -> Option<rsip::Request>;
pub uninterp spec fn with_request_uri(request: rsip::Request, uri: rsip::Uri) -> rsip::Request;

/// `HeadersExt::call_id_header` on `request`, cloned.
#[verifier::external_body]
pub(crate) fn call_id_of(request: &rsip::Request) -> (r: Result<rsip::headers::CallId, rsip::Error>)
    ensures
        r is Ok == request_call_id(*request) is Some,
        r matches Ok(c) ==> request_call_id(*request) == Some(c),
{
    Ok(rsip::message::HeadersExt::call_id_header(request)?.clone())
}

/// `HeadersExt::call_id_header` on `response`, cloned.
#[verifier::external_body]
pub(crate) fn response_call_id_of(response: &rsip::Response) -> (r: Result<rsip::headers::CallId, rsip::Error>)
    ensures
        r is Ok == response_call_id(*response) is Some,
        r matches Ok(c) ==> response_call_id(*response) == Some(c),
{
    Ok(rsip::message::HeadersExt::call_id_header(response)?.clone())
}

/// The text of a Call-ID header (`UntypedHeader::value`).
#[verifier::external_body]
pub(crate) fn call_id_value(call_id: &rsip::headers::CallId) -> (s: String)
    ensures
        s@ == call_id_text(*call_id),
{
    rsip::headers::UntypedHeader::value(call_id).to_string()
}

/// The tag of the From header of `request` (`From::tag`).
#[verifier::external_body]
pub(crate) fn from_tag_of(request: &rsip::Request) -> (r: Result<Option<String>, rsip::Error>)
    ensures
        r is Ok == request_from_tag(*request) is Some,
        r matches Ok(t) ==> request_from_tag(*request) == Some(crate::sip::opt_view(t)),
{
    Ok(rsip::message::HeadersExt::from_header(request)?.tag()?.map(|t| t.value().to_string()))
}

/// The tag of the To header of `request` (`To::tag`).
#[verifier::external_body]
pub(crate) fn to_tag_of(request: &rsip::Request) -> (r: Result<Option<String>, rsip::Error>)
    ensures
        r is Ok == request_to_tag(*request) is Some,
        r matches Ok(t) ==> request_to_tag(*request) == Some(crate::sip::opt_view(t)),
{
    Ok(rsip::message::HeadersExt::to_header(request)?.tag()?.map(|t| t.value().to_string()))
}

/// The tag of the From header of `response` (`From::tag`).
#[verifier::external_body]
pub(crate) fn response_from_tag_of(response: &rsip::Response) -> (r: Result<Option<String>, rsip::Error>)
    ensures
        r is Ok == response_from_tag(*response) is Some,
        r matches Ok(t) ==> response_from_tag(*response) == Some(crate::sip::opt_view(t)),
{
    Ok(rsip::message::HeadersExt::from_header(response)?.tag()?.map(|t| t.value().to_string()))
}

/// The tag of the To header of `response` (`To::tag`).
#[verifier::external_body]
pub(crate) fn response_to_tag_of(response: &rsip::Response) -> (r: Result<Option<String>, rsip::Error>)
    ensures
        r is Ok == response_to_tag(*response) is Some,
        r matches Ok(t) ==> response_to_tag(*response) == Some(crate::sip::opt_view(t)),
{
    Ok(rsip::message::HeadersExt::to_header(response)?.tag()?.map(|t| t.value().to_string()))
}

/// The sequence number of the CSeq header of `request` (`CSeq::seq`).
#[verifier::external_body]
pub(crate) fn cseq_of(request: &rsip::Request) -> (r: Result<u32, rsip::Error>)
    ensures
        r is Ok == request_cseq(*request) is Some,
        r matches Ok(s) ==> request_cseq(*request) == Some(s),
{
    rsip::message::HeadersExt::cseq_header(request)?.seq()
}

/// The sequence number of the CSeq header of `response` (`CSeq::seq`).
#[verifier::external_body]
pub(crate) fn response_cseq_of(response: &rsip::Response) -> (r: Result<u32, rsip::Error>)
    ensures
        r is Ok == response_cseq(*response) is Some,
        r matches Ok(s) ==> response_cseq(*response) == Some(s),
{
    rsip::message::HeadersExt::cseq_header(response)?.seq()
}

/// The URI of the From header of `request` (`From::uri`).
#[verifier::external_body]
pub(crate) fn from_uri_of(request: &rsip::Request) -> (r: Result<rsip::Uri, rsip::Error>)
    ensures
        r is Ok == request_from_uri(*request) is Some,
        r matches Ok(u) ==> request_from_uri(*request) == Some(u),
{
    rsip::message::HeadersExt::from_header(request)?.uri()
}

/// The URI of the To header of `request` (`To::uri`).
#[verifier::external_body]
pub(crate) fn to_uri_of(request: &rsip::Request) -> (r: Result<rsip::Uri, rsip::Error>)
    ensures
        r is Ok == request_to_uri(*request) is Some,
        r matches Ok(u) ==> request_to_uri(*request) == Some(u),
{
    rsip::message::HeadersExt::to_header(request)?.uri()
}

/// Every Contact header of `request`, cloned (`HeadersExt::contact_headers`).
#[verifier::external_body]
pub(crate) fn contact_headers_of(request: &rsip::Request) -> (r: Vec<rsip::headers::Contact>)
    ensures
        r@ == request_contacts(*request),
{
    rsip::message::HeadersExt::contact_headers(request).into_iter().cloned().collect()
}

/// The Request-URI of `request`, cloned.
#[verifier::external_body]
pub(crate) fn request_uri_of(request: &rsip::Request) -> (r: rsip::Uri)
    ensures
        r == request_uri(*request),
{
    request.uri.clone()
}

/// The host and port of `uri` (`Uri::host_with_port`), cloned.
#[verifier::external_body]
pub(crate) fn host_of_uri(uri: &rsip::Uri) -> (r: rsip::HostWithPort)
    ensures
        r == uri_host(*uri),
{
    uri.host_with_port.clone()
}

/// Whether two URIs are equal (`Uri`'s derived `PartialEq`, field by field).
#[verifier::external_body]
pub(crate) fn same_uri(a: &rsip::Uri, b: &rsip::Uri) -> (eq: bool)
    ensures
        eq == (*a == *b),
{
    a == b
}

/// The display name of the From header of `request` (`From::display_name`).
#[verifier::external_body]
pub(crate) fn from_display_name_of(request: &rsip::Request) -> (r: Result<Option<String>, rsip::Error>)
    ensures
        r is Ok == request_from_display_name(*request) is Some,
        r matches Ok(n) ==> request_from_display_name(*request) == Some(crate::sip::opt_view(n)),
{
    rsip::message::HeadersExt::from_header(request)?.display_name()
}

/// The display name of the To header of `request` (`To::display_name`).
#[verifier::external_body]
pub(crate) fn to_display_name_of(request: &rsip::Request) -> (r: Result<Option<String>, rsip::Error>)
    ensures
        r is Ok == request_to_display_name(*request) is Some,
        r matches Ok(n) ==> request_to_display_name(*request) == Some(crate::sip::opt_view(n)),
{
    rsip::message::HeadersExt::to_header(request)?.display_name()
}

/// The first Contact header of `request`, cloned.
#[verifier::external_body]
pub(crate) fn contact_of(request: &rsip::Request) -> (r: Result<rsip::headers::Contact, rsip::Error>)
    ensures
        r is Ok == request_contact(*request) is Some,
        r matches Ok(c) ==> request_contact(*request) == Some(c),
{
    Ok(rsip::message::HeadersExt::contact_header(request)?.clone())
}

/// The URI of the first Contact header of `response` (`Contact::uri`).
#[verifier::external_body]
pub(crate) fn response_contact_uri_of(response: &rsip::Response) -> (r: Result<rsip::Uri, rsip::Error>)
    ensures
        r is Ok == response_contact_uri(*response) is Some,
        r matches Ok(u) ==> response_contact_uri(*response) == Some(u),
{
    rsip::message::HeadersExt::contact_header(response)?.uri()
}

/// Parses the first Record-Route header of `request` and gives its URIs
/// (`RecordRoute::uris`); `None` without one.
#[verifier::external_body]
fn record_route_header_of(request: &rsip::Request) -> (r: Result<Option<Vec<rsip::UriWithParams>>, rsip::Error>)
    ensures
        r is Ok == request_record_route_header(*request) is Some,
        r matches Ok(v) ==> request_record_route_header(*request) == Some(match v {
            Some(uris) => Some(uris@),
            None => None,
        }),
{
    match rsip::message::HeadersExt::record_route_header(request) {
        Some(h) => Ok(Some(rsip::headers::ToTypedHeader::typed(h)?.uris().to_owned())),
        None => Ok(None),
    }
}

/// The URIs of the first Record-Route header of `request`, none without one.
pub(crate) fn record_route_of(request: &rsip::Request) -> (r: Result<Vec<rsip::UriWithParams>, rsip::Error>)
    ensures
        r is Ok == request_record_route(*request) is Some,
        r matches Ok(v) ==> request_record_route(*request) == Some(v@),
{
    match record_route_header_of(request) {
        Ok(Some(uris)) => Ok(uris),
        Ok(None) => Ok(Vec::new()),
        Err(e) => Err(e),
    }
}

/// The header entries of `request`, cloned.
#[verifier::external_body]
fn header_entries_of(request: &rsip::Request) -> (r: Vec<rsip::Header>)
    ensures
        r@ == request_header_entries(*request),
{
    request.headers.clone().into()
}

/// The Content-Disposition header an entry holds, cloned, if it is one.
#[verifier::external_body]
fn disposition_of(entry: &rsip::Header) -> (r: Option<rsip::headers::ContentDisposition>)
    ensures
        r == entry_disposition(*entry),
{
    match entry {
        rsip::Header::ContentDisposition(c) => Some(c.clone()),
        _ => None,
    }
}

/// Parses a Content-Disposition header and calls `ContentDisposition::is_session`.
#[verifier::external_body]
fn is_session_disposition(header: &rsip::headers::ContentDisposition) -> (r: Result<bool, rsip::Error>)
    ensures
        r is Ok == disposition_is_session(*header) is Some,
        r matches Ok(b) ==> disposition_is_session(*header) == Some(b),
{
    Ok(rsip::headers::ToTypedHeader::typed(header)?.is_session())
}

/// Whether the first Content-Disposition header of `request` is `session`;
/// `true` without one.
pub(crate) fn is_session_of(request: &rsip::Request) -> (r: Result<bool, rsip::Error>)
    ensures
        r is Ok == request_is_session(*request) is Some,
        r matches Ok(b) ==> request_is_session(*request) == Some(b),
{
    let entries = header_entries_of(request);
    let ghost all = entries@;
    let mut i: usize = 0;
    assert(all.subrange(0, all.len() as int) =~= all);
    while i < entries.len()
        invariant
            entries@ == all,
            all == request_header_entries(*request),
            i <= all.len(),
            first_disposition(all) == first_disposition(all.subrange(i as int, all.len() as int)),
        decreases all.len() - i,
    {
        proof {
            let rest = all.subrange(i as int, all.len() as int);
            assert(rest[0] == all[i as int]);
            assert(rest.drop_first() =~= all.subrange(i + 1, all.len() as int));
        }
        match disposition_of(&entries[i]) {
            Some(c) => {
                return is_session_disposition(&c);
            },
            None => {},
        }
        i = i + 1;
    }
    assert(all.subrange(i as int, all.len() as int) =~= Seq::<rsip::Header>::empty());
    Ok(true)
}

/// Whether the body of `request` is empty.
#[verifier::external_body]
pub(crate) fn body_is_empty(request: &rsip::Request) -> (b: bool)
    ensures
        b == request_body_empty(*request),
{
    request.body.is_empty()
}

/// Sets the tag of the From header of `request` (`From::mut_tag`); leaves it
/// as it was when the header is missing or does not parse.
#[verifier::external_body]
pub(crate) fn set_from_tag(request: &mut rsip::Request, tag: &String) -> (r: Result<(), rsip::Error>)
    ensures
        r is Ok == with_from_tag(*old(request), tag@) is Some,
        r is Ok ==> Some(*final(request)) == with_from_tag(*old(request), tag@),
        r is Err ==> *final(request) == *old(request),
{
    rsip::message::HeadersExt::from_header_mut(request)?.mut_tag(rsip::param::Tag::new(tag.clone()))?;
    Ok(())
}

/// Sets the URI of the From header of `request` (`From::mut_uri`).
#[verifier::external_body]
pub(crate) fn set_from_uri(request: &mut rsip::Request, uri: &rsip::Uri) -> (r: Result<(), rsip::Error>)
    ensures
        r is Ok == with_from_uri(*old(request), *uri) is Some,
        r is Ok ==> Some(*final(request)) == with_from_uri(*old(request), *uri),
        r is Err ==> *final(request) == *old(request),
{
    rsip::message::HeadersExt::from_header_mut(request)?.mut_uri(uri.clone())?;
    Ok(())
}

/// Sets the tag of the To header of `request` (`To::mut_tag`).
#[verifier::external_body]
pub(crate) fn set_to_tag(request: &mut rsip::Request, tag: &String) -> (r: Result<(), rsip::Error>)
    ensures
        r is Ok == with_to_tag(*old(request), tag@) is Some,
        r is Ok ==> Some(*final(request)) == with_to_tag(*old(request), tag@),
        r is Err ==> *final(request) == *old(request),
{
    rsip::message::HeadersExt::to_header_mut(request)?.mut_tag(rsip::param::Tag::new(tag.clone()))?;
    Ok(())
}

/// Sets the URI of the To header of `request` (`To::mut_uri`).
#[verifier::external_body]
pub(crate) fn set_to_uri(request: &mut rsip::Request, uri: &rsip::Uri) -> (r: Result<(), rsip::Error>)
    ensures
        r is Ok == with_to_uri(*old(request), *uri) is Some,
        r is Ok ==> Some(*final(request)) == with_to_uri(*old(request), *uri),
        r is Err ==> *final(request) == *old(request),
{
    rsip::message::HeadersExt::to_header_mut(request)?.mut_uri(uri.clone())?;
    Ok(())
}

/// Replaces the Call-ID header of `request` (`UntypedHeader::replace`).
#[verifier::external_body]
pub(crate) fn set_call_id(request: &mut rsip::Request, call_id: &rsip::headers::CallId) -> (r: Result<(), rsip::Error>)
    ensures
        r is Ok == with_call_id(*old(request), *call_id) is Some,
        r is Ok ==> Some(*final(request)) == with_call_id(*old(request), *call_id),
        r is Err ==> *final(request) == *old(request),
{
    let header = rsip::message::HeadersExt::call_id_header_mut(request)?;
    rsip::headers::UntypedHeader::replace(header, call_id.clone());
    Ok(())
}

/// Sets the sequence number of the CSeq header of `request` (`CSeq::mut_seq`).
#[verifier::external_body]
pub(crate) fn set_cseq(request: &mut rsip::Request, seq: u32) -> (r: Result<(), rsip::Error>)
    ensures
        r is Ok == with_cseq(*old(request), seq) is Some,
        r is Ok ==> Some(*final(request)) == with_cseq(*old(request), seq),
        r is Err ==> *final(request) == *old(request),
{
    rsip::message::HeadersExt::cseq_header_mut(request)?.mut_seq(seq)?;
    Ok(())
}

/// Replaces the Contact header of `request` (`UntypedHeader::replace`).
#[verifier::external_body]
pub(crate) fn set_contact(request: &mut rsip::Request, contact: &rsip::headers::Contact) -> (r: Result<(), rsip::Error>)
    ensures
        r is Ok == with_contact(*old(request), *contact) is Some,
        r is Ok ==> Some(*final(request)) == with_contact(*old(request), *contact),
        r is Err ==> *final(request) == *old(request),
{
    let header = rsip::message::HeadersExt::contact_header_mut(request)?;
    rsip::headers::UntypedHeader::replace(header, contact.clone());
    Ok(())
}

/// Sets the Request-URI of `request`.
#[verifier::external_body]
pub(crate) fn set_request_uri(request: &mut rsip::Request, uri: &rsip::Uri)
    ensures
        *final(request) == with_request_uri(*old(request), *uri),
{
    request.uri = uri.clone();
}

} // verus!
