//! Checks on a request that starts a dialog as its client.
use crate::error::ServerError;
use crate::tu::dialogs::headers::{contact_headers_of, record_route_of, request_contacts, request_record_route};
use vstd::prelude::*;

verus! {

/// How many Contact headers `request` has.
pub open spec fn contact_header_count(request: rsip::Request) -> nat {
    request_contacts(request).len()
}

/// Whether the Request-URI of `request` is a SIPS URI; `None` when its
/// scheme is neither SIP nor SIPS.
pub uninterp spec fn request_uri_sips(request: rsip::Request) -> Option<bool>;

/// Whether a Record-Route URI is a SIPS URI; `None` when its scheme is
/// neither SIP nor SIPS.
pub uninterp spec fn route_uri_sips(uri: rsip::UriWithParams) -> Option<bool>;

/// Whether the first URI of the first Record-Route header of `request` is a
/// SIPS URI: `Some(None)` when there is no such URI, `None` when the header
/// does not parse or the scheme is neither SIP nor SIPS.
pub open spec fn first_record_route_sips(request: rsip::Request) -> Option<Option<bool>> {
    match request_record_route(request) {
        None => None,
        Some(uris) => if uris.len() == 0 {
            Some(None)
        } else {
            match route_uri_sips(uris[0]) {
                None => None,
                Some(b) => Some(Some(b)),
            }
        },
    }
}

/// Whether the URI of the first Contact header of `request` is a SIPS URI;
/// `None` when the header is missing, does not parse, or its scheme is
/// neither SIP nor SIPS.
pub uninterp spec fn contact_uri_sips(request: rsip::Request) -> Option<bool>;

/// `Uri::is_sips` on the Request-URI of `request`.
#[verifier::external_body]
pub(crate) fn uri_is_sips(request: &rsip::Request) -> (r: Result<bool, rsip::Error>)
    ensures
        r is Ok == request_uri_sips(*request) is Some,
        r matches Ok(b) ==> request_uri_sips(*request) == Some(b),
{
    request.uri.is_sips()
}

/// `UriWithParams::is_sips`.
#[verifier::external_body]
fn route_is_sips(uri: &rsip::UriWithParams) -> (r: Result<bool, rsip::Error>)
    ensures
        r is Ok == route_uri_sips(*uri) is Some,
        r matches Ok(b) ==> route_uri_sips(*uri) == Some(b),
{
    uri.is_sips()
}

/// Whether the first URI of the first Record-Route header of `request` is
/// a SIPS URI; `None` when there is no such URI.
fn record_route_is_sips(request: &rsip::Request) -> (r: Result<Option<bool>, rsip::Error>)
    ensures
        r is Ok == first_record_route_sips(*request) is Some,
        r matches Ok(b) ==> first_record_route_sips(*request) == Some(b),
{
    let uris = record_route_of(request)?;
    if uris.len() == 0 {
        Ok(None)
    } else {
        match route_is_sips(&uris[0]) {
            Ok(b) => Ok(Some(b)),
            Err(e) => Err(e),
        }
    }
}

/// Parses the first Contact header of `request` and calls `Uri::is_sips` on its URI.
#[verifier::external_body]
fn contact_is_sips(request: &rsip::Request) -> (r: Result<bool, rsip::Error>)
    ensures
        r is Ok == contact_uri_sips(*request) is Some,
        r matches Ok(b) ==> contact_uri_sips(*request) == Some(b),
{
    rsip::headers::ToTypedHeader::typed(rsip::message::HeadersExt::contact_header(request)?)?.uri.is_sips()
}

/// Whether the Contact of the request must be a SIPS URI: the Request-URI, or
/// the first Record-Route URI, is one. `None` when either does not parse.
pub open spec fn must_be_secure(request: rsip::Request) -> Option<bool> {
    match (first_record_route_sips(request), request_uri_sips(request)) {
        (Some(rr), Some(uri)) => Some(uri || rr == Some(true)),
        _ => None,
    }
}

/// Whether the Contact is secure enough: a SIPS URI where one is needed.
pub open spec fn contact_secure(request: rsip::Request) -> Option<bool> {
    match must_be_secure(request) {
        None => None,
        Some(false) => Some(true),
        Some(true) => contact_uri_sips(request),
    }
}

pub fn contact_must_be_secure(request: &rsip::Request) -> (r: Result<bool, ServerError>)
    ensures
        r is Ok == must_be_secure(*request) is Some,
        r matches Ok(b) ==> must_be_secure(*request) == Some(b),
        r matches Err(e) ==> e is Sip,
{
    let first_record_route_is_sips = match record_route_is_sips(request) {
        Ok(b) => b,
        Err(e) => {
            return Err(ServerError::Sip(e));
        },
    };
    let uri_sips = match uri_is_sips(request) {
        Ok(b) => b,
        Err(e) => {
            return Err(ServerError::Sip(e));
        },
    };
    Ok(uri_sips || matches!(first_record_route_is_sips, Some(true)))
}

pub fn contact_header_is_secure(request: &rsip::Request) -> (r: Result<bool, ServerError>)
    ensures
        r is Ok == contact_secure(*request) is Some,
        r matches Ok(b) ==> contact_secure(*request) == Some(b),
        r matches Err(e) ==> e is Sip,
{
    if !contact_must_be_secure(request)? {
        return Ok(true);
    }
    match contact_is_sips(request) {
        Ok(b) => Ok(b),
        Err(e) => Err(ServerError::Sip(e)),
    }
}

pub fn contact_header_is_unique(request: &rsip::Request) -> (r: Result<bool, ServerError>)
    ensures
        r matches Ok(b) && b == (contact_header_count(*request) == 1),
{
    Ok(contact_headers_of(request).len() == 1)
}

/// The request that starts a client dialog has exactly one Contact header,
/// and it is a SIPS URI where the Request-URI or the first Record-Route URI is one.
pub fn run(request: &rsip::Request) -> (r: Result<(), ServerError>)
    ensures
        contact_header_count(*request) != 1 ==> r matches Err(ServerError::ContactNotUnique),
        contact_header_count(*request) == 1 ==> match contact_secure(*request) {
            None => r matches Err(ServerError::Sip(_)),
            Some(true) => r is Ok,
            Some(false) => r matches Err(ServerError::ContactNotSecure),
        },
{
    if !contact_header_is_unique(request)? {
        return Err(ServerError::ContactNotUnique);
    }
    if !contact_header_is_secure(request)? {
        return Err(ServerError::ContactNotSecure);
    }
    Ok(())
}

} // verus!
