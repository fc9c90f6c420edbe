//! The registrar: it checks a REGISTER, stores or drops the registrations
//! of its Contact headers, and answers with every registration it holds.
use crate::error::ServerError;
use crate::sip::clone_request;
use crate::transport::Config;
use crate::tu::dialogs::headers::{contact_headers_of, from_display_name_of, from_uri_of, host_of_uri,
    request_contacts, request_from_display_name, request_from_uri, request_to_display_name, request_to_uri,
    request_uri, request_uri_of, same_uri, to_display_name_of, to_uri_of, uri_host};
use crate::tu::{ReqProcessor, TuAction, TuOutcome};
use vstd::prelude::*;

verus! {

#[verifier::external_type_specification]
#[verifier::external_body]
pub struct ExExpiresHeader(rsip::headers::Expires);

/// The Expires header of `request`, if it has one.
pub uninterp spec fn request_expires_header(request: rsip::Request) -> Option<rsip::headers::Expires>;
/// The seconds an Expires header holds; `None` when they do not parse.
pub uninterp spec fn expires_seconds(header: rsip::headers::Expires) -> Option<u32>;
/// The seconds of the `expires` parameter of a Contact header: `Some(None)`
/// without one, `None` when the header or the parameter does not parse.
pub uninterp spec fn contact_expires(contact: rsip::headers::Contact) -> Option<Option<u32>>;
/// The text of the URI of a Contact header; `None` when it does not parse.
pub uninterp spec fn contact_uri_text(contact: rsip::headers::Contact) -> Option<Seq<char>>;

/// `HeadersExt::expires_header` on `request`, cloned.
#[verifier::external_body]
pub(crate) fn expires_header_of(request: &rsip::Request) -> (r: Option<rsip::headers::Expires>)
    ensures
        r == request_expires_header(*request),
{
    rsip::message::HeadersExt::expires_header(request).cloned()
}

/// `Expires::seconds` on an Expires header.
#[verifier::external_body]
pub(crate) fn seconds_of(header: &rsip::headers::Expires) -> (r: Result<u32, rsip::Error>)
    ensures
        r is Ok == expires_seconds(*header) is Some,
        r matches Ok(s) ==> expires_seconds(*header) == Some(s),
{
    header.seconds()
}

/// Parses a Contact header and reads the seconds of its `expires` parameter
/// (`Contact::expires`, then `param::Expires::seconds`).
#[verifier::external_body]
pub(crate) fn contact_expires_of(contact: &rsip::headers::Contact) -> (r: Result<Option<u32>, rsip::Error>)
    ensures
        r is Ok == contact_expires(*contact) is Some,
        r matches Ok(s) ==> contact_expires(*contact) == Some(s),
{
    rsip::headers::ToTypedHeader::typed(contact)?.expires().map(|e| e.seconds()).transpose()
}

/// Parses a Contact header and writes out its URI (`Uri`'s `Display`).
#[verifier::external_body]
pub(crate) fn contact_uri_text_of(contact: &rsip::headers::Contact) -> (r: Result<String, rsip::Error>)
    ensures
        r is Ok == contact_uri_text(*contact) is Some,
        r matches Ok(s) ==> contact_uri_text(*contact) == Some(s@),
{
    Ok(rsip::headers::ToTypedHeader::typed(contact)?.uri.to_string())
}

/// How long a registration of `contact` lasts, in seconds: the `expires`
/// parameter of the contact, else the Expires header, else 600; `None` when
/// the one that decides does not parse.
pub open spec fn expires_for(contact: rsip::headers::Contact, header: Option<rsip::headers::Expires>) -> Option<u32> {
    match contact_expires(contact) {
        None => None,
        Some(Some(seconds)) => Some(seconds),
        Some(None) => match header {
            Some(h) => expires_seconds(h),
            None => Some(600),
        },
    }
}

/// How long a registration of `contact` lasts, in seconds.
pub fn expires_value_for(contact: &rsip::headers::Contact, expires_header: Option<&rsip::headers::Expires>) -> (r: Result<u32, ServerError>)
    ensures
        match expires_for(*contact, match expires_header { Some(h) => Some(*h), None => None }) {
            Some(s) => r matches Ok(x) && x == s,
            None => r matches Err(ServerError::Sip(_)),
        },
{
    match contact_expires_of(contact) {
        Err(e) => Err(ServerError::Sip(e)),
        Ok(Some(seconds)) => Ok(seconds),
        Ok(None) => match expires_header {
            Some(h) => match seconds_of(h) {
                Ok(s) => Ok(s),
                Err(e) => Err(ServerError::Sip(e)),
            },
            None => Ok(600),
        },
    }
}

/// Whether the From and To headers of `request` parse.
pub open spec fn from_to_parse(request: rsip::Request) -> bool {
    &&& request_to_uri(request) is Some
    &&& request_from_uri(request) is Some
    &&& request_to_display_name(request) is Some
    &&& request_from_display_name(request) is Some
}

/// Whether a REGISTER passes the checks of the registrar: its Request-URI
/// and its To URI are addresses the server listens on, and its From and To
/// headers have the same URI and display name.
pub open spec fn default_checks_pass(config: Config, request: rsip::Request) -> bool {
    &&& from_to_parse(request)
    &&& config.listen_addrs@.contains(uri_host(request_uri(request)))
    &&& config.listen_addrs@.contains(uri_host(request_to_uri(request)->0))
    &&& request_from_uri(request) == request_to_uri(request)
    &&& request_from_display_name(request) == request_to_display_name(request)
}

/// The error of the first check a REGISTER whose headers parse fails.
pub open spec fn failed_check(config: Config, request: rsip::Request) -> ServerError {
    if !config.listen_addrs@.contains(uri_host(request_uri(request))) {
        ServerError::InvalidRequestUri
    } else if !config.listen_addrs@.contains(uri_host(request_to_uri(request)->0)) {
        ServerError::RecordNotFound
    } else if request_from_uri(request) != request_to_uri(request) {
        ServerError::FromToUriMismatch
    } else {
        ServerError::FromToDisplayNameMismatch
    }
}

fn apply_default_checks(request: &rsip::Request, config: &Config) -> (r: Result<(), ServerError>)
    ensures
        r is Ok == default_checks_pass(*config, *request),
        from_to_parse(*request) && !default_checks_pass(*config, *request) ==> r == Err::<(), ServerError>(
            failed_check(*config, *request)),
{
    let to_uri = match to_uri_of(request) {
        Ok(u) => u,
        Err(e) => {
            return Err(ServerError::Sip(e));
        },
    };
    let from_uri = match from_uri_of(request) {
        Ok(u) => u,
        Err(e) => {
            return Err(ServerError::Sip(e));
        },
    };
    let to_name = match to_display_name_of(request) {
        Ok(n) => n,
        Err(e) => {
            return Err(ServerError::Sip(e));
        },
    };
    let from_name = match from_display_name_of(request) {
        Ok(n) => n,
        Err(e) => {
            return Err(ServerError::Sip(e));
        },
    };
    if !config.contains_addr(&host_of_uri(&request_uri_of(request))) {
        return Err(ServerError::InvalidRequestUri);
    }
    if !config.contains_addr(&host_of_uri(&to_uri)) {
        return Err(ServerError::RecordNotFound);
    }
    if !same_uri(&from_uri, &to_uri) {
        return Err(ServerError::FromToUriMismatch);
    }
    let names_equal = match (&from_name, &to_name) {
        (Some(a), Some(b)) => *a == *b,
        (None, None) => true,
        _ => false,
    };
    if !names_equal {
        return Err(ServerError::FromToDisplayNameMismatch);
    }
    Ok(())
}

/// What the registrar does with one Contact header of a REGISTER.
pub enum RegistrationStep {
    /// Drop the registrations of this contact URI (it expires at once).
    Delete(Seq<char>),
    /// Store or refresh the registration of the request.
    Upsert,
}

/// The step for `contact`: drop it when it expires at once, else store it;
/// `None` when the contact or its expiry does not parse.
pub open spec fn step_for(contact: rsip::headers::Contact, header: Option<rsip::headers::Expires>) -> Option<RegistrationStep> {
    match (contact_uri_text(contact), expires_for(contact, header)) {
        (Some(uri), Some(seconds)) => if seconds == 0 {
            Some(RegistrationStep::Delete(uri))
        } else {
            Some(RegistrationStep::Upsert)
        },
        _ => None,
    }
}

/// The steps for the contacts, in order, up to the first that does not parse;
/// `true` when all of them parse.
pub open spec fn steps_for(contacts: Seq<rsip::headers::Contact>, header: Option<rsip::headers::Expires>) -> (Seq<RegistrationStep>, bool)
    decreases contacts.len(),
{
    if contacts.len() == 0 {
        (seq![], true)
    } else {
        let (steps, ok) = steps_for(contacts.drop_last(), header);
        if !ok {
            (steps, false)
        } else {
            match step_for(contacts.last(), header) {
                Some(step) => (steps.push(step), true),
                None => (steps, false),
            }
        }
    }
}

/// Whether `action` carries out `step` for the REGISTER `request`.
pub open spec fn carries_out(action: TuAction, step: RegistrationStep, request: rsip::Request) -> bool {
    match (action, step) {
        (TuAction::DeleteRegistration(uri), RegistrationStep::Delete(text)) => uri@ == text,
        (TuAction::UpsertRegistration(r), RegistrationStep::Upsert) => r == request,
        _ => false,
    }
}

/// Whether `actions` carry out `steps` one for one.
pub open spec fn carry_out(actions: Seq<TuAction>, steps: Seq<RegistrationStep>, request: rsip::Request) -> bool {
    &&& actions.len() == steps.len()
    &&& forall|i: int| 0 <= i < steps.len() ==> carries_out(#[trigger] actions[i], steps[i], request)
}

/// What the registrar does with `request`: nothing when a check fails;
/// otherwise one step per Contact header, up to the first that does not
/// parse, then (when all parsed) the answer with every registration.
pub open spec fn registrar_handles(config: Config, request: rsip::Request, actions: Seq<TuAction>, result: Result<(), ServerError>) -> bool {
    if !default_checks_pass(config, request) {
        &&& actions.len() == 0
        &&& result is Err
        &&& from_to_parse(request) ==> result == Err::<(), ServerError>(failed_check(config, request))
    } else {
        let (steps, ok) = steps_for(request_contacts(request), request_expires_header(request));
        if ok {
            &&& actions.len() == steps.len() + 1
            &&& carry_out(actions.drop_last(), steps, request)
            &&& actions.last() == TuAction::AnswerWithRegistrations(request)
            &&& result is Ok
        } else {
            &&& carry_out(actions, steps, request)
            &&& result matches Err(ServerError::Sip(_))
        }
    }
}

/// Once a contact does not parse, the contacts after it change nothing.
proof fn lemma_steps_stop(contacts: Seq<rsip::headers::Contact>, k: int, header: Option<rsip::headers::Expires>)
    requires
        0 <= k <= contacts.len(),
        !steps_for(contacts.subrange(0, k), header).1,
    ensures
        steps_for(contacts, header) == steps_for(contacts.subrange(0, k), header),
    decreases contacts.len() - k,
{
    if k == contacts.len() {
        assert(contacts.subrange(0, k) =~= contacts);
    } else {
        assert(contacts.subrange(0, k + 1).drop_last() =~= contacts.subrange(0, k));
        lemma_steps_stop(contacts, k + 1, header);
    }
}

/// The registrar, for the addresses the server listens on.
pub struct Registrar {
    pub config: Config,
}

impl Registrar {
    pub fn new(config: Config) -> (r: Registrar)
        ensures
            r.config == config,
    {
        Registrar { config }
    }

    fn handle_update(&self, request: rsip::Request, contacts: Vec<rsip::headers::Contact>) -> (r: TuOutcome)
        requires
            contacts@ == request_contacts(request),
        ensures
            ({
                let (steps, ok) = steps_for(request_contacts(request), request_expires_header(request));
                if ok {
                    &&& r.actions@.len() == steps.len() + 1
                    &&& carry_out(r.actions@.drop_last(), steps, request)
                    &&& r.actions@.last() == TuAction::AnswerWithRegistrations(request)
                    &&& r.result is Ok
                } else {
                    &&& carry_out(r.actions@, steps, request)
                    &&& r.result matches Err(ServerError::Sip(_))
                }
            }),
    {
        let header = expires_header_of(&request);
        let ghost all = contacts@;
        let mut actions: Vec<TuAction> = Vec::new();
        let mut i: usize = 0;
        proof {
            assert(all.subrange(0, 0) =~= Seq::<rsip::headers::Contact>::empty());
        }
        while i < contacts.len()
            invariant
                contacts@ == all,
                all == request_contacts(request),
                actions@.len() == i,
                header == request_expires_header(request),
                i <= all.len(),
                steps_for(all.subrange(0, i as int), header).1,
                carry_out(actions@, steps_for(all.subrange(0, i as int), header).0, request),
            decreases all.len() - i,
        {
            let contact = &contacts[i];
            proof {
                assert(all.subrange(0, i + 1).drop_last() =~= all.subrange(0, i as int));
                assert(all.subrange(0, i + 1).last() == all[i as int]);
            }
            let uri = match contact_uri_text_of(contact) {
                Ok(u) => u,
                Err(e) => {
                    proof {
                        assert(step_for(all[i as int], header) is None);
                        assert(!steps_for(all.subrange(0, i + 1), header).1);
                        lemma_steps_stop(all, i + 1, header);
                    }
                    return TuOutcome { actions, result: Err(ServerError::Sip(e)) };
                },
            };
            let header_ref = match &header {
                Some(h) => Some(h),
                None => None,
            };
            let seconds = match expires_value_for(contact, header_ref) {
                Ok(s) => s,
                Err(e) => {
                    proof {
                        assert(step_for(all[i as int], header) is None);
                        assert(!steps_for(all.subrange(0, i + 1), header).1);
                        lemma_steps_stop(all, i + 1, header);
                    }
                    return TuOutcome { actions, result: Err(e) };
                },
            };
            let ghost before = actions@;
            if seconds == 0 {
                actions.push(TuAction::DeleteRegistration(uri));
            } else {
                actions.push(TuAction::UpsertRegistration(clone_request(&request)));
            }
            proof {
                let steps = steps_for(all.subrange(0, i as int), header).0;
                let step = step_for(all[i as int], header)->0;
                assert(steps_for(all.subrange(0, i + 1), header) == (steps.push(step), true));
                assert(carries_out(actions@[i as int], step, request));
                assert forall|k: int| 0 <= k < steps.push(step).len() implies carries_out(#[trigger] actions@[k], steps.push(step)[k], request) by {
                    if k < steps.len() {
                        assert(actions@[k] == before[k]);
                    }
                }
            }
            i = i + 1;
        }
        proof {
            assert(all.subrange(0, all.len() as int) =~= all);
        }
        actions.push(TuAction::AnswerWithRegistrations(request));
        proof {
            assert(actions@.drop_last() =~= actions@.subrange(0, actions@.len() - 1));
        }
        TuOutcome { actions, result: Ok(()) }
    }
}

impl ReqProcessor for Registrar {
    open spec fn handles(&self, request: rsip::Request, actions: Seq<TuAction>, result: Result<(), ServerError>) -> bool {
        registrar_handles(self.config, request, actions, result)
    }

    /// Checks the REGISTER `request`; with Contact headers it stores or drops
    /// their registrations, and then (or without any) it answers with every
    /// registration.
    fn process_incoming_request(&self, request: rsip::Request) -> (r: TuOutcome) {
        match apply_default_checks(&request, &self.config) {
            Ok(()) => {},
            Err(e) => {
                return TuOutcome { actions: Vec::new(), result: Err(e) };
            },
        }
        let contacts = contact_headers_of(&request);
        if contacts.len() > 0 {
            self.handle_update(request, contacts)
        } else {
            let mut actions: Vec<TuAction> = Vec::new();
            actions.push(TuAction::AnswerWithRegistrations(request));
            proof {
                assert(request_contacts(request).len() == 0);
                assert(steps_for(request_contacts(request), request_expires_header(request)).0 =~= Seq::<RegistrationStep>::empty());
                assert(actions@.drop_last() =~= Seq::<TuAction>::empty());
            }
            TuOutcome { actions, result: Ok(()) }
        }
    }
}

} // verus!
