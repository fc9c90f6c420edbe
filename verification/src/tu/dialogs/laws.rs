//! Properties that hold of every step of a client dialog.
use crate::sip::{request_method_of, response_kind, Method, StatusCodeKind};
use crate::tu::dialogs::headers::request_cseq;
use crate::tu::dialogs::uac::dialog_sm::{dialog_wf, on_incoming_request, on_incoming_response, on_outgoing_request,
    renumbers, with_dialog_headers, DialogView};
use crate::error::{DialogError, ServerError};
use crate::tu::dialogs::dialog_sm::DialogSm;
use crate::tu::dialogs::{group_ids, law_stored_group_is_found, new_session, position, request_dialog_id,
    response_dialog_id, response_taken, session_started, DialogAction, DialogIdView};
use vstd::prelude::*;

verus! {

/// Whether a dialog has ended, well or in error.
pub open spec fn ended(d: DialogView) -> bool {
    d.state is Terminated || d.state is Errored
}

/// A dialog that has ended never starts again, whatever arrives or is sent.
pub proof fn law_ended_dialog_stays_ended(d: DialogView, request: rsip::Request, response: rsip::Response, now: u64)
    requires
        ended(d),
    ensures
        ended(on_incoming_response(d, response, now).0),
        ended(on_incoming_request(d, request, now).0),
        ended(on_outgoing_request(d, request, now).0),
{
}

/// The sequence number of the peer never goes down: a request with a lower
/// one is refused and leaves it as it was.
pub proof fn law_remote_seqn_never_decreases(d: DialogView, request: rsip::Request, now: u64)
    requires
        d.remote_seqn is Some,
    ensures
        on_incoming_request(d, request, now).0.remote_seqn matches Some(s) && s >= d.remote_seqn->0,
{
}

/// A request of the peer is taken only in a confirmed dialog; anywhere else
/// it ends the dialog in error and nothing is done.
pub proof fn law_requests_need_confirmed_dialog(d: DialogView, request: rsip::Request, now: u64)
    requires
        !(d.state is Confirmed),
    ensures
        on_incoming_request(d, request, now).0.state is Errored,
        on_incoming_request(d, request, now).1 == Seq::<DialogAction>::empty(),
{
}

/// A request of the peer with a sequence number below the last one ends the
/// dialog in error and is not answered.
pub proof fn law_lower_seqn_is_refused(d: DialogView, request: rsip::Request, now: u64)
    requires
        d.state is Confirmed,
        d.remote_seqn is Some,
        request_cseq(request) matches Some(s) && s < d.remote_seqn->0,
    ensures
        on_incoming_request(d, request, now).0.state is Errored,
        on_incoming_request(d, request, now).0.remote_seqn == d.remote_seqn,
        on_incoming_request(d, request, now).1 == Seq::<DialogAction>::empty(),
{
}

/// A BYE of the peer in a confirmed dialog, in sequence, ends the dialog and
/// is answered 200.
pub proof fn law_bye_ends_dialog(d: DialogView, request: rsip::Request, now: u64)
    requires
        d.state is Confirmed,
        request_method_of(request) == Method::Bye,
        request_cseq(request) matches Some(s) && (d.remote_seqn matches Some(r) ==> r <= s),
    ensures
        on_incoming_request(d, request, now).0.state is Terminated,
        on_incoming_request(d, request, now).0.remote_seqn == request_cseq(request),
        on_incoming_request(d, request, now).1 == seq![DialogAction::NewUas { request, status_code: 200 }],
{
}

/// Only a 2xx response confirms a dialog, and only one that was not yet
/// confirmed; every step keeps a dialog well formed.
pub proof fn law_only_success_confirms(d: DialogView, response: rsip::Response, now: u64)
    requires
        dialog_wf(d),
    ensures
        dialog_wf(on_incoming_response(d, response, now).0),
        on_incoming_response(d, response, now).0.state is Confirmed ==> {
            &&& response_kind(response) == StatusCodeKind::Successful
            &&& (d.state is Unconfirmed || d.state is Early)
        },
{
}

/// The local sequence number never goes down, and each request that the
/// dialog renumbers and sends takes the next one.
pub proof fn law_local_seqn_counts_requests(d: DialogView, request: rsip::Request, now: u64)
    requires
        d.local_seqn < u32::MAX,
    ensures
        on_outgoing_request(d, request, now).0.local_seqn >= d.local_seqn,
        d.state is Confirmed && with_dialog_headers(d, request) is Some && renumbers(request_method_of(request))
            ==> on_outgoing_request(d, request, now).0.local_seqn == d.local_seqn + 1,
{
}

/// A session that this side starts is kept under the dialog id of its INVITE,
/// in one group with one dialog for that INVITE; the groups of other ids stay
/// where they were.
pub proof fn law_started_session_is_kept(before: Seq<DialogSm>, after: Seq<DialogSm>, request: rsip::Request,
    r: Result<Seq<DialogAction>, ServerError>, other: DialogIdView)
    requires
        group_ids(before).no_duplicates(),
        session_started(before, after, request, r),
        r is Ok,
        other != request_dialog_id(request)->0,
    ensures
        position(after, request_dialog_id(request)->0) matches Some(q) && new_session(after[q], request),
        position(after, other) == position(before, other),
        group_ids(after).no_duplicates(),
{
    let q = position(after, request_dialog_id(request)->0)->0;
    law_stored_group_is_found(before, after[q]);
}

/// A message whose dialog id no group has is refused as not found and
/// changes nothing.
pub proof fn law_unknown_dialog_changes_nothing(before: Seq<DialogSm>, after: Seq<DialogSm>, response: rsip::Response,
    now: u64, r: Result<Seq<DialogAction>, ServerError>)
    requires
        response_taken(before, after, response, now, r),
        response_dialog_id(response) matches Some(id) && position(before, id) is None,
    ensures
        after == before,
        r == Err::<Seq<DialogAction>, ServerError>(ServerError::Dialog(DialogError::NotFound)),
{
}


/// Sending a request in a confirmed dialog, when it goes out, leaves the
/// dialog as it was but for its local sequence number, which goes up by one:
/// an INVITE (a re-INVITE) keeps the dialog confirmed and goes to a new
/// client INVITE transaction, a BYE goes to a client non-INVITE transaction
/// and ends the dialog.
pub proof fn law_outgoing_request_in_confirmed_dialog(d: DialogView, request: rsip::Request, now: u64)
    requires
        d.state is Confirmed,
        on_outgoing_request(d, request, now).1.len() > 0,
    ensures
        request_method_of(request) == Method::Invite ==> {
            &&& on_outgoing_request(d, request, now).0 == DialogView { local_seqn: (d.local_seqn + 1) as u32, ..d }
            &&& on_outgoing_request(d, request, now).0.state is Confirmed
            &&& on_outgoing_request(d, request, now).1.len() == 1
            &&& on_outgoing_request(d, request, now).1[0] is NewUacInvite
        },
        request_method_of(request) == Method::Bye ==> {
            &&& on_outgoing_request(d, request, now).0.state is Terminated
            &&& on_outgoing_request(d, request, now).0.local_seqn == (d.local_seqn + 1) as u32
            &&& on_outgoing_request(d, request, now).1.len() == 1
            &&& on_outgoing_request(d, request, now).1[0] is NewUac
        },
        request_method_of(request) == Method::Invite || request_method_of(request) == Method::Bye,
{
}

} // verus!
