//! Dialogs in which this side sent the initial request.
pub mod dialog_sm;
pub mod multi_dialog;
pub mod validations;

pub use multi_dialog::MultiDialog;

use crate::error::ServerError;
use crate::transport::RequestMsg;
use crate::tu::dialogs::headers::{call_id_of, cseq_of, from_tag_of, from_uri_of, request_call_id, request_cseq,
    request_from_tag, request_from_uri, request_to_uri, to_uri_of};
use crate::tu::dialogs::uac::dialog_sm::{Confirmed, Early, Errored, Terminated, Unconfirmed};
use vstd::prelude::*;

verus! {

/// The states of a bare client dialog: one that ends is deleted.
#[derive(Debug)]
pub enum DialogState {
    Unconfirmed(Unconfirmed),
    Early(Early),
    Confirmed(Confirmed),
    Deleted(Terminated),
    Errored(Errored),
}

/// A bare client dialog: only what it reads from its initial request.
#[derive(Debug)]
pub struct DialogSm {
    pub id: Option<String>,
    pub call_id: rsip::headers::CallId,
    pub transaction_id: String,
    pub local_tag: String,
    pub local_seqn: u32,
    pub local_uri: rsip::Uri,
    pub remote_tag: Option<String>,
    pub remote_seqn: Option<u32>,
    pub remote_uri: rsip::Uri,
    pub remote_target: Option<rsip::Uri>,
    pub msg: RequestMsg,
    pub state: DialogState,
    pub created_at: u64,
}

/// Whether the initial request has all the dialog reads from it.
pub open spec fn initial_request_ok(request: rsip::Request) -> bool {
    &&& request_call_id(request) is Some
    &&& crate::sip::request_via_parses(request)
    &&& crate::sip::request_branch(request) is Some
    &&& request_from_tag(request) matches Some(Some(_))
    &&& request_cseq(request) is Some
    &&& request_from_uri(request) is Some
    &&& request_to_uri(request) is Some
}

impl DialogSm {
    /// A new dialog for the request of `msg`, unconfirmed, at `now`.
    pub fn new(msg: RequestMsg, now: u64) -> (r: Result<DialogSm, ServerError>)
        ensures
            r is Ok == initial_request_ok(msg.sip_request),
            r matches Ok(d) ==> {
                let request = msg.sip_request;
                &&& d.id is None
                &&& Some(d.call_id) == request_call_id(request)
                &&& Some(d.transaction_id@) == crate::sip::request_branch(request)
                &&& Some(Some(d.local_tag@)) == request_from_tag(request)
                &&& Some(d.local_seqn) == request_cseq(request)
                &&& Some(d.local_uri) == request_from_uri(request)
                &&& d.remote_tag is None
                &&& d.remote_seqn is None
                &&& Some(d.remote_uri) == request_to_uri(request)
                &&& d.remote_target is None
                &&& d.msg == msg
                &&& d.state == DialogState::Unconfirmed(Unconfirmed { entered_at: now })
                &&& d.created_at == now
            },
    {
        let request = &msg.sip_request;
        let call_id = match call_id_of(request) {
            Ok(c) => c,
            Err(e) => {
                return Err(ServerError::Sip(e));
            },
        };
        let transaction_id = match crate::sip::request_transaction_id(request) {
            Ok(Some(id)) => id,
            Ok(None) => {
                return Err(ServerError::MissingTransactionId);
            },
            Err(e) => {
                return Err(ServerError::Sip(e));
            },
        };
        let local_tag = match from_tag_of(request) {
            Ok(Some(t)) => t,
            Ok(None) => {
                return Err(ServerError::MissingFromTag);
            },
            Err(e) => {
                return Err(ServerError::Sip(e));
            },
        };
        let local_seqn = match cseq_of(request) {
            Ok(s) => s,
            Err(e) => {
                return Err(ServerError::Sip(e));
            },
        };
        let local_uri = match from_uri_of(request) {
            Ok(u) => u,
            Err(e) => {
                return Err(ServerError::Sip(e));
            },
        };
        let remote_uri = match to_uri_of(request) {
            Ok(u) => u,
            Err(e) => {
                return Err(ServerError::Sip(e));
            },
        };
        Ok(DialogSm {
            id: None,
            call_id,
            transaction_id,
            local_tag,
            local_seqn,
            local_uri,
            remote_tag: None,
            remote_seqn: None,
            remote_uri,
            remote_target: None,
            msg,
            state: DialogState::Unconfirmed(Unconfirmed { entered_at: now }),
            created_at: now,
        })
    }
}

/// The text that identifies a dialog: Call-ID, local tag and remote tag,
/// joined by hyphens.
pub open spec fn dialog_key(call_id: Seq<char>, local_tag: Seq<char>, remote_tag: Seq<char>) -> Seq<char> {
    call_id + "-"@ + local_tag + "-"@ + remote_tag
}

/// Joins the Call-ID, the local tag and the remote tag of a dialog into its key.
pub fn compute_dialog_id(call_id: &rsip::headers::CallId, local_tag: String, remote_tag: String) -> (key: String)
    ensures
        key@ == dialog_key(crate::tu::dialogs::headers::call_id_text(*call_id), local_tag@, remote_tag@),
{
    let mut key = crate::tu::dialogs::headers::call_id_value(call_id);
    key.append("-");
    key.append(local_tag.as_str());
    key.append("-");
    key.append(remote_tag.as_str());
    proof {
        reveal_strlit("-");
    }
    key
}

} // verus!
