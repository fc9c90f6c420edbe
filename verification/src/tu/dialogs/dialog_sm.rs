//! The dialogs of one initial request, whichever side sent it.
use crate::error::ServerError;
use crate::sip::SipMessage;
use crate::tu::dialogs::uac;
use crate::tu::dialogs::uac::dialog_sm::{errored, on_incoming_request, on_incoming_response};
use crate::tu::dialogs::uac::multi_dialog::target_index;
use crate::tu::dialogs::{message_dialog_id, request_dialog_id, response_dialog_id, DialogAction, DialogErrorCause,
    DialogId, DialogIdView};
use vstd::prelude::*;
use vstd::std_specs::convert::FromSpecImpl;

verus! {

/// The dialogs of one initial request.
#[derive(Debug)]
pub enum DialogSm {
    /// This side sent the INVITE.
    Uac(uac::MultiDialog),
}

/// A step's result with its actions as a sequence.
pub open spec fn seq_result(r: Result<Vec<DialogAction>, ServerError>) -> Result<Seq<DialogAction>, ServerError> {
    match r {
        Ok(actions) => Ok(actions@),
        Err(e) => Err(e),
    }
}

/// `after` is `before` once the request went to the dialog it belongs to,
/// with `r` what the step returned.
#[verifier::opaque]
pub open spec fn took_request(before: DialogSm, after: DialogSm, request: rsip::Request, now: u64,
    r: Result<Seq<DialogAction>, ServerError>) -> bool {
    match (before, after) {
        (DialogSm::Uac(b), DialogSm::Uac(a)) => match request_dialog_id(request) {
            None => r is Err && a.dialogs@ == b.dialogs@,
            Some(id) => {
                let i = target_index(b.dialogs@, id);
                &&& r matches Ok(actions) && (a.dialogs@[i]@, actions) == on_incoming_request(b.dialogs@[i]@, request, now)
                &&& a.dialogs@.len() == b.dialogs@.len()
                &&& forall|j: int| 0 <= j < b.dialogs@.len() && j != i ==> a.dialogs@[j] == b.dialogs@[j]
            },
        },
    }
}

/// `after` is `before` once the response went to the dialog it belongs to,
/// with `r` what the step returned.
#[verifier::opaque]
pub open spec fn took_response(before: DialogSm, after: DialogSm, response: rsip::Response, now: u64,
    r: Result<Seq<DialogAction>, ServerError>) -> bool {
    match (before, after) {
        (DialogSm::Uac(b), DialogSm::Uac(a)) => match response_dialog_id(response) {
            None => r is Err && a.dialogs@ == b.dialogs@,
            Some(id) => {
                let i = target_index(b.dialogs@, id);
                &&& r matches Ok(actions) && (a.dialogs@[i]@, actions) == on_incoming_response(b.dialogs@[i]@, response, now)
                &&& a.dialogs@.len() == b.dialogs@.len()
                &&& forall|j: int| 0 <= j < b.dialogs@.len() && j != i ==> a.dialogs@[j] == b.dialogs@[j]
            },
        },
    }
}

/// `after` is `before` once the dialog that `msg` belongs to ended in error.
#[verifier::opaque]
pub open spec fn took_transport_error(before: DialogSm, after: DialogSm, reason: String, msg: SipMessage, now: u64) -> bool {
    match (before, after) {
        (DialogSm::Uac(b), DialogSm::Uac(a)) => {
            let i = target_index(b.dialogs@, message_dialog_id(msg)->0);
            &&& a.dialogs@[i]@ == errored(b.dialogs@[i]@, DialogErrorCause::Transport(reason), Some(msg), now)
            &&& a.dialogs@.len() == b.dialogs@.len()
            &&& forall|j: int| 0 <= j < b.dialogs@.len() && j != i ==> a.dialogs@[j] == b.dialogs@[j]
        },
    }
}

impl DialogSm {
    pub open spec fn wf(self) -> bool {
        match self {
            DialogSm::Uac(m) => m.wf(),
        }
    }

    /// The id under which the dialogs are kept: that of the initial request.
    pub open spec fn id(self) -> DialogIdView {
        match self {
            DialogSm::Uac(m) => m.id@,
        }
    }

    pub fn dialog_id(&self) -> (id: &DialogId)
        ensures
            id@ == self.id(),
    {
        match self {
            DialogSm::Uac(m) => &m.id,
        }
    }

    /// A request of the peer, handed to the dialog it belongs to.
    pub fn process_incoming_request(&mut self, request: rsip::Request, now: u64) -> (r: Result<Vec<DialogAction>, ServerError>)
        requires
            old(self).wf(),
        ensures
            final(self).wf(),
            final(self).id() == old(self).id(),
            took_request(*old(self), *final(self), request, now, seq_result(r)),
    {
        match self {
            DialogSm::Uac(m) => {
                proof {
                    reveal(took_request);
                }
                m.process_incoming_request(request, now)
            },
        }
    }

    /// A response of the peer, handed to the dialog it belongs to.
    pub fn process_incoming_response(&mut self, response: rsip::Response, now: u64) -> (r: Result<Vec<DialogAction>, ServerError>)
        requires
            old(self).wf(),
        ensures
            final(self).wf(),
            final(self).id() == old(self).id(),
            took_response(*old(self), *final(self), response, now, seq_result(r)),
    {
        match self {
            DialogSm::Uac(m) => {
                proof {
                    reveal(took_response);
                }
                m.process_incoming_response(response, now)
            },
        }
    }

    /// The transport layer could not deliver `msg`: its dialog ends in error.
    pub fn transport_error(&mut self, reason: String, msg: SipMessage, now: u64)
        requires
            old(self).wf(),
            message_dialog_id(msg) is Some,
        ensures
            final(self).wf(),
            final(self).id() == old(self).id(),
            took_transport_error(*old(self), *final(self), reason, msg, now),
    {
        match self {
            DialogSm::Uac(m) => {
                proof {
                    reveal(took_transport_error);
                }
                m.transport_error(reason, msg, now)
            },
        }
    }
}

impl From<uac::MultiDialog> for DialogSm {
    fn from(from: uac::MultiDialog) -> (sm: DialogSm) {
        DialogSm::Uac(from)
    }
}

impl FromSpecImpl<uac::MultiDialog> for DialogSm {
    open spec fn obeys_from_spec() -> bool {
        true
    }

    open spec fn from_spec(v: uac::MultiDialog) -> DialogSm {
        DialogSm::Uac(v)
    }
}

} // verus!
