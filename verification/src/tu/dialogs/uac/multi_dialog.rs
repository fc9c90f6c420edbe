//! The dialogs that one INVITE of this side may create (one per answering
//! peer), kept together under the id of the INVITE.
use crate::error::ServerError;
use crate::sip::SipMessage;
use crate::tu::dialogs::uac::dialog_sm::{dialog_request_ok, dialog_wf, errored, on_incoming_request,
    on_incoming_response, DialogSm};
use crate::tu::dialogs::{dialog_id_of_message, dialog_id_of_request, dialog_id_of_response, message_dialog_id,
    request_dialog_id, response_dialog_id, DialogAction, DialogErrorCause, DialogId, DialogIdView};
use vstd::prelude::*;

verus! {

/// The ids of a sequence of dialogs.
pub open spec fn dialog_ids(dialogs: Seq<DialogSm>) -> Seq<DialogIdView> {
    dialogs.map_values(|d: DialogSm| d@.id)
}

/// The dialog a message with this id goes to: the first with the same id,
/// else the first of all.
pub open spec fn target_index(dialogs: Seq<DialogSm>, id: DialogIdView) -> int {
    match dialog_ids(dialogs).index_of_first(id) {
        Some(i) => i,
        None => 0,
    }
}

/// The dialogs of one client INVITE.
#[derive(Debug)]
pub struct MultiDialog {
    pub id: DialogId,
    pub dialogs: Vec<DialogSm>,
}

impl MultiDialog {
    pub open spec fn wf(self) -> bool {
        &&& self.dialogs@.len() > 0
        &&& forall|i: int| 0 <= i < self.dialogs@.len() ==> dialog_wf(#[trigger] self.dialogs@[i]@)
    }

    /// The dialogs for the INVITE `request`: one, started from it.
    pub fn new(request: rsip::Request, now: u64) -> (r: Result<(MultiDialog, Vec<DialogAction>), ServerError>)
        ensures
            r is Ok == (request_dialog_id(request) is Some && dialog_request_ok(request)),
            r matches Ok((m, actions)) ==> {
                &&& m.wf()
                &&& Some(m.id@) == request_dialog_id(request)
                &&& m.dialogs@.len() == 1
                &&& m.dialogs@[0]@.request == request
                &&& actions@ == seq![DialogAction::NewUacInvite(request)]
            },
    {
        let id = dialog_id_of_request(&request)?;
        let (dialog, actions) = DialogSm::new(request, now)?;
        let mut dialogs: Vec<DialogSm> = Vec::new();
        dialogs.push(dialog);
        Ok((MultiDialog { id, dialogs }, actions))
    }

    fn find(&self, id: &DialogId) -> (i: usize)
        requires
            self.wf(),
        ensures
            i == target_index(self.dialogs@, id@),
            i < self.dialogs@.len(),
    {
        let mut i: usize = 0;
        while i < self.dialogs.len()
            invariant
                self.wf(),
                i <= self.dialogs@.len(),
                forall|j: int| 0 <= j < i ==> dialog_ids(self.dialogs@)[j] != id@,
            decreases self.dialogs@.len() - i,
        {
            if self.dialogs[i].id.same(id) {
                proof {
                    let ids = dialog_ids(self.dialogs@);
                    assert(ids[i as int] == id@);
                    ids.index_of_first_ensures(id@);
                    let k = ids.index_of_first(id@)->0;
                    assert(k == i) by {
                        if k < i {
                            assert(ids[k] != id@);
                        }
                    }
                }
                return i;
            }
            i = i + 1;
        }
        proof {
            let ids = dialog_ids(self.dialogs@);
            ids.index_of_first_ensures(id@);
            if ids.contains(id@) {
                let k = choose|k: int| 0 <= k < ids.len() && ids[k] == id@;
                assert(ids[k] == id@);
            }
        }
        0
    }

    /// A request of the peer: it goes to the dialog with its id, else to the first.
    pub fn process_incoming_request(&mut self, request: rsip::Request, now: u64) -> (r: Result<Vec<DialogAction>, ServerError>)
        requires
            old(self).wf(),
        ensures
            final(self).wf(),
            final(self).id == old(self).id,
            match request_dialog_id(request) {
                None => r is Err && final(self).dialogs@ == old(self).dialogs@,
                Some(id) => {
                    let i = target_index(old(self).dialogs@, id);
                    &&& r matches Ok(actions) && (final(self).dialogs@[i]@, actions@) == on_incoming_request(old(self).dialogs@[i]@, request, now)
                    &&& final(self).dialogs@.len() == old(self).dialogs@.len()
                    &&& forall|j: int| 0 <= j < old(self).dialogs@.len() && j != i ==> final(self).dialogs@[j] == old(self).dialogs@[j]
                },
            },
    {
        let id = dialog_id_of_request(&request)?;
        let i = self.find(&id);
        let mut dialog = self.dialogs.remove(i);
        let actions = dialog.process_incoming_request(request, now);
        self.dialogs.insert(i, dialog);
        Ok(actions)
    }

    /// A response to the INVITE: it goes to the dialog with its id, else to the first.
    pub fn process_incoming_response(&mut self, response: rsip::Response, now: u64) -> (r: Result<Vec<DialogAction>, ServerError>)
        requires
            old(self).wf(),
        ensures
            final(self).wf(),
            final(self).id == old(self).id,
            match response_dialog_id(response) {
                None => r is Err && final(self).dialogs@ == old(self).dialogs@,
                Some(id) => {
                    let i = target_index(old(self).dialogs@, id);
                    &&& r matches Ok(actions) && (final(self).dialogs@[i]@, actions@) == on_incoming_response(old(self).dialogs@[i]@, response, now)
                    &&& final(self).dialogs@.len() == old(self).dialogs@.len()
                    &&& forall|j: int| 0 <= j < old(self).dialogs@.len() && j != i ==> final(self).dialogs@[j] == old(self).dialogs@[j]
                },
            },
    {
        let id = dialog_id_of_response(&response)?;
        let i = self.find(&id);
        let mut dialog = self.dialogs.remove(i);
        let actions = dialog.process_incoming_response(response, now);
        self.dialogs.insert(i, dialog);
        Ok(actions)
    }

    /// The transport layer could not deliver `msg`: the dialog it belongs to ends in error.
    pub fn transport_error(&mut self, reason: String, msg: SipMessage, now: u64)
        requires
            old(self).wf(),
            message_dialog_id(msg) is Some,
        ensures
            final(self).wf(),
            final(self).id == old(self).id,
            ({
                let i = target_index(old(self).dialogs@, message_dialog_id(msg)->0);
                &&& final(self).dialogs@[i]@ == errored(old(self).dialogs@[i]@, DialogErrorCause::Transport(reason), Some(msg), now)
                &&& final(self).dialogs@.len() == old(self).dialogs@.len()
                &&& forall|j: int| 0 <= j < old(self).dialogs@.len() && j != i ==> final(self).dialogs@[j] == old(self).dialogs@[j]
            }),
    {
        let id = match dialog_id_of_message(&msg) {
            Ok(id) => id,
            Err(_) => {
                return;
            },
        };
        let i = self.find(&id);
        let mut dialog = self.dialogs.remove(i);
        dialog.transport_error(reason, msg, now);
        self.dialogs.insert(i, dialog);
    }
}

} // verus!
