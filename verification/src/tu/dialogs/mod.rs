//! Dialogs (RFC 3261, section 12).
pub mod dialog_sm;
pub mod headers;
pub mod laws;
pub mod uac;

use crate::error::{decimal, decimal_text, DialogError, ServerError};
use crate::tu::dialogs::dialog_sm::{seq_result, took_request, took_response, took_transport_error, DialogSm};
use crate::tu::dialogs::uac::dialog_sm::dialog_request_ok;
use crate::sip::{Method, SipMessage};
use crate::tu::dialogs::headers::{call_id_of, call_id_text, call_id_value, from_tag_of, request_call_id,
    request_from_tag, request_to_tag, response_call_id, response_call_id_of, response_from_tag,
    response_from_tag_of, response_to_tag, response_to_tag_of, to_tag_of};
use vstd::prelude::*;
use vstd::string::StringExecFns;

verus! {

/// What identifies a dialog: the Call-ID and the two tags.
#[derive(Debug)]
pub struct DialogId {
    pub call_id: String,
    pub local_tag: String,
    pub remote_tag: Option<String>,
}

/// The view of a dialog id.
pub struct DialogIdView {
    pub call_id: Seq<char>,
    pub local_tag: Seq<char>,
    pub remote_tag: Option<Seq<char>>,
}

impl View for DialogId {
    type V = DialogIdView;

    open spec fn view(&self) -> DialogIdView {
        DialogIdView {
            call_id: self.call_id@,
            local_tag: self.local_tag@,
            remote_tag: crate::sip::opt_view(self.remote_tag),
        }
    }
}

impl DialogId {
    /// Whether two dialog ids are equal.
    pub fn same(&self, other: &DialogId) -> (b: bool)
        ensures
            b == (self@ == other@),
    {
        let tags_equal = match (&self.remote_tag, &other.remote_tag) {
            (Some(a), Some(b)) => *a == *b,
            (None, None) => true,
            _ => false,
        };
        self.call_id == other.call_id && self.local_tag == other.local_tag && tags_equal
    }

    pub fn clone_id(&self) -> (copy: DialogId)
        ensures
            copy@ == self@,
    {
        DialogId {
            call_id: self.call_id.clone(),
            local_tag: self.local_tag.clone(),
            remote_tag: match &self.remote_tag {
                Some(t) => Some(t.clone()),
                None => None,
            },
        }
    }
}

/// The dialog id a request carries: its Call-ID, From tag and To tag;
/// `None` when one of them is missing or does not parse.
pub open spec fn request_dialog_id(request: rsip::Request) -> Option<DialogIdView> {
    match (request_call_id(request), request_from_tag(request), request_to_tag(request)) {
        (Some(c), Some(Some(f)), Some(t)) => Some(DialogIdView { call_id: call_id_text(c), local_tag: f, remote_tag: t }),
        _ => None,
    }
}

/// The dialog id a response carries: its Call-ID, From tag and To tag.
pub open spec fn response_dialog_id(response: rsip::Response) -> Option<DialogIdView> {
    match (response_call_id(response), response_from_tag(response), response_to_tag(response)) {
        (Some(c), Some(Some(f)), Some(t)) => Some(DialogIdView { call_id: call_id_text(c), local_tag: f, remote_tag: t }),
        _ => None,
    }
}

/// The dialog id a message carries.
pub open spec fn message_dialog_id(msg: SipMessage) -> Option<DialogIdView> {
    match msg {
        SipMessage::Request(r) => request_dialog_id(r),
        SipMessage::Response(r) => response_dialog_id(r),
    }
}

/// Reads the dialog id of a request.
pub fn dialog_id_of_request(request: &rsip::Request) -> (r: Result<DialogId, ServerError>)
    ensures
        match request_dialog_id(*request) {
            Some(id) => r matches Ok(d) && d@ == id,
            None => r is Err,
        },
{
    let call_id = match call_id_of(request) {
        Ok(c) => c,
        Err(e) => {
            return Err(ServerError::Sip(e));
        },
    };
    let local_tag = match from_tag_of(request) {
        Ok(Some(t)) => t,
        Ok(None) => {
            return Err(ServerError::MissingFromTag);
        },
        Err(e) => {
            return Err(ServerError::Sip(e));
        },
    };
    let remote_tag = match to_tag_of(request) {
        Ok(t) => t,
        Err(e) => {
            return Err(ServerError::Sip(e));
        },
    };
    Ok(DialogId { call_id: call_id_value(&call_id), local_tag, remote_tag })
}

/// Reads the dialog id of a response.
pub fn dialog_id_of_response(response: &rsip::Response) -> (r: Result<DialogId, ServerError>)
    ensures
        match response_dialog_id(*response) {
            Some(id) => r matches Ok(d) && d@ == id,
            None => r is Err,
        },
{
    let call_id = match response_call_id_of(response) {
        Ok(c) => c,
        Err(e) => {
            return Err(ServerError::Sip(e));
        },
    };
    let local_tag = match response_from_tag_of(response) {
        Ok(Some(t)) => t,
        Ok(None) => {
            return Err(ServerError::MissingFromTag);
        },
        Err(e) => {
            return Err(ServerError::Sip(e));
        },
    };
    let remote_tag = match response_to_tag_of(response) {
        Ok(t) => t,
        Err(e) => {
            return Err(ServerError::Sip(e));
        },
    };
    Ok(DialogId { call_id: call_id_value(&call_id), local_tag, remote_tag })
}

/// Reads the dialog id of a message.
pub fn dialog_id_of_message(msg: &SipMessage) -> (r: Result<DialogId, ServerError>)
    ensures
        match message_dialog_id(*msg) {
            Some(id) => r matches Ok(d) && d@ == id,
            None => r is Err,
        },
{
    match msg {
        SipMessage::Request(r) => dialog_id_of_request(r),
        SipMessage::Response(r) => dialog_id_of_response(r),
    }
}

/// Names of the dialog states.
#[derive(Clone, Copy, Debug, PartialEq, Eq, Structural)]
pub enum DialogStateName {
    Unconfirmed,
    Early,
    Confirmed,
    Terminated,
    Errored,
}

/// Why processing a message in a dialog failed.
#[derive(Clone, Copy, Debug, PartialEq, Eq, Structural)]
pub enum DialogFailure {
    /// A header the dialog needs is missing or does not parse.
    Sip,
    /// The response that confirms the dialog has no To tag.
    MissingRemoteTag,
    /// Requests are taken only in a confirmed dialog.
    NotConfirmed(DialogStateName),
    /// A request came with a lower sequence number than the one before.
    SeqnTooLow { remote_seqn: u32, request_seqn: u32 },
}

/// The name of a dialog state as the dialog writes it.
pub open spec fn state_text(name: DialogStateName) -> Seq<char> {
    match name {
        DialogStateName::Unconfirmed => "DialogState::Unconfirmed"@,
        DialogStateName::Early => "DialogState::Early"@,
        DialogStateName::Confirmed => "DialogState::Confirmed"@,
        DialogStateName::Terminated => "DialogState::Terminated"@,
        DialogStateName::Errored => "DialogState::Errored"@,
    }
}

/// The text of a dialog failure.
pub open spec fn failure_message(f: DialogFailure) -> Seq<char> {
    match f {
        DialogFailure::Sip => "missing or malformed header"@,
        DialogFailure::MissingRemoteTag => "missing from tag"@,
        DialogFailure::NotConfirmed(name) => "cannot process a request while UAC dialog state is in "@ + state_text(name),
        DialogFailure::SeqnTooLow { remote_seqn, .. } => "request remote seqn is lower than "@ + decimal(remote_seqn as nat),
    }
}

impl DialogFailure {
    /// The text of the failure.
    pub fn message(&self) -> (m: String)
        ensures
            m@ == failure_message(*self),
    {
        match self {
            DialogFailure::Sip => String::from_str("missing or malformed header"),
            DialogFailure::MissingRemoteTag => String::from_str("missing from tag"),
            DialogFailure::NotConfirmed(name) => {
                let mut m = String::from_str("cannot process a request while UAC dialog state is in ");
                let state = match name {
                    DialogStateName::Unconfirmed => "DialogState::Unconfirmed",
                    DialogStateName::Early => "DialogState::Early",
                    DialogStateName::Confirmed => "DialogState::Confirmed",
                    DialogStateName::Terminated => "DialogState::Terminated",
                    DialogStateName::Errored => "DialogState::Errored",
                };
                m.append(state);
                m
            },
            DialogFailure::SeqnTooLow { remote_seqn, .. } => {
                let mut m = String::from_str("request remote seqn is lower than ");
                m.append(decimal_text(*remote_seqn).as_str());
                m
            },
        }
    }
}

/// Why a dialog ended in error.
#[derive(Debug)]
pub enum DialogErrorCause {
    Failed(DialogFailure),
    Transport(String),
    WrongTransition { from: DialogStateName, to: DialogStateName },
    UnknownMethod(Method),
    Redirection(u16),
    UnknownResponse { status_code: u16, state: DialogStateName },
}

/// What the layer must do after a step of a dialog.
pub enum DialogAction {
    /// Start a client INVITE transaction for this request.
    NewUacInvite(rsip::Request),
    /// Start a client non-INVITE transaction for this request.
    NewUac(rsip::Request),
    /// Start a server non-INVITE transaction for this request, answered with this status.
    NewUas { request: rsip::Request, status_code: u16 },
    /// Send the ACK that the dialog's initial request calls for, given this 2xx response.
    SendAckFor(rsip::Response),
}

/// The ids of a sequence of dialog groups.
pub open spec fn group_ids(groups: Seq<DialogSm>) -> Seq<DialogIdView> {
    groups.map_values(|g: DialogSm| g.id())
}

/// Where the group with this id stands, if there is one.
pub open spec fn position(groups: Seq<DialogSm>, id: DialogIdView) -> Option<int> {
    group_ids(groups).index_of_first(id)
}

/// `group` is what a new client session for `request` starts with: one dialog,
/// built from the request.
pub open spec fn new_session(group: DialogSm, request: rsip::Request) -> bool {
    &&& group.wf()
    &&& Some(group.id()) == request_dialog_id(request)
    &&& group matches DialogSm::Uac(m) && m.dialogs@.len() == 1 && m.dialogs@[0]@.request == request
}

/// `groups` once `group` is stored: it replaces the group with its id, or
/// comes last when there is none.
pub open spec fn stored(groups: Seq<DialogSm>, group: DialogSm) -> Seq<DialogSm> {
    match position(groups, group.id()) {
        Some(p) => groups.update(p, group),
        None => groups.push(group),
    }
}

/// In a sequence without duplicates, an element's first position is where it stands.
pub proof fn lemma_first_position(ids: Seq<DialogIdView>, i: int)
    requires
        ids.no_duplicates(),
        0 <= i < ids.len(),
    ensures
        ids.index_of_first(ids[i]) == Some(i),
{
    ids.index_of_first_ensures(ids[i]);
    let k = ids.index_of_first(ids[i])->0;
    assert(k == i) by {
        if k != i {
            assert(ids[k] == ids[i]);
        }
    }
}

/// Storing a group (as a new session does) keeps the ids unique, puts the
/// group under its id, so that it is found there, and
/// leaves every other id where it was, with its group.
pub proof fn law_stored_group_is_found(groups: Seq<DialogSm>, group: DialogSm)
    requires
        group_ids(groups).no_duplicates(),
    ensures
        group_ids(stored(groups, group)).no_duplicates(),
        position(stored(groups, group), group.id()) matches Some(q) && stored(groups, group)[q] == group,
        forall|other: DialogIdView| other != group.id() ==> position(stored(groups, group), other) == #[trigger] position(groups, other),
{
    let ids = group_ids(groups);
    let new_groups = stored(groups, group);
    let new_ids = group_ids(new_groups);
    let id = group.id();
    ids.index_of_first_ensures(id);
    match position(groups, id) {
        Some(p) => {
            assert(new_ids =~= ids);
            lemma_first_position(new_ids, p);
        },
        None => {
            assert(new_ids =~= ids.push(id));
            assert forall|i: int, j: int| 0 <= i < j < new_ids.len() implies new_ids[i] != new_ids[j] by {
                if j == ids.len() {
                    assert(ids[i] != id);
                }
            }
            lemma_first_position(new_ids, ids.len() as int);
        },
    }
    assert forall|other: DialogIdView| other != group.id() implies position(stored(groups, group), other) == #[trigger] position(groups, other) by {
        ids.index_of_first_ensures(other);
        new_ids.index_of_first_ensures(other);
        if ids.contains(other) {
            let i = choose|i: int| 0 <= i < ids.len() && ids[i] == other;
            lemma_first_position(ids, i);
            assert(new_ids[i] == other);
            lemma_first_position(new_ids, i);
        } else if new_ids.contains(other) {
            let i = choose|i: int| 0 <= i < new_ids.len() && new_ids[i] == other;
            if i < ids.len() {
                assert(ids[i] == other);
            }
        }
    }
}

/// `after` is `before` once a new client session for `request` was asked
/// for, with `r` what came back: it starts when the request has a dialog id
/// and all a client dialog reads from it; the new group is then stored under
/// the request's dialog id.
pub open spec fn session_started(before: Seq<DialogSm>, after: Seq<DialogSm>, request: rsip::Request,
    r: Result<Seq<DialogAction>, ServerError>) -> bool {
    &&& r is Ok == (request_dialog_id(request) is Some && dialog_request_ok(request))
    &&& r is Err ==> after == before
    &&& r matches Ok(actions) ==> {
        &&& actions == seq![DialogAction::NewUacInvite(request)]
        &&& position(after, request_dialog_id(request)->0) matches Some(q)
        &&& new_session(after[q], request)
        &&& after == stored(before, after[q])
    }
}

/// `after` is `before` once `response` went to the group with its dialog id,
/// with `r` what came back: an error when it has no dialog id or no group
/// has it, and nothing changes then.
pub open spec fn response_taken(before: Seq<DialogSm>, after: Seq<DialogSm>, response: rsip::Response, now: u64,
    r: Result<Seq<DialogAction>, ServerError>) -> bool {
    match response_dialog_id(response) {
        None => r is Err && after == before,
        Some(id) => match position(before, id) {
            None => r == Err::<Seq<DialogAction>, ServerError>(ServerError::Dialog(DialogError::NotFound)) && after == before,
            Some(p) => {
                &&& took_response(before[p], after[p], response, now, r)
                &&& after == before.update(p, after[p])
            },
        },
    }
}

/// `after` is `before` once `request` went to the group with its dialog id.
pub open spec fn request_taken(before: Seq<DialogSm>, after: Seq<DialogSm>, request: rsip::Request, now: u64,
    r: Result<Seq<DialogAction>, ServerError>) -> bool {
    match request_dialog_id(request) {
        None => r is Err && after == before,
        Some(id) => match position(before, id) {
            None => r == Err::<Seq<DialogAction>, ServerError>(ServerError::Dialog(DialogError::NotFound)) && after == before,
            Some(p) => {
                &&& took_request(before[p], after[p], request, now, r)
                &&& after == before.update(p, after[p])
            },
        },
    }
}

/// `after` is `before` once the dialog of `msg` took the transport error.
pub open spec fn transport_error_taken(before: Seq<DialogSm>, after: Seq<DialogSm>, msg: SipMessage, reason: String, now: u64,
    r: Result<(), ServerError>) -> bool {
    match message_dialog_id(msg) {
        None => r is Err && after == before,
        Some(id) => match position(before, id) {
            None => r == Err::<(), ServerError>(ServerError::Dialog(DialogError::NotFound)) && after == before,
            Some(p) => {
                &&& r is Ok
                &&& took_transport_error(before[p], after[p], reason, msg, now)
                &&& after == before.update(p, after[p])
            },
        },
    }
}

/// The dialogs of this side, by the id of the request that started them.
#[derive(Debug)]
pub struct Dialogs {
    pub data: Vec<DialogSm>,
}

impl Dialogs {
    /// No two groups share an id, and each is well formed.
    pub open spec fn wf(self) -> bool {
        &&& group_ids(self.data@).no_duplicates()
        &&& forall|i: int| 0 <= i < self.data@.len() ==> (#[trigger] self.data@[i]).wf()
    }

    pub fn new() -> (d: Dialogs)
        ensures
            d.wf(),
            d.data@.len() == 0,
    {
        let d = Dialogs { data: Vec::new() };
        assert(group_ids(d.data@) =~= Seq::<DialogIdView>::empty());
        d
    }

    fn find(&self, id: &DialogId) -> (r: Option<usize>)
        ensures
            match position(self.data@, id@) {
                Some(p) => r == Some(p as usize) && 0 <= p < self.data@.len(),
                None => r is None,
            },
    {
        let mut i: usize = 0;
        while i < self.data.len()
            invariant
                i <= self.data@.len(),
                forall|j: int| 0 <= j < i ==> group_ids(self.data@)[j] != id@,
            decreases self.data@.len() - i,
        {
            if self.data[i].dialog_id().same(id) {
                proof {
                    let ids = group_ids(self.data@);
                    assert(ids[i as int] == id@);
                    ids.index_of_first_ensures(id@);
                    let k = ids.index_of_first(id@)->0;
                    assert(k == i) by {
                        if k < i {
                            assert(ids[k] != id@);
                        }
                    }
                }
                return Some(i);
            }
            i = i + 1;
        }
        proof {
            let ids = group_ids(self.data@);
            ids.index_of_first_ensures(id@);
            if ids.contains(id@) {
                let k = choose|k: int| 0 <= k < ids.len() && ids[k] == id@;
                assert(ids[k] == id@);
            }
        }
        None
    }

    /// Whether dialogs are kept under `dialog_id`.
    pub fn has_dialog(&self, dialog_id: &DialogId) -> (b: bool)
        ensures
            b == position(self.data@, dialog_id@) is Some,
    {
        self.find(dialog_id).is_some()
    }
    proof fn lemma_ids_after_update(old_groups: Seq<DialogSm>, new_groups: Seq<DialogSm>, p: int)
        requires
            0 <= p < old_groups.len(),
            new_groups.len() == old_groups.len(),
            new_groups[p].id() == old_groups[p].id(),
            forall|j: int| 0 <= j < old_groups.len() && j != p ==> new_groups[j] == old_groups[j],
        ensures
            group_ids(new_groups) == group_ids(old_groups),
    {
        assert(group_ids(new_groups) =~= group_ids(old_groups));
    }

    /// Starts the dialogs of the INVITE `request` sent by this side; a group
    /// already kept under the same id is replaced.
    pub fn new_uac_session(&mut self, request: rsip::Request, now: u64) -> (r: Result<Vec<DialogAction>, ServerError>)
        requires
            old(self).wf(),
        ensures
            final(self).wf(),
            session_started(old(self).data@, final(self).data@, request, seq_result(r)),
    {
        let (group, actions) = match uac::MultiDialog::new(request, now) {
            Ok(x) => x,
            Err(e) => {
                return Err(e);
            },
        };
        let found = self.find(&group.id);
        let ghost old_data = self.data@;
        let sm = DialogSm::from(group);
        let ghost g = sm;
        match found {
            Some(p) => {
                self.data.set(p, sm);
            },
            None => {
                self.data.push(sm);
            },
        }
        proof {
            law_stored_group_is_found(old_data, g);
            assert(self.data@ == stored(old_data, g));
        }
        assert(forall|i: int| 0 <= i < self.data@.len() ==> (#[trigger] self.data@[i]).wf());
        Ok(actions)
    }

    /// A response of a peer, handed to the group it belongs to.
    pub fn process_incoming_response(&mut self, response: rsip::Response, now: u64) -> (r: Result<Vec<DialogAction>, ServerError>)
        requires
            old(self).wf(),
        ensures
            final(self).wf(),
            response_taken(old(self).data@, final(self).data@, response, now, seq_result(r)),
    {
        let id = match dialog_id_of_response(&response) {
            Ok(id) => id,
            Err(e) => {
                return Err(e);
            },
        };
        match self.find(&id) {
            None => Err(ServerError::Dialog(DialogError::NotFound)),
            Some(p) => {
                let ghost old_data = self.data@;
                let mut sm = self.data.remove(p);
                let ghost before = sm;
                let r = sm.process_incoming_response(response, now);
                let ghost after = sm;
                self.data.insert(p, sm);
                proof {
                    assert(after.wf() && after.id() == before.id());
                    assert(took_response(before, after, response, now, seq_result(r)));
                    assert(old_data[p as int] == before);
                    assert(self.data@[p as int] == after);
                    assert(self.data@ =~= old_data.update(p as int, self.data@[p as int]));
                    Self::lemma_ids_after_update(old_data, self.data@, p as int);
                }
                assert(forall|i: int| 0 <= i < self.data@.len() ==> (#[trigger] self.data@[i]).wf());
                r
            },
        }
    }

    /// A request of a peer, handed to the group it belongs to.
    pub fn process_incoming_request(&mut self, request: rsip::Request, now: u64) -> (r: Result<Vec<DialogAction>, ServerError>)
        requires
            old(self).wf(),
        ensures
            final(self).wf(),
            request_taken(old(self).data@, final(self).data@, request, now, seq_result(r)),
    {
        let id = match dialog_id_of_request(&request) {
            Ok(id) => id,
            Err(e) => {
                return Err(e);
            },
        };
        match self.find(&id) {
            None => Err(ServerError::Dialog(DialogError::NotFound)),
            Some(p) => {
                let ghost old_data = self.data@;
                let mut sm = self.data.remove(p);
                let ghost before = sm;
                let r = sm.process_incoming_request(request, now);
                let ghost after = sm;
                self.data.insert(p, sm);
                proof {
                    assert(after.wf() && after.id() == before.id());
                    assert(took_request(before, after, request, now, seq_result(r)));
                    assert(old_data[p as int] == before);
                    assert(self.data@[p as int] == after);
                    assert(self.data@ =~= old_data.update(p as int, self.data@[p as int]));
                    Self::lemma_ids_after_update(old_data, self.data@, p as int);
                }
                assert(forall|i: int| 0 <= i < self.data@.len() ==> (#[trigger] self.data@[i]).wf());
                r
            },
        }
    }

    /// The transport layer could not deliver `msg`: the dialog it belongs to ends in error.
    pub fn transport_error(&mut self, msg: SipMessage, reason: String, now: u64) -> (r: Result<(), ServerError>)
        requires
            old(self).wf(),
        ensures
            final(self).wf(),
            transport_error_taken(old(self).data@, final(self).data@, msg, reason, now, r),
    {
        let id = match dialog_id_of_message(&msg) {
            Ok(id) => id,
            Err(e) => {
                return Err(e);
            },
        };
        match self.find(&id) {
            None => Err(ServerError::Dialog(DialogError::NotFound)),
            Some(p) => {
                let ghost old_data = self.data@;
                let mut sm = self.data.remove(p);
                let ghost before = sm;
                sm.transport_error(reason, msg, now);
                let ghost after = sm;
                self.data.insert(p, sm);
                proof {
                    assert(after.wf() && after.id() == before.id());
                    assert(took_transport_error(before, after, reason, msg, now));
                    assert(old_data[p as int] == before);
                    assert(self.data@[p as int] == after);
                    assert(self.data@ =~= old_data.update(p as int, self.data@[p as int]));
                    Self::lemma_ids_after_update(old_data, self.data@, p as int);
                }
                assert(forall|i: int| 0 <= i < self.data@.len() ==> (#[trigger] self.data@[i]).wf());
                Ok(())
            },
        }
    }
}

} // verus!
