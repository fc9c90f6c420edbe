//! Dialogs as the store keeps them: the flow a dialog belongs to, and the
//! key it is found by.
use crate::sip::{is_uuid_v4_text, request_branch, request_method, request_method_of, request_transaction_id, request_via_parses, Method};
use crate::store::transaction::TransactionState;
use crate::tu::dialogs::headers::{call_id_of, call_id_text, call_id_value, from_tag_of, request_call_id, request_from_tag};
use crate::store::{eq_ignore_ascii_case, same_ignoring_ascii_case};
use vstd::prelude::*;
use vstd::string::StringExecFns;

verus! {

/// What a stored dialog is for.
#[derive(Clone, Copy, Debug, PartialEq, Eq, Structural)]
pub enum DialogFlow {
    Registration,
    Invite,
    Publish,
}

/// The name of a flow, as `Display` writes it.
pub open spec fn flow_name(flow: DialogFlow) -> Seq<char> {
    match flow {
        DialogFlow::Registration => "Registration"@,
        DialogFlow::Invite => "Invite"@,
        DialogFlow::Publish => "Publish"@,
    }
}

/// The text the store holds for a flow: its name in lower case.
pub open spec fn flow_column(flow: DialogFlow) -> Seq<char> {
    match flow {
        DialogFlow::Registration => "registration"@,
        DialogFlow::Invite => "invite"@,
        DialogFlow::Publish => "publish"@,
    }
}

/// The flow whose name `text` is, whatever the case of its ASCII letters.
pub open spec fn parsed_flow(text: Seq<char>) -> Option<DialogFlow> {
    if same_ignoring_ascii_case(text, "registration"@) {
        Some(DialogFlow::Registration)
    } else if same_ignoring_ascii_case(text, "invite"@) {
        Some(DialogFlow::Invite)
    } else if same_ignoring_ascii_case(text, "publish"@) {
        Some(DialogFlow::Publish)
    } else {
        None
    }
}

/// The flow a dialog started by a request of `method` belongs to.
pub open spec fn method_flow(method: Method) -> Option<DialogFlow> {
    match method {
        Method::Register => Some(DialogFlow::Registration),
        Method::Invite => Some(DialogFlow::Invite),
        Method::Publish => Some(DialogFlow::Publish),
        Method::Subscribe => Some(DialogFlow::Publish),
        _ => None,
    }
}

impl DialogFlow {
    /// Reads a flow from its name, whatever the case of its letters; the
    /// error names the text.
    pub fn from_str(s: &str) -> (r: Result<DialogFlow, String>)
        ensures
            match parsed_flow(s@) {
                Some(flow) => r == Ok::<DialogFlow, String>(flow),
                None => r matches Err(message) && message@ == "invalid DialogFlow `"@ + s@ + "`"@,
            },
    {
        if eq_ignore_ascii_case(s, "registration") {
            Ok(DialogFlow::Registration)
        } else if eq_ignore_ascii_case(s, "invite") {
            Ok(DialogFlow::Invite)
        } else if eq_ignore_ascii_case(s, "publish") {
            Ok(DialogFlow::Publish)
        } else {
            let mut message = String::from_str("invalid DialogFlow `");
            message.append(s);
            message.append("`");
            Err(message)
        }
    }

    /// The name of the flow (its `Display`).
    pub fn name(&self) -> (s: String)
        ensures
            s@ == flow_name(*self),
    {
        match self {
            DialogFlow::Registration => String::from_str("Registration"),
            DialogFlow::Invite => String::from_str("Invite"),
            DialogFlow::Publish => String::from_str("Publish"),
        }
    }

    /// The text the store holds for the flow.
    pub fn column_text(&self) -> (s: String)
        ensures
            s@ == flow_column(*self),
    {
        match self {
            DialogFlow::Registration => String::from_str("registration"),
            DialogFlow::Invite => String::from_str("invite"),
            DialogFlow::Publish => String::from_str("publish"),
        }
    }
}

/// The flow of a dialog that a request of `method` starts; other methods
/// start no stored dialog.
pub fn flow_for_method(method: Method) -> (r: Result<DialogFlow, String>)
    ensures
        match method_flow(method) {
            Some(flow) => r == Ok::<DialogFlow, String>(flow),
            None => r matches Err(message) && message@ == "Unsupported method"@,
        },
{
    match method {
        Method::Register => Ok(DialogFlow::Registration),
        Method::Invite => Ok(DialogFlow::Invite),
        Method::Publish => Ok(DialogFlow::Publish),
        Method::Subscribe => Ok(DialogFlow::Publish),
        _ => Err(String::from_str("Unsupported method")),
    }
}

/// The key a stored dialog is found by: Call-ID, From tag and To tag joined by hyphens.
pub open spec fn computed_id(call_id: Seq<char>, from_tag: Seq<char>, to_tag: Seq<char>) -> Seq<char> {
    call_id + "-"@ + from_tag + "-"@ + to_tag
}

/// Joins the Call-ID, the From tag and the To tag of a dialog into its key.
pub fn computed_id_for(call_id: &str, from_tag: &str, to_tag: &str) -> (key: String)
    ensures
        key@ == computed_id(call_id@, from_tag@, to_tag@),
{
    let mut key = String::from_str(call_id);
    key.append("-");
    key.append(from_tag);
    key.append("-");
    key.append(to_tag);
    proof {
        reveal_strlit("-");
    }
    key
}

/// What the store writes for a flow reads back as the same flow, and so
/// does the flow's name.
pub proof fn law_flow_text_round_trip(flow: DialogFlow)
    ensures
        parsed_flow(flow_column(flow)) == Some(flow),
        parsed_flow(flow_name(flow)) == Some(flow),
{
    reveal_strlit("registration");
    reveal_strlit("invite");
    reveal_strlit("publish");
    reveal_strlit("Registration");
    reveal_strlit("Invite");
    reveal_strlit("Publish");
    match flow {
        DialogFlow::Registration => {
            assert(same_ignoring_ascii_case(flow_column(flow), "registration"@));
            assert(same_ignoring_ascii_case(flow_name(flow), "registration"@));
        },
        DialogFlow::Invite => {
            assert(same_ignoring_ascii_case(flow_column(flow), "invite"@));
            assert(same_ignoring_ascii_case(flow_name(flow), "invite"@));
        },
        DialogFlow::Publish => {
            assert(same_ignoring_ascii_case(flow_column(flow), "publish"@));
            assert(same_ignoring_ascii_case(flow_name(flow), "publish"@));
        },
    }
}

/// The columns of a dialog row that is about to be written; `None` leaves a
/// column to the store.
pub struct DirtyDialog {
    pub computed_id: Option<String>,
    pub call_id: Option<String>,
    pub from_tag: Option<String>,
    pub to_tag: Option<String>,
    pub flow: Option<DialogFlow>,
}

/// The columns of a transaction row that is about to be written.
pub struct DirtyTransaction {
    pub state: Option<TransactionState>,
    pub branch_id: Option<String>,
    pub dialog_id: Option<i64>,
}

/// A dialog row and the row of its first transaction.
pub struct DirtyDialogWithTransaction {
    pub dialog: DirtyDialog,
    pub transaction: DirtyTransaction,
}

/// A fresh To tag: `Uuid::new_v4().to_string()`, the hyphenated lowercase
/// text of a random version 4 UUID. Which UUID comes out is left open.
#[verifier::external_body]
fn new_to_tag() -> (tag: String)
    ensures
        is_uuid_v4_text(tag@),
{
    uuid::Uuid::new_v4().to_string()
}

/// Whether a request starts a stored dialog: it has a Call-ID, a From tag
/// and a Via branch, and its method has a flow.
pub open spec fn starts_stored_dialog(request: rsip::Request) -> bool {
    &&& request_call_id(request) is Some
    &&& request_from_tag(request) matches Some(Some(_))
    &&& request_via_parses(request) && request_branch(request) is Some
    &&& method_flow(request_method_of(request)) is Some
}

/// The error text a request gets when it starts no stored dialog: the first
/// of Call-ID, From tag, Via branch and a method with a flow that is missing.
pub open spec fn stored_dialog_error(request: rsip::Request) -> Option<Seq<char>> {
    if request_call_id(request) is None {
        Some("missing call id"@)
    } else if !(request_from_tag(request) matches Some(Some(_))) {
        Some("missing from header tag"@)
    } else if !(request_via_parses(request) && request_branch(request) is Some) {
        Some("missing branch id"@)
    } else if method_flow(request_method_of(request)) is None {
        Some("Unsupported method"@)
    } else {
        None
    }
}

/// Whether `rows` are the rows a request starts, with `to_tag` as the To tag:
/// the dialog keyed by Call-ID, From tag and To tag, and its transaction in
/// `Trying` under the request's branch.
pub open spec fn rows_for(rows: DirtyDialogWithTransaction, request: rsip::Request, to_tag: Seq<char>) -> bool {
    let call_id = call_id_text(request_call_id(request)->0);
    let from_tag = request_from_tag(request)->0->0;
    &&& rows.dialog.computed_id matches Some(k) && k@ == computed_id(call_id, from_tag, to_tag)
    &&& rows.dialog.call_id matches Some(c) && c@ == call_id
    &&& rows.dialog.from_tag matches Some(f) && f@ == from_tag
    &&& rows.dialog.to_tag matches Some(t) && t@ == to_tag
    &&& rows.dialog.flow == method_flow(request_method_of(request))
    &&& rows.transaction.branch_id matches Some(b) && Some(b@) == request_branch(request)
    &&& rows.transaction.state == Some(TransactionState::Trying)
    &&& rows.transaction.dialog_id is None
}

impl DirtyDialogWithTransaction {
    /// The rows that `request` starts, with `to_tag` as the To tag; the
    /// error says what is missing.
    pub fn from_request(request: &rsip::Request, to_tag: &str) -> (r: Result<DirtyDialogWithTransaction, String>)
        ensures
            r is Ok == starts_stored_dialog(*request),
            r matches Ok(rows) ==> rows_for(rows, *request, to_tag@),
            match stored_dialog_error(*request) {
                Some(message) => r matches Err(m) && m@ == message,
                None => r is Ok,
            },
    {
        let call_id = match call_id_of(request) {
            Ok(c) => call_id_value(&c),
            Err(_) => {
                return Err(String::from_str("missing call id"));
            },
        };
        let from_tag = match from_tag_of(request) {
            Ok(Some(t)) => t,
            _ => {
                return Err(String::from_str("missing from header tag"));
            },
        };
        let branch_id = match request_transaction_id(request) {
            Ok(Some(b)) => b,
            _ => {
                return Err(String::from_str("missing branch id"));
            },
        };
        let flow = flow_for_method(request_method(request))?;
        let key = computed_id_for(call_id.as_str(), from_tag.as_str(), to_tag);
        Ok(DirtyDialogWithTransaction {
            dialog: DirtyDialog {
                computed_id: Some(key),
                call_id: Some(call_id),
                from_tag: Some(from_tag),
                to_tag: Some(String::from_str(to_tag)),
                flow: Some(flow),
            },
            transaction: DirtyTransaction { state: Some(TransactionState::Trying), branch_id: Some(branch_id), dialog_id: None },
        })
    }

    /// The rows that `request` starts, under a fresh random To tag.
    pub fn try_from(request: &rsip::Request) -> (r: Result<DirtyDialogWithTransaction, String>)
        ensures
            r is Ok == starts_stored_dialog(*request),
            r matches Ok(rows) ==> (rows.dialog.to_tag matches Some(t) && rows_for(rows, *request, t@)
                && is_uuid_v4_text(t@)),
            match stored_dialog_error(*request) {
                Some(message) => r matches Err(m) && m@ == message,
                None => r is Ok,
            },
    {
        let to_tag = new_to_tag();
        Self::from_request(request, to_tag.as_str())
    }
}

} // verus!
