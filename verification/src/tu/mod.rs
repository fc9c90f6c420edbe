//! The transaction user: dialogs, and the elements that answer requests.
pub mod dialogs;
pub mod elements;
pub mod impls;

use crate::error::ServerError;
use crate::sip::SipMessage;
use crate::tu::dialogs::DialogAction;
use vstd::prelude::*;

verus! {

/// What the layer around the transaction user must do after a step.
pub enum TuAction {
    /// Send this message through the transport layer.
    Send(SipMessage),
    /// Drop the registrations whose contact URI is this text.
    DeleteRegistration(String),
    /// Store the registration that this REGISTER request makes, or refresh it.
    UpsertRegistration(rsip::Request),
    /// Answer this REGISTER with every registration in the store
    /// (`presets::create_registration_ok_from` over them), and send the answer.
    AnswerWithRegistrations(rsip::Request),
    /// Hand this action of the dialog layer to the transaction layer.
    Dialog(DialogAction),
}

/// The actions of a step, in order, and how the step ended: the actions are
/// due even when it failed, since the step had done them before it failed.
pub struct TuOutcome {
    pub actions: Vec<TuAction>,
    pub result: Result<(), ServerError>,
}

/// What reaches the transaction user.
pub enum TuLayerMsg {
    /// A message from a peer.
    Incoming(SipMessage),
    /// A message this side sends.
    Outgoing(SipMessage),
    /// The transport layer could not deliver the message, for this reason.
    TransportError(SipMessage, String),
}

/// An element that answers requests.
pub trait ReqProcessor {
    /// Whether `actions` and `result` are what this element does with `request`.
    spec fn handles(&self, request: rsip::Request, actions: Seq<TuAction>, result: Result<(), ServerError>) -> bool;

    fn process_incoming_request(&self, request: rsip::Request) -> (r: TuOutcome)
        ensures
            self.handles(request, r.actions@, r.result),
    ;
}

/// An element that takes responses.
pub trait RespProcessor {
    fn process_incoming_response(&self, response: rsip::Response) -> TuOutcome;
}

} // verus!
