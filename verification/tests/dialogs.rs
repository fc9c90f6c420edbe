use viska::tu::dialogs::DialogStateName;
use rsip::headers::UntypedHeader;
use std::convert::TryFrom;
use viska::error::{DialogError, ServerError};
use viska::sip::SipMessage;
use viska::tu::dialogs::uac::dialog_sm::{session_type, DialogSm, DialogState, SessionType};
use viska::tu::dialogs::uac::validations;
use viska::tu::dialogs::uac::MultiDialog;
use viska::tu::dialogs::{dialog_id_of_request, dialog_id_of_response, DialogAction, DialogErrorCause, DialogFailure, Dialogs};

fn request(text: &str) -> rsip::Request {
    rsip::Request::try_from(text).unwrap()
}

fn response(text: &str) -> rsip::Response {
    rsip::Response::try_from(text).unwrap()
}

fn invite_with(contact: &str, extra: &str) -> rsip::Request {
    request(&format!(
        "INVITE sip:bob@127.0.0.1:5060 SIP/2.0\r\n\
            Via: SIP/2.0/UDP 127.0.0.1:5061;branch=z9hG4bKinvite1\r\n\
            Max-Forwards: 70\r\n\
            To: Bob <sip:bob@127.0.0.1>\r\n\
            From: Alice <sip:alice@127.0.0.1>;tag=1928301774\r\n\
            Call-ID: a84b4c76e66710@127.0.0.1\r\n\
            CSeq: 314159 INVITE\r\n\
            {}\
            {}\
            Content-Length: 0\r\n\r\n",
        contact, extra
    ))
}

fn invite() -> rsip::Request {
    invite_with("Contact: <sip:alice@127.0.0.1:5061>\r\n", "")
}

fn reply(status: &str, to_tag: Option<&str>) -> rsip::Response {
    let to = match to_tag {
        Some(tag) => format!("To: Bob <sip:bob@127.0.0.1>;tag={}\r\n", tag),
        None => String::from("To: Bob <sip:bob@127.0.0.1>\r\n"),
    };
    response(&format!(
        "SIP/2.0 {}\r\n\
            Via: SIP/2.0/UDP 127.0.0.1:5061;branch=z9hG4bKinvite1\r\n\
            {}\
            From: Alice <sip:alice@127.0.0.1>;tag=1928301774\r\n\
            Call-ID: a84b4c76e66710@127.0.0.1\r\n\
            CSeq: 314159 INVITE\r\n\
            Contact: <sip:bob@192.168.1.9:5060>\r\n\
            Content-Length: 0\r\n\r\n",
        status, to
    ))
}

fn in_dialog(method: &str, cseq: u32) -> rsip::Request {
    request(&format!(
        "{m} sip:alice@127.0.0.1:5061 SIP/2.0\r\n\
            Via: SIP/2.0/UDP 192.168.1.9:5060;branch=z9hG4bKbye{c}\r\n\
            Max-Forwards: 70\r\n\
            To: Alice <sip:alice@127.0.0.1>;tag=1928301774\r\n\
            From: Bob <sip:bob@127.0.0.1>;tag=a6c85cf\r\n\
            Call-ID: a84b4c76e66710@127.0.0.1\r\n\
            CSeq: {c} {m}\r\n\
            Content-Length: 0\r\n\r\n",
        m = method,
        c = cseq
    ))
}

fn confirmed_dialog() -> DialogSm {
    let (mut dialog, _) = DialogSm::new(invite(), 0).unwrap();
    dialog.process_incoming_response(reply("200 OK", Some("a6c85cf")), 10);
    assert!(matches!(dialog.state, DialogState::Confirmed(_)));
    dialog
}

#[test]
fn dialog_reads_its_initial_invite() {
    let (dialog, actions) = DialogSm::new(invite(), 7).unwrap();
    assert!(matches!(actions.as_slice(), [DialogAction::NewUacInvite(r)] if *r == invite()));
    assert_eq!(dialog.local_tag, "1928301774");
    assert_eq!(dialog.local_seqn, 314159);
    assert_eq!(dialog.transaction_id, "z9hG4bKinvite1");
    assert_eq!(dialog.remote_tag, None);
    assert_eq!(dialog.remote_seqn, None);
    assert!(!dialog.secure);
    assert_eq!(dialog.session_type, SessionType::UasOffer);
    assert_eq!(dialog.created_at, 7);
    assert!(matches!(dialog.state, DialogState::Unconfirmed(_)));
}

#[test]
fn dialog_needs_exactly_one_contact() {
    let none = invite_with("", "");
    assert!(matches!(validations::run(&none), Err(ServerError::ContactNotUnique)));
    assert!(matches!(DialogSm::new(none, 0), Err(ServerError::ContactNotUnique)));
    let two = invite_with("Contact: <sip:alice@127.0.0.1:5061>\r\nContact: <sip:alice@10.0.0.1>\r\n", "");
    assert!(matches!(DialogSm::new(two, 0), Err(ServerError::ContactNotUnique)));
}

#[test]
fn dialog_over_sips_needs_a_sips_contact() {
    let secure = request("INVITE sips:bob@127.0.0.1:5061 SIP/2.0\r\n\
        Via: SIP/2.0/TLS 127.0.0.1:5061;branch=z9hG4bKinvite1\r\n\
        To: Bob <sips:bob@127.0.0.1>\r\n\
        From: Alice <sips:alice@127.0.0.1>;tag=1928301774\r\n\
        Call-ID: a84b4c76e66710@127.0.0.1\r\n\
        CSeq: 314159 INVITE\r\n\
        Contact: <sip:alice@127.0.0.1:5061>\r\n\
        Content-Length: 0\r\n\r\n");
    assert!(matches!(validations::contact_must_be_secure(&secure), Ok(true)));
    assert!(matches!(validations::contact_header_is_secure(&secure), Ok(false)));
    assert!(matches!(DialogSm::new(secure, 0), Err(ServerError::ContactNotSecure)));
}

#[test]
fn provisional_response_makes_the_dialog_early() {
    let (mut dialog, _) = DialogSm::new(invite(), 0).unwrap();
    let actions = dialog.process_incoming_response(reply("180 Ringing", None), 5);
    assert!(actions.is_empty());
    assert!(matches!(dialog.state, DialogState::Early(_)));
}

#[test]
fn success_confirms_the_dialog_and_is_acked() {
    let (mut dialog, _) = DialogSm::new(invite(), 0).unwrap();
    dialog.process_incoming_response(reply("180 Ringing", None), 5);
    let ok = reply("200 OK", Some("a6c85cf"));
    let actions = dialog.process_incoming_response(ok.clone(), 10);
    assert!(matches!(actions.as_slice(), [DialogAction::SendAckFor(r)] if *r == ok));
    assert!(matches!(dialog.state, DialogState::Confirmed(_)));
    assert_eq!(dialog.remote_tag, Some(String::from("a6c85cf")));
    assert_eq!(dialog.remote_seqn, Some(314159));
    assert!(dialog.remote_target.is_some());
}

#[test]
fn success_without_a_to_tag_ends_the_dialog_in_error() {
    let (mut dialog, _) = DialogSm::new(invite(), 0).unwrap();
    let actions = dialog.process_incoming_response(reply("200 OK", None), 10);
    assert!(actions.is_empty());
    assert!(matches!(dialog.state,
        DialogState::Errored(ref e) if matches!(e.error, DialogErrorCause::Failed(DialogFailure::MissingRemoteTag))));
}

#[test]
fn redirection_ends_the_dialog_in_error() {
    let (mut dialog, _) = DialogSm::new(invite(), 0).unwrap();
    dialog.process_incoming_response(reply("302 Moved Temporarily", Some("x")), 10);
    assert!(matches!(dialog.state,
        DialogState::Errored(ref e) if matches!(e.error, DialogErrorCause::Redirection(302))));
}

#[test]
fn bye_of_the_peer_ends_the_dialog_and_is_answered_200() {
    let mut dialog = confirmed_dialog();
    let bye = in_dialog("BYE", 314160);
    let actions = dialog.process_incoming_request(bye.clone(), 20);
    assert!(matches!(actions.as_slice(),
        [DialogAction::NewUas { request, status_code: 200 }] if *request == bye));
    assert!(matches!(dialog.state, DialogState::Terminated(_)));
    assert_eq!(dialog.remote_seqn, Some(314160));
}

#[test]
fn request_with_a_lower_sequence_number_is_refused() {
    let mut dialog = confirmed_dialog();
    let actions = dialog.process_incoming_request(in_dialog("BYE", 1), 20);
    assert!(actions.is_empty());
    assert!(matches!(dialog.state, DialogState::Errored(ref e) if matches!(e.error,
        DialogErrorCause::Failed(DialogFailure::SeqnTooLow { remote_seqn: 314159, request_seqn: 1 }))));
    assert_eq!(dialog.remote_seqn, Some(314159));
}

#[test]
fn request_before_confirmation_is_refused() {
    let (mut dialog, _) = DialogSm::new(invite(), 0).unwrap();
    let actions = dialog.process_incoming_request(in_dialog("BYE", 314160), 20);
    assert!(actions.is_empty());
    assert!(matches!(dialog.state, DialogState::Errored(_)));
}

#[test]
fn ended_dialog_stays_ended() {
    let mut dialog = confirmed_dialog();
    dialog.process_incoming_request(in_dialog("BYE", 314160), 20);
    dialog.process_incoming_response(reply("200 OK", Some("a6c85cf")), 30);
    assert!(matches!(dialog.state, DialogState::Errored(_) | DialogState::Terminated(_)));
    dialog.process_incoming_response(reply("180 Ringing", None), 40);
    assert!(matches!(dialog.state, DialogState::Errored(_) | DialogState::Terminated(_)));
}

#[test]
fn outgoing_bye_takes_the_next_sequence_number() {
    let mut dialog = confirmed_dialog();
    let bye = request("BYE sip:bob@127.0.0.1 SIP/2.0\r\n\
        Via: SIP/2.0/UDP 127.0.0.1:5061;branch=z9hG4bKbye9\r\n\
        To: Bob <sip:bob@127.0.0.1>\r\n\
        From: Alice <sip:alice@127.0.0.1>\r\n\
        Call-ID: other@127.0.0.1\r\n\
        CSeq: 1 BYE\r\n\
        Contact: <sip:alice@127.0.0.1:5061>\r\n\
        Content-Length: 0\r\n\r\n");
    let actions = dialog.process_outgoing_request(bye, 50);
    assert_eq!(dialog.local_seqn, 314160);
    match actions.as_slice() {
        [DialogAction::NewUac(out)] => {
            assert_eq!(rsip::message::HeadersExt::cseq_header(out).unwrap().seq().unwrap(), 314160);
            let call_id = rsip::message::HeadersExt::call_id_header(out).unwrap();
            assert_eq!(call_id.value(), "a84b4c76e66710@127.0.0.1");
            let from = rsip::message::HeadersExt::from_header(out).unwrap();
            assert_eq!(from.tag().unwrap().unwrap().value(), "1928301774");
            let to = rsip::message::HeadersExt::to_header(out).unwrap();
            assert_eq!(to.tag().unwrap().unwrap().value(), "a6c85cf");
            assert_eq!(out.uri.to_string(), "sip:bob@192.168.1.9:5060");
        }
        _ => panic!("expected a client transaction for the BYE"),
    }
    assert!(matches!(dialog.state, DialogState::Terminated(_)));
}

#[test]
fn multi_dialog_hands_responses_to_its_dialog() {
    let (mut group, actions) = MultiDialog::new(invite(), 0).unwrap();
    assert_eq!(actions.len(), 1);
    assert_eq!(group.dialogs.len(), 1);
    let actions = group.process_incoming_response(reply("180 Ringing", None), 5).unwrap();
    assert!(actions.is_empty());
    assert!(matches!(group.dialogs[0].state, DialogState::Early(_)));
}

#[test]
fn session_is_found_under_the_id_of_its_invite() {
    let mut dialogs = Dialogs::new();
    let actions = dialogs.new_uac_session(invite(), 0).unwrap();
    assert!(matches!(actions.as_slice(), [DialogAction::NewUacInvite(r)] if *r == invite()));
    let id = dialog_id_of_request(&invite()).unwrap();
    assert!(dialogs.has_dialog(&id));
    let other = dialog_id_of_response(&reply("200 OK", Some("a6c85cf"))).unwrap();
    assert!(!dialogs.has_dialog(&other));
}

#[test]
fn response_for_the_session_reaches_its_dialog() {
    let mut dialogs = Dialogs::new();
    dialogs.new_uac_session(invite(), 0).unwrap();
    let actions = dialogs.process_incoming_response(reply("180 Ringing", None), 5).unwrap();
    assert!(actions.is_empty());
}

#[test]
fn message_of_an_unknown_dialog_is_refused() {
    let mut dialogs = Dialogs::new();
    let r = dialogs.process_incoming_response(reply("180 Ringing", None), 5);
    assert!(matches!(r, Err(ServerError::Dialog(DialogError::NotFound))));
    let r = dialogs.process_incoming_request(in_dialog("BYE", 2), 5);
    assert!(matches!(r, Err(ServerError::Dialog(DialogError::NotFound))));
    let r = dialogs.transport_error(SipMessage::Request(invite()), String::from("down"), 5);
    assert!(matches!(r, Err(ServerError::Dialog(DialogError::NotFound))));
}

#[test]
fn transport_error_ends_the_dialog_in_error() {
    let mut dialogs = Dialogs::new();
    dialogs.new_uac_session(invite(), 0).unwrap();
    dialogs.transport_error(SipMessage::Request(invite()), String::from("down"), 5).unwrap();
    match &dialogs.data[0] {
        viska::tu::dialogs::dialog_sm::DialogSm::Uac(group) => {
            assert!(matches!(group.dialogs[0].state,
                DialogState::Errored(ref e) if matches!(e.error, DialogErrorCause::Transport(ref r) if r == "down")));
        }
    }
}

#[test]
fn starting_a_session_twice_keeps_one_group() {
    let mut dialogs = Dialogs::new();
    dialogs.new_uac_session(invite(), 0).unwrap();
    dialogs.new_uac_session(invite(), 1).unwrap();
    assert_eq!(dialogs.data.len(), 1);
}

#[test]
fn dialog_key_joins_call_id_and_tags() {
    let call_id = rsip::headers::CallId::new("abc@host");
    let key = viska::tu::dialogs::uac::compute_dialog_id(&call_id, String::from("l1"), String::from("r2"));
    assert_eq!(key, "abc@host-l1-r2");
}

#[test]
fn request_without_a_from_tag_has_no_dialog_id() {
    let untagged = request("INVITE sip:bob@127.0.0.1:5060 SIP/2.0\r\n\
        Via: SIP/2.0/UDP 127.0.0.1:5061;branch=z9hG4bKinvite1\r\n\
        To: Bob <sip:bob@127.0.0.1>\r\n\
        From: Alice <sip:alice@127.0.0.1>\r\n\
        Call-ID: a84b4c76e66710@127.0.0.1\r\n\
        CSeq: 314159 INVITE\r\n\
        Contact: <sip:alice@127.0.0.1:5061>\r\n\
        Content-Length: 0\r\n\r\n");
    assert!(matches!(dialog_id_of_request(&untagged), Err(ServerError::MissingFromTag)));
}

#[test]
fn request_before_confirmation_names_the_state() {
    let (mut dialog, _) = DialogSm::new(invite(), 0).unwrap();
    dialog.process_incoming_request(in_dialog("BYE", 314160), 20);
    assert!(matches!(dialog.state, DialogState::Errored(ref e) if matches!(e.error,
        DialogErrorCause::Failed(DialogFailure::NotConfirmed(viska::tu::dialogs::DialogStateName::Unconfirmed)))));
}

#[test]
fn provisional_after_confirmation_is_a_wrong_transition() {
    let mut dialog = confirmed_dialog();
    dialog.process_incoming_response(reply("180 Ringing", Some("a6c85cf")), 20);
    assert!(matches!(dialog.state, DialogState::Errored(ref e) if matches!(e.error,
        DialogErrorCause::WrongTransition {
            from: viska::tu::dialogs::DialogStateName::Confirmed,
            to: viska::tu::dialogs::DialogStateName::Early
        })));
}

#[test]
fn unknown_method_in_a_dialog_ends_it_in_error() {
    let mut dialog = confirmed_dialog();
    dialog.process_incoming_request(in_dialog("INFO", 314160), 20);
    assert!(matches!(dialog.state, DialogState::Errored(ref e) if matches!(e.error,
        DialogErrorCause::UnknownMethod(viska::sip::Method::Info))));
}

#[test]
fn failure_response_ends_the_dialog_in_error() {
    let (mut dialog, _) = DialogSm::new(invite(), 0).unwrap();
    dialog.process_incoming_response(reply("486 Busy Here", Some("a6c85cf")), 20);
    assert!(matches!(dialog.state, DialogState::Errored(ref e) if matches!(e.error,
        DialogErrorCause::UnknownResponse { status_code: 486, .. })));
}

#[test]
fn session_type_follows_the_disposition_and_the_body() {
    let no_disposition = invite();
    assert!(matches!(session_type(&no_disposition), Ok(SessionType::UasOffer)));
    let render = invite_with("Contact: <sip:alice@127.0.0.1:5061>\r\n", "Content-Disposition: render\r\n");
    assert!(matches!(session_type(&render), Ok(SessionType::Other)));
    let with_offer = request("INVITE sip:bob@127.0.0.1:5060 SIP/2.0\r\n\
        Via: SIP/2.0/UDP 127.0.0.1:5061;branch=z9hG4bKinvite1\r\n\
        To: Bob <sip:bob@127.0.0.1>\r\n\
        From: Alice <sip:alice@127.0.0.1>;tag=1928301774\r\n\
        Call-ID: a84b4c76e66710@127.0.0.1\r\n\
        CSeq: 314159 INVITE\r\n\
        Content-Disposition: session\r\n\
        Content-Type: application/sdp\r\n\
        Content-Length: 4\r\n\r\nv=0\n");
    assert!(matches!(session_type(&with_offer), Ok(SessionType::UacOffer)));
}

#[test]
fn sips_record_route_asks_for_a_sips_contact() {
    let routed = invite_with(
        "Contact: <sips:alice@127.0.0.1:5061>\r\n",
        "Record-Route: <sips:proxy@10.0.0.7;lr>\r\n",
    );
    assert!(matches!(validations::contact_must_be_secure(&routed), Ok(true)));
    assert!(matches!(validations::contact_header_is_secure(&routed), Ok(true)));
    let (dialog, _) = DialogSm::new(routed, 0).unwrap();
    assert_eq!(dialog.route_set.len(), 1);
    let plain = invite_with("Contact: <sip:alice@127.0.0.1:5061>\r\n", "Record-Route: <sip:proxy@10.0.0.7;lr>\r\n");
    assert!(matches!(validations::contact_must_be_secure(&plain), Ok(false)));
}

#[test]
fn dialog_failures_have_their_texts() {
    assert_eq!(
        DialogFailure::SeqnTooLow { remote_seqn: 1042, request_seqn: 7 }.message(),
        "request remote seqn is lower than 1042"
    );
    assert_eq!(
        DialogFailure::NotConfirmed(DialogStateName::Early).message(),
        "cannot process a request while UAC dialog state is in DialogState::Early"
    );
    assert_eq!(viska::error::decimal_text(0), "0");
    assert_eq!(viska::error::decimal_text(4294967295), "4294967295");
}
