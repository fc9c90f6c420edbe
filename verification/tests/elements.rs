use std::convert::TryFrom;
use std::sync::Arc;
use viska::error::{DialogError, ServerError, Unsupported};
use viska::presets::{create_405_from, create_busy_here_from, create_registration_ok_from, create_unauthorized_from};
use viska::sip::{Method, SipMessage};
use viska::transport::{Config, Transport, TransportMsg};
use viska::tu::dialogs::DialogAction;
use viska::tu::elements::registrar::{expires_value_for, Registrar};
use viska::tu::elements::req_processor::capabilities::Capabilities;
use viska::tu::elements::ua::processor::UaProcessor;
use viska::tu::elements::ua::UserAgent;
use viska::tu::impls::proxy::processor::{ManagerRef, ProxyProcessor};
use viska::tu::{ReqProcessor, TuAction, TuLayerMsg};

fn request(text: &str) -> rsip::Request {
    rsip::Request::try_from(text).unwrap()
}

fn host(text: &str) -> rsip::HostWithPort {
    rsip::HostWithPort::try_from(String::from(text)).unwrap()
}

fn config() -> Config {
    Config { listen_addrs: vec![host("127.0.0.1"), host("127.0.0.1:5060")] }
}

fn register_with(uri: &str, to: &str, from: &str, contact: &str, extra: &str) -> rsip::Request {
    request(&format!(
        "REGISTER {} SIP/2.0\r\n\
            Via: SIP/2.0/UDP 192.168.1.5:5060;branch=z9hG4bKreg1\r\n\
            Max-Forwards: 70\r\n\
            To: {}\r\n\
            From: {};tag=456248\r\n\
            Call-ID: 843817637684230@998sdasdh09\r\n\
            CSeq: 1826 REGISTER\r\n\
            {}\
            {}\
            User-Agent: test-agent\r\n\
            Content-Length: 0\r\n\r\n",
        uri, to, from, contact, extra
    ))
}

fn register(contact: &str) -> rsip::Request {
    register_with(
        "sip:127.0.0.1",
        "Alice <sip:alice@127.0.0.1>",
        "Alice <sip:alice@127.0.0.1>",
        contact,
        "",
    )
}

fn options(uri: &str) -> rsip::Request {
    request(&format!(
        "OPTIONS {} SIP/2.0\r\n\
            Via: SIP/2.0/UDP 192.168.1.5:5060;branch=z9hG4bKopt1\r\n\
            Max-Forwards: 70\r\n\
            To: <sip:127.0.0.1>\r\n\
            From: Alice <sip:alice@127.0.0.1>;tag=1928301774\r\n\
            Call-ID: opt1@192.168.1.5\r\n\
            CSeq: 63104 OPTIONS\r\n\
            Content-Length: 0\r\n\r\n",
        uri
    ))
}

fn invite() -> rsip::Request {
    request("INVITE sip:bob@127.0.0.1:5060 SIP/2.0\r\n\
        Via: SIP/2.0/UDP 127.0.0.1:5061;branch=z9hG4bKinvite1\r\n\
        Max-Forwards: 70\r\n\
        To: Bob <sip:bob@127.0.0.1>\r\n\
        From: Alice <sip:alice@127.0.0.1>;tag=1928301774\r\n\
        Call-ID: a84b4c76e66710@127.0.0.1\r\n\
        CSeq: 314159 INVITE\r\n\
        Contact: <sip:alice@127.0.0.1:5061>\r\n\
        Content-Length: 0\r\n\r\n")
}

fn sent_status(action: &TuAction) -> Option<u16> {
    match action {
        TuAction::Send(SipMessage::Response(r)) => Some(r.status_code.code()),
        _ => None,
    }
}

fn header_count(action: &TuAction) -> usize {
    match action {
        TuAction::Send(SipMessage::Response(r)) => r.headers.iter().count(),
        _ => 0,
    }
}

#[test]
fn expiry_comes_from_the_contact_then_the_header_then_a_default() {
    let with_param = rsip::headers::Contact::from("<sip:alice@192.168.1.5>;expires=60");
    let expires = rsip::headers::Expires::from(120u32);
    assert_eq!(expires_value_for(&with_param, Some(&expires)).unwrap(), 60);
    let without = rsip::headers::Contact::from("<sip:alice@192.168.1.5>");
    assert_eq!(expires_value_for(&without, Some(&expires)).unwrap(), 120);
    assert_eq!(expires_value_for(&without, None).unwrap(), 600);
}

#[test]
fn register_stores_its_contact_and_answers() {
    let req = register("Contact: <sip:alice@192.168.1.5:5060>;expires=3600\r\n");
    let outcome = Registrar::new(config()).process_incoming_request(req.clone());
    assert!(outcome.result.is_ok());
    assert!(matches!(outcome.actions.as_slice(),
        [TuAction::UpsertRegistration(a), TuAction::AnswerWithRegistrations(b)] if *a == req && *b == req));
}

#[test]
fn register_with_zero_expiry_drops_the_contact() {
    let req = register("Contact: <sip:alice@192.168.1.5:5060>;expires=0\r\n");
    let outcome = Registrar::new(config()).process_incoming_request(req.clone());
    assert!(outcome.result.is_ok());
    assert!(matches!(outcome.actions.as_slice(),
        [TuAction::DeleteRegistration(uri), TuAction::AnswerWithRegistrations(b)]
            if uri == "sip:alice@192.168.1.5:5060" && *b == req));
}

#[test]
fn register_uses_the_expires_header_for_each_contact() {
    let req = register("Contact: <sip:alice@192.168.1.5:5060>\r\n\
        Contact: <sip:alice@192.168.1.6:5060>;expires=30\r\n\
        Expires: 0\r\n");
    let outcome = Registrar::new(config()).process_incoming_request(req.clone());
    assert!(outcome.result.is_ok());
    assert!(matches!(outcome.actions.as_slice(),
        [TuAction::DeleteRegistration(uri), TuAction::UpsertRegistration(_), TuAction::AnswerWithRegistrations(_)]
            if uri == "sip:alice@192.168.1.5:5060"));
}

#[test]
fn register_without_contacts_only_answers() {
    let req = register("");
    let outcome = Registrar::new(config()).process_incoming_request(req.clone());
    assert!(outcome.result.is_ok());
    assert!(matches!(outcome.actions.as_slice(), [TuAction::AnswerWithRegistrations(r)] if *r == req));
}

#[test]
fn register_to_another_server_is_refused() {
    let req = register_with("sip:10.0.0.1", "<sip:alice@127.0.0.1>", "<sip:alice@127.0.0.1>", "", "");
    let outcome = Registrar::new(config()).process_incoming_request(req);
    assert!(outcome.actions.is_empty());
    assert!(matches!(outcome.result, Err(ServerError::InvalidRequestUri)));
}

#[test]
fn register_of_a_foreign_record_is_refused() {
    let req = register_with("sip:127.0.0.1", "<sip:alice@10.0.0.1>", "<sip:alice@10.0.0.1>", "", "");
    let outcome = Registrar::new(config()).process_incoming_request(req);
    assert!(matches!(outcome.result, Err(ServerError::RecordNotFound)));
}

#[test]
fn register_for_someone_else_is_refused() {
    let req = register_with("sip:127.0.0.1", "<sip:bob@127.0.0.1>", "<sip:alice@127.0.0.1>", "", "");
    let outcome = Registrar::new(config()).process_incoming_request(req);
    assert!(matches!(outcome.result, Err(ServerError::FromToUriMismatch)));
}

#[test]
fn register_with_two_display_names_is_refused() {
    let req = register_with("sip:127.0.0.1", "Al <sip:alice@127.0.0.1>", "Alice <sip:alice@127.0.0.1>", "", "");
    let outcome = Registrar::new(config()).process_incoming_request(req);
    assert!(matches!(outcome.result, Err(ServerError::FromToDisplayNameMismatch)));
}

#[test]
fn registration_answer_lists_the_contacts() {
    let req = register("");
    let contacts = vec![
        rsip::headers::Contact::from("<sip:alice@192.168.1.5:5060>"),
        rsip::headers::Contact::from("<sip:alice@192.168.1.6:5060>"),
    ];
    let response = create_registration_ok_from(req, contacts).unwrap();
    assert_eq!(response.status_code.code(), 200);
    assert_eq!(response.headers.iter().count(), 9);
    let to = rsip::message::HeadersExt::to_header(&response).unwrap();
    assert!(to.tag().unwrap().is_some());
}

#[test]
fn registration_answer_is_only_for_register() {
    let r = create_registration_ok_from(options("sip:127.0.0.1"), vec![]);
    assert!(matches!(r, Err(ServerError::UnexpectedMethod { expected: Method::Register, found: Method::Options })));
}

#[test]
fn options_is_answered_busy_here_with_what_is_supported() {
    let outcome = Capabilities::new(config()).process_incoming_request(options("sip:127.0.0.1"));
    assert!(outcome.result.is_ok());
    assert_eq!(outcome.actions.len(), 1);
    assert_eq!(sent_status(&outcome.actions[0]), Some(486));
    assert_eq!(header_count(&outcome.actions[0]), 11);
}

#[test]
fn capabilities_refuse_other_methods_and_other_servers() {
    let outcome = Capabilities::new(config()).process_incoming_request(invite());
    assert!(outcome.actions.is_empty());
    assert!(matches!(outcome.result, Err(ServerError::UnexpectedMethod { expected: Method::Options, found: Method::Invite })));
    let outcome = Capabilities::new(config()).process_incoming_request(options("sip:10.0.0.1"));
    assert!(matches!(outcome.result, Err(ServerError::InvalidRequestUri)));
}

#[test]
fn busy_here_is_only_for_options() {
    assert!(matches!(create_busy_here_from(invite()),
        Err(ServerError::UnexpectedMethod { expected: Method::Options, found: Method::Invite })));
}

#[test]
fn method_not_allowed_and_unauthorized_answers() {
    let r = create_405_from(invite()).unwrap();
    assert_eq!(r.status_code.code(), 405);
    assert_eq!(r.headers.iter().count(), 8);
    let r = create_unauthorized_from(invite()).unwrap();
    assert_eq!(r.status_code.code(), 401);
    assert_eq!(r.headers.iter().count(), 7);
}

fn user_agent() -> UserAgent<Registrar, Capabilities> {
    UserAgent::new(Registrar::new(config()), Capabilities::new(config()))
}

#[test]
fn user_agent_routes_register_to_the_registrar() {
    let mut ua = user_agent();
    let req = register("");
    let outcome = ua.receive(TuLayerMsg::Incoming(SipMessage::Request(req.clone())), 0);
    assert!(outcome.result.is_ok());
    assert!(matches!(outcome.actions.as_slice(), [TuAction::AnswerWithRegistrations(r)] if *r == req));
}

#[test]
fn user_agent_routes_options_to_the_capabilities() {
    let mut ua = user_agent();
    let outcome = ua.receive(TuLayerMsg::Incoming(SipMessage::Request(options("sip:127.0.0.1"))), 0);
    assert_eq!(sent_status(&outcome.actions[0]), Some(486));
}

#[test]
fn user_agent_answers_other_requests_405() {
    let mut ua = user_agent();
    let outcome = ua.receive(TuLayerMsg::Incoming(SipMessage::Request(invite())), 0);
    assert!(outcome.result.is_ok());
    assert_eq!(outcome.actions.len(), 1);
    assert_eq!(sent_status(&outcome.actions[0]), Some(405));
}

#[test]
fn outgoing_invite_starts_a_session() {
    let mut ua = user_agent();
    let outcome = ua.receive(TuLayerMsg::Outgoing(SipMessage::Request(invite())), 0);
    assert!(outcome.result.is_ok());
    assert!(matches!(outcome.actions.as_slice(),
        [TuAction::Dialog(DialogAction::NewUacInvite(r))] if *r == invite()));
    assert_eq!(ua.dialogs.data.len(), 1);
}

#[test]
fn outgoing_messages_other_than_invite_are_sent() {
    let mut ua = user_agent();
    let req = options("sip:127.0.0.1");
    let outcome = ua.receive(TuLayerMsg::Outgoing(SipMessage::Request(req.clone())), 0);
    assert!(matches!(outcome.actions.as_slice(), [TuAction::Send(SipMessage::Request(r))] if *r == req));
    assert!(ua.dialogs.data.is_empty());
}

#[test]
fn response_without_a_dialog_is_dropped() {
    let mut ua = user_agent();
    let response = create_405_from(invite()).unwrap();
    let outcome = ua.receive(TuLayerMsg::Incoming(SipMessage::Response(response)), 0);
    assert!(outcome.actions.is_empty());
    assert!(outcome.result.is_ok());
}

#[test]
fn transport_error_without_a_dialog_is_an_error() {
    let mut ua = user_agent();
    let outcome = ua.receive(TuLayerMsg::TransportError(SipMessage::Request(invite()), String::from("down")), 0);
    assert!(matches!(outcome.result, Err(ServerError::Dialog(DialogError::NotFound))));
}

#[test]
fn register_without_credentials_is_challenged() {
    let processor = UaProcessor::new(Registrar::new(config()), Capabilities::new(config()));
    let outcome = processor.process_incoming_message(SipMessage::Request(register("")));
    assert!(matches!(outcome.result, Err(ServerError::MissingAuthorization)));
    assert_eq!(outcome.actions.len(), 1);
    assert_eq!(sent_status(&outcome.actions[0]), Some(401));
}

#[test]
fn register_with_credentials_reaches_the_registrar() {
    let processor = UaProcessor::new(Registrar::new(config()), Capabilities::new(config()));
    let req = register("Authorization: Digest username=\"alice\", realm=\"127.0.0.1\", nonce=\"abc\", uri=\"sip:127.0.0.1\", response=\"00\"\r\n");
    let outcome = processor.process_incoming_message(SipMessage::Request(req.clone()));
    assert!(outcome.result.is_ok());
    assert!(matches!(outcome.actions.as_slice(), [TuAction::AnswerWithRegistrations(r)] if *r == req));
}

#[test]
fn ua_processor_does_not_take_responses() {
    let processor = UaProcessor::new(Registrar::new(config()), Capabilities::new(config()));
    let response = create_405_from(invite()).unwrap();
    let outcome = processor.process_incoming_message(SipMessage::Response(response));
    assert!(outcome.actions.is_empty());
    assert!(matches!(outcome.result, Err(ServerError::NotSupported(Unsupported::Responses))));
}

#[test]
fn proxy_refuses_requests_and_responses() {
    let manager = Arc::new(5u8);
    let proxy = ProxyProcessor::new(ManagerRef::new(&manager));
    let msg = TransportMsg { sip_message: SipMessage::Request(invite()), peer: host("127.0.0.1:5061"), transport: Transport::Udp };
    assert!(matches!(proxy.process_incoming_message(msg), Err(ServerError::NotSupported(Unsupported::Requests))));
    let response = create_405_from(invite()).unwrap();
    let msg = TransportMsg { sip_message: SipMessage::Response(response), peer: host("127.0.0.1:5061"), transport: Transport::Udp };
    assert!(matches!(proxy.process_incoming_message(msg), Err(ServerError::NotSupported(Unsupported::Responses))));
}

#[test]
fn proxy_reaches_its_manager_while_it_lives() {
    let manager = Arc::new(5u8);
    let proxy = ProxyProcessor::new(ManagerRef::new(&manager));
    assert_eq!(proxy.sip_manager().map(|m| *m), Some(5));
    drop(manager);
    assert!(proxy.sip_manager().is_none());
}

#[test]
fn registration_answer_has_a_new_to_tag_and_no_body() {
    let response = create_registration_ok_from(register(""), vec![]).unwrap();
    let to = rsip::message::HeadersExt::to_header(&response).unwrap();
    let tag = to.tag().unwrap().unwrap().to_string();
    assert!(tag.starts_with("viska-"));
    assert_eq!(tag.len(), 42);
    assert_eq!(to.uri().unwrap().to_string(), "sip:alice@127.0.0.1");
    assert_eq!(response.version, rsip::Version::V2);
    assert!(response.body.is_empty());
}

#[test]
fn refused_method_is_named_in_the_message() {
    let e = create_registration_ok_from(options("sip:127.0.0.1"), vec![]).err().unwrap();
    assert_eq!(e.message(), "must have REGISTER method, found: OPTIONS");
    assert_eq!(ServerError::MissingAuthorization.message(), "missing auth header");
    assert_eq!(ServerError::ContactNotUnique.message(), "more than one or zero Contact headers found");
    assert_eq!(ServerError::ContactNotSecure.message(), "Contact header not secure");
}

#[test]
fn method_not_allowed_lists_every_method() {
    let response = create_405_from(register("")).unwrap();
    let allow = response
        .headers
        .iter()
        .find_map(|h| match h {
            rsip::Header::Allow(a) => Some(a.to_string()),
            _ => None,
        })
        .unwrap();
    assert!(allow.ends_with(
        "ACK, BYE, CANCEL, INFO, INVITE, MESSAGE, NOTIFY, OPTIONS, PRACK, PUBLISH, REFER, REGISTER, SUBSCRIBE, UPDATE"
    ));
    assert!(response.body.is_empty());
}
