use std::convert::TryFrom;
use viska::error::ServerError;
use viska::sip::SipMessage;
use viska::transport::dns_lookup::DefaultDnsLookup;
use viska::transport::processor::{Processor, TransportProcessor};
use viska::transport::{
    destination_after_lookup, failed_message_route, response_route, uac, uas, Config, Destination, RequestMsg,
    ResponseMsg, Route, Transport,
};

fn request(text: &str) -> rsip::Request {
    rsip::Request::try_from(text).unwrap()
}

fn response(text: &str) -> rsip::Response {
    rsip::Response::try_from(text).unwrap()
}

fn host(text: &str) -> rsip::HostWithPort {
    rsip::HostWithPort::try_from(String::from(text)).unwrap()
}

fn options_via(via: &str) -> rsip::Request {
    request(&format!(
        "OPTIONS sip:127.0.0.1 SIP/2.0\r\n\
            Via: {}\r\n\
            Max-Forwards: 70\r\n\
            To: <sip:127.0.0.1>\r\n\
            From: Alice <sip:alice@127.0.0.1>;tag=1928301774\r\n\
            Call-ID: opt1@192.168.1.5\r\n\
            CSeq: 63104 OPTIONS\r\n\
            Content-Length: 0\r\n\r\n",
        via
    ))
}

fn ok_via(via: &str) -> rsip::Response {
    response(&format!(
        "SIP/2.0 200 OK\r\n\
            Via: {}\r\n\
            To: <sip:127.0.0.1>;tag=x1\r\n\
            From: Alice <sip:alice@127.0.0.1>;tag=1928301774\r\n\
            Call-ID: opt1@192.168.1.5\r\n\
            CSeq: 63104 OPTIONS\r\n\
            Content-Length: 0\r\n\r\n",
        via
    ))
}

fn via_text(request: &rsip::Request) -> String {
    rsip::headers::UntypedHeader::value(rsip::message::HeadersExt::via_header(request).unwrap()).to_string()
}

fn config() -> Config {
    Config { listen_addrs: vec![host("127.0.0.1:5060")] }
}

#[test]
fn config_knows_its_addresses() {
    assert!(config().contains_addr(&host("127.0.0.1:5060")));
    assert!(!config().contains_addr(&host("127.0.0.1:5070")));
    assert!(!config().contains_addr(&host("127.0.0.1")));
}

#[test]
fn request_to_an_ipv4_peer_gets_a_ttl() {
    let req = options_via("SIP/2.0/UDP 127.0.0.1:5060;branch=z9hG4bKopt1");
    let out = uac::apply_request_defaults(req, &host("192.168.1.9:5060"), Transport::Udp).unwrap();
    let via = via_text(&out);
    assert!(via.contains("ttl=1"));
    assert!(!via.contains("maddr"));
}

#[test]
fn request_to_a_multicast_peer_gets_its_address() {
    let req = options_via("SIP/2.0/UDP 127.0.0.1:5060;branch=z9hG4bKopt1");
    let out = uac::apply_request_defaults(req, &host("224.0.1.75:5060"), Transport::Udp).unwrap();
    let via = via_text(&out);
    assert!(via.contains("maddr=224.0.1.75"));
    assert!(via.contains("ttl=1"));
}

#[test]
fn request_to_a_domain_peer_keeps_its_via_params() {
    let req = options_via("SIP/2.0/UDP 127.0.0.1:5060;branch=z9hG4bKopt1");
    let out = uac::apply_request_defaults(req, &host("example.com:5060"), Transport::Udp).unwrap();
    let via = via_text(&out);
    assert!(!via.contains("ttl"));
    assert!(!via.contains("maddr"));
    assert!(via.contains("branch=z9hG4bKopt1"));
}

#[test]
fn request_from_another_address_is_marked_received() {
    let mut req = options_via("SIP/2.0/UDP 192.168.1.5:5060;branch=z9hG4bKopt1");
    uas::apply_received_value(&mut req, &host("10.0.0.9:5060")).unwrap();
    assert!(via_text(&req).contains("received=10.0.0.9"));
}

#[test]
fn request_from_its_sent_by_address_is_left_alone() {
    let original = options_via("SIP/2.0/UDP 192.168.1.5:5060;branch=z9hG4bKopt1");
    let mut req = original.clone();
    uas::apply_received_value(&mut req, &host("192.168.1.5:5060")).unwrap();
    assert_eq!(req, original);
}

#[test]
fn response_must_be_sent_by_us() {
    let ours = ok_via("SIP/2.0/UDP 127.0.0.1:5060;branch=z9hG4bKopt1");
    assert!(uac::assert_sent_by_value(&ours, &config()).is_ok());
    let theirs = ok_via("SIP/2.0/UDP 10.1.1.1:5060;branch=z9hG4bKopt1");
    let refused = uac::assert_sent_by_value(&theirs, &config());
    assert!(matches!(&refused, Err(ServerError::SentByMismatch(h)) if *h == host("10.1.1.1:5060")));
    assert_eq!(
        refused.err().unwrap().message(),
        format!("sent-by address ({:?}) is different from listen address", host("10.1.1.1:5060"))
    );
}

#[test]
fn default_processor_applies_the_defaults() {
    let processor = Processor { config: config() };
    let theirs = ok_via("SIP/2.0/UDP 10.1.1.1:5060;branch=z9hG4bKopt1");
    let msg = ResponseMsg { sip_response: theirs, peer: host("10.1.1.1:5060"), transport: Transport::Udp };
    assert!(matches!(processor.process_incoming_response(msg), Err(ServerError::SentByMismatch(_))));
    let req = options_via("SIP/2.0/UDP 192.168.1.5:5060;branch=z9hG4bKopt1");
    let msg = RequestMsg { sip_request: req, peer: host("10.0.0.9:5060"), transport: Transport::Udp };
    let out = processor.process_incoming_request(msg).unwrap().unwrap();
    assert!(via_text(&out.sip_request).contains("received=10.0.0.9"));
}

#[test]
fn response_goes_back_to_the_sent_by_address() {
    let r = ok_via("SIP/2.0/UDP 192.168.1.5:5062;branch=z9hG4bKopt1");
    let msg = DefaultDnsLookup.response_msg_from(r).unwrap();
    assert_eq!(msg.peer, host("192.168.1.5:5062"));
    assert_eq!(msg.transport, Transport::Udp);
}

#[test]
fn response_goes_back_to_the_received_address() {
    let r = ok_via("SIP/2.0/UDP 192.168.1.5:5062;branch=z9hG4bKopt1;received=10.0.0.2");
    let msg = DefaultDnsLookup.response_msg_from(r).unwrap();
    assert_eq!(msg.peer, host("10.0.0.2:5062"));
}

#[test]
fn response_port_defaults_to_5060() {
    let r = ok_via("SIP/2.0/UDP 192.168.1.5;branch=z9hG4bKopt1");
    let msg = DefaultDnsLookup.response_msg_from(r).unwrap();
    assert_eq!(msg.peer, host("192.168.1.5:5060"));
}

#[test]
fn response_to_a_domain_or_over_tcp_cannot_be_routed() {
    let r = ok_via("SIP/2.0/UDP example.com:5060;branch=z9hG4bKopt1");
    assert!(DefaultDnsLookup.try_response_msg_from(r).is_none());
    let r = ok_via("SIP/2.0/TCP 192.168.1.5:5060;branch=z9hG4bKopt1");
    assert!(DefaultDnsLookup.try_response_msg_from(r).is_none());
}

#[test]
fn response_is_routed_by_its_branch() {
    let r = ok_via("SIP/2.0/UDP 127.0.0.1:5060;branch=z9hG4bKopt1");
    assert!(matches!(response_route(&r), Ok(Route::AskTransactionLayer(id)) if id == "z9hG4bKopt1"));
    let r = ok_via("SIP/2.0/UDP 127.0.0.1:5060");
    assert!(matches!(response_route(&r), Ok(Route::ToTransactionUser)));
    let req = options_via("SIP/2.0/UDP 127.0.0.1:5060;branch=z9hG4bKreq");
    assert!(matches!(failed_message_route(&SipMessage::Request(req)), Ok(Route::AskTransactionLayer(id)) if id == "z9hG4bKreq"));
}

#[test]
fn known_transactions_take_their_messages() {
    assert_eq!(destination_after_lookup(true), Destination::Transaction);
    assert_eq!(destination_after_lookup(false), Destination::TransactionUser);
}
