use std::convert::TryFrom;
use viska::error::ServerError;
use viska::sip::SipMessage;
use viska::transaction::{uac, uas, TrxErrorCause};
use viska::transaction::sm::{uac_invite, uas_invite, TrxStateSm};
use viska::transaction::{
    doubled_interval, elapsed_ms, Inner, LayerReply, TransactionError, TransactionLayerMsg, TrxAction,
};

fn request(text: &str) -> rsip::Request {
    rsip::Request::try_from(text).unwrap()
}

fn response(text: &str) -> rsip::Response {
    rsip::Response::try_from(text).unwrap()
}

fn invite() -> rsip::Request {
    request("INVITE sip:bob@127.0.0.1:5060 SIP/2.0\r\n\
        Via: SIP/2.0/UDP 127.0.0.1:5061;branch=z9hG4bKinvite1\r\n\
        Max-Forwards: 70\r\n\
        To: Bob <sip:bob@127.0.0.1>\r\n\
        From: Alice <sip:alice@127.0.0.1>;tag=1928301774\r\n\
        Call-ID: a84b4c76e66710@127.0.0.1\r\n\
        CSeq: 314159 INVITE\r\n\
        Contact: <sip:alice@127.0.0.1:5061>\r\n\
        Content-Length: 0\r\n\r\n")
}

fn ack() -> rsip::Request {
    request("ACK sip:bob@127.0.0.1:5060 SIP/2.0\r\n\
        Via: SIP/2.0/UDP 127.0.0.1:5061;branch=z9hG4bKinvite1\r\n\
        Max-Forwards: 70\r\n\
        To: Bob <sip:bob@127.0.0.1>;tag=a6c85cf\r\n\
        From: Alice <sip:alice@127.0.0.1>;tag=1928301774\r\n\
        Call-ID: a84b4c76e66710@127.0.0.1\r\n\
        CSeq: 314159 ACK\r\n\
        Content-Length: 0\r\n\r\n")
}

fn reply(status: &str, branch: &str) -> rsip::Response {
    response(&format!(
        "SIP/2.0 {}\r\n\
            Via: SIP/2.0/UDP 127.0.0.1:5061;branch={}\r\n\
            To: Bob <sip:bob@127.0.0.1>;tag=a6c85cf\r\n\
            From: Alice <sip:alice@127.0.0.1>;tag=1928301774\r\n\
            Call-ID: a84b4c76e66710@127.0.0.1\r\n\
            CSeq: 314159 INVITE\r\n\
            Contact: <sip:bob@127.0.0.1:5060>\r\n\
            Content-Length: 0\r\n\r\n",
        status, branch
    ))
}

fn sends_request(actions: &[TrxAction]) -> bool {
    actions.len() == 1 && matches!(actions[0], TrxAction::SendRequest(_))
}

#[test]
fn elapsed_is_zero_before_the_start() {
    assert_eq!(elapsed_ms(1500, 500), 1000);
    assert_eq!(elapsed_ms(500, 1500), 0);
}

#[test]
fn retransmission_interval_doubles() {
    assert_eq!(doubled_interval(500, 0), 500);
    assert_eq!(doubled_interval(500, 1), 1000);
    assert_eq!(doubled_interval(500, 3), 4000);
}

#[test]
fn client_invite_is_sent_and_kept() {
    let mut layer = Inner::new();
    let actions = layer.new_uac_invite_transaction(invite(), 0).unwrap();
    assert!(matches!(actions.as_slice(), [TrxAction::SendRequest(r)] if *r == invite()));
    assert!(layer.has_transaction(&String::from("z9hG4bKinvite1")));
    assert!(!layer.has_transaction(&String::from("z9hG4bKother")));
}

#[test]
fn client_invite_is_retransmitted_after_t1_then_after_twice_t1() {
    let mut layer = Inner::new();
    layer.new_uac_invite_transaction(invite(), 0).unwrap();
    assert!(layer.check_transactions(500).is_empty());
    assert!(sends_request(&layer.check_transactions(501)));
    assert!(layer.check_transactions(1501).is_empty());
    assert!(sends_request(&layer.check_transactions(1502)));
}

#[test]
fn client_invite_times_out_after_timer_b() {
    let mut layer = Inner::new();
    layer.new_uac_invite_transaction(invite(), 0).unwrap();
    assert!(layer.check_transactions(uac_invite::TIMER_B).is_empty());
    match &layer.state[0] {
        TrxStateSm::UacInvite(sm) => {
            assert!(matches!(sm.state, uac_invite::TrxState::Terminated(uac_invite::Terminated::TimedOut { .. })))
        }
        _ => panic!("expected a client INVITE transaction"),
    }
    // a terminated transaction sends nothing more
    assert!(layer.check_transactions(uac_invite::TIMER_B + 10_000).is_empty());
}

#[test]
fn client_invite_passes_responses_to_the_user() {
    let mut layer = Inner::new();
    layer.new_uac_invite_transaction(invite(), 0).unwrap();
    let ringing = reply("180 Ringing", "z9hG4bKinvite1");
    let actions = layer.process_incoming_response(ringing.clone(), 100).unwrap();
    assert!(matches!(actions.as_slice(), [TrxAction::ResponseToTu(r)] if *r == ringing));
    let ok = reply("200 OK", "z9hG4bKinvite1");
    let actions = layer.process_incoming_response(ok.clone(), 200).unwrap();
    assert!(matches!(actions.as_slice(), [TrxAction::ResponseToTu(r)] if *r == ok));
    match &layer.state[0] {
        TrxStateSm::UacInvite(sm) => assert!(matches!(sm.state, uac_invite::TrxState::Accepted(_))),
        _ => panic!("expected a client INVITE transaction"),
    }
    // no retransmission once a response came
    assert!(layer.check_transactions(10_000).is_empty());
}

#[test]
fn client_invite_acks_a_failure_after_a_provisional_response() {
    let mut layer = Inner::new();
    layer.new_uac_invite_transaction(invite(), 0).unwrap();
    layer.process_incoming_response(reply("180 Ringing", "z9hG4bKinvite1"), 100).unwrap();
    let busy = reply("486 Busy Here", "z9hG4bKinvite1");
    let actions = layer.process_incoming_response(busy.clone(), 200).unwrap();
    assert!(matches!(actions.as_slice(),
        [TrxAction::ResponseToTu(a), TrxAction::SendAckFor(b)] if *a == busy && *b == busy));
}

#[test]
fn response_of_an_unknown_transaction_is_refused() {
    let mut layer = Inner::new();
    layer.new_uac_invite_transaction(invite(), 0).unwrap();
    let r = layer.process_incoming_response(reply("200 OK", "z9hG4bKother"), 100);
    assert!(matches!(r, Err(ServerError::Transaction(TransactionError::NotFound))));
}

#[test]
fn server_invite_answers_and_retransmits_a_failure() {
    let mut layer = Inner::new();
    let trying = reply("100 Trying", "z9hG4bKinvite1");
    // the layer hands the request on to the transport layer as it takes the transaction
    let actions = layer.new_uas_invite_transaction(invite(), trying.clone(), 0).unwrap();
    assert!(matches!(actions.as_slice(), [TrxAction::SendRequest(r)] if *r == invite()));
    let busy = reply("486 Busy Here", "z9hG4bKinvite1");
    let actions = layer.process_tu_reply(busy.clone(), 10).unwrap();
    assert!(matches!(actions.as_slice(), [TrxAction::SendResponse(r)] if *r == busy));
    assert!(layer.check_transactions(510).is_empty());
    let actions = layer.check_transactions(511);
    assert!(matches!(actions.as_slice(), [TrxAction::SendResponse(r)] if *r == busy));
}

#[test]
fn server_invite_is_confirmed_by_the_ack() {
    let mut layer = Inner::new();
    layer.new_uas_invite_transaction(invite(), reply("100 Trying", "z9hG4bKinvite1"), 0).unwrap();
    layer.process_tu_reply(reply("486 Busy Here", "z9hG4bKinvite1"), 10).unwrap();
    let actions = layer.process_incoming_request(ack(), 20).unwrap();
    assert!(actions.is_empty());
    match &layer.state[0] {
        TrxStateSm::UasInvite(sm) => assert!(matches!(sm.state, uas_invite::TrxState::Confirmed(_))),
        _ => panic!("expected a server INVITE transaction"),
    }
    // the failure is not sent again once confirmed
    assert!(layer.check_transactions(2000).is_empty());
}

#[test]
fn retransmitted_invite_gets_the_last_response_again() {
    let mut layer = Inner::new();
    let trying = reply("100 Trying", "z9hG4bKinvite1");
    layer.new_uas_invite_transaction(invite(), trying.clone(), 0).unwrap();
    let actions = layer.process_incoming_request(invite(), 5).unwrap();
    assert!(matches!(actions.as_slice(), [TrxAction::SendResponse(r)] if *r == trying));
}

#[test]
fn transport_error_ends_the_transaction() {
    let mut layer = Inner::new();
    layer.new_uac_invite_transaction(invite(), 0).unwrap();
    let actions = layer
        .process_transport_error(SipMessage::Request(invite()), String::from("unreachable"), 10)
        .unwrap();
    assert!(actions.is_empty());
    match &layer.state[0] {
        TrxStateSm::UacInvite(sm) => {
            assert!(matches!(sm.state, uac_invite::TrxState::Terminated(uac_invite::Terminated::Errored { .. })))
        }
        _ => panic!("expected a client INVITE transaction"),
    }
    assert!(layer.check_transactions(10_000).is_empty());
}

#[test]
fn layer_answers_whether_it_has_a_transaction() {
    let mut layer = Inner::new();
    layer.new_uac_invite_transaction(invite(), 0).unwrap();
    let r = layer.receive(TransactionLayerMsg::HasTransaction(String::from("z9hG4bKinvite1")), 0);
    assert!(matches!(r, Ok(LayerReply::HasTransaction(true))));
    let r = layer.receive(TransactionLayerMsg::HasTransaction(String::from("nope")), 0);
    assert!(matches!(r, Ok(LayerReply::HasTransaction(false))));
}

#[test]
fn a_second_transaction_with_the_same_id_replaces_the_first() {
    let mut layer = Inner::new();
    layer.new_uac_invite_transaction(invite(), 0).unwrap();
    layer.new_uac_invite_transaction(invite(), 100).unwrap();
    assert_eq!(layer.state.len(), 1);
}

#[test]
fn client_transaction_takes_no_reply_of_the_user() {
    let mut layer = Inner::new();
    layer.new_uac_invite_transaction(invite(), 0).unwrap();
    let r = layer.process_tu_reply(reply("200 OK", "z9hG4bKinvite1"), 10);
    assert!(matches!(r, Err(ServerError::Transaction(TransactionError::UnexpectedState))));
}

#[test]
fn request_without_a_branch_starts_no_transaction() {
    let no_branch = request("INVITE sip:bob@127.0.0.1:5060 SIP/2.0\r\n\
        Via: SIP/2.0/UDP 127.0.0.1:5061\r\n\
        To: Bob <sip:bob@127.0.0.1>\r\n\
        From: Alice <sip:alice@127.0.0.1>;tag=1928301774\r\n\
        Call-ID: a84b4c76e66710@127.0.0.1\r\n\
        CSeq: 314159 INVITE\r\n\
        Content-Length: 0\r\n\r\n");
    let mut layer = Inner::new();
    assert!(matches!(layer.new_uac_invite_transaction(no_branch, 0), Err(ServerError::MissingTransactionId)));
    assert!(layer.state.is_empty());
}

#[test]
fn request_without_a_via_is_a_sip_error() {
    let no_via = request("INVITE sip:bob@127.0.0.1:5060 SIP/2.0\r\n\
        To: Bob <sip:bob@127.0.0.1>\r\n\
        From: Alice <sip:alice@127.0.0.1>;tag=1928301774\r\n\
        Call-ID: a84b4c76e66710@127.0.0.1\r\n\
        CSeq: 314159 INVITE\r\n\
        Content-Length: 0\r\n\r\n");
    let mut layer = Inner::new();
    assert!(matches!(layer.new_uac_invite_transaction(no_via, 0), Err(ServerError::Sip(_))));
}

#[test]
fn unexpected_request_ends_a_server_transaction_in_error() {
    let mut layer = Inner::new();
    layer.new_uas_invite_transaction(invite(), reply("100 Trying", "z9hG4bKinvite1"), 0).unwrap();
    // an ACK while no final response was sent
    let actions = layer.process_incoming_request(ack(), 5).unwrap();
    assert!(actions.is_empty());
    match &layer.state[0] {
        TrxStateSm::UasInvite(sm) => assert!(matches!(sm.state, uas_invite::TrxState::Terminated(_))),
        _ => panic!("expected a server INVITE transaction"),
    }
}

#[test]
fn retransmitted_failure_is_acked_but_not_passed_on_again() {
    let mut layer = Inner::new();
    layer.new_uac_invite_transaction(invite(), 0).unwrap();
    let busy = reply("486 Busy Here", "z9hG4bKinvite1");
    let first = layer.process_incoming_response(busy.clone(), 100).unwrap();
    assert!(matches!(first.as_slice(), [TrxAction::ResponseToTu(r)] if *r == busy));
    let again = layer.process_incoming_response(busy.clone(), 200).unwrap();
    assert!(matches!(again.as_slice(), [TrxAction::SendAckFor(r)] if *r == busy));
}

#[test]
fn ticks_keep_every_transaction() {
    let mut layer = Inner::new();
    layer.new_uac_invite_transaction(invite(), 0).unwrap();
    layer.new_uas_invite_transaction(
        request("INVITE sip:alice@127.0.0.1 SIP/2.0\r\n\
            Via: SIP/2.0/UDP 10.0.0.1:5060;branch=z9hG4bKother\r\n\
            To: <sip:alice@127.0.0.1>\r\n\
            From: <sip:carol@10.0.0.1>;tag=9\r\n\
            Call-ID: other@10.0.0.1\r\n\
            CSeq: 1 INVITE\r\n\
            Content-Length: 0\r\n\r\n"),
        reply("100 Trying", "z9hG4bKother"),
        0,
    )
    .unwrap();
    layer.check_transactions(40_000);
    assert_eq!(layer.state.len(), 2);
    assert!(layer.has_transaction(&String::from("z9hG4bKinvite1")));
    assert!(layer.has_transaction(&String::from("z9hG4bKother")));
}

fn peer(text: &str) -> rsip::HostWithPort {
    rsip::HostWithPort::try_from(String::from(text)).unwrap()
}

fn invite_msg() -> viska::transport::RequestMsg {
    viska::transport::RequestMsg {
        sip_request: invite(),
        peer: peer("10.0.0.2:5060"),
        transport: viska::transport::Transport::Udp,
    }
}

#[test]
fn client_transaction_hands_a_2xx_to_the_user_with_its_peer() {
    let mut sm = uac::TrxStateMachine::new(String::from("z9hG4bKinvite1"), invite_msg(), 0);
    let ok = reply("200 OK", "z9hG4bKinvite1");
    let actions = sm.next(Some(ok.clone()), 10);
    assert_eq!(actions.len(), 1);
    match &actions[0] {
        TrxAction::ResponseMsgToTu(m) => {
            assert_eq!(m.sip_response, ok);
            assert_eq!(m.peer, peer("10.0.0.2:5060"));
            assert_eq!(m.transport, viska::transport::Transport::Udp);
        }
        _ => panic!("expected the response to go to the user"),
    }
    assert!(matches!(&sm.state, uac::TrxState::Accepted(a) if a.response == ok));
}

#[test]
fn client_transaction_acks_a_failure_to_its_peer() {
    let mut sm = uac::TrxStateMachine::new(String::from("z9hG4bKinvite1"), invite_msg(), 0);
    let ringing = reply("180 Ringing", "z9hG4bKinvite1");
    let busy = reply("486 Busy Here", "z9hG4bKinvite1");
    sm.next(Some(ringing), 10);
    let actions = sm.next(Some(busy.clone()), 20);
    assert_eq!(actions.len(), 2);
    assert!(matches!(&actions[0], TrxAction::ResponseMsgToTu(m) if m.sip_response == busy && m.peer == peer("10.0.0.2:5060")));
    match &actions[1] {
        TrxAction::SendAckTo(m, r) => {
            assert_eq!(m.sip_request, invite());
            assert_eq!(m.peer, peer("10.0.0.2:5060"));
            assert_eq!(*r, busy);
        }
        _ => panic!("expected an ACK"),
    }
    assert!(matches!(&sm.state, uac::TrxState::Completed(c) if c.response == busy));
    let again = sm.next(Some(busy.clone()), 30);
    assert!(matches!(again.as_slice(), [TrxAction::SendAckTo(m, r)] if m.peer == peer("10.0.0.2:5060") && *r == busy));
}

#[test]
fn client_transaction_retransmits_to_its_peer() {
    let mut sm = uac::TrxStateMachine::new(String::from("z9hG4bKinvite1"), invite_msg(), 0);
    let actions = sm.next(None, 600);
    assert!(matches!(actions.as_slice(),
        [TrxAction::SendRequestMsg(m)] if m.sip_request == invite() && m.peer == peer("10.0.0.2:5060")));
}

#[test]
fn server_transaction_resends_its_response_to_its_peer() {
    let trying = reply("100 Trying", "z9hG4bKinvite1");
    let mut sm = uas::TrxStateMachine::new(String::from("z9hG4bKinvite1"), invite_msg(), trying.clone(), 0);
    let actions = sm.next(Some(SipMessage::Request(invite())), 10);
    assert!(matches!(actions.as_slice(),
        [TrxAction::SendResponseMsg(m)] if m.sip_response == trying && m.peer == peer("10.0.0.2:5060")));
    let ok = reply("200 OK", "z9hG4bKinvite1");
    let sent = sm.next(Some(SipMessage::Response(ok.clone())), 20);
    assert!(matches!(sent.as_slice(),
        [TrxAction::SendResponseMsg(m)] if m.sip_response == ok && m.peer == peer("10.0.0.2:5060")));
    let acked = sm.next(Some(SipMessage::Request(ack())), 30);
    assert!(matches!(acked.as_slice(),
        [TrxAction::RequestMsgToTu(m)] if m.sip_request == ack() && m.peer == peer("10.0.0.2:5060")));
}

#[test]
fn failed_step_records_the_transaction_id() {
    let mut sm = uac::TrxStateMachine::new(String::from("z9hG4bKinvite1"), invite_msg(), 0);
    sm.step_failed(String::from("channel closed"), 5);
    match &sm.state {
        uac::TrxState::Errored(e) => match &e.error {
            TrxErrorCause::Step(text) => assert_eq!(text, "transaction z9hG4bKinvite1 errored: channel closed"),
            _ => panic!("expected a failed step"),
        },
        _ => panic!("expected an error"),
    }
}
