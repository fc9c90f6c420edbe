use viska::store::page_offset;
use viska::store::transaction::TransactionState;

#[test]
fn transaction_state_reads_any_case() {
    assert_eq!(TransactionState::from_str("TrYiNg"), Ok(TransactionState::Trying));
    assert_eq!(TransactionState::from_str("terminated"), Ok(TransactionState::Terminated));
}

#[test]
fn transaction_state_refuses_unknown_text() {
    assert_eq!(
        TransactionState::from_str("done"),
        Err(String::from("invalid TransactionState `done`"))
    );
}

#[test]
fn page_offset_counts_pages_from_one() {
    assert_eq!(page_offset(1, 20), 0);
    assert_eq!(page_offset(3, 20), 40);
}

use std::convert::TryFrom;
use viska::error::ServerError;
use viska::sip::Method;
use viska::store::eq_ignore_ascii_case;
use viska::store::registration::{registration_fields, Transport};

#[test]
fn transaction_state_names_and_columns() {
    assert_eq!(TransactionState::Proceeding.name(), "Proceeding");
    assert_eq!(TransactionState::Proceeding.column_text(), "proceeding");
    for state in [
        TransactionState::Trying,
        TransactionState::Proceeding,
        TransactionState::Completed,
        TransactionState::Terminated,
    ] {
        assert_eq!(TransactionState::from_str(&state.column_text()), Ok(state));
        assert_eq!(TransactionState::from_str(&state.name()), Ok(state));
    }
}

#[test]
fn stored_transport_reads_any_case_and_round_trips() {
    assert_eq!(Transport::from_str("UDP"), Ok(Transport::Udp));
    assert_eq!(Transport::from_str("Sctp"), Ok(Transport::Sctp));
    assert_eq!(Transport::from_str("ws"), Err(String::from("failed to parse transport ws")));
    for t in [Transport::Tcp, Transport::Udp, Transport::Tls, Transport::Sctp] {
        assert_eq!(Transport::from_str(&t.column_text()), Ok(t));
        assert_eq!(Transport::from_layer(t.into_layer()), Some(t));
    }
    assert_eq!(Transport::from_layer(viska::transport::Transport::Wss), None);
}

#[test]
fn ascii_case_is_ignored_only_for_ascii_letters() {
    assert!(eq_ignore_ascii_case("TeRmInAtEd", "terminated"));
    assert!(!eq_ignore_ascii_case("trying", "tryin"));
    assert!(!eq_ignore_ascii_case("Ä", "ä"));
}

fn register(contact: &str, extra: &str) -> rsip::Request {
    rsip::Request::try_from(format!(
        "REGISTER sip:127.0.0.1 SIP/2.0\r\n\
            Via: SIP/2.0/UDP 192.168.1.5:5060;branch=z9hG4bKreg1\r\n\
            To: Alice <sip:alice@127.0.0.1>\r\n\
            From: Alice <sip:alice@example.com:5070>;tag=456248\r\n\
            Call-ID: 843817637684230@998sdasdh09\r\n\
            CSeq: 1826 REGISTER\r\n\
            {}\
            {}\
            Content-Length: 0\r\n\r\n",
        contact, extra
    ))
    .unwrap()
}


#[test]
fn register_gives_the_fields_of_a_registration() {
    let request = register("Contact: <sip:alice@192.168.1.5:5060>;expires=120\r\n", "User-Agent: test-agent\r\n");
    let fields = registration_fields(&request).unwrap();
    assert_eq!(fields.username, "alice");
    assert_eq!(fields.domain, "example.com");
    assert_eq!(fields.expires_in, 120);
    assert_eq!(fields.call_id, "843817637684230@998sdasdh09");
    assert_eq!(fields.cseq, 1826);
    assert_eq!(fields.user_agent, "test-agent");
    assert_eq!(fields.port, 5070);
    assert_eq!(fields.contact_uri, "sip:alice@192.168.1.5:5060");
    assert_eq!(fields.transport, Transport::Udp);
}

#[test]
fn registration_expiry_falls_back_to_the_header_then_an_hour() {
    let request = register("Contact: <sip:alice@192.168.1.5:5060>\r\n", "Expires: 300\r\nUser-Agent: a\r\n");
    assert_eq!(registration_fields(&request).unwrap().expires_in, 300);
    let request = register("Contact: <sip:alice@192.168.1.5:5060>\r\n", "User-Agent: a\r\n");
    assert_eq!(registration_fields(&request).unwrap().expires_in, 3600);
}

#[test]
fn registration_needs_a_register_with_a_user_agent() {
    let request = register("Contact: <sip:alice@192.168.1.5:5060>\r\n", "");
    assert!(matches!(registration_fields(&request), Err(ServerError::MissingUserAgent)));
    let options = rsip::Request::try_from("OPTIONS sip:127.0.0.1 SIP/2.0\r\n\
        Via: SIP/2.0/UDP 192.168.1.5:5060;branch=z9hG4bKopt1\r\n\
        To: <sip:127.0.0.1>\r\n\
        From: <sip:alice@127.0.0.1>;tag=1\r\n\
        Call-ID: x@y\r\n\
        CSeq: 1 OPTIONS\r\n\
        Content-Length: 0\r\n\r\n")
    .unwrap();
    let refused = registration_fields(&options);
    assert!(matches!(refused, Err(ServerError::NotRegistration(Method::Options))));
    assert_eq!(refused.err().unwrap().message(), "cannot create registration from OPTIONS method");
}

use viska::store::dialog::{computed_id_for, flow_for_method, DialogFlow};

#[test]
fn dialog_flow_reads_any_case_and_round_trips() {
    assert_eq!(DialogFlow::from_str("INVITE"), Ok(DialogFlow::Invite));
    assert_eq!(DialogFlow::from_str("nope"), Err(String::from("invalid DialogFlow `nope`")));
    for flow in [DialogFlow::Registration, DialogFlow::Invite, DialogFlow::Publish] {
        assert_eq!(DialogFlow::from_str(&flow.column_text()), Ok(flow));
        assert_eq!(DialogFlow::from_str(&flow.name()), Ok(flow));
    }
}

#[test]
fn dialog_flow_follows_the_method() {
    assert_eq!(flow_for_method(Method::Register), Ok(DialogFlow::Registration));
    assert_eq!(flow_for_method(Method::Subscribe), Ok(DialogFlow::Publish));
    assert_eq!(flow_for_method(Method::Bye), Err(String::from("Unsupported method")));
}

#[test]
fn computed_id_joins_call_id_and_tags() {
    assert_eq!(computed_id_for("call", "from", "to"), "call-from-to");
}

use viska::store::dialog::DirtyDialogWithTransaction;

fn invite_with_call_id(call_id_line: &str, method: &str) -> rsip::Request {
    rsip::Request::try_from(format!(
        "{m} sip:bob@127.0.0.1 SIP/2.0\r\n\
        Via: SIP/2.0/UDP 127.0.0.1:5061;branch=z9hG4bKinvite1\r\n\
        To: Bob <sip:bob@127.0.0.1>\r\n\
        From: Alice <sip:alice@127.0.0.1>;tag=1928301774\r\n\
        {c}\
        CSeq: 1 {m}\r\n\
        Content-Length: 0\r\n\r\n",
        m = method,
        c = call_id_line
    ))
    .unwrap()
}

#[test]
fn new_dialog_rows_are_keyed_by_call_id_and_tags() {
    let request = invite_with_call_id("Call-ID: abc@host\r\n", "INVITE");
    let rows = DirtyDialogWithTransaction::from_request(&request, "t1").ok().unwrap();
    assert_eq!(rows.dialog.computed_id.as_deref(), Some("abc@host-1928301774-t1"));
    assert_eq!(rows.dialog.flow, Some(DialogFlow::Invite));
    assert_eq!(rows.transaction.branch_id.as_deref(), Some("z9hG4bKinvite1"));
    assert_eq!(rows.transaction.state, Some(TransactionState::Trying));
    let rows = DirtyDialogWithTransaction::try_from(&request).ok().unwrap();
    assert_eq!(rows.dialog.to_tag.map(|t| t.len()), Some(36));
}

#[test]
fn new_dialog_rows_need_a_call_id_and_a_known_method() {
    let request = invite_with_call_id("", "INVITE");
    assert_eq!(DirtyDialogWithTransaction::from_request(&request, "t").err(), Some(String::from("missing call id")));
    let request = invite_with_call_id("Call-ID: abc@host\r\n", "BYE");
    assert_eq!(DirtyDialogWithTransaction::from_request(&request, "t").err(), Some(String::from("Unsupported method")));
}

#[test]
fn registration_needs_a_user_and_a_contact() {
    let no_user = rsip::Request::try_from("REGISTER sip:127.0.0.1 SIP/2.0\r\n\
        Via: SIP/2.0/UDP 192.168.1.5:5060;branch=z9hG4bKreg1\r\n\
        To: <sip:127.0.0.1>\r\n\
        From: <sip:127.0.0.1>;tag=456248\r\n\
        Call-ID: 843817637684230@998sdasdh09\r\n\
        CSeq: 1826 REGISTER\r\n\
        Contact: <sip:alice@192.168.1.5:5060>\r\n\
        User-Agent: a\r\n\
        Content-Length: 0\r\n\r\n")
    .unwrap();
    assert!(matches!(registration_fields(&no_user), Err(ServerError::MissingUsername)));
    let request = register("", "User-Agent: a\r\n");
    assert!(matches!(registration_fields(&request), Err(ServerError::Sip(_))));
}

use viska::store::request::DirtyRequest;

#[test]
fn request_row_holds_its_parts_as_text() {
    let request = invite_with_call_id("Call-ID: abc@host\r\n", "INVITE");
    let row = DirtyRequest::from_request(&request);
    assert_eq!(row.method.as_deref(), Some("INVITE"));
    assert_eq!(row.uri.as_deref(), Some("sip:bob@127.0.0.1"));
    assert_eq!(row.body.as_deref(), Some(""));
    assert!(row.headers.unwrap().contains("abc@host"));
    assert!(row.raw_message.is_none());
}

#[test]
fn new_dialog_rows_say_what_is_missing() {
    let no_call_id = invite_with_call_id("", "INVITE");
    assert_eq!(DirtyDialogWithTransaction::try_from(&no_call_id).err(), Some(String::from("missing call id")));
    let bye = invite_with_call_id("Call-ID: abc@host\r\n", "BYE");
    assert_eq!(DirtyDialogWithTransaction::try_from(&bye).err(), Some(String::from("Unsupported method")));
    let no_branch = rsip::Request::try_from(
        "INVITE sip:bob@127.0.0.1 SIP/2.0\r\n\
        Via: SIP/2.0/UDP 127.0.0.1:5061\r\n\
        To: Bob <sip:bob@127.0.0.1>\r\n\
        From: Alice <sip:alice@127.0.0.1>;tag=1928301774\r\n\
        Call-ID: abc@host\r\n\
        CSeq: 1 INVITE\r\n\
        Content-Length: 0\r\n\r\n",
    )
    .unwrap();
    assert_eq!(DirtyDialogWithTransaction::try_from(&no_branch).err(), Some(String::from("missing branch id")));
}

#[test]
fn new_dialog_to_tag_is_a_random_uuid() {
    let request = invite_with_call_id("Call-ID: abc@host\r\n", "INVITE");
    let tag = DirtyDialogWithTransaction::try_from(&request).ok().unwrap().dialog.to_tag.unwrap();
    let chars: Vec<char> = tag.chars().collect();
    assert_eq!(chars.len(), 36);
    for (i, c) in chars.iter().enumerate() {
        if i == 8 || i == 13 || i == 18 || i == 23 {
            assert_eq!(*c, '-');
        } else {
            assert!(c.is_ascii_digit() || ('a'..='f').contains(c));
        }
    }
    assert_eq!(chars[14], '4');
    assert!(['8', '9', 'a', 'b'].contains(&chars[19]));
}

#[test]
fn missing_username_is_named() {
    let no_user = rsip::Request::try_from(
        "REGISTER sip:127.0.0.1 SIP/2.0\r\n\
        Via: SIP/2.0/UDP 192.168.1.5:5060;branch=z9hG4bKreg1\r\n\
        To: <sip:127.0.0.1>\r\n\
        From: <sip:127.0.0.1>;tag=456248\r\n\
        Call-ID: 843817637684230@998sdasdh09\r\n\
        CSeq: 1826 REGISTER\r\n\
        Contact: <sip:alice@192.168.1.5:5060>\r\n\
        User-Agent: a\r\n\
        Content-Length: 0\r\n\r\n",
    )
    .unwrap();
    let e = registration_fields(&no_user).err().unwrap();
    assert_eq!(e.message(), "missing username in from header");
}

#[test]
fn sip_error_message_is_what_rsip_writes() {
    let request = register("", "User-Agent: a\r\n");
    match registration_fields(&request) {
        Err(ServerError::Sip(e)) => {
            let text = e.to_string();
            assert_eq!(ServerError::Sip(e).message(), text);
        }
        _ => panic!("expected a SIP error"),
    }
}
