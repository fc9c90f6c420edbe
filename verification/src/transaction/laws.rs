//! Properties that hold of every run of the transaction state machines.
use crate::sip::{response_status_code, kind_rank, StatusCodeKind, response_kind, request_method_of, Method};
use crate::transaction::sm::{after_failure, after_reply, after_request, after_response, after_tick, uac,
    uac_invite, uas_invite, TrxStateSm};
use crate::transaction::{elapsed, ids_of, inserted, pow2, response_outcome, ServerErrorKind,
    TransactionError, TrxAction, TrxErrorCause};
use crate::sip::{response_branch, response_via_parses};
use vstd::prelude::*;

verus! {

/// A terminated client non-INVITE transaction stays terminated, whatever
/// tick or response comes next.
pub proof fn law_uac_terminated_is_final(state: uac::TrxState, request: rsip::Request, response: rsip::Response, now: u64)
    requires
        state is Terminated,
    ensures
        uac::tick(state, request, now).0 is Terminated,
        uac::on_response(state, response, now).0 is Terminated,
{
}

/// A terminated client INVITE transaction stays terminated.
pub proof fn law_uac_invite_terminated_is_final(state: uac_invite::TrxState, request: rsip::Request, response: rsip::Response, now: u64)
    requires
        state is Terminated,
    ensures
        uac_invite::tick(state, request, now).0 is Terminated,
        uac_invite::on_response(state, response, now).0 is Terminated,
{
}

/// A terminated server INVITE transaction stays terminated.
pub proof fn law_uas_invite_terminated_is_final(
    state: uas_invite::TrxState,
    kept: rsip::Response,
    request: rsip::Request,
    reply: rsip::Response,
    now: u64,
)
    requires
        state is Terminated,
    ensures
        uas_invite::tick(state, kept, now).0 is Terminated,
        uas_invite::on_request(state, kept, request, now).0 is Terminated,
        uas_invite::on_reply(state, kept, reply, now).0 is Terminated,
{
}

/// Whatever kind of transaction, once it is no longer active no step makes
/// it active again, and a failure always ends it.
pub proof fn law_inactive_stays_inactive(sm: TrxStateSm, request: rsip::Request, response: rsip::Response, cause: TrxErrorCause, now: u64)
    requires
        !sm.active(),
    ensures
        !after_tick(sm, now).0.active(),
        after_response(sm, response, now) matches Some((s, _)) ==> !s.active(),
        after_request(sm, request, now) matches Some((s, _)) ==> !s.active(),
        after_reply(sm, response, now) matches Some((s, _)) ==> !s.active(),
        !after_failure(sm, cause, now).active(),
{
}

/// A failure ends any transaction.
pub proof fn law_failure_ends_transaction(sm: TrxStateSm, cause: TrxErrorCause, now: u64)
    ensures
        !after_failure(sm, cause, now).active(),
        after_failure(sm, cause, now).trx_id() == sm.trx_id(),
{
}

/// Responses go to client transactions only; requests and replies of the
/// user go to server transactions only.
pub proof fn law_messages_go_to_their_side(sm: TrxStateSm, request: rsip::Request, response: rsip::Response, now: u64)
    ensures
        (after_response(sm, response, now) is None) <==> (sm is UasInvite),
        (after_request(sm, request, now) is None) <==> !(sm is UasInvite),
        (after_reply(sm, response, now) is None) <==> !(sm is UasInvite),
{
}

/// Each retransmission of a client request waits twice as long as the one before.
pub proof fn law_retransmission_interval_doubles(t: uac::Trying, now: u64)
    requires
        t.retransmissions_count < 255,
    ensures
        t.retransmitted_at(now).interval() == 2 * t.interval(),
        t.retransmitted_at(now).entered_at == t.entered_at,
{
    let c = t.retransmissions_count as nat;
    assert(pow2(c + 1) == 2 * pow2(c));
    assert(uac::TIMER_T1 * pow2(c + 1) == 2 * (uac::TIMER_T1 * pow2(c))) by (nonlinear_arith)
        requires
            pow2(c + 1) == 2 * pow2(c),
    ;
}

/// Retransmissions of a server's final response wait between `G` and `T2`,
/// and never less than the time before.
pub proof fn law_response_retransmission_interval_bounded(c: uas_invite::Completed, now: u64)
    requires
        c.retransmissions_count < 255,
    ensures
        uas_invite::TIMER_G <= c.interval() <= uas_invite::TIMER_T2,
        c.retransmitted_at(now).interval() >= c.interval(),
{
    uas_invite::lemma_interval_at_least_g(c);
    let n = c.retransmissions_count as nat;
    assert(pow2(n + 1) == 2 * pow2(n));
    assert(uas_invite::TIMER_G * pow2(n + 1) >= uas_invite::TIMER_G * pow2(n)) by (nonlinear_arith)
        requires
            pow2(n + 1) == 2 * pow2(n),
    ;
}

/// Once timer F fires, a client non-INVITE transaction ends timed out and
/// sends nothing more.
pub proof fn law_uac_timeout_stops_retransmission(t: uac::Trying, request: rsip::Request, now: u64)
    requires
        t.timed_out_at(now),
    ensures
        uac::tick(uac::TrxState::Trying(t), request, now)
            == (uac::TrxState::Terminated(uac::Terminated::TimedOut { response: None, entered_at: now }), Seq::<TrxAction>::empty()),
{
}

/// A server INVITE transaction that sent a non-2xx final response is
/// confirmed by the ACK, and absorbs further ACKs without asking anything.
pub proof fn law_uas_ack_confirms(c: uas_invite::Completed, kept: rsip::Response, ack: rsip::Request, now: u64, later: u64)
    requires
        request_method_of(ack) == Method::Ack,
    ensures
        uas_invite::on_request(uas_invite::TrxState::Completed(c), kept, ack, now)
            == (uas_invite::TrxState::Confirmed(uas_invite::Confirmed { request: ack, entered_at: now }), Seq::<TrxAction>::empty()),
        uas_invite::on_request(uas_invite::TrxState::Confirmed(uas_invite::Confirmed { request: ack, entered_at: now }), kept, ack, later).1
            == Seq::<TrxAction>::empty(),
{
}

/// Every response that reaches a client INVITE transaction in `Calling`
/// or `Proceeding` is handed to the user.
pub proof fn law_uac_invite_passes_responses_to_user(state: uac_invite::TrxState, response: rsip::Response, now: u64)
    requires
        state is Calling || state is Proceeding,
    ensures
        uac_invite::on_response(state, response, now).1[0] == TrxAction::ResponseToTu(response),
{
}

/// After a transaction is added, the layer holds a transaction with its id,
/// and every id held before is still held.
pub proof fn law_insert_then_held(states: Seq<TrxStateSm>, sm: TrxStateSm)
    ensures
        ids_of(inserted(states, sm)).contains(sm.trx_id()),
        forall|id: Seq<char>| ids_of(states).contains(id) ==> ids_of(inserted(states, sm)).contains(id),
{
    let after = inserted(states, sm);
    if ids_of(states).contains(sm.trx_id()) {
        let i = ids_of(states).index_of(sm.trx_id());
        assert(ids_of(after)[i] == sm.trx_id());
        assert forall|id: Seq<char>| ids_of(states).contains(id) implies ids_of(after).contains(id) by {
            let k = choose|k: int| 0 <= k < ids_of(states).len() && ids_of(states)[k] == id;
            if k == i {
                assert(ids_of(after)[i] == sm.trx_id());
            } else {
                assert(ids_of(after)[k] == id);
            }
        }
    } else {
        assert(ids_of(after)[states.len() as int] == sm.trx_id());
        assert forall|id: Seq<char>| ids_of(states).contains(id) implies ids_of(after).contains(id) by {
            let k = choose|k: int| 0 <= k < ids_of(states).len() && ids_of(states)[k] == id;
            assert(ids_of(after)[k] == id);
        }
    }
}

/// A response whose transaction the layer does not hold is answered
/// `NotFound` and changes nothing.
pub proof fn law_unknown_transaction_not_found(states: Seq<TrxStateSm>, response: rsip::Response, now: u64)
    requires
        response_via_parses(response),
        response_branch(response) matches Some(id) && !ids_of(states).contains(id),
    ensures
        response_outcome(states, response, now)
            == (states, Err::<Seq<TrxAction>, ServerErrorKind>(ServerErrorKind::Transaction(TransactionError::NotFound))),
{
}

/// Once a client INVITE transaction has seen a final failure, a
/// retransmission of such a response is acknowledged again but not handed
/// to the user a second time.
pub proof fn law_uac_invite_failure_reaches_user_once(c: uac_invite::Completed, response: rsip::Response, now: u64)
    requires
        kind_rank(response_kind(response)) > kind_rank(StatusCodeKind::Successful),
    ensures
        uac_invite::on_response(uac_invite::TrxState::Completed(c), response, now)
            == (uac_invite::TrxState::Completed(uac_invite::Completed { entered_at: now }), seq![TrxAction::SendAckFor(response)]),
{
}

/// Once timer B fires, a client INVITE transaction ends timed out and sends
/// nothing more.
pub proof fn law_uac_invite_timeout_stops_retransmission(c: uac_invite::Calling, request: rsip::Request, now: u64)
    requires
        c.timers().timed_out_at(now),
    ensures
        uac_invite::tick(uac_invite::TrxState::Calling(c), request, now)
            == (uac_invite::TrxState::Terminated(uac_invite::Terminated::TimedOut { entered_at: now }), Seq::<TrxAction>::empty()),
{
}

/// A retransmitted INVITE reaching a server INVITE transaction that has not
/// been acknowledged gets the last response again.
pub proof fn law_uas_invite_repeats_last_response(state: uas_invite::TrxState, kept: rsip::Response, invite: rsip::Request, now: u64)
    requires
        request_method_of(invite) == Method::Invite,
        state is Proceeding || state is Completed || state is Accepted,
    ensures
        uas_invite::on_request(state, kept, invite, now) == (state, seq![TrxAction::SendResponse(kept)]),
{
}

/// A timer tick keeps every transaction under its id: the layer holds the
/// same ids, in the same order, after `check_transactions`.
pub proof fn law_tick_keeps_ids(before: Seq<TrxStateSm>, after: Seq<TrxStateSm>, now: u64)
    requires
        after.len() == before.len(),
        forall|i: int| 0 <= i < before.len() ==> after[i] == after_tick(before[i], now).0,
    ensures
        ids_of(after) == ids_of(before),
{
    assert forall|i: int| 0 <= i < before.len() implies ids_of(after)[i] == ids_of(before)[i] by {
        assert(after[i] == after_tick(before[i], now).0);
    }
    assert(ids_of(after) =~= ids_of(before));
}


/// A client INVITE transaction that is calling or proceeding and receives a
/// 2xx hands it to the user and enters Accepted at that moment; nothing is
/// sent (RFC 6026: the 2xx is acknowledged by the user, not the transaction).
pub proof fn law_uac_invite_2xx_accepts(state: uac_invite::TrxState, response: rsip::Response, now: u64)
    requires
        state is Calling || state is Proceeding,
        200 <= response_status_code(response) < 300,
    ensures
        uac_invite::on_response(state, response, now) == (
            uac_invite::TrxState::Accepted(uac_invite::Accepted { entered_at: now }),
            seq![TrxAction::ResponseToTu(response)],
        ),
{
}

/// A client INVITE transaction that is calling and receives a 1xx hands it to
/// the user and starts proceeding at that moment; one that is proceeding
/// hands it on and stays as it is.
pub proof fn law_uac_invite_1xx_proceeds(state: uac_invite::TrxState, response: rsip::Response, now: u64)
    requires
        state is Calling || state is Proceeding,
        100 <= response_status_code(response) < 200,
    ensures
        uac_invite::on_response(state, response, now).1 == seq![TrxAction::ResponseToTu(response)],
        state is Calling ==> uac_invite::on_response(state, response, now).0
            == uac_invite::TrxState::Proceeding(uac_invite::Proceeding { entered_at: now }),
        state is Proceeding ==> uac_invite::on_response(state, response, now).0 == state,
{
}

/// A client INVITE transaction that receives a final failure (300 and up)
/// while calling or proceeding hands it to the user and completes at that
/// moment; from Proceeding it also sends the ACK. In Completed a
/// retransmitted failure is acknowledged again and not handed on.
pub proof fn law_uac_invite_failure_completes(state: uac_invite::TrxState, response: rsip::Response, now: u64)
    requires
        300 <= response_status_code(response),
    ensures
        state is Calling ==> uac_invite::on_response(state, response, now) == (
            uac_invite::TrxState::Completed(uac_invite::Completed { entered_at: now }),
            seq![TrxAction::ResponseToTu(response)],
        ),
        state is Proceeding ==> uac_invite::on_response(state, response, now) == (
            uac_invite::TrxState::Completed(uac_invite::Completed { entered_at: now }),
            seq![TrxAction::ResponseToTu(response), TrxAction::SendAckFor(response)],
        ),
        state is Completed ==> uac_invite::on_response(state, response, now) == (
            uac_invite::TrxState::Completed(uac_invite::Completed { entered_at: now }),
            seq![TrxAction::SendAckFor(response)],
        ),
{
}

/// An accepted client INVITE transaction hands every further 2xx to the
/// user and stays accepted.
pub proof fn law_uac_invite_accepted_passes_2xx(state: uac_invite::TrxState, response: rsip::Response, now: u64)
    requires
        state is Accepted,
        200 <= response_status_code(response) < 300,
    ensures
        uac_invite::on_response(state, response, now) == (state, seq![TrxAction::ResponseToTu(response)]),
{
}

/// A server INVITE transaction that is proceeding and is handed a 2xx sends
/// it, keeps it as its response and enters Accepted at that moment.
pub proof fn law_uas_invite_2xx_reply_accepts(state: uas_invite::TrxState, kept: rsip::Response, reply: rsip::Response, now: u64)
    requires
        state is Proceeding,
        200 <= response_status_code(reply) < 300,
    ensures
        uas_invite::on_reply(state, kept, reply, now) == (
            uas_invite::TrxState::Accepted(uas_invite::Accepted { entered_at: now }),
            reply,
            seq![TrxAction::SendResponse(reply)],
        ),
{
}

/// A server INVITE transaction that is proceeding sends every reply the
/// user hands it and keeps it: a 1xx leaves it proceeding, a failure (300
/// and up) completes it at that moment with no retransmission yet.
pub proof fn law_uas_invite_other_replies(state: uas_invite::TrxState, kept: rsip::Response, reply: rsip::Response, now: u64)
    requires
        state is Proceeding,
    ensures
        100 <= response_status_code(reply) < 200 ==> uas_invite::on_reply(state, kept, reply, now)
            == (state, reply, seq![TrxAction::SendResponse(reply)]),
        300 <= response_status_code(reply) ==> uas_invite::on_reply(state, kept, reply, now) == (
            uas_invite::TrxState::Completed(uas_invite::Completed { entered_at: now, retransmissions_count: 0, last_retransmission_at: now }),
            reply,
            seq![TrxAction::SendResponse(reply)],
        ),
{
}

/// In an accepted server INVITE transaction the ACK goes to the user and a
/// retransmitted INVITE gets the kept response again; the state stays.
/// After a failure the ACK confirms it, and later ACKs are absorbed.
pub proof fn law_uas_invite_requests(state: uas_invite::TrxState, kept: rsip::Response, request: rsip::Request, now: u64)
    ensures
        state is Accepted && request_method_of(request) == Method::Ack
            ==> uas_invite::on_request(state, kept, request, now) == (state, seq![TrxAction::RequestToTu(request)]),
        (state is Proceeding || state is Completed || state is Accepted) && request_method_of(request) == Method::Invite
            ==> uas_invite::on_request(state, kept, request, now) == (state, seq![TrxAction::SendResponse(kept)]),
        state is Completed && request_method_of(request) == Method::Ack
            ==> uas_invite::on_request(state, kept, request, now) == (
                uas_invite::TrxState::Confirmed(uas_invite::Confirmed { request, entered_at: now }),
                Seq::<TrxAction>::empty(),
            ),
        state is Confirmed && request_method_of(request) == Method::Ack
            ==> uas_invite::on_request(state, kept, request, now) == (state, Seq::<TrxAction>::empty()),
{
}

/// A client non-INVITE transaction that is trying or proceeding and receives
/// a final response (200 and up) hands it to the user and completes at that
/// moment, holding the response; a 1xx is handed on and it proceeds.
pub proof fn law_uac_final_response_completes(state: uac::TrxState, response: rsip::Response, now: u64)
    requires
        state is Trying || state is Proceeding,
    ensures
        200 <= response_status_code(response) ==> uac::on_response(state, response, now) == (
            uac::TrxState::Completed(uac::Completed { response, entered_at: now }),
            seq![TrxAction::ResponseToTu(response)],
        ),
        100 <= response_status_code(response) < 200 ==> {
            &&& uac::on_response(state, response, now).0 is Proceeding
            &&& uac::on_response(state, response, now).1 == seq![TrxAction::ResponseToTu(response)]
        },
{
}


/// A calling client INVITE transaction times out once 32 s (timer B) have
/// passed since it started; before that a tick more than `500 * 2^n` ms after
/// the last (re)transmission, `n` retransmissions in, sends the INVITE again
/// and records the retransmission at that moment; other ticks change nothing.
pub proof fn law_uac_invite_calling_timers(c: uac_invite::Calling, request: rsip::Request, now: u64)
    ensures
        elapsed(now, c.entered_at) >= 32000 ==> uac_invite::tick(uac_invite::TrxState::Calling(c), request, now) == (
            uac_invite::TrxState::Terminated(uac_invite::Terminated::TimedOut { entered_at: now }),
            Seq::<TrxAction>::empty(),
        ),
        elapsed(now, c.entered_at) < 32000 && elapsed(now, c.last_retransmission_at) > 500 * pow2(c.retransmissions_count as nat)
            ==> uac_invite::tick(uac_invite::TrxState::Calling(c), request, now) == (
                uac_invite::TrxState::Calling(uac_invite::Calling {
                    entered_at: c.entered_at,
                    retransmissions_count: (c.retransmissions_count + 1) as u8,
                    last_retransmission_at: now,
                }),
                seq![TrxAction::SendRequest(request)],
            ),
        elapsed(now, c.entered_at) < 32000 && elapsed(now, c.last_retransmission_at) <= 500 * pow2(c.retransmissions_count as nat)
            ==> uac_invite::tick(uac_invite::TrxState::Calling(c), request, now)
                == (uac_invite::TrxState::Calling(c), Seq::<TrxAction>::empty()),
{
}

/// A completed client INVITE transaction ends (as expected) more than 32 s
/// (timer D) after it completed, an accepted one more than 32 s (timer M)
/// after the 2xx; a proceeding one waits for responses and ticks do nothing.
pub proof fn law_uac_invite_final_timers(state: uac_invite::TrxState, request: rsip::Request, now: u64)
    ensures
        state matches uac_invite::TrxState::Completed(c) ==> uac_invite::tick(state, request, now) == if elapsed(now, c.entered_at) > 32000 {
            (uac_invite::TrxState::Terminated(uac_invite::Terminated::Expected { entered_at: now }), Seq::<TrxAction>::empty())
        } else {
            (state, Seq::<TrxAction>::empty())
        },
        state matches uac_invite::TrxState::Accepted(a) ==> uac_invite::tick(state, request, now) == if elapsed(now, a.entered_at) > 32000 {
            (uac_invite::TrxState::Terminated(uac_invite::Terminated::Expected { entered_at: now }), Seq::<TrxAction>::empty())
        } else {
            (state, Seq::<TrxAction>::empty())
        },
        state is Proceeding ==> uac_invite::tick(state, request, now) == (state, Seq::<TrxAction>::empty()),
{
}

/// A completed server INVITE transaction gives up 32 s (timer H) after it
/// completed; before that a tick more than `min(500 * 2^n, 4000)` ms after
/// the last sending resends the kept response and records it at that moment.
pub proof fn law_uas_invite_completed_timers(c: uas_invite::Completed, kept: rsip::Response, now: u64)
    ensures
        elapsed(now, c.entered_at) >= 32000 ==> uas_invite::tick(uas_invite::TrxState::Completed(c), kept, now) == (
            uas_invite::TrxState::Terminated(uas_invite::Terminated::TimedOut { response: None, entered_at: now }),
            Seq::<TrxAction>::empty(),
        ),
        elapsed(now, c.entered_at) < 32000
            && elapsed(now, c.last_retransmission_at) > uas_invite::min_nat((500 * pow2(c.retransmissions_count as nat)) as nat, 4000)
            ==> uas_invite::tick(uas_invite::TrxState::Completed(c), kept, now) == (
                uas_invite::TrxState::Completed(uas_invite::Completed {
                    entered_at: c.entered_at,
                    retransmissions_count: (c.retransmissions_count + 1) as u8,
                    last_retransmission_at: now,
                }),
                seq![TrxAction::SendResponse(kept)],
            ),
{
}

} // verus!
