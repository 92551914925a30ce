//! What the controller's HTTP surface answers: for each request the reply
//! or the rejection, as plain values. Sockets and routing are the caller's.

use vstd::prelude::*;
use vstd::string::StringExecFns;
use crate::controller::{Controller, ControllerError};
use crate::json::{empty_object, insert_member, json_of, text_value, with_member, Json};
use crate::ledger::{LedgerError, Transition};
use crate::tgp::{MessageView, TgpMessage};

verus! {

/// The status that every rejection carries: a client error.
pub const BAD_REQUEST: u16 = 400;

/// A request that was turned down: the HTTP status, a code for machines
/// and a message for people.
#[derive(Debug, Clone, PartialEq, Eq)]
pub struct Rejection {
    pub status: u16,
    pub code: String,
    pub message: String,
}

/// The code of a ledger error.
pub open spec fn ledger_code(e: LedgerError) -> Seq<char> {
    match e {
        LedgerError::UnknownAccount(_) => "unknown_account"@,
        LedgerError::AccountExists(_) => "account_exists"@,
        LedgerError::UnknownEscrow(_) => "unknown_escrow"@,
        LedgerError::WrongActor(_) => "wrong_actor"@,
        LedgerError::Transition(_) => "invalid_transition"@,
        LedgerError::InsufficientFunds(_) => "insufficient_funds"@,
    }
}

/// The message of a ledger error.
pub open spec fn ledger_message(e: LedgerError) -> Seq<char> {
    match e {
        LedgerError::UnknownAccount(_) => "no account has this address"@,
        LedgerError::AccountExists(_) => "the address has an account already"@,
        LedgerError::UnknownEscrow(_) => "no escrow has this identity"@,
        LedgerError::WrongActor(_) => "the action is not this party's to take"@,
        LedgerError::Transition(_) => "the escrow's state does not admit the action"@,
        LedgerError::InsufficientFunds(_) => "the account cannot cover the deposit"@,
    }
}

/// The code of a controller error.
pub open spec fn error_code(e: ControllerError) -> Seq<char> {
    match e {
        ControllerError::WrongPhase(_) => "wrong_phase"@,
        ControllerError::PolicyRejected(_) => "policy_rejected"@,
        ControllerError::NoSuchSession => "no_such_session"@,
        ControllerError::SessionExists => "session_exists"@,
        ControllerError::Ledger(e) => ledger_code(e),
    }
}

/// The message of a controller error. A phase error says what was
/// expected, and a policy rejection names the offending field.
pub open spec fn error_message(e: ControllerError) -> Seq<char> {
    match e {
        ControllerError::WrongPhase(expected) => "wrong TGP phase for this handler: "@
            + expected@,
        ControllerError::PolicyRejected(rejection) => "policy rejected the request: "@
            + rejection.field.spec_name(),
        ControllerError::NoSuchSession => "no such session"@,
        ControllerError::SessionExists => "a session for this query exists already"@,
        ControllerError::Ledger(e) => ledger_message(e),
    }
}

/// The code and the message of a ledger error.
fn describe_ledger(e: &LedgerError) -> (r: (&'static str, &'static str))
    ensures
        r.0@ == ledger_code(*e),
        r.1@ == ledger_message(*e),
{
    match e {
        LedgerError::UnknownAccount(_) => ("unknown_account", "no account has this address"),
        LedgerError::AccountExists(_) => ("account_exists", "the address has an account already"),
        LedgerError::UnknownEscrow(_) => ("unknown_escrow", "no escrow has this identity"),
        LedgerError::WrongActor(_) => ("wrong_actor", "the action is not this party's to take"),
        LedgerError::Transition(_) => (
            "invalid_transition",
            "the escrow's state does not admit the action",
        ),
        LedgerError::InsufficientFunds(_) => (
            "insufficient_funds",
            "the account cannot cover the deposit",
        ),
    }
}

/// The rejection that a controller error surfaces as: status 400, with the
/// error's code and message.
pub fn rejection(e: &ControllerError) -> (r: Rejection)
    ensures
        r.status == BAD_REQUEST,
        r.code@ == error_code(*e),
        r.message@ == error_message(*e),
{
    let (code, message) = match e {
        ControllerError::WrongPhase(expected) => (
            String::from_str("wrong_phase"),
            String::from_str("wrong TGP phase for this handler: ").concat(expected.as_str()),
        ),
        ControllerError::PolicyRejected(rejection) => (
            String::from_str("policy_rejected"),
            String::from_str("policy rejected the request: ").concat(rejection.field.name()),
        ),
        ControllerError::NoSuchSession => (
            String::from_str("no_such_session"),
            String::from_str("no such session"),
        ),
        ControllerError::SessionExists => (
            String::from_str("session_exists"),
            String::from_str("a session for this query exists already"),
        ),
        ControllerError::Ledger(e) => {
            let (code, message) = describe_ledger(e);
            (String::from_str(code), String::from_str(message))
        },
    };
    Rejection { status: BAD_REQUEST, code, message }
}

/// The id of a message, whatever its phase.
pub open spec fn message_id(message: MessageView) -> Seq<char> {
    match message {
        MessageView::Query { id, .. } => id,
        MessageView::Offer { id, .. } => id,
        MessageView::Settle { id, .. } => id,
        MessageView::Error { id, .. } => id,
    }
}

/// The failure notice that tells the sender of `request` why it was turned
/// down: an `ERROR` message with the rejection's code and message, which
/// correlates to the request by its id.
pub open spec fn error_reply_for(request: MessageView, code: Seq<char>, message: Seq<char>)
    -> MessageView {
    MessageView::Error {
        id: "error-"@ + message_id(request),
        code,
        message,
        correlation_id: Some(message_id(request)),
    }
}

/// The failure notice for a request that was turned down, as
/// [`error_reply_for`] describes.
pub fn error_reply(request: &TgpMessage, rejection: &Rejection) -> (r: TgpMessage)
    ensures
        r@ == error_reply_for(request@, rejection.code@, rejection.message@),
{
    let id = match request {
        TgpMessage::Query { id, .. } => id,
        TgpMessage::Offer { id, .. } => id,
        TgpMessage::Settle { id, .. } => id,
        TgpMessage::Error { id, .. } => id,
    };
    TgpMessage::Error {
        id: String::from_str("error-").concat(id.as_str()),
        code: rejection.code.clone(),
        message: rejection.message.clone(),
        correlation_id: Some(id.clone()),
    }
}

/// The answer to `GET /healthz`.
pub fn healthz() -> (r: &'static str)
    ensures
        r@ == "ok"@,
{
    "ok"
}

/// The answer to `POST /tgp/query`: the offer for a query that the
/// controller accepts, and a rejection with status 400 otherwise. A body of
/// another phase is rejected here, before the controller sees it.
pub fn handle_tgp_query(controller: &Controller, msg: &TgpMessage) -> (r: Result<
    TgpMessage,
    Rejection,
>)
    ensures
        match msg@ {
            MessageView::Query { .. } => match controller.answer(msg@) {
                Ok(offer) => r matches Ok(found) && found@ == offer,
                Err(e) => r matches Err(rejection) && rejection.status == BAD_REQUEST
                    && rejection.code@ == error_code(e) && rejection.message@ == error_message(e),
            },
            _ => r matches Err(rejection) && rejection.status == BAD_REQUEST && rejection.code@
                == "wrong_phase"@ && rejection.message@
                == "expected TGP message with phase=QUERY"@,
        },
{
    match msg {
        TgpMessage::Query { .. } => match controller.handle_query(msg) {
            Ok(offer) => Ok(offer),
            Err(e) => Err(rejection(&e)),
        },
        _ => Err(
            Rejection {
                status: BAD_REQUEST,
                code: String::from_str("wrong_phase"),
                message: String::from_str("expected TGP message with phase=QUERY"),
            },
        ),
    }
}

/// The answer to `POST /tgp/settle`: what the report led to where the
/// controller reconciled it, and a rejection with status 400 otherwise. A
/// body of another phase is rejected here, before the controller sees it.
/// A rejected request changes nothing.
pub fn handle_tgp_settle(controller: &mut Controller, msg: &TgpMessage, now: u64) -> (r: Result<
    Transition,
    Rejection,
>)
    requires
        old(controller).wf(),
    ensures
        final(controller).wf(),
        final(controller).config == old(controller).config,
        match msg@ {
            MessageView::Settle { query_or_offer_id, success, .. } => match old(
                controller,
            )@.reconciled(
                old(controller).config.policy@,
                old(controller).config.offer_fees_bps,
                query_or_offer_id,
                success,
                now,
            ) {
                Ok((next, transition)) => final(controller)@ == next && r == Ok::<
                    Transition,
                    Rejection,
                >(transition) && old(controller)@.led_to(
                    query_or_offer_id,
                    success,
                    now,
                    next,
                    transition,
                ),
                Err(e) => final(controller)@ == old(controller)@ && (r matches Err(rejection)
                    && rejection.status == BAD_REQUEST && rejection.code@ == error_code(e)
                    && rejection.message@ == error_message(e)),
            },
            _ => final(controller)@ == old(controller)@ && (r matches Err(rejection)
                && rejection.status == BAD_REQUEST && rejection.code@ == "wrong_phase"@
                && rejection.message@ == "expected TGP message with phase=SETTLE"@),
        },
{
    match msg {
        TgpMessage::Settle { .. } => match controller.handle_settle(msg, now) {
            Ok(transition) => Ok(transition),
            Err(e) => Err(rejection(&e)),
        },
        _ => Err(
            Rejection {
                status: BAD_REQUEST,
                code: String::from_str("wrong_phase"),
                message: String::from_str("expected TGP message with phase=SETTLE"),
            },
        ),
    }
}

/// The body that acknowledges a settlement report:
/// `{"status": "ok", "phase": "SETTLE"}`.
pub open spec fn settle_ack_json() -> Json {
    Json::Object(
        with_member(
            with_member(Seq::<(Seq<char>, Json)>::empty(), "status"@, Json::Text("ok"@)),
            "phase"@,
            Json::Text("SETTLE"@),
        ),
    )
}

/// The body that acknowledges a settlement report.
pub fn settle_ack() -> (r: serde_json::Value)
    ensures
        json_of(r) == settle_ack_json(),
{
    let mut body = empty_object();
    insert_member(&mut body, "status", text_value("ok"));
    insert_member(&mut body, "phase", text_value("SETTLE"));
    body
}

} // verus!
