//! What holds of every delivery and of every session.

use vstd::prelude::*;
use vstd::utf8::encode_utf8;
use crate::client::{
    dispatched, next_state, planned, ConnectEvent, DeliveryPlanModel, PublicationModel,
    SessionState, Settlement,
};
use crate::command::{api_kind, decoded, target_key_of, CommandKind, CommandModel};
use crate::json::{json_parsed, member_of, JsonModel};
use crate::message::response_text;
use crate::text::{decimal, lemma_decimal_injective};

verus! {

/// A well-formed envelope of any of the three commands, with a valid target
/// and text, leads to the bot action it names, to an acknowledgment, and,
/// where the delivery names a reply-to queue, to the one reply `{"ok":true}`
/// on the default exchange, routed to that queue.
pub proof fn lemma_valid_command_is_answered_and_acknowledged(
    auth_code: i32,
    body: Seq<u8>,
    reply_to: Option<Seq<char>>,
    correlation_id: Option<Seq<char>>,
    kind: CommandKind,
    target: i64,
    message: Seq<char>,
)
    requires
        json_parsed(body) matches Some(document) && (member_of(document, "api"@) matches Some(
            JsonModel::Text(api),
        ) && api_kind(api) == Some(kind)) && (member_of(document, "params"@) matches Some(params)
            && member_of(params, target_key_of(kind)) == Some(JsonModel::Integer(target))
            && member_of(params, "message"@) == Some(JsonModel::Text(message))),
    ensures
        planned(dispatched(auth_code, body), reply_to, correlation_id) == (DeliveryPlanModel {
            action: Some((auth_code, CommandModel { kind, target, message })),
            reply: match reply_to {
                Some(queue) => Some(
                    PublicationModel {
                        exchange: ""@,
                        routing_key: queue,
                        correlation_id,
                        body: encode_utf8(response_text(true)),
                    },
                ),
                None => None,
            },
            settlement: Settlement::Acknowledge,
        }),
{
}

/// A body that names none of the three commands is rejected; nothing is
/// sent and nothing is replied.
pub proof fn lemma_unknown_api_is_rejected(
    auth_code: i32,
    body: Seq<u8>,
    reply_to: Option<Seq<char>>,
    correlation_id: Option<Seq<char>>,
)
    requires
        json_parsed(body) matches Some(document) ==> (member_of(document, "api"@) matches Some(
            JsonModel::Text(api),
        ) ==> api_kind(api) is None),
    ensures
        planned(dispatched(auth_code, body), reply_to, correlation_id) == (DeliveryPlanModel {
            action: None,
            reply: None,
            settlement: Settlement::Reject,
        }),
{
}

/// A command without `params`, or whose `params` holds no `message` or one
/// that is not a string, is rejected; nothing is sent and nothing is replied.
pub proof fn lemma_missing_message_is_rejected(
    auth_code: i32,
    body: Seq<u8>,
    reply_to: Option<Seq<char>>,
    correlation_id: Option<Seq<char>>,
)
    requires
        json_parsed(body) matches Some(document) ==> (member_of(document, "params"@) matches Some(
            params,
        ) ==> !(member_of(params, "message"@) matches Some(JsonModel::Text(_)))),
    ensures
        planned(dispatched(auth_code, body), reply_to, correlation_id) == (DeliveryPlanModel {
            action: None,
            reply: None,
            settlement: Settlement::Reject,
        }),
{
}

/// Without a reply-to queue nothing is replied, whatever the body; the
/// delivery is acknowledged exactly when the body is a command.
pub proof fn lemma_no_reply_without_reply_to(
    auth_code: i32,
    body: Seq<u8>,
    correlation_id: Option<Seq<char>>,
)
    ensures
        planned(dispatched(auth_code, body), None, correlation_id).reply is None,
        planned(dispatched(auth_code, body), None, correlation_id).settlement
            == Settlement::Acknowledge <==> decoded(body) is Ok,
{
}

/// A reply carries the correlation identifier of its delivery, or none where
/// the delivery has none.
pub proof fn lemma_reply_keeps_correlation(
    auth_code: i32,
    body: Seq<u8>,
    reply_to: Option<Seq<char>>,
    correlation_id: Option<Seq<char>>,
)
    ensures
        planned(dispatched(auth_code, body), reply_to, correlation_id).reply matches Some(reply)
            ==> reply.correlation_id == correlation_id,
{
}

/// A reply is made only for an acknowledged delivery, and a rejected one
/// leads to no bot action.
pub proof fn lemma_rejection_does_nothing(
    auth_code: i32,
    body: Seq<u8>,
    reply_to: Option<Seq<char>>,
    correlation_id: Option<Seq<char>>,
)
    ensures
        ({
            let plan = planned(dispatched(auth_code, body), reply_to, correlation_id);
            plan.settlement == Settlement::Reject ==> plan.action is None && plan.reply is None
        }),
{
}

/// The queues of two accounts are bound under different keys, so that a
/// command routed with one account's key reaches no other account's queue.
pub proof fn lemma_accounts_are_bound_apart(qq: i64, other: i64)
    requires
        qq != other,
    ensures
        decimal(qq as int) != decimal(other as int),
{
    if decimal(qq as int) == decimal(other as int) {
        lemma_decimal_injective(qq as int, other as int);
    }
}

/// A session that consumes or has failed stays so, whatever happens.
pub proof fn lemma_final_states_are_kept(state: SessionState, event: ConnectEvent)
    requires
        state == SessionState::Consuming || state == SessionState::Failed,
    ensures
        next_state(state, event) == state,
{
}

/// A session comes to consume only from `TopologyReady`, by the completed
/// topology.
pub proof fn lemma_consuming_needs_topology(state: SessionState, event: ConnectEvent)
    requires
        state != SessionState::Consuming,
        next_state(state, event) == SessionState::Consuming,
    ensures
        state == SessionState::TopologyReady,
        event == ConnectEvent::TopologyDeclared,
{
}

} // verus!
