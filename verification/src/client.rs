//! The broker-facing bridge: command dispatch, replies and settlement, event
//! publication, the session's life cycle and its topology.
//!
//! Nothing here touches the network. Each function returns what is to be
//! done (a bot action, a publication, an acknowledgment) and the caller
//! carries it out.

use vstd::prelude::*;
use vstd::string::*;
use vstd::utf8::encode_utf8;
use crate::command::{
    assemble, assembled, decoded, find_integer, find_text, integer_member, resolve, text_member,
    Command, CommandError, CommandKind, CommandModel,
};
use crate::json::{is_object, json_content, member, parse};
use crate::message::{
    response_text, SendDiscussMessageResponse, SendGroupMessageResponse,
    SendPrivateMessageResponse,
};
use crate::text::{decimal, decimal_text};

verus! {

/// A send that the bot engine is to perform.
#[derive(Clone, Debug)]
pub struct BotAction {
    pub auth_code: i32,
    pub command: Command,
}

/// A command that was accepted: the action it asks for and the response body.
#[derive(Clone, Debug)]
pub struct Dispatched {
    pub action: BotAction,
    pub response: Vec<u8>,
}

/// An accepted command, as plain values.
pub struct DispatchedModel {
    pub auth_code: i32,
    pub command: CommandModel,
    pub response: Seq<u8>,
}

impl View for Dispatched {
    type V = DispatchedModel;

    open spec fn view(&self) -> DispatchedModel {
        DispatchedModel {
            auth_code: self.action.auth_code,
            command: self.action.command@,
            response: self.response@,
        }
    }
}

/// A message to hand to the broker.
#[derive(Clone, Debug)]
pub struct Publication {
    pub exchange: String,
    pub routing_key: String,
    pub correlation_id: Option<String>,
    pub body: Vec<u8>,
}

/// A publication, as plain values.
pub struct PublicationModel {
    pub exchange: Seq<char>,
    pub routing_key: Seq<char>,
    pub correlation_id: Option<Seq<char>>,
    pub body: Seq<u8>,
}

/// An optional text, as an optional sequence of characters.
pub open spec fn text_of(text: Option<String>) -> Option<Seq<char>> {
    match text {
        Some(s) => Some(s@),
        None => None,
    }
}

impl View for Publication {
    type V = PublicationModel;

    open spec fn view(&self) -> PublicationModel {
        PublicationModel {
            exchange: self.exchange@,
            routing_key: self.routing_key@,
            correlation_id: text_of(self.correlation_id),
            body: self.body@,
        }
    }
}

/// How a delivery is settled with the broker.
#[derive(Clone, Copy, Debug, PartialEq, Eq, Structural)]
pub enum Settlement {
    Acknowledge,
    Reject,
}

/// Everything that one delivery leads to, in the order in which it is to be
/// done: the bot action, the reply, the settlement.
#[derive(Clone, Debug)]
pub struct DeliveryPlan {
    pub action: Option<BotAction>,
    pub reply: Option<Publication>,
    pub settlement: Settlement,
}

/// A delivery plan, as plain values.
pub struct DeliveryPlanModel {
    pub action: Option<(i32, CommandModel)>,
    pub reply: Option<PublicationModel>,
    pub settlement: Settlement,
}

impl View for DeliveryPlan {
    type V = DeliveryPlanModel;

    open spec fn view(&self) -> DeliveryPlanModel {
        DeliveryPlanModel {
            action: match self.action {
                Some(a) => Some((a.auth_code, a.command@)),
                None => None,
            },
            reply: match self.reply {
                Some(p) => Some(p@),
                None => None,
            },
            settlement: self.settlement,
        }
    }
}

/// The outcome of a dispatch, as plain values.
pub open spec fn outcome_of(outcome: Result<Dispatched, CommandError>) -> Result<
    DispatchedModel,
    CommandError,
> {
    match outcome {
        Ok(d) => Ok(d@),
        Err(e) => Err(e),
    }
}

/// What becomes of a decoding for the session `auth_code`: a command is
/// accepted with the response `{"ok":true}`, a refusal stays what it is.
pub open spec fn answered(auth_code: i32, command: Result<CommandModel, CommandError>) -> Result<
    DispatchedModel,
    CommandError,
> {
    match command {
        Ok(command) => Ok(
            DispatchedModel { auth_code, command, response: encode_utf8(response_text(true)) },
        ),
        Err(e) => Err(e),
    }
}

/// What dispatching `body` for the session `auth_code` gives.
pub open spec fn dispatched(auth_code: i32, body: Seq<u8>) -> Result<
    DispatchedModel,
    CommandError,
> {
    answered(auth_code, decoded(body))
}

/// The reply to a delivery: none without a reply-to queue; else the response
/// on the default exchange, routed to that queue, with the delivery's
/// correlation identifier.
pub open spec fn reply_for(
    response: Seq<u8>,
    reply_to: Option<Seq<char>>,
    correlation_id: Option<Seq<char>>,
) -> Option<PublicationModel> {
    match reply_to {
        Some(queue) => Some(
            PublicationModel { exchange: ""@, routing_key: queue, correlation_id, body: response },
        ),
        None => None,
    }
}

/// The plan for a delivery, given how its dispatch went.
pub open spec fn planned(
    outcome: Result<DispatchedModel, CommandError>,
    reply_to: Option<Seq<char>>,
    correlation_id: Option<Seq<char>>,
) -> DeliveryPlanModel {
    match outcome {
        Ok(d) => DeliveryPlanModel {
            action: Some((d.auth_code, d.command)),
            reply: reply_for(d.response, reply_to, correlation_id),
            settlement: Settlement::Acknowledge,
        },
        Err(_) => DeliveryPlanModel { action: None, reply: None, settlement: Settlement::Reject },
    }
}

/// Turns the outcome of a dispatch into the plan for its delivery.
pub fn settle(
    outcome: Result<Dispatched, CommandError>,
    reply_to: Option<String>,
    correlation_id: Option<String>,
) -> (plan: DeliveryPlan)
    ensures
        plan@ == planned(outcome_of(outcome), text_of(reply_to), text_of(correlation_id)),
{
    match outcome {
        Ok(d) => {
            let reply = match reply_to {
                Some(queue) => Some(
                    Publication {
                        exchange: String::from_str(""),
                        routing_key: queue,
                        correlation_id,
                        body: d.response,
                    },
                ),
                None => None,
            };
            DeliveryPlan { action: Some(d.action), reply, settlement: Settlement::Acknowledge }
        },
        Err(_) => DeliveryPlan { action: None, reply: None, settlement: Settlement::Reject },
    }
}

/// The consumer of one session's command queue.
#[derive(Clone, Debug)]
pub struct RPCSubscriber {
    pub auth_code: i32,
}

impl RPCSubscriber {
    /// Decodes a command and answers it: the action for the bot engine and
    /// the response body, or the reason why the body is no command.
    pub fn dispatch(&self, body: &[u8]) -> (r: Result<Dispatched, CommandError>)
        ensures
            outcome_of(r) == dispatched(self.auth_code, body@),
    {
        let document = match parse(body) {
            Some(document) => document,
            None => {
                return Err(CommandError::NotJson);
            },
        };
        let kind = match resolve(is_object(&document), find_text(&document, "api")) {
            Ok(kind) => kind,
            Err(e) => {
                return Err(e);
            },
        };
        let params = match member(&document, "params") {
            Some(params) => params,
            None => {
                return Err(CommandError::ParamsMissing(kind));
            },
        };
        match kind {
            CommandKind::SendPrivateMessage => self.send_private_message(params),
            CommandKind::SendGroupMessage => self.send_group_message(params),
            CommandKind::SendDiscussMessage => self.send_discuss_message(params),
        }
    }

    /// Answers a request for a private message to the account `to`.
    fn send_private_message(&self, params: &serde_json::Value) -> (r: Result<
        Dispatched,
        CommandError,
    >)
        ensures
            outcome_of(r) == answered(
                self.auth_code,
                assembled(
                    CommandKind::SendPrivateMessage,
                    integer_member(json_content(*params), "to"@),
                    text_member(json_content(*params), "message"@),
                ),
            ),
    {
        let command = match assemble(
            CommandKind::SendPrivateMessage,
            find_integer(params, "to"),
            find_text(params, "message"),
        ) {
            Ok(command) => command,
            Err(e) => {
                return Err(e);
            },
        };
        let response = SendPrivateMessageResponse { ok: true }.to_json();
        Ok(Dispatched { action: BotAction { auth_code: self.auth_code, command }, response })
    }

    /// Answers a request for a message to the group `group`.
    fn send_group_message(&self, params: &serde_json::Value) -> (r: Result<
        Dispatched,
        CommandError,
    >)
        ensures
            outcome_of(r) == answered(
                self.auth_code,
                assembled(
                    CommandKind::SendGroupMessage,
                    integer_member(json_content(*params), "group"@),
                    text_member(json_content(*params), "message"@),
                ),
            ),
    {
        let command = match assemble(
            CommandKind::SendGroupMessage,
            find_integer(params, "group"),
            find_text(params, "message"),
        ) {
            Ok(command) => command,
            Err(e) => {
                return Err(e);
            },
        };
        let response = SendGroupMessageResponse { ok: true }.to_json();
        Ok(Dispatched { action: BotAction { auth_code: self.auth_code, command }, response })
    }

    /// Answers a request for a message to the discussion `discuss`.
    fn send_discuss_message(&self, params: &serde_json::Value) -> (r: Result<
        Dispatched,
        CommandError,
    >)
        ensures
            outcome_of(r) == answered(
                self.auth_code,
                assembled(
                    CommandKind::SendDiscussMessage,
                    integer_member(json_content(*params), "discuss"@),
                    text_member(json_content(*params), "message"@),
                ),
            ),
    {
        let command = match assemble(
            CommandKind::SendDiscussMessage,
            find_integer(params, "discuss"),
            find_text(params, "message"),
        ) {
            Ok(command) => command,
            Err(e) => {
                return Err(e);
            },
        };
        let response = SendDiscussMessageResponse { ok: true }.to_json();
        Ok(Dispatched { action: BotAction { auth_code: self.auth_code, command }, response })
    }

    /// Handles one delivery: its body, and the reply-to queue and correlation
    /// identifier of its properties.
    pub fn on_new_delivery(
        &self,
        body: &[u8],
        reply_to: Option<String>,
        correlation_id: Option<String>,
    ) -> (plan: DeliveryPlan)
        ensures
            plan@ == planned(
                dispatched(self.auth_code, body@),
                text_of(reply_to),
                text_of(correlation_id),
            ),
    {
        settle(self.dispatch(body), reply_to, correlation_id)
    }
}

/// Where a session stands.
#[derive(Clone, Copy, Debug, PartialEq, Eq, Structural)]
pub enum SessionState {
    Uninitialized,
    Connecting,
    TopologyReady,
    Consuming,
    Failed,
}

/// What happened while a session was being brought up.
#[derive(Clone, Copy, Debug, PartialEq, Eq, Structural)]
pub enum ConnectEvent {
    /// Connection and channel are open.
    ChannelOpened,
    /// Every step of the topology succeeded.
    TopologyDeclared,
    /// A step failed.
    StepFailed,
}

/// What the caller is to do next.
#[derive(Clone, Copy, Debug, PartialEq, Eq, Structural)]
pub enum SessionAction {
    Nothing,
    ReportConfigError,
    OpenChannel,
    DeclareTopology,
    ReportConnected,
    ReportFailure,
}

/// The state that follows `state` on `event`. `Consuming` and `Failed` are
/// never left, and an event that does not fit the state changes nothing.
pub open spec fn next_state(state: SessionState, event: ConnectEvent) -> SessionState {
    match (state, event) {
        (SessionState::Connecting, ConnectEvent::ChannelOpened) => SessionState::TopologyReady,
        (SessionState::TopologyReady, ConnectEvent::TopologyDeclared) => SessionState::Consuming,
        (SessionState::Connecting, ConnectEvent::StepFailed) => SessionState::Failed,
        (SessionState::TopologyReady, ConnectEvent::StepFailed) => SessionState::Failed,
        _ => state,
    }
}

/// The action that goes with the step from `state` on `event`.
pub open spec fn next_action(state: SessionState, event: ConnectEvent) -> SessionAction {
    match (state, event) {
        (SessionState::Connecting, ConnectEvent::ChannelOpened) => SessionAction::DeclareTopology,
        (SessionState::TopologyReady, ConnectEvent::TopologyDeclared) => SessionAction::ReportConnected,
        (SessionState::Connecting, ConnectEvent::StepFailed) => SessionAction::ReportFailure,
        (SessionState::TopologyReady, ConnectEvent::StepFailed) => SessionAction::ReportFailure,
        _ => SessionAction::Nothing,
    }
}

/// How an exchange routes.
#[derive(Clone, Copy, Debug, PartialEq, Eq, Structural)]
pub enum ExchangeKind {
    Topic,
    Direct,
}

/// One step of bringing up a session's topology.
#[derive(Clone, Copy, Debug, PartialEq, Eq, Structural)]
pub enum TopologyStep {
    /// Declare the event exchange.
    DeclareEventExchange,
    /// Limit the unacknowledged deliveries per consumer.
    SetPrefetch,
    /// Declare the command exchange.
    DeclareCommandExchange,
    /// Declare the session's queue.
    DeclareQueue,
    /// Bind the queue to the command exchange.
    BindQueue,
    /// Register the consumer on the queue.
    Consume,
}

/// The order in which the steps are taken. The first failure ends it.
pub open spec fn topology_order() -> Seq<TopologyStep> {
    seq![
        TopologyStep::DeclareEventExchange,
        TopologyStep::SetPrefetch,
        TopologyStep::DeclareCommandExchange,
        TopologyStep::DeclareQueue,
        TopologyStep::BindQueue,
        TopologyStep::Consume,
    ]
}

/// What a session declares on its channel: the event exchange, the prefetch
/// limit, the command exchange, the queue, its binding, and the consumer.
#[derive(Clone, Debug)]
pub struct Topology {
    pub event_exchange: String,
    pub event_exchange_kind: ExchangeKind,
    pub prefetch: u16,
    pub command_exchange: String,
    pub command_exchange_kind: ExchangeKind,
    /// Empty: the broker names the queue.
    pub queue_name: String,
    pub queue_exclusive: bool,
    pub binding_key: String,
    /// Empty: the broker names the consumer.
    pub consumer_tag: String,
}

impl Topology {
    /// The steps, in the order in which they are to be taken.
    pub fn steps(&self) -> (r: Vec<TopologyStep>)
        ensures
            r@ == topology_order(),
    {
        let mut r = Vec::new();
        r.push(TopologyStep::DeclareEventExchange);
        r.push(TopologyStep::SetPrefetch);
        r.push(TopologyStep::DeclareCommandExchange);
        r.push(TopologyStep::DeclareQueue);
        r.push(TopologyStep::BindQueue);
        r.push(TopologyStep::Consume);
        assert(r@ =~= topology_order());
        r
    }
}

/// The routing key of an event: the account, a dot, the event type.
pub open spec fn event_routing_key(qq: i64, message_type: Seq<char>) -> Seq<char> {
    decimal(qq as int) + "."@ + message_type
}

/// One bot account's bridge to the broker.
#[derive(Clone, Debug)]
pub struct AMQPClient {
    pub auth_code: i32,
    pub qq: i64,
    pub state: SessionState,
}

impl AMQPClient {
    /// A session for the account `qq`, not yet started.
    pub fn new(auth_code: i32, qq: i64) -> (client: AMQPClient)
        ensures
            client.auth_code == auth_code,
            client.qq == qq,
            client.state == SessionState::Uninitialized,
    {
        AMQPClient { auth_code, qq, state: SessionState::Uninitialized }
    }

    /// Whether the session holds a channel.
    pub open spec fn has_channel(&self) -> bool {
        self.state == SessionState::Consuming
    }

    /// Starts the session once its configuration has been read, or has
    /// failed to be. A session that was started before stays as it is.
    pub fn start(&mut self, config_loaded: bool) -> (action: SessionAction)
        ensures
            final(self).auth_code == old(self).auth_code,
            final(self).qq == old(self).qq,
            final(self).state == if old(self).state == SessionState::Uninitialized
                && config_loaded {
                SessionState::Connecting
            } else {
                old(self).state
            },
            action == if old(self).state != SessionState::Uninitialized {
                SessionAction::Nothing
            } else if config_loaded {
                SessionAction::OpenChannel
            } else {
                SessionAction::ReportConfigError
            },
    {
        match self.state {
            SessionState::Uninitialized => {
                if config_loaded {
                    self.state = SessionState::Connecting;
                    SessionAction::OpenChannel
                } else {
                    SessionAction::ReportConfigError
                }
            },
            _ => SessionAction::Nothing,
        }
    }

    /// Takes the session one step further towards consuming.
    pub fn try_connect(&mut self, event: ConnectEvent) -> (action: SessionAction)
        ensures
            final(self).auth_code == old(self).auth_code,
            final(self).qq == old(self).qq,
            final(self).state == next_state(old(self).state, event),
            action == next_action(old(self).state, event),
    {
        match (self.state, event) {
            (SessionState::Connecting, ConnectEvent::ChannelOpened) => {
                self.state = SessionState::TopologyReady;
                SessionAction::DeclareTopology
            },
            (SessionState::TopologyReady, ConnectEvent::TopologyDeclared) => {
                self.state = SessionState::Consuming;
                SessionAction::ReportConnected
            },
            (SessionState::Connecting, ConnectEvent::StepFailed) => {
                self.state = SessionState::Failed;
                SessionAction::ReportFailure
            },
            (SessionState::TopologyReady, ConnectEvent::StepFailed) => {
                self.state = SessionState::Failed;
                SessionAction::ReportFailure
            },
            _ => SessionAction::Nothing,
        }
    }

    /// The topology of this session.
    pub fn topology(&self) -> (t: Topology)
        ensures
            t.event_exchange@ == "coolq.msg"@,
            t.event_exchange_kind == ExchangeKind::Topic,
            t.prefetch == 1,
            t.command_exchange@ == "coolq.rpc"@,
            t.command_exchange_kind == ExchangeKind::Direct,
            t.queue_name@ == ""@,
            t.queue_exclusive,
            t.binding_key@ == decimal(self.qq as int),
            t.consumer_tag@ == ""@,
    {
        Topology {
            event_exchange: String::from_str("coolq.msg"),
            event_exchange_kind: ExchangeKind::Topic,
            prefetch: 1,
            command_exchange: String::from_str("coolq.rpc"),
            command_exchange_kind: ExchangeKind::Direct,
            queue_name: String::from_str(""),
            queue_exclusive: true,
            binding_key: decimal_text(self.qq),
            consumer_tag: String::from_str(""),
        }
    }

    /// The consumer to register on the session's queue.
    pub fn subscriber(&self) -> (s: RPCSubscriber)
        ensures
            s.auth_code == self.auth_code,
    {
        RPCSubscriber { auth_code: self.auth_code }
    }

    /// Addresses an event to the event exchange. Without a channel the event
    /// is dropped.
    pub fn send_message(&self, message_type: &str, payload: Vec<u8>) -> (r: Option<Publication>)
        ensures
            r is Some <==> self.has_channel(),
            r matches Some(p) ==> p@ == (PublicationModel {
                exchange: "coolq.msg"@,
                routing_key: event_routing_key(self.qq, message_type@),
                correlation_id: None,
                body: payload@,
            }),
    {
        match self.state {
            SessionState::Consuming => {
                let mut routing_key = decimal_text(self.qq);
                routing_key.append(".");
                routing_key.append(message_type);
                Some(
                    Publication {
                        exchange: String::from_str("coolq.msg"),
                        routing_key,
                        correlation_id: None,
                        body: payload,
                    },
                )
            },
            _ => None,
        }
    }
}

} // verus!
