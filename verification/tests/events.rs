use cqamq::client::{
    AMQPClient, ConnectEvent, ExchangeKind, SessionAction, SessionState, TopologyStep,
};
use cqamq::config::{
    default_connection_timeout, default_host, default_password, default_port, default_username,
    default_vhost, resolve_config, Config, Options, Scheme,
};
use cqamq::message::{
    discuss_event_json, group_event_json, private_event_json, DiscussMessage, GroupAdminChanged,
    GroupMemberIncrease, GroupMessage, PrivateMessage, SendDiscussMessageResponse,
    SendGroupMessageResponse, SendPrivateMessageResponse,
};
use cqamq::text::decimal_text;

fn consuming(auth_code: i32, qq: i64) -> AMQPClient {
    let mut client = AMQPClient::new(auth_code, qq);
    assert_eq!(client.start(true), SessionAction::OpenChannel);
    assert_eq!(client.try_connect(ConnectEvent::ChannelOpened), SessionAction::DeclareTopology);
    assert_eq!(client.try_connect(ConnectEvent::TopologyDeclared), SessionAction::ReportConnected);
    client
}

#[test]
fn group_message_is_published_under_account_and_type() {
    let client = consuming(1, 555);
    let event = GroupMessage { group: 777, from: 888, message: String::from("hello") };
    let body = event.to_json().expect("encoded");
    assert_eq!(body, b"{\"group\":777,\"from\":888,\"message\":\"hello\"}".to_vec());
    let publication = client.send_message("group", body.clone()).expect("published");
    assert_eq!(publication.exchange, "coolq.msg");
    assert_eq!(publication.routing_key, "555.group");
    assert_eq!(publication.correlation_id, None);
    assert_eq!(publication.body, body);
}

#[test]
fn routing_and_binding_keys_of_an_account() {
    let client = consuming(1, 12345);
    assert_eq!(client.send_message("group", Vec::new()).expect("published").routing_key, "12345.group");
    assert_eq!(client.send_message("private", Vec::new()).expect("published").routing_key, "12345.private");
    assert_eq!(client.send_message("discuss", Vec::new()).expect("published").routing_key, "12345.discuss");
    assert_eq!(client.topology().binding_key, "12345");
}

#[test]
fn topology_of_a_session() {
    let t = AMQPClient::new(1, -9).topology();
    assert_eq!(t.event_exchange, "coolq.msg");
    assert_eq!(t.event_exchange_kind, ExchangeKind::Topic);
    assert_eq!(t.prefetch, 1);
    assert_eq!(t.command_exchange, "coolq.rpc");
    assert_eq!(t.command_exchange_kind, ExchangeKind::Direct);
    assert_eq!(t.queue_name, "");
    assert!(t.queue_exclusive);
    assert_eq!(t.binding_key, "-9");
    assert_eq!(t.consumer_tag, "");
    assert_eq!(
        t.steps(),
        vec![
            TopologyStep::DeclareEventExchange,
            TopologyStep::SetPrefetch,
            TopologyStep::DeclareCommandExchange,
            TopologyStep::DeclareQueue,
            TopologyStep::BindQueue,
            TopologyStep::Consume,
        ]
    );
}

#[test]
fn events_are_dropped_without_a_channel() {
    let mut client = AMQPClient::new(1, 555);
    assert!(client.send_message("group", vec![1]).is_none());
    client.start(true);
    assert!(client.send_message("group", vec![1]).is_none());
    client.try_connect(ConnectEvent::ChannelOpened);
    assert!(client.send_message("group", vec![1]).is_none());
    client.try_connect(ConnectEvent::StepFailed);
    assert_eq!(client.state, SessionState::Failed);
    assert!(client.send_message("group", vec![1]).is_none());
}

#[test]
fn session_states_follow_each_other() {
    let mut client = AMQPClient::new(3, 4);
    assert_eq!(client.state, SessionState::Uninitialized);
    assert_eq!(client.auth_code, 3);
    assert_eq!(client.qq, 4);
    assert_eq!(client.try_connect(ConnectEvent::ChannelOpened), SessionAction::Nothing);
    assert_eq!(client.state, SessionState::Uninitialized);
    assert_eq!(client.start(false), SessionAction::ReportConfigError);
    assert_eq!(client.state, SessionState::Uninitialized);
    assert_eq!(client.start(true), SessionAction::OpenChannel);
    assert_eq!(client.state, SessionState::Connecting);
    assert_eq!(client.start(true), SessionAction::Nothing);
    assert_eq!(client.try_connect(ConnectEvent::TopologyDeclared), SessionAction::Nothing);
    assert_eq!(client.state, SessionState::Connecting);
    assert_eq!(client.try_connect(ConnectEvent::ChannelOpened), SessionAction::DeclareTopology);
    assert_eq!(client.state, SessionState::TopologyReady);
    assert_eq!(client.try_connect(ConnectEvent::TopologyDeclared), SessionAction::ReportConnected);
    assert_eq!(client.state, SessionState::Consuming);
}

#[test]
fn failure_and_consuming_are_final() {
    let mut failed = AMQPClient::new(3, 4);
    failed.start(true);
    assert_eq!(failed.try_connect(ConnectEvent::StepFailed), SessionAction::ReportFailure);
    assert_eq!(failed.state, SessionState::Failed);
    assert_eq!(failed.try_connect(ConnectEvent::ChannelOpened), SessionAction::Nothing);
    assert_eq!(failed.try_connect(ConnectEvent::TopologyDeclared), SessionAction::Nothing);
    assert_eq!(failed.start(true), SessionAction::Nothing);
    assert_eq!(failed.state, SessionState::Failed);
    let mut client = consuming(3, 4);
    assert_eq!(client.try_connect(ConnectEvent::StepFailed), SessionAction::Nothing);
    assert_eq!(client.try_connect(ConnectEvent::ChannelOpened), SessionAction::Nothing);
    assert_eq!(client.start(true), SessionAction::Nothing);
    assert_eq!(client.state, SessionState::Consuming);
}

#[test]
fn failure_while_declaring_topology() {
    let mut client = AMQPClient::new(3, 4);
    client.start(true);
    client.try_connect(ConnectEvent::ChannelOpened);
    assert_eq!(client.try_connect(ConnectEvent::StepFailed), SessionAction::ReportFailure);
    assert_eq!(client.state, SessionState::Failed);
}

#[test]
fn private_and_discuss_events_as_json() {
    let private = PrivateMessage { from: 10001, message: String::from("hi") };
    assert_eq!(private.to_json().expect("encoded"), b"{\"from\":10001,\"message\":\"hi\"}".to_vec());
    let discuss = DiscussMessage { discuss: -1, from: 0, message: String::new() };
    assert_eq!(
        discuss.to_json().expect("encoded"),
        b"{\"discuss\":-1,\"from\":0,\"message\":\"\"}".to_vec()
    );
}

#[test]
fn message_text_is_quoted_and_escaped() {
    let event = PrivateMessage { from: 1, message: String::from("say \"hi\"\n\\ \u{e9}\u{1}") };
    let body = event.to_json().expect("encoded");
    assert_eq!(
        body,
        "{\"from\":1,\"message\":\"say \\\"hi\\\"\\n\\\\ \u{e9}\\u0001\"}".as_bytes().to_vec()
    );
    let parsed: serde_json::Value = serde_json::from_slice(&body).expect("valid JSON");
    assert_eq!(parsed.get("message").and_then(|m| m.as_str()), Some("say \"hi\"\n\\ \u{e9}\u{1}"));
    assert_eq!(parsed.get("from").and_then(|m| m.as_i64()), Some(1));
}

#[test]
fn framing_of_quoted_text() {
    assert_eq!(private_event_json(5, "\"a\""), "{\"from\":5,\"message\":\"a\"}");
    assert_eq!(group_event_json(1, -2, "\"\""), "{\"group\":1,\"from\":-2,\"message\":\"\"}");
    assert_eq!(discuss_event_json(0, 10, "\"x\""), "{\"discuss\":0,\"from\":10,\"message\":\"x\"}");
}

#[test]
fn notices_as_json() {
    let admin = GroupAdminChanged { group: 1, operand: 2, set: true };
    assert_eq!(admin.to_json(), b"{\"group\":1,\"operand\":2,\"set\":true}".to_vec());
    let joined = GroupMemberIncrease { group: 1, from: 2, operator: 3, invited: false };
    assert_eq!(
        joined.to_json(),
        b"{\"group\":1,\"from\":2,\"operator\":3,\"invited\":false}".to_vec()
    );
}

#[test]
fn responses_as_json() {
    assert_eq!(SendPrivateMessageResponse { ok: true }.to_json(), b"{\"ok\":true}".to_vec());
    assert_eq!(SendGroupMessageResponse { ok: true }.to_json(), b"{\"ok\":true}".to_vec());
    assert_eq!(SendDiscussMessageResponse { ok: false }.to_json(), b"{\"ok\":false}".to_vec());
}

#[test]
fn integers_in_decimal() {
    assert_eq!(decimal_text(0), "0");
    assert_eq!(decimal_text(7), "7");
    assert_eq!(decimal_text(10), "10");
    assert_eq!(decimal_text(-1), "-1");
    assert_eq!(decimal_text(12345), "12345");
    assert_eq!(decimal_text(1002003), "1002003");
    assert_eq!(decimal_text(i64::MAX), "9223372036854775807");
    assert_eq!(decimal_text(i64::MIN), "-9223372036854775808");
}

#[test]
fn defaults_of_the_configuration() {
    assert_eq!(default_host(), "127.0.0.1");
    assert_eq!(default_port(), 5672);
    assert_eq!(default_vhost(), "/");
    assert_eq!(default_username(), "guest");
    assert_eq!(default_password(), "guest");
    assert_eq!(default_connection_timeout(), 10);
    let options = Options::default();
    assert_eq!(options.host, "127.0.0.1");
    assert_eq!(options.port, 5672);
    assert_eq!(options.vhost, "/");
    assert_eq!(options.username, "guest");
    assert_eq!(options.password, "guest");
    assert_eq!(options.connection_timeout, 10);
}

#[test]
fn configuration_carries_the_options() {
    let options = Options {
        host: String::from("10.0.0.2"),
        port: 5671,
        vhost: String::from("bots"),
        username: String::from("u"),
        password: String::from("p"),
        connection_timeout: 3,
    };
    let config = Config::from(options);
    assert_eq!(config.uri.scheme, Scheme::Amqp);
    assert_eq!(config.uri.authority.userinfo.username, "u");
    assert_eq!(config.uri.authority.userinfo.password, "p");
    assert_eq!(config.uri.authority.host, "10.0.0.2");
    assert_eq!(config.uri.authority.port, 5671);
    assert_eq!(config.uri.vhost, "bots");
    assert_eq!(config.connection_timeout, 3);
}

#[test]
fn configuration_without_a_file_is_the_default() {
    let config = resolve_config(None);
    assert_eq!(config.uri.scheme, Scheme::Amqp);
    assert_eq!(config.uri.authority.userinfo.username, "guest");
    assert_eq!(config.uri.authority.userinfo.password, "guest");
    assert_eq!(config.uri.authority.host, "127.0.0.1");
    assert_eq!(config.uri.authority.port, 5672);
    assert_eq!(config.uri.vhost, "/");
    assert_eq!(config.connection_timeout, 10);
    let mut options = Options::default();
    options.port = 1;
    assert_eq!(resolve_config(Some(options)).uri.authority.port, 1);
}
