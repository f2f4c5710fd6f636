use astrid_sdk::hook::{event_topic, response_topic, HookEvent, HookEventRequest, HookResult, EVENT_PREFIX, RESPONSE_PREFIX};
use astrid_sdk::json::JsonValue;
use astrid_sdk::error::SysError;

#[test]
fn event_topic_formats() {
    assert_eq!(event_topic("session_start"), "hook.v1.event.session_start");
    assert_eq!(EVENT_PREFIX, "hook.v1.event.");
}

#[test]
fn response_topic_formats() {
    assert_eq!(
        response_topic("before_tool_call", "abc-123"),
        "hook.v1.response.before_tool_call.abc-123",
    );
    assert_eq!(RESPONSE_PREFIX, "hook.v1.response.");
}

#[test]
fn from_request_moves_fields() {
    let event = HookEvent::from_request(HookEventRequest {
        hook: "before_tool_call".into(),
        payload: r#"{"tool":"shell"}"#.into(),
        correlation_id: Some("corr-1".into()),
    });
    assert_eq!(event.name(), "before_tool_call");
    assert_eq!(event.correlation_id(), Some("corr-1"));
    assert_eq!(event.payload_str(), r#"{"tool":"shell"}"#);
}

#[test]
fn from_request_fire_and_forget_has_no_correlation_id() {
    let event = HookEvent::from_request(HookEventRequest {
        hook: "session_end".into(),
        payload: "{}".into(),
        correlation_id: None,
    });
    assert_eq!(event.correlation_id(), None);
}

#[test]
fn payload_deserializes() {
    let event = HookEvent::from_request(HookEventRequest {
        hook: "before_tool_call".into(),
        payload: r#"{"tool":"shell"}"#.into(),
        correlation_id: None,
    });
    let parsed = event.payload().unwrap();
    assert_eq!(
        parsed,
        JsonValue::Object(vec![("tool".to_string(), JsonValue::String("shell".into()))])
    );
}

#[test]
fn payload_malformed_is_json_error() {
    let event = HookEvent::from_request(HookEventRequest {
        hook: "before_tool_call".into(),
        payload: "not json".into(),
        correlation_id: None,
    });
    let err = event.payload().unwrap_err();
    assert!(matches!(err, SysError::JsonError(_)));
}

#[test]
fn reply_fire_and_forget_is_noop_ok() {
    let event = HookEvent::from_request(HookEventRequest {
        hook: "session_end".into(),
        payload: "{}".into(),
        correlation_id: None,
    });
    assert!(event.reply(HookResult { skip: Some(true), data: None }).is_ok());
    assert!(event.skip().is_ok());
    assert!(event.respond_data("{}").is_ok());
}

#[test]
fn skip_builds_skip_result() {
    let result = HookResult { skip: Some(true), data: None };
    assert_eq!(result.skip, Some(true));
    assert_eq!(result.data, None);
}

#[test]
fn respond_data_builds_data_result() {
    let result = HookResult { skip: None, data: Some(r#"{"k":"v"}"#.into()) };
    assert_eq!(result.skip, None);
    assert_eq!(result.data.as_deref(), Some(r#"{"k":"v"}"#));
}

#[test]
fn correlated_reply_publishes_on_response_topic() {
    let event = HookEvent::from_request(HookEventRequest {
        hook: "before_tool_call".into(),
        payload: "{}".into(),
        correlation_id: Some("c-9".into()),
    });
    let publication = event.skip().unwrap().expect("a correlated event publishes its reply");
    assert_eq!(publication.topic, "hook.v1.response.before_tool_call.c-9");
    assert_eq!(publication.payload, r#"{"skip":true}"#);
    let data = event.respond_data(r#"{"k":"v"}"#).unwrap().unwrap();
    assert_eq!(data.payload, r#"{"data":"{\"k\":\"v\"}"}"#);
    assert!(event.reply(HookResult { skip: None, data: None }).unwrap().is_some());
}

#[test]
fn fire_and_forget_reply_publishes_nothing() {
    let event = HookEvent::from_request(HookEventRequest {
        hook: "session_end".into(),
        payload: "{}".into(),
        correlation_id: None,
    });
    assert!(event.skip().unwrap().is_none());
}
