use astrid_sdk::error::SysError;
use astrid_sdk::interceptors::{poll, InterceptorBinding};
use astrid_sdk::ipc::{request_response, request_response_reply, Message, PollResult, PrincipalAttribution};
use astrid_sdk::json::{JsonNumber, JsonValue};

#[test]
fn request_response_rejects_non_object_payload_before_host_call() {
    let err = request_response("resp.topic", JsonValue::String("hello".to_string())).unwrap_err();
    match err {
        SysError::ApiError(msg) => assert!(
            msg.contains("must serialize to a JSON object"),
            "unexpected ApiError message: {msg}"
        ),
        other => panic!("expected ApiError, got {other:?}"),
    }
}

#[test]
fn request_response_injects_correlation_id() {
    let request = JsonValue::Object(vec![("q".to_string(), JsonValue::Number(JsonNumber::PosInt(1)))]);
    let plan = request_response("resp.ns", request).unwrap();
    assert_eq!(plan.correlation_id.len(), 36);
    let id: Vec<char> = plan.correlation_id.chars().collect();
    assert_eq!(id[14], '4');
    assert!(matches!(id[19], '8' | '9' | 'a' | 'b'));
    assert!([8, 13, 18, 23].iter().all(|&i| id[i] == '-'));
    assert_eq!(plan.reply_topic, format!("resp.ns.{}", plan.correlation_id));
    let sent = JsonValue::from_json_bytes(plan.payload.as_bytes()).unwrap();
    assert_eq!(sent.get("correlation_id").and_then(|v| v.as_str()), Some(plan.correlation_id.as_str()));
    assert_eq!(sent.get("q").and_then(|v| v.as_u64()), Some(1));
}

fn message(payload: &str) -> Message {
    Message {
        topic: "t".into(),
        payload: payload.into(),
        source_id: "s".into(),
        principal: PrincipalAttribution::System,
    }
}

#[test]
fn request_response_reply_outcomes() {
    let none = PollResult { messages: vec![], dropped: 0, lagged: 0 };
    let err = request_response_reply(Ok(none), "r.t", 250).unwrap_err();
    match err {
        SysError::ApiError(m) => assert_eq!(m, "request_response: no reply on 'r.t' within 250ms"),
        other => panic!("unexpected {other:?}"),
    }
    let one = PollResult { messages: vec![message("{\"ok\":true}")], dropped: 0, lagged: 0 };
    let v = request_response_reply(Ok(one), "r.t", 250).unwrap();
    assert_eq!(v, JsonValue::Object(vec![("ok".to_string(), JsonValue::Bool(true))]));
    let bad = PollResult { messages: vec![message("nope")], dropped: 0, lagged: 0 };
    assert!(matches!(request_response_reply(Ok(bad), "r.t", 1), Err(SysError::JsonError(_))));
}

#[test]
fn request_response_timeout_is_no_reply() {
    let timed_out = request_response_reply(Err(SysError::HostError("Timeout".into())), "r.t", 500).unwrap_err();
    match timed_out {
        SysError::ApiError(m) => assert_eq!(m, "request_response: no reply on 'r.t' within 500ms"),
        other => panic!("unexpected {other:?}"),
    }
    let denied = request_response_reply(Err(SysError::HostError("PermissionDenied".into())), "r.t", 500).unwrap_err();
    assert!(matches!(denied, SysError::HostError(m) if m == "PermissionDenied"));
}

#[test]
fn verified_principal_only() {
    assert_eq!(PrincipalAttribution::Verified("u".into()).verified(), Some("u"));
    assert_eq!(PrincipalAttribution::Claimed("u".into()).verified(), None);
    assert_eq!(PrincipalAttribution::System.verified(), None);
}

#[test]
fn interceptor_poll_dispatches_bindings_with_messages() {
    let bindings = vec![
        InterceptorBinding { handle_id: 1, action: "a".into(), topic: "x".into() },
        InterceptorBinding { handle_id: 22, action: "b".into(), topic: "y".into() },
        InterceptorBinding { handle_id: 3, action: "c".into(), topic: "z".into() },
    ];
    let results = vec![
        PollResult { messages: vec![message("1")], dropped: 0, lagged: 0 },
        PollResult { messages: vec![], dropped: 0, lagged: 0 },
        PollResult { messages: vec![message("2")], dropped: 0, lagged: 0 },
    ];
    assert_eq!(poll(&bindings, &results), vec![0, 2]);
    assert_eq!(bindings[1].handle_bytes(), b"22".to_vec());
    assert_eq!(bindings[1].subscription_handle().0, 22);
}
