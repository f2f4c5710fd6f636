use astrid_sdk::json::JsonValue;
use astrid_sdk::llm::{LlmToolDefinition, Message, MessageContent, MessageRole, ToolCall, ToolCallResult, Usage};

#[test]
fn message_constructors() {
    let m = Message::user("hi");
    assert_eq!(m.role, MessageRole::User);
    assert_eq!(m.text(), Some("hi"));
    assert_eq!(Message::system("s").role, MessageRole::System);
    assert_eq!(Message::assistant("a").role, MessageRole::Assistant);
    let tools = Message::assistant_with_tools(vec![ToolCall::new("1", "fs:read")]);
    assert_eq!(tools.text(), None);
    assert_eq!(tools.tool_calls().map(|c| c.len()), Some(1));
    let result = Message::tool_result(ToolCallResult::success("1", "ok"));
    assert_eq!(result.role, MessageRole::Tool);
    assert!(matches!(result.content, MessageContent::ToolResult(ref r) if !r.is_error));
    assert!(result.tool_calls().is_none());
}

#[test]
fn tool_call_names_and_arguments() {
    let call = ToolCall::new("c1", "server:tool:extra");
    assert_eq!(call.arguments, JsonValue::Object(vec![]));
    assert_eq!(call.parse_name(), Some(("server".to_string(), "tool:extra".to_string())));
    assert_eq!(ToolCall::new("c2", "plain").parse_name(), None);
    let with = ToolCall::new("c3", "a:b").with_arguments(JsonValue::Bool(true));
    assert_eq!(with.arguments, JsonValue::Bool(true));
    assert_eq!(with.name, "a:b");
}

#[test]
fn tool_results_and_definitions() {
    let err = ToolCallResult::error("c", "boom");
    assert!(err.is_error);
    assert_eq!(err.content, "boom");
    let def = LlmToolDefinition::new("search").with_description("Search the web");
    assert_eq!(def.name, "search");
    assert_eq!(def.description.as_deref(), Some("Search the web"));
    assert_eq!(
        def.input_schema,
        JsonValue::Object(vec![("type".to_string(), JsonValue::String("object".to_string()))])
    );
    let custom = def.with_schema(JsonValue::Null);
    assert_eq!(custom.input_schema, JsonValue::Null);
}

#[test]
fn usage_total_saturates() {
    assert_eq!(Usage { input_tokens: 3, output_tokens: 4 }.total(), 7);
    assert_eq!(Usage { input_tokens: usize::MAX, output_tokens: 1 }.total(), usize::MAX);
}
