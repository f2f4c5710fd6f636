//! LLM conversation types: messages, tool calls and their results, tool
//! definitions, streaming events and token usage.
use vstd::prelude::*;
use crate::json::{Json, JsonValue};
use crate::strings::{find_char, index_of, sub_chars};
use crate::text::{chars_of, string_from_chars};

verus! {

/// Message role.
#[derive(Debug, Clone, Copy, PartialEq, Eq)]
pub enum MessageRole {
    /// System message (instructions).
    System,
    /// User message.
    User,
    /// Assistant message.
    Assistant,
    /// Tool result.
    Tool,
}

/// A part of multi-part content.
#[derive(Debug, Clone, PartialEq)]
pub enum ContentPart {
    /// Text content.
    Text { text: String },
    /// Image content: base64-encoded data and its MIME type.
    Image { data: String, media_type: String },
}

/// A tool call from the assistant.
#[derive(Debug, PartialEq)]
pub struct ToolCall {
    /// Unique call ID.
    pub id: String,
    /// Tool name.
    pub name: String,
    /// Tool arguments (JSON).
    pub arguments: JsonValue,
}

/// Result of a tool call.
#[derive(Debug, Clone, PartialEq)]
pub struct ToolCallResult {
    /// Tool call ID this is responding to.
    pub call_id: String,
    /// Result content.
    pub content: String,
    /// Whether this is an error result.
    pub is_error: bool,
}

/// Message content.
#[derive(Debug, PartialEq)]
pub enum MessageContent {
    /// Plain text content.
    Text(String),
    /// Tool calls.
    ToolCalls(Vec<ToolCall>),
    /// Tool result.
    ToolResult(ToolCallResult),
    /// Multi-part content (text and images).
    MultiPart(Vec<ContentPart>),
}

/// A message in the conversation.
#[derive(Debug, PartialEq)]
pub struct Message {
    /// Message role.
    pub role: MessageRole,
    /// Message content.
    pub content: MessageContent,
}

/// Whether `m` is a text message of role `role` holding `text`.
pub open spec fn is_text_message(m: Message, role: MessageRole, text: Seq<char>) -> bool {
    &&& m.role == role
    &&& m.content matches MessageContent::Text(s) && s@ == text
}

impl Message {
    /// A user message with text `content`.
    pub fn user(content: &str) -> (m: Message)
        ensures
            is_text_message(m, MessageRole::User, content@),
    {
        Message { role: MessageRole::User, content: MessageContent::Text(String::from_str(content)) }
    }

    /// An assistant message with text `content`.
    pub fn assistant(content: &str) -> (m: Message)
        ensures
            is_text_message(m, MessageRole::Assistant, content@),
    {
        Message {
            role: MessageRole::Assistant,
            content: MessageContent::Text(String::from_str(content)),
        }
    }

    /// A system message with text `content`.
    pub fn system(content: &str) -> (m: Message)
        ensures
            is_text_message(m, MessageRole::System, content@),
    {
        Message { role: MessageRole::System, content: MessageContent::Text(String::from_str(content)) }
    }

    /// An assistant message carrying `tool_calls`.
    pub fn assistant_with_tools(tool_calls: Vec<ToolCall>) -> (m: Message)
        ensures
            m.role == MessageRole::Assistant,
            m.content == MessageContent::ToolCalls(tool_calls),
    {
        Message { role: MessageRole::Assistant, content: MessageContent::ToolCalls(tool_calls) }
    }

    /// A tool message carrying `result`.
    pub fn tool_result(result: ToolCallResult) -> (m: Message)
        ensures
            m.role == MessageRole::Tool,
            m.content == MessageContent::ToolResult(result),
    {
        Message { role: MessageRole::Tool, content: MessageContent::ToolResult(result) }
    }

    /// The text of a text message; `None` for any other content.
    pub fn text(&self) -> (r: Option<&str>)
        ensures
            match self.content {
                MessageContent::Text(s) => r matches Some(t) && t@ == s@,
                _ => r is None,
            },
    {
        match &self.content {
            MessageContent::Text(s) => Some(s.as_str()),
            _ => None,
        }
    }

    /// The tool calls of a tool-call message; `None` for any other content.
    pub fn tool_calls(&self) -> (r: Option<&[ToolCall]>)
        ensures
            match self.content {
                MessageContent::ToolCalls(calls) => r matches Some(t) && t@ == calls@,
                _ => r is None,
            },
    {
        match &self.content {
            MessageContent::ToolCalls(calls) => Some(calls.as_slice()),
            _ => None,
        }
    }
}

impl ToolCall {
    /// A call `id` of tool `name` with an empty argument object.
    pub fn new(id: &str, name: &str) -> (c: ToolCall)
        ensures
            c.id@ == id@,
            c.name@ == name@,
            c.arguments@ == Json::Object(Seq::empty()),
    {
        let arguments = JsonValue::Object(Vec::new());
        assert(arguments@ == Json::Object(Seq::empty())) by {
            assert(arguments@->Object_0 =~= Seq::<(Seq<char>, Json)>::empty());
        }
        ToolCall { id: String::from_str(id), name: String::from_str(name), arguments }
    }

    /// The same call with arguments `args`.
    pub fn with_arguments(self, args: JsonValue) -> (c: ToolCall)
        ensures
            c.id@ == self.id@,
            c.name@ == self.name@,
            c.arguments == args,
    {
        ToolCall { id: self.id, name: self.name, arguments: args }
    }

    /// The server and tool names of a `server:tool` name, split at the first
    /// `:`; `None` when the name holds no `:`.
    pub fn parse_name(&self) -> (r: Option<(String, String)>)
        ensures
            index_of(self.name@, ':') == -1 ==> r is None,
            index_of(self.name@, ':') >= 0 ==> (r matches Some(p) && p.0@ == self.name@.subrange(
                0,
                index_of(self.name@, ':'),
            ) && p.1@ == self.name@.subrange(index_of(self.name@, ':') + 1, self.name@.len() as int)),
    {
        let chars = chars_of(self.name.as_str());
        match find_char(&chars, ':') {
            None => None,
            Some(i) => {
                let server = sub_chars(&chars, 0, i);
                let tool = sub_chars(&chars, i + 1, chars.len());
                Some((string_from_chars(server.as_slice()), string_from_chars(tool.as_slice())))
            },
        }
    }
}

impl ToolCallResult {
    /// A successful result of call `call_id` with `content`.
    pub fn success(call_id: &str, content: &str) -> (r: ToolCallResult)
        ensures
            r.call_id@ == call_id@,
            r.content@ == content@,
            !r.is_error,
    {
        ToolCallResult { call_id: String::from_str(call_id), content: String::from_str(content), is_error: false }
    }

    /// An error result of call `call_id` with message `error`.
    pub fn error(call_id: &str, error: &str) -> (r: ToolCallResult)
        ensures
            r.call_id@ == call_id@,
            r.content@ == error@,
            r.is_error,
    {
        ToolCallResult { call_id: String::from_str(call_id), content: String::from_str(error), is_error: true }
    }
}

/// Tool definition for the LLM.
#[derive(Debug, PartialEq)]
pub struct LlmToolDefinition {
    /// Tool name.
    pub name: String,
    /// Description.
    pub description: Option<String>,
    /// Input JSON schema.
    pub input_schema: JsonValue,
}

/// The default input schema, `{"type": "object"}`.
pub open spec fn object_schema() -> Json {
    Json::Object(seq![("type"@, Json::Str("object"@))])
}

impl LlmToolDefinition {
    /// A definition of tool `name` with no description and an object schema.
    pub fn new(name: &str) -> (d: LlmToolDefinition)
        ensures
            d.name@ == name@,
            d.description is None,
            d.input_schema@ == object_schema(),
    {
        let mut fields: Vec<(String, JsonValue)> = Vec::new();
        fields.push((String::from_str("type"), JsonValue::String(String::from_str("object"))));
        let schema = JsonValue::Object(fields);
        proof {
            reveal_with_fuel(crate::json::json_model, 2);
            assert(fields@.len() == 1);
            assert(crate::json::json_model(fields@[0].1) == Json::Str("object"@));
            assert(schema@->Object_0 =~= seq![("type"@, Json::Str("object"@))]);
        }
        LlmToolDefinition { name: String::from_str(name), description: None, input_schema: schema }
    }

    /// The same definition with description `desc`.
    pub fn with_description(self, desc: &str) -> (d: LlmToolDefinition)
        ensures
            d.name@ == self.name@,
            d.description matches Some(s) && s@ == desc@,
            d.input_schema == self.input_schema,
    {
        LlmToolDefinition { name: self.name, description: Some(String::from_str(desc)), input_schema: self.input_schema }
    }

    /// The same definition with input schema `schema`.
    pub fn with_schema(self, schema: JsonValue) -> (d: LlmToolDefinition)
        ensures
            d.name@ == self.name@,
            d.description == self.description,
            d.input_schema == schema,
    {
        LlmToolDefinition { name: self.name, description: self.description, input_schema: schema }
    }
}

/// Streaming event from the LLM.
#[derive(Debug, Clone, PartialEq)]
pub enum StreamEvent {
    /// Partial text output.
    TextDelta(String),
    /// Tool call started.
    ToolCallStart { id: String, name: String },
    /// Tool call arguments delta.
    ToolCallDelta { id: String, args_delta: String },
    /// Tool call completed.
    ToolCallEnd { id: String },
    /// Reasoning delta.
    ReasoningDelta(String),
    /// Usage information.
    Usage { input_tokens: usize, output_tokens: usize },
    /// Stream completed.
    Done,
    /// Error occurred.
    Error(String),
}

/// Reason the model stopped generating.
#[derive(Debug, Clone, Copy, PartialEq, Eq)]
pub enum StopReason {
    /// Natural end of response.
    EndTurn,
    /// Hit max tokens.
    MaxTokens,
    /// Tool use requested.
    ToolUse,
    /// Stop sequence hit.
    StopSequence,
}

/// Token usage information.
#[derive(Debug, Clone, Copy, PartialEq, Eq)]
pub struct Usage {
    /// Input tokens.
    pub input_tokens: usize,
    /// Output tokens.
    pub output_tokens: usize,
}

impl Usage {
    /// Total tokens, saturating at `usize::MAX`.
    pub fn total(&self) -> (t: usize)
        ensures
            t == (if self.input_tokens + self.output_tokens > usize::MAX {
                usize::MAX as int
            } else {
                self.input_tokens + self.output_tokens
            }),
    {
        self.input_tokens.saturating_add(self.output_tokens)
    }
}

/// LLM response (non-streaming).
#[derive(Debug, PartialEq)]
pub struct LlmResponse {
    /// Response message.
    pub message: Message,
    /// Whether the response has tool calls.
    pub has_tool_calls: bool,
    /// Stop reason.
    pub stop_reason: StopReason,
    /// Token usage.
    pub usage: Usage,
}

} // verus!
