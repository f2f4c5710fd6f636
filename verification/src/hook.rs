//! Lifecycle hooks: read an event, optionally reply.
//!
//! A capsule subscribed to hook `name` receives a [`HookEventRequest`] on
//! `hook.v1.event.<name>` and may reply with a [`HookResult`] on the scoped
//! topic `hook.v1.response.<name>.<correlation-id>`. Fire-and-forget hooks
//! carry no correlation id and cannot be replied to.
use vstd::prelude::*;
use crate::error::SysError;
use crate::json::{JsonValue, Json, json_bool_text, json_member_text, json_members_text, json_object_text, json_parse, json_text};
use crate::text::{push_str, string_from_chars};
use vstd::string::StringSliceAdditionalSpecFns;

verus! {

/// Topic prefix for hook event envelopes.
pub const EVENT_PREFIX: &'static str = "hook.v1.event.";

/// Topic prefix for per-request hook reply envelopes.
pub const RESPONSE_PREFIX: &'static str = "hook.v1.response.";

pub open spec fn event_topic_spec(name: Seq<char>) -> Seq<char> {
    "hook.v1.event."@ + name
}

pub open spec fn response_topic_spec(name: Seq<char>, correlation_id: Seq<char>) -> Seq<char> {
    "hook.v1.response."@ + name + "."@ + correlation_id
}

/// The event topic a subscriber listens on for hook `name`.
pub fn event_topic(name: &str) -> (t: String)
    ensures
        t@ == event_topic_spec(name@),
{
    let mut v = Vec::new();
    push_str(&mut v, "hook.v1.event.");
    push_str(&mut v, name);
    string_from_chars(v.as_slice())
}

/// The scoped reply topic for hook `name` and `correlation_id`.
pub fn response_topic(name: &str, correlation_id: &str) -> (t: String)
    ensures
        t@ == response_topic_spec(name@, correlation_id@),
{
    let mut v = Vec::new();
    push_str(&mut v, "hook.v1.response.");
    push_str(&mut v, name);
    push_str(&mut v, ".");
    push_str(&mut v, correlation_id);
    string_from_chars(v.as_slice())
}

/// The hook event envelope published by the hook bridge.
#[derive(Debug, Clone, PartialEq, Eq)]
pub struct HookEventRequest {
    pub hook: String,
    pub payload: String,
    pub correlation_id: Option<String>,
}

/// A subscriber's reply: skip the gated operation, or merge data into it.
#[derive(Debug, Clone, PartialEq, Eq)]
pub struct HookResult {
    pub skip: Option<bool>,
    pub data: Option<String>,
}

/// A message to publish on the IPC bus.
#[derive(Debug, Clone, PartialEq, Eq)]
pub struct Publication {
    pub topic: String,
    pub payload: String,
}

/// The JSON text of a [`HookResult`]: its set members, `skip` first, absent
/// members omitted.
pub open spec fn hook_result_json(skip: Option<bool>, data: Option<Seq<char>>) -> Seq<char> {
    let skip_part = match skip {
        Some(true) => "\"skip\":true"@,
        Some(false) => "\"skip\":false"@,
        None => Seq::empty(),
    };
    let sep = if skip is Some && data is Some { ","@ } else { Seq::empty() };
    let data_part = match data {
        Some(d) => "\"data\":"@ + json_text(Json::Str(d)),
        None => Seq::empty(),
    };
    "{"@ + skip_part + sep + data_part + "}"@
}

/// The members a [`HookResult`] is written with: `skip` with its boolean
/// when set, then `data` with its string when set.
pub open spec fn hook_members(skip: Option<bool>, data: Option<Seq<char>>) -> Seq<(Seq<char>, Seq<char>)> {
    let s = match skip {
        Some(b) => seq![(seq!['s', 'k', 'i', 'p'], json_bool_text(b))],
        None => Seq::empty(),
    };
    let d = match data {
        Some(t) => seq![(seq!['d', 'a', 't', 'a'], json_text(Json::Str(t)))],
        None => Seq::empty(),
    };
    s + d
}

/// The reply payload is the JSON object holding the result's set members:
/// `{"skip":<bool>,"data":<string>}` with each absent member left out and
/// the two separated by a comma, so the kernel reads it back as a JSON
/// object.
pub proof fn law_reply_is_json_object(skip: Option<bool>, data: Option<Seq<char>>)
    ensures
        hook_result_json(skip, data) == json_object_text(hook_members(skip, data)),
{
    reveal_strlit("\"skip\":true");
    reveal_strlit("\"skip\":false");
    reveal_strlit("\"data\":");
    reveal_strlit(",");
    reveal_strlit("{");
    reveal_strlit("}");
    let ms = hook_members(skip, data);
    if ms.len() == 2 {
        assert(ms.drop_last() =~= seq![ms[0]]);
        assert(json_members_text(ms.drop_last()) == json_member_text(ms[0].0, ms[0].1));
    }
    assert(hook_result_json(skip, data) =~= json_object_text(ms));
}

fn hook_result_text(result: &HookResult) -> (s: String)
    ensures
        s@ == hook_result_json(result.skip, match result.data { Some(d) => Some(d@), None => None }),
{
    let mut v: Vec<char> = Vec::new();
    push_str(&mut v, "{");
    match result.skip {
        Some(true) => push_str(&mut v, "\"skip\":true"),
        Some(false) => push_str(&mut v, "\"skip\":false"),
        None => {},
    }
    if result.skip.is_some() && result.data.is_some() {
        push_str(&mut v, ",");
    }
    match &result.data {
        Some(d) => {
            push_str(&mut v, "\"data\":");
            let jv = JsonValue::String(d.clone());
            proof {
                assert(jv@ == Json::Str(d@));
            }
            let text = jv.to_json_string();
            push_str(&mut v, text.as_str());
        },
        None => {},
    }
    push_str(&mut v, "}");
    proof {
        let skip_part = match result.skip {
            Some(true) => "\"skip\":true"@,
            Some(false) => "\"skip\":false"@,
            None => Seq::<char>::empty(),
        };
        assert(v@ =~= hook_result_json(result.skip, match result.data { Some(d) => Some(d@), None => None }));
    }
    string_from_chars(v.as_slice())
}

/// A hook event delivered to a subscriber.
#[derive(Debug, Clone, PartialEq, Eq)]
pub struct HookEvent {
    hook: String,
    correlation_id: Option<String>,
    payload: String,
}

pub open spec fn opt_chars(s: Option<String>) -> Option<Seq<char>> {
    match s {
        Some(v) => Some(v@),
        None => None,
    }
}

impl HookEvent {
    pub closed spec fn spec_name(&self) -> Seq<char> {
        self.hook@
    }

    pub closed spec fn spec_correlation_id(&self) -> Option<Seq<char>> {
        opt_chars(self.correlation_id)
    }

    pub closed spec fn spec_payload(&self) -> Seq<char> {
        self.payload@
    }

    /// The event carried by the envelope `req`.
    pub fn from_request(req: HookEventRequest) -> (e: HookEvent)
        ensures
            e.spec_name() == req.hook@,
            e.spec_correlation_id() == opt_chars(req.correlation_id),
            e.spec_payload() == req.payload@,
    {
        HookEvent { hook: req.hook, correlation_id: req.correlation_id, payload: req.payload }
    }

    /// The semantic hook name.
    pub fn name(&self) -> (n: &str)
        ensures
            n@ == self.spec_name(),
    {
        self.hook.as_str()
    }

    /// The correlation id, or `None` for fire-and-forget hooks.
    pub fn correlation_id(&self) -> (c: Option<&str>)
        ensures
            match c {
                Some(s) => self.spec_correlation_id() == Some(s@),
                None => self.spec_correlation_id() is None,
            },
    {
        match &self.correlation_id {
            Some(s) => Some(s.as_str()),
            None => None,
        }
    }

    /// The raw JSON payload.
    pub fn payload_str(&self) -> (p: &str)
        ensures
            p@ == self.spec_payload(),
    {
        self.payload.as_str()
    }

    /// The payload parsed as JSON; a JSON error when it is not JSON.
    pub fn payload(&self) -> (r: Result<JsonValue, SysError>)
        ensures
            match r {
                Ok(v) => json_parse(self.spec_payload_bytes()) == Some(v@),
                Err(e) => json_parse(self.spec_payload_bytes()) is None && e is JsonError,
            },
    {
        let bytes = crate::text::str_bytes(self.payload.as_str());
        JsonValue::from_json_bytes(bytes.as_slice())
    }

    pub closed spec fn spec_payload_bytes(&self) -> Seq<u8> {
        vstd::utf8::encode_utf8(self.payload@)
    }

    /// The publication that replies `result` on this event's scoped topic;
    /// `None` for a fire-and-forget hook, where replying is a successful
    /// no-op.
    pub fn reply(&self, result: HookResult) -> (r: Result<Option<Publication>, SysError>)
        ensures
            match self.spec_correlation_id() {
                None => r == Ok::<Option<Publication>, SysError>(None),
                Some(id) => r is Ok && r->Ok_0 is Some
                    && r->Ok_0->0.topic@ == response_topic_spec(self.spec_name(), id)
                    && r->Ok_0->0.payload@ == hook_result_json(result.skip, opt_chars(result.data)),
            },
    {
        match &self.correlation_id {
            Some(id) => {
                let topic = response_topic(self.hook.as_str(), id.as_str());
                let payload = hook_result_text(&result);
                Ok(Some(Publication { topic, payload }))
            },
            None => Ok(None),
        }
    }

    /// Ask the kernel to skip the gated operation.
    pub fn skip(&self) -> (r: Result<Option<Publication>, SysError>)
        ensures
            match self.spec_correlation_id() {
                None => r == Ok::<Option<Publication>, SysError>(None),
                Some(id) => r is Ok && r->Ok_0 is Some
                    && r->Ok_0->0.topic@ == response_topic_spec(self.spec_name(), id)
                    && r->Ok_0->0.payload@ == hook_result_json(Some(true), None),
            },
    {
        self.reply(HookResult { skip: Some(true), data: None })
    }

    /// Reply with data the kernel folds back into the operation.
    pub fn respond_data(&self, data: &str) -> (r: Result<Option<Publication>, SysError>)
        ensures
            match self.spec_correlation_id() {
                None => r == Ok::<Option<Publication>, SysError>(None),
                Some(id) => r is Ok && r->Ok_0 is Some
                    && r->Ok_0->0.topic@ == response_topic_spec(self.spec_name(), id)
                    && r->Ok_0->0.payload@ == hook_result_json(None, Some(data@)),
            },
    {
        self.reply(HookResult { skip: None, data: Some(String::from_str(data)) })
    }
}

} // verus!
