//! Event bus messaging: principal attribution of received messages and the
//! correlation-id handshake of `request_response`.
use vstd::prelude::*;
use crate::error::{SysError, api_error};
use crate::json::{Json, JsonValue, json_parse, json_text};
use crate::text::{chars_of, decimal, decimal_chars, push_str, string_from_chars};
use crate::strings::{contains, contains_chars};

verus! {

/// A subscription handle id.
#[derive(Debug, Clone, Copy, PartialEq, Eq)]
pub struct SubscriptionHandle(pub u64);

/// Provenance and trust attribution for a message's principal.
#[derive(Debug, Clone, PartialEq, Eq)]
pub enum PrincipalAttribution {
    /// Kernel-verified from the publishing capsule's invocation context.
    Verified(String),
    /// Claimed by an uplink capsule; not kernel-verified.
    Claimed(String),
    /// System or kernel-originated, with no attributable principal.
    System,
}

impl PrincipalAttribution {
    /// The principal when it is kernel-verified; `None` otherwise. Use this
    /// for capability-gated actions.
    pub fn verified(&self) -> (r: Option<&str>)
        ensures
            match *self {
                PrincipalAttribution::Verified(s) => r is Some && r->0@ == s@,
                _ => r is None,
            },
    {
        match self {
            PrincipalAttribution::Verified(s) => Some(s.as_str()),
            _ => None,
        }
    }
}

/// A message received from the bus.
#[derive(Debug, Clone, PartialEq, Eq)]
pub struct Message {
    pub topic: String,
    pub payload: String,
    pub source_id: String,
    pub principal: PrincipalAttribution,
}

/// Result of polling or receiving from a subscription.
#[derive(Debug, Clone, PartialEq, Eq)]
pub struct PollResult {
    pub messages: Vec<Message>,
    pub dropped: u64,
    pub lagged: u64,
}

/// A lower-case hexadecimal digit.
pub open spec fn is_lower_hex(c: char) -> bool {
    ('0' <= c <= '9') || ('a' <= c <= 'f')
}

/// The hyphenated lower-case form of a UUID: 8-4-4-4-12 hex digits.
pub open spec fn is_hyphenated_uuid(s: Seq<char>) -> bool {
    &&& s.len() == 36
    &&& forall|i: int| 0 <= i < 36 ==> if i == 8 || i == 13 || i == 18 || i == 23 {
        #[trigger] s[i] == '-'
    } else {
        is_lower_hex(s[i])
    }
}

/// The hyphenated form of a version 4 UUID: the version digit is `4` and
/// the variant digit one of `8`, `9`, `a`, `b`.
pub open spec fn is_v4_uuid(s: Seq<char>) -> bool {
    &&& is_hyphenated_uuid(s)
    &&& s[14] == '4'
    &&& (s[19] == '8' || s[19] == '9' || s[19] == 'a' || s[19] == 'b')
}

/// The lower-case hexadecimal digit of `d` (`0 <= d < 16`).
pub open spec fn hex_digit(d: int) -> char {
    if d < 10 {
        (d + 48) as char
    } else {
        (d + 87) as char
    }
}

/// The two lower-case hexadecimal digits of the byte `x`.
pub open spec fn hex_pair(x: u8) -> Seq<char> {
    seq![hex_digit((x / 16) as int), hex_digit((x % 16) as int)]
}

/// The bytes `b`, two lower-case hexadecimal digits each.
pub open spec fn hex_run(b: Seq<u8>) -> Seq<char>
    decreases b.len(),
{
    if b.len() == 0 {
        Seq::empty()
    } else {
        hex_pair(b[0]) + hex_run(b.drop_first())
    }
}

/// The hyphenated lower-case text of the 16 UUID bytes `b`: groups of 4, 2,
/// 2, 2 and 6 bytes in hexadecimal, separated by `-`.
pub open spec fn uuid_text(b: Seq<u8>) -> Seq<char> {
    hex_run(b.subrange(0, 4)) + "-"@ + hex_run(b.subrange(4, 6)) + "-"@ + hex_run(b.subrange(6, 8)) + "-"@
        + hex_run(b.subrange(8, 10)) + "-"@ + hex_run(b.subrange(10, 16))
}

/// The 16 random bytes `b` made a version 4 UUID: the high half of byte 6
/// set to the version `4`, the two high bits of byte 8 set to the variant
/// `10`.
pub open spec fn v4_bytes(b: Seq<u8>) -> Seq<u8> {
    b.update(6, (b[6] & 0x0f) | 0x40).update(8, (b[8] & 0x3f) | 0x80)
}

proof fn lemma_hex_digit(d: int)
    requires
        0 <= d < 16,
    ensures
        is_lower_hex(hex_digit(d)),
        d == 4 ==> hex_digit(d) == '4',
        d == 8 ==> hex_digit(d) == '8',
        d == 9 ==> hex_digit(d) == '9',
        d == 10 ==> hex_digit(d) == 'a',
        d == 11 ==> hex_digit(d) == 'b',
{
}

proof fn lemma_hex_run(b: Seq<u8>)
    ensures
        hex_run(b).len() == 2 * b.len(),
        forall|i: int| 0 <= i < hex_run(b).len() ==> is_lower_hex(#[trigger] hex_run(b)[i]),
        b.len() > 0 ==> hex_run(b)[0] == hex_digit((b[0] / 16) as int),
    decreases b.len(),
{
    if b.len() > 0 {
        lemma_hex_run(b.drop_first());
        lemma_hex_digit((b[0] / 16) as int);
        lemma_hex_digit((b[0] % 16) as int);
        let h = hex_run(b);
        assert forall|i: int| 0 <= i < h.len() implies is_lower_hex(#[trigger] h[i]) by {
            if i >= 2 {
                assert(h[i] == hex_run(b.drop_first())[i - 2]);
            }
        }
    }
}

/// The text of 16 bytes made a version 4 UUID is a version 4 UUID.
proof fn lemma_v4_text(b: Seq<u8>)
    requires
        b.len() == 16,
    ensures
        is_v4_uuid(uuid_text(v4_bytes(b))),
{
    let v = v4_bytes(b);
    let b6 = b[6];
    let b8 = b[8];
    assert(((b6 & 0x0f) | 0x40) / 16 == 4) by (bit_vector);
    assert(8 <= ((b8 & 0x3f) | 0x80) / 16 <= 11) by (bit_vector);
    reveal_strlit("-");
    let g1 = v.subrange(0, 4);
    let g2 = v.subrange(4, 6);
    let g3 = v.subrange(6, 8);
    let g4 = v.subrange(8, 10);
    let g5 = v.subrange(10, 16);
    lemma_hex_run(g1);
    lemma_hex_run(g2);
    lemma_hex_run(g3);
    lemma_hex_run(g4);
    lemma_hex_run(g5);
    assert(g3[0] == (b6 & 0x0f) | 0x40);
    assert(g4[0] == (b8 & 0x3f) | 0x80);
    lemma_hex_digit((g3[0] / 16) as int);
    lemma_hex_digit((g4[0] / 16) as int);
    let s = uuid_text(v);
    assert(s.len() == 36);
    assert forall|i: int| 0 <= i < 36 implies if i == 8 || i == 13 || i == 18 || i == 23 {
        #[trigger] s[i] == '-'
    } else {
        is_lower_hex(s[i])
    } by {
        if i < 8 {
            assert(s[i] == hex_run(g1)[i]);
        } else if i == 8 {
        } else if i < 13 {
            assert(s[i] == hex_run(g2)[i - 9]);
        } else if i == 13 {
        } else if i < 18 {
            assert(s[i] == hex_run(g3)[i - 14]);
        } else if i == 18 {
        } else if i < 23 {
            assert(s[i] == hex_run(g4)[i - 19]);
        } else if i == 23 {
        } else {
            assert(s[i] == hex_run(g5)[i - 24]);
        }
    }
    assert(s[14] == hex_run(g3)[0]);
    assert(s[19] == hex_run(g4)[0]);
}

/// `getrandom::fill` on a buffer of 16 bytes: 16 random bytes, or the
/// random source's error text. Its documentation promises the whole buffer
/// on success and an error on any failure; the bytes themselves are
/// random, so only their count is stated.
#[verifier::external_body]
fn random_uuid_bytes() -> (r: Result<Vec<u8>, String>)
    ensures
        r matches Ok(b) ==> b@.len() == 16,
{
    let mut bytes = [0u8; 16];
    match getrandom::fill(&mut bytes) {
        Ok(()) => Ok(bytes.to_vec()),
        Err(e) => Err(e.to_string()),
    }
}

/// `uuid::Builder::from_random_bytes` on 16 bytes, as text: the bytes with
/// the version and variant set, in the hyphenated lower-case form that the
/// UUID's `Display` writes.
#[verifier::external_body]
fn v4_uuid_text(bytes: &[u8]) -> (s: String)
    requires
        bytes@.len() == 16,
    ensures
        s@ == uuid_text(v4_bytes(bytes@)),
{
    let mut b = [0u8; 16];
    b.copy_from_slice(bytes);
    uuid::Builder::from_random_bytes(b).into_uuid().to_string()
}

/// A fresh random version 4 UUID in hyphenated lower-case form, or the
/// host error of a failed random source.
fn new_correlation_id() -> (r: Result<String, SysError>)
    ensures
        r matches Ok(s) ==> is_v4_uuid(s@),
        r matches Err(e) ==> e is HostError,
{
    match random_uuid_bytes() {
        Ok(bytes) => {
            proof {
                lemma_v4_text(bytes@);
            }
            Ok(v4_uuid_text(bytes.as_slice()))
        },
        Err(e) => Err(SysError::HostError(e)),
    }
}

/// `fields` with member `key` set to `value`: the first member of that name
/// is replaced, otherwise the member is added at the end.
pub open spec fn object_set(fields: Seq<(Seq<char>, Json)>, key: Seq<char>, value: Json) -> Seq<(Seq<char>, Json)> {
    if exists|i: int| 0 <= i < fields.len() && #[trigger] fields[i].0 == key {
        fields.update(
            choose|i: int| 0 <= i < fields.len() && #[trigger] fields[i].0 == key && forall|j: int|
                0 <= j < i ==> fields[j].0 != key,
            (key, value),
        )
    } else {
        fields.push((key, value))
    }
}

/// The request, the topics and the payload of one request/response exchange.
#[derive(Debug, Clone, PartialEq, Eq)]
pub struct RequestPlan {
    /// The id injected into the request.
    pub correlation_id: String,
    /// The scoped topic the reply arrives on; subscribe to it before
    /// publishing.
    pub reply_topic: String,
    /// The JSON text to publish on the request topic.
    pub payload: String,
}

pub open spec fn non_object_message() -> Seq<char> {
    "request_response: request payload must serialize to a JSON object so the correlation_id can be injected"@
}

/// Prepare a request/response exchange: a fresh correlation id, injected
/// into the request object as its `correlation_id` member, and the reply
/// topic `<response_namespace>.<correlation_id>`. A request that is not a
/// JSON object is refused, since there is nowhere to put the id. The id
/// comes from the system's random source; when that fails, its host error
/// is returned.
pub fn request_response(response_namespace: &str, request: JsonValue) -> (r: Result<RequestPlan, SysError>)
    ensures
        match request@ {
            Json::Object(fields) => match r {
                Ok(p) => {
                    &&& is_v4_uuid(p.correlation_id@)
                    &&& p.reply_topic@ == response_namespace@ + "."@ + p.correlation_id@
                    &&& p.payload@ == json_text(Json::Object(object_set(fields, "correlation_id"@, Json::Str(p.correlation_id@))))
                },
                Err(e) => e is HostError,
            },
            _ => r matches Err(SysError::ApiError(m)) && m@ == non_object_message(),
        },
{
    let key = String::from_str("correlation_id");
    let found = request.field_index(&key);
    let ghost before = request@;
    let mut fields = match request {
        JsonValue::Object(fields) => fields,
        _ => {
            let mut m = Vec::new();
            push_str(
                &mut m,
                "request_response: request payload must serialize to a JSON object so the correlation_id can be injected",
            );
            return Err(api_error(&m));
        },
    };
    let ghost model = crate::json::object_model(fields@);
    proof {
        reveal_strlit("correlation_id");
        assert(before == Json::Object(model)) by {
            assert(model =~= before->Object_0);
        }
    }
    let correlation_id = match new_correlation_id() {
        Ok(id) => id,
        Err(e) => return Err(e),
    };
    let value = JsonValue::String(correlation_id.clone());
    match found {
        Some(i) => {
            fields.set(i, (key, value));
            proof {
                let c = choose|k: int| 0 <= k < model.len() && #[trigger] model[k].0 == "correlation_id"@ && forall|j: int|
                    0 <= j < k ==> model[j].0 != "correlation_id"@;
                assert(model[i as int].0 == "correlation_id"@);
                assert(c == i) by {
                    if c < i {
                        assert(model[c].0 != "correlation_id"@);
                    } else if c > i {
                        assert(model[i as int].0 != "correlation_id"@);
                    }
                }
                assert(crate::json::object_model(fields@) =~= object_set(model, "correlation_id"@, Json::Str(correlation_id@)));
            }
        },
        None => {
            fields.push((key, value));
            proof {
                assert(!exists|k: int| 0 <= k < model.len() && #[trigger] model[k].0 == "correlation_id"@);
                assert(crate::json::object_model(fields@) =~= object_set(model, "correlation_id"@, Json::Str(correlation_id@)));
            }
        },
    }
    let obj = JsonValue::Object(fields);
    proof {
        assert(obj@ == Json::Object(crate::json::object_model(fields@))) by {
            assert(crate::json::object_model(fields@) =~= obj@->Object_0);
        }
    }
    let payload = obj.to_json_string();
    let mut topic = chars_of(response_namespace);
    push_str(&mut topic, ".");
    push_str(&mut topic, correlation_id.as_str());
    Ok(RequestPlan { correlation_id, reply_topic: string_from_chars(topic.as_slice()), payload })
}

pub open spec fn no_reply_message(reply_topic: Seq<char>, timeout_ms: u64) -> Seq<char> {
    "request_response: no reply on '"@ + reply_topic + "' within "@ + decimal(timeout_ms as nat) + "ms"@
}

/// Whether a failed wait is the host's deadline: a host error whose name
/// contains `Timeout`.
pub open spec fn is_recv_timeout(e: SysError) -> bool {
    e matches SysError::HostError(m) && contains(m@, "Timeout"@)
}

/// The reply of a request/response exchange, from the outcome of the wait
/// on the reply topic: the first message's payload parsed as JSON. When no
/// message arrived, or the host reports its deadline, the exchange fails
/// with the "no reply" API error; any other host failure is passed on.
pub fn request_response_reply(received: Result<PollResult, SysError>, reply_topic: &str, timeout_ms: u64) -> (r: Result<JsonValue, SysError>)
    ensures
        match received {
            Err(e) => if is_recv_timeout(e) {
                r matches Err(SysError::ApiError(m)) && m@ == no_reply_message(reply_topic@, timeout_ms)
            } else {
                r == Err::<JsonValue, SysError>(e)
            },
            Ok(poll) => if poll.messages@.len() == 0 {
                r matches Err(SysError::ApiError(m)) && m@ == no_reply_message(reply_topic@, timeout_ms)
            } else {
                match r {
                    Ok(v) => json_parse(vstd::utf8::encode_utf8(poll.messages@[0].payload@)) == Some(v@),
                    Err(e) => json_parse(vstd::utf8::encode_utf8(poll.messages@[0].payload@)) is None && e is JsonError,
                }
            },
        },
{
    let timed_out = match &received {
        Err(SysError::HostError(m)) => {
            let hay = chars_of(m.as_str());
            let needle = chars_of("Timeout");
            contains_chars(&hay, &needle)
        },
        _ => false,
    };
    let poll = match received {
        Ok(poll) => poll,
        Err(e) => {
            if !timed_out {
                return Err(e);
            }
            PollResult { messages: Vec::new(), dropped: 0, lagged: 0 }
        },
    };
    if poll.messages.len() == 0 {
        let mut m = Vec::new();
        push_str(&mut m, "request_response: no reply on '");
        push_str(&mut m, reply_topic);
        push_str(&mut m, "' within ");
        let mut d = decimal_chars(timeout_ms);
        m.append(&mut d);
        push_str(&mut m, "ms");
        return Err(api_error(&m));
    }
    let bytes = crate::text::str_bytes(poll.messages[0].payload.as_str());
    JsonValue::from_json_bytes(bytes.as_slice())
}

} // verus!
