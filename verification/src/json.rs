//! The JSON data model the SDK reasons about, and the two calls into
//! `serde_json` that read and write JSON text.
use vstd::prelude::*;
use crate::strings::text_less;

verus! {

#[verifier::external_type_specification]
#[verifier::external_body]
pub struct ExJsonNumber(serde_json::Number);

#[verifier::external_type_specification]
#[verifier::external_body]
pub struct ExJsonValue(serde_json::Value);

/// A JSON number, split the way `serde_json` stores it: a non-negative
/// integer, a negative integer, or anything else (kept as `serde_json`'s
/// own number).
#[derive(Debug, PartialEq)]
pub enum JsonNumber {
    PosInt(u64),
    NegInt(i64),
    Float(serde_json::Number),
}

/// A JSON value. Object members keep the order in which they appear.
#[derive(Debug, PartialEq)]
pub enum JsonValue {
    Null,
    Bool(bool),
    Number(JsonNumber),
    String(String),
    Array(Vec<JsonValue>),
    Object(Vec<(String, JsonValue)>),
}

/// The mathematical JSON value a [`JsonValue`] stands for.
pub enum Json {
    Null,
    Bool(bool),
    PosInt(u64),
    NegInt(i64),
    Float(serde_json::Number),
    Str(Seq<char>),
    Array(Seq<Json>),
    Object(Seq<(Seq<char>, Json)>),
}

/// The model of `value`.
pub open spec fn json_model(value: JsonValue) -> Json
    decreases value,
{
    match value {
        JsonValue::Null => Json::Null,
        JsonValue::Bool(b) => Json::Bool(b),
        JsonValue::Number(JsonNumber::PosInt(u)) => Json::PosInt(u),
        JsonValue::Number(JsonNumber::NegInt(i)) => Json::NegInt(i),
        JsonValue::Number(JsonNumber::Float(n)) => Json::Float(n),
        JsonValue::String(s) => Json::Str(s@),
        JsonValue::Array(items) => Json::Array(
            Seq::new(items@.len(), |i: int| if 0 <= i < items@.len() { json_model(items@[i]) } else { Json::Null }),
        ),
        JsonValue::Object(fields) => Json::Object(
            Seq::new(fields@.len(), |i: int| if 0 <= i < fields@.len() {
                (fields@[i].0@, json_model(fields@[i].1))
            } else {
                (Seq::empty(), Json::Null)
            }),
        ),
    }
}

impl View for JsonValue {
    type V = Json;

    open spec fn view(&self) -> Json {
        json_model(*self)
    }
}

/// The value of the first member of `fields` named `key`.
pub open spec fn json_field(fields: Seq<(Seq<char>, Json)>, key: Seq<char>) -> Option<Json>
    decreases fields.len(),
{
    if fields.len() == 0 {
        None
    } else if fields[0].0 == key {
        Some(fields[0].1)
    } else {
        json_field(fields.drop_first(), key)
    }
}

/// `value[key]` for an object; `None` for a missing member or a non-object.
pub open spec fn json_get(value: Json, key: Seq<char>) -> Option<Json> {
    match value {
        Json::Object(fields) => json_field(fields, key),
        _ => None,
    }
}

/// A JSON value as `serde_json` reads it, before its numbers are sorted
/// into the crate's kinds: each number is still `serde_json`'s own.
#[derive(Debug)]
pub enum RawJson {
    Null,
    Bool(bool),
    Number(serde_json::Number),
    String(String),
    Array(Vec<RawJson>),
    Object(Vec<(String, RawJson)>),
}

/// A [`RawJson`] as plain values.
pub enum RawModel {
    Null,
    Bool(bool),
    Number(serde_json::Number),
    Str(Seq<char>),
    Array(Seq<RawModel>),
    Object(Seq<(Seq<char>, RawModel)>),
}

/// The model of `value`.
pub open spec fn raw_model(value: RawJson) -> RawModel
    decreases value,
{
    match value {
        RawJson::Null => RawModel::Null,
        RawJson::Bool(b) => RawModel::Bool(b),
        RawJson::Number(n) => RawModel::Number(n),
        RawJson::String(s) => RawModel::Str(s@),
        RawJson::Array(items) => RawModel::Array(
            Seq::new(items@.len(), |i: int| if 0 <= i < items@.len() { raw_model(items@[i]) } else { RawModel::Null }),
        ),
        RawJson::Object(fields) => RawModel::Object(
            Seq::new(fields@.len(), |i: int| if 0 <= i < fields@.len() {
                (fields@[i].0@, raw_model(fields@[i].1))
            } else {
                (Seq::empty(), RawModel::Null)
            }),
        ),
    }
}

impl View for RawJson {
    type V = RawModel;

    open spec fn view(&self) -> RawModel {
        raw_model(*self)
    }
}

/// The kind of the `serde_json` number `n`: a non-negative integer when
/// `as_u64` gives one, else a negative integer when `as_i64` gives one,
/// else any other number.
pub open spec fn number_kind(n: serde_json::Number) -> Json {
    match number_u64(n) {
        Some(u) => Json::PosInt(u),
        None => match number_i64(n) {
            Some(i) => Json::NegInt(i),
            None => Json::Float(n),
        },
    }
}

/// The JSON value `r` with each number sorted into its kind.
pub open spec fn classify(r: RawModel) -> Json
    decreases r,
{
    match r {
        RawModel::Null => Json::Null,
        RawModel::Bool(b) => Json::Bool(b),
        RawModel::Number(n) => number_kind(n),
        RawModel::Str(s) => Json::Str(s),
        RawModel::Array(items) => Json::Array(
            Seq::new(items.len(), |i: int| if 0 <= i < items.len() { classify(items[i]) } else { Json::Null }),
        ),
        RawModel::Object(fields) => Json::Object(
            Seq::new(fields.len(), |i: int| if 0 <= i < fields.len() {
                (fields[i].0, classify(fields[i].1))
            } else {
                (Seq::empty(), Json::Null)
            }),
        ),
    }
}

/// Name for what `serde_json::from_slice::<serde_json::Value>` makes of
/// `bytes`, as plain values: `None` when the bytes are not one JSON text.
pub uninterp spec fn json_read(bytes: Seq<u8>) -> Option<RawModel>;

/// What the crate makes of `bytes`: the value `serde_json` reads, its
/// numbers sorted into kinds; `None` when the bytes are not one JSON text.
pub open spec fn json_parse(bytes: Seq<u8>) -> Option<Json> {
    match json_read(bytes) {
        Some(r) => Some(classify(r)),
        None => None,
    }
}

/// Name for the compact JSON text `serde_json::to_vec` writes for `value`.
pub uninterp spec fn json_encode(value: Json) -> Seq<u8>;

/// A value `serde_json` writes and reads back unchanged, with at most
/// `depth` levels of arrays and objects: object keys in increasing order,
/// negative integers only under `NegInt`, no non-integer numbers.
pub open spec fn json_canonical_within(value: Json, depth: nat) -> bool
    decreases value,
{
    match value {
        Json::NegInt(i) => i < 0,
        Json::Float(_) => false,
        Json::Array(items) => depth > 0 && forall|i: int|
            0 <= i < items.len() ==> #[trigger] json_canonical_within(items[i], (depth - 1) as nat),
        Json::Object(fields) => {
            &&& depth > 0
            &&& forall|i: int, j: int|
                0 <= i < j < fields.len() ==> text_less(#[trigger] fields[i].0, #[trigger] fields[j].0)
            &&& forall|i: int|
                0 <= i < fields.len() ==> #[trigger] json_canonical_within(fields[i].1, (depth - 1) as nat)
        },
        _ => true,
    }
}

/// Canonical, with at most 127 levels of nesting: the most `serde_json`
/// reads (its reader starts with a depth budget of 128 and refuses a text
/// when an array or object brings it to zero).
pub open spec fn json_canonical(value: Json) -> bool {
    json_canonical_within(value, 127)
}

/// Name for what `serde_json::Number::as_u64` returns for `n`.
pub uninterp spec fn number_u64(n: serde_json::Number) -> Option<u64>;

/// Name for what `serde_json::Number::as_i64` returns for `n`.
pub uninterp spec fn number_i64(n: serde_json::Number) -> Option<i64>;

/// `serde_json::Number::as_u64`: the number as a `u64`, when it is a
/// non-negative integer.
#[verifier::external_body]
fn number_as_u64(n: &serde_json::Number) -> (r: Option<u64>)
    ensures
        r == number_u64(*n),
{
    n.as_u64()
}

/// `serde_json::Number::as_i64`: the number as an `i64`, when it is an
/// integer in range. As its source shows, a non-negative integer `u` gives
/// `u` when it is at most `i64::MAX` and nothing otherwise, and any other
/// integer is negative.
#[verifier::external_body]
fn number_as_i64(n: &serde_json::Number) -> (r: Option<i64>)
    ensures
        r == number_i64(*n),
        number_u64(*n) matches Some(u) ==> r == (if u <= i64::MAX as u64 { Some(u as i64) } else { None::<i64> }),
        r matches Some(i) ==> (number_u64(*n) is None ==> i < 0),
{
    n.as_i64()
}

/// The kind of a `serde_json` number: a non-negative integer, a negative
/// integer, or any other number.
fn number_model(n: serde_json::Number) -> (r: JsonNumber)
    ensures
        match r {
            JsonNumber::PosInt(u) => number_u64(n) == Some(u),
            JsonNumber::NegInt(i) => number_u64(n) is None && number_i64(n) == Some(i) && i < 0,
            JsonNumber::Float(m) => m == n && number_u64(n) is None && number_i64(n) is None,
        },
{
    match number_as_u64(&n) {
        Some(u) => JsonNumber::PosInt(u),
        None => match number_as_i64(&n) {
            Some(i) => JsonNumber::NegInt(i),
            None => JsonNumber::Float(n),
        },
    }
}

/// Converts a `serde_json::Value` into a [`RawJson`], member by member.
#[verifier::external_body]
fn raw_of(value: serde_json::Value) -> RawJson {
    match value {
        serde_json::Value::Null => RawJson::Null,
        serde_json::Value::Bool(b) => RawJson::Bool(b),
        serde_json::Value::Number(n) => RawJson::Number(n),
        serde_json::Value::String(s) => RawJson::String(s),
        serde_json::Value::Array(a) => RawJson::Array(a.into_iter().map(raw_of).collect()),
        serde_json::Value::Object(m) => RawJson::Object(m.into_iter().map(|(k, v)| (k, raw_of(v))).collect()),
    }
}

/// `raw` with each number sorted into its kind.
fn classify_value(raw: RawJson) -> (v: JsonValue)
    ensures
        v@ == classify(raw@),
    decreases raw,
{
    let ghost r0 = raw;
    match raw {
        RawJson::Null => JsonValue::Null,
        RawJson::Bool(b) => JsonValue::Bool(b),
        RawJson::Number(n) => {
            let k = number_model(n);
            assert(json_model(JsonValue::Number(k)) == number_kind(n));
            JsonValue::Number(k)
        },
        RawJson::String(s) => JsonValue::String(s),
        RawJson::Array(items) => {
            let ghost v0 = items;
            let mut items = items;
            let total: usize = items.len();
            let mut out: Vec<JsonValue> = Vec::new();
            let mut k: usize = 0;
            while items.len() > 0
                invariant
                    r0 == RawJson::Array(v0),
                    r0 == raw,
                    v0@.len() == total,
                    k <= v0@.len(),
                    items@ == v0@.skip(k as int),
                    k + items@.len() == v0@.len(),
                    out@.len() == k,
                    forall|i: int| 0 <= i < k ==> #[trigger] json_model(out@[i]) == classify(raw_model(v0@[i])),
                decreases items.len(),
            {
                let x = items.remove(0);
                proof {
                    assert(x == v0@[k as int]);
                    assert(r0->Array_0 == v0);
                    assert(decreases_to!(r0 => r0->Array_0));
                    assert(decreases_to!(v0 => v0@));
                    assert(decreases_to!(v0@ => v0@[k as int]));
                    assert(decreases_to!(r0 => x));
                    assert(v0@.skip(k as int).drop_first() =~= v0@.skip(k + 1));
                }
                let c = classify_value(x);
                out.push(c);
                k = k + 1;
            }
            let v = JsonValue::Array(out);
            proof {
                assert(k == v0@.len());
                let ri = raw_model(r0)->Array_0;
                assert(ri.len() == v0@.len());
                let jv = json_model(v)->Array_0;
                let cr = classify(raw_model(r0))->Array_0;
                assert forall|i: int| 0 <= i < jv.len() implies jv[i] == cr[i] by {
                    assert(ri[i] == raw_model(v0@[i]));
                    assert(jv[i] == json_model(out@[i]));
                }
                assert(jv =~= cr);
            }
            v
        },
        RawJson::Object(fields) => {
            let ghost v0 = fields;
            let mut fields = fields;
            let total: usize = fields.len();
            let mut out: Vec<(String, JsonValue)> = Vec::new();
            let mut k: usize = 0;
            while fields.len() > 0
                invariant
                    r0 == RawJson::Object(v0),
                    r0 == raw,
                    v0@.len() == total,
                    k <= v0@.len(),
                    fields@ == v0@.skip(k as int),
                    k + fields@.len() == v0@.len(),
                    out@.len() == k,
                    forall|i: int| 0 <= i < k ==> (#[trigger] out@[i]).0@ == v0@[i].0@
                        && json_model(out@[i].1) == classify(raw_model(v0@[i].1)),
                decreases fields.len(),
            {
                let (key, x) = fields.remove(0);
                proof {
                    assert((key, x) == v0@[k as int]);
                    assert(r0->Object_0 == v0);
                    assert(decreases_to!(r0 => r0->Object_0));
                    assert(decreases_to!(v0 => v0@));
                    assert(decreases_to!(v0@ => v0@[k as int]));
                    assert(decreases_to!(v0@[k as int] => v0@[k as int].1));
                    assert(decreases_to!(r0 => x));
                    assert(v0@.skip(k as int).drop_first() =~= v0@.skip(k + 1));
                }
                let c = classify_value(x);
                out.push((key, c));
                k = k + 1;
            }
            let v = JsonValue::Object(out);
            proof {
                assert(k == v0@.len());
                let rf = raw_model(r0)->Object_0;
                assert(rf.len() == v0@.len());
                let jv = json_model(v)->Object_0;
                let cr = classify(raw_model(r0))->Object_0;
                assert forall|i: int| 0 <= i < jv.len() implies jv[i] == cr[i] by {
                    assert(rf[i] == (v0@[i].0@, raw_model(v0@[i].1)));
                    assert(jv[i] == (out@[i].0@, json_model(out@[i].1)));
                }
                assert(jv =~= cr);
            }
            v
        },
    }
}

/// Converts the crate's model back into a `serde_json::Value`.
#[verifier::external_body]
fn serde_of(value: &JsonValue) -> serde_json::Value {
    match value {
        JsonValue::Null => serde_json::Value::Null,
        JsonValue::Bool(b) => serde_json::Value::Bool(*b),
        JsonValue::Number(n) => serde_json::Value::Number(serde_number(n)),
        JsonValue::String(s) => serde_json::Value::String(s.clone()),
        JsonValue::Array(a) => serde_json::Value::Array(a.iter().map(serde_of).collect()),
        JsonValue::Object(m) => serde_json::Value::Object(m.iter().map(|(k, v)| (k.clone(), serde_of(v))).collect()),
    }
}

/// Converts a number of the crate's model back into a `serde_json::Number`.
#[verifier::external_body]
fn serde_number(n: &JsonNumber) -> serde_json::Number {
    match n {
        JsonNumber::PosInt(u) => (*u).into(),
        JsonNumber::NegInt(i) => (*i).into(),
        JsonNumber::Float(f) => f.clone(),
    }
}

/// Reads one JSON text with `serde_json::from_slice`. The result is the
/// named [`json_read`] of the bytes; on failure, `serde_json`'s error text.
#[verifier::external_body]
fn read_json(bytes: &[u8]) -> (r: Result<RawJson, String>)
    ensures
        match r {
            Ok(v) => json_read(bytes@) == Some(v@),
            Err(_) => json_read(bytes@) is None,
        },
{
    match serde_json::from_slice::<serde_json::Value>(bytes) {
        Ok(v) => Ok(raw_of(v)),
        Err(e) => Err(e.to_string()),
    }
}

/// Parses one JSON text: the value `serde_json` reads, with its numbers
/// sorted into kinds; on failure, `serde_json`'s error text.
pub(crate) fn parse_json(bytes: &[u8]) -> (r: Result<JsonValue, String>)
    ensures
        match r {
            Ok(v) => json_parse(bytes@) == Some(v@),
            Err(_) => json_parse(bytes@) is None,
        },
{
    match read_json(bytes) {
        Ok(raw) => Ok(classify_value(raw)),
        Err(e) => Err(e),
    }
}

/// Writes `value` as compact JSON text with `serde_json::to_vec` (writing a
/// `serde_json::Value` into a vector cannot fail). The text is the named
/// [`json_encode`] of the value. As `serde_json` documents it, the text is
/// never empty and is UTF-8, and reading it back with `from_slice` gives
/// the same value; in this crate's model that holds for canonical values,
/// whose object members are already sorted by key (the order of
/// `serde_json`'s map) and whose integers keep their kind on both sides.
#[verifier::external_body]
pub(crate) fn encode_json(value: &JsonValue) -> (r: Vec<u8>)
    ensures
        r@ == json_encode(value@),
        r@.len() > 0,
        vstd::utf8::valid_utf8(r@),
        json_canonical(value@) ==> json_parse(r@) == Some(value@),
{
    serde_json::to_vec(&serde_of(value)).unwrap_or_default()
}

} // verus!

verus! {

proof fn lemma_json_field_skip(fields: Seq<(Seq<char>, Json)>, key: Seq<char>, i: int)
    requires
        0 <= i < fields.len(),
        fields[i].0 != key,
    ensures
        json_field(fields.skip(i), key) == json_field(fields.skip(i + 1), key),
{
    assert(fields.skip(i).drop_first() =~= fields.skip(i + 1));
}

proof fn lemma_json_field_hit(fields: Seq<(Seq<char>, Json)>, key: Seq<char>, i: int)
    requires
        0 <= i < fields.len(),
        fields[i].0 == key,
    ensures
        json_field(fields.skip(i), key) == Some(fields[i].1),
{
    assert(fields.skip(i)[0] == fields[i]);
}

/// The model of an object with members `fields`.
pub open spec fn object_model(fields: Seq<(String, JsonValue)>) -> Seq<(Seq<char>, Json)> {
    Seq::new(fields.len(), |i: int| (fields[i].0@, fields[i].1@))
}

impl JsonValue {
    /// Position of the first member named `key` when this is an object.
    pub fn field_index(&self, key: &String) -> (r: Option<usize>)
        ensures
            match r {
                Some(i) => self is Object && i < self->Object_0@.len()
                    && self->Object_0@[i as int].0@ == key@
                    && (forall|j: int| 0 <= j < i ==> self->Object_0@[j].0@ != key@)
                    && json_get(self@, key@) == Some(self->Object_0@[i as int].1@),
                None => json_get(self@, key@) is None
                    && (self is Object ==> forall|j: int| 0 <= j < self->Object_0@.len() ==> self->Object_0@[j].0@ != key@),
            },
    {
        match self {
            JsonValue::Object(fields) => {
                let ghost model = object_model(fields@);
                assert(self@ == Json::Object(model)) by {
                    assert(*self == JsonValue::Object(*fields));
                    let ghost m2 = json_model(JsonValue::Object(*fields))->Object_0;
                    assert(model =~= m2);
                }
                let mut i: usize = 0;
                assert(model.skip(0) =~= model);
                while i < fields.len()
                    invariant
                        *self == JsonValue::Object(*fields),
                        model == object_model(fields@),
                        self@ == Json::Object(model),
                        i <= fields.len(),
                        forall|j: int| 0 <= j < i ==> fields@[j].0@ != key@,
                        json_field(model, key@) == json_field(model.skip(i as int), key@),
                    decreases fields.len() - i,
                {
                    if fields[i].0 == *key {
                        proof {
                            assert(model[i as int] == (fields@[i as int].0@, fields@[i as int].1@));
                            lemma_json_field_hit(model, key@, i as int);
                        }
                        return Some(i);
                    }
                    proof {
                        assert(model[i as int] == (fields@[i as int].0@, fields@[i as int].1@));
                        lemma_json_field_skip(model, key@, i as int);
                    }
                    i = i + 1;
                }
                assert(model.skip(i as int).len() == 0);
                None
            },
            _ => None,
        }
    }

    /// `self[key]`: the first member named `key` of an object.
    pub fn get(&self, key: &str) -> (r: Option<&JsonValue>)
        ensures
            match r {
                Some(v) => json_get(self@, key@) == Some(v@),
                None => json_get(self@, key@) is None,
            },
    {
        let k = String::from_str(key);
        match self.field_index(&k) {
            Some(i) => match self {
                JsonValue::Object(fields) => Some(&fields[i].1),
                _ => None,
            },
            None => None,
        }
    }

    /// The value as a `u64`, for a non-negative integer.
    pub fn as_u64(&self) -> (r: Option<u64>)
        ensures
            r == (match self@ {
                Json::PosInt(u) => Some(u),
                _ => None::<u64>,
            }),
    {
        match self {
            JsonValue::Number(JsonNumber::PosInt(u)) => Some(*u),
            _ => None,
        }
    }

    /// The value as a string slice, for a JSON string.
    pub fn as_str(&self) -> (r: Option<&str>)
        ensures
            match self@ {
                Json::Str(s) => r is Some && r.unwrap()@ == s,
                _ => r is None,
            },
    {
        match self {
            JsonValue::String(s) => Some(s.as_str()),
            _ => None,
        }
    }

    /// Parse one JSON text.
    pub fn from_json_bytes(bytes: &[u8]) -> (r: Result<JsonValue, crate::error::SysError>)
        ensures
            match r {
                Ok(v) => json_parse(bytes@) == Some(v@),
                Err(e) => json_parse(bytes@) is None && e is JsonError,
            },
    {
        match parse_json(bytes) {
            Ok(v) => Ok(v),
            Err(e) => Err(crate::error::SysError::JsonError(e)),
        }
    }

    /// The compact JSON text of this value.
    pub fn to_json_bytes(&self) -> (r: Vec<u8>)
        ensures
            r@ == json_encode(self@),
            r@.len() > 0,
            vstd::utf8::valid_utf8(r@),
            json_canonical(self@) ==> json_parse(r@) == Some(self@),
    {
        encode_json(self)
    }
}

} // verus!

verus! {

/// The JSON text `true` or `false`.
pub open spec fn json_bool_text(b: bool) -> Seq<char> {
    if b {
        seq!['t', 'r', 'u', 'e']
    } else {
        seq!['f', 'a', 'l', 's', 'e']
    }
}

/// One object member `"key":value`, for a key that needs no escaping and
/// a value given as its JSON text.
pub open spec fn json_member_text(key: Seq<char>, value: Seq<char>) -> Seq<char> {
    seq!['"'] + key + seq!['"', ':'] + value
}

/// The members `ms`, in order, separated by commas.
pub open spec fn json_members_text(ms: Seq<(Seq<char>, Seq<char>)>) -> Seq<char>
    decreases ms.len(),
{
    if ms.len() == 0 {
        Seq::empty()
    } else if ms.len() == 1 {
        json_member_text(ms[0].0, ms[0].1)
    } else {
        json_members_text(ms.drop_last()) + seq![','] + json_member_text(ms.last().0, ms.last().1)
    }
}

/// The JSON text of an object with the members `ms`, in order: braces
/// around the members separated by commas.
pub open spec fn json_object_text(ms: Seq<(Seq<char>, Seq<char>)>) -> Seq<char> {
    seq!['{'] + json_members_text(ms) + seq!['}']
}

/// The JSON text of `value` as characters.
pub open spec fn json_text(value: Json) -> Seq<char> {
    vstd::utf8::decode_utf8(json_encode(value))
}

impl JsonValue {
    /// The compact JSON text of this value, as a string.
    pub fn to_json_string(&self) -> (s: String)
        ensures
            s@ == json_text(self@),
    {
        let bytes = encode_json(self);
        match crate::text::utf8_str(bytes.as_slice()) {
            Ok(t) => String::from_str(t),
            Err(_) => String::new(),
        }
    }
}

} // verus!
