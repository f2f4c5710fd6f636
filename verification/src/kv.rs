//! Per-capsule key-value storage: the versioned envelope format.
//!
//! Versioned values are stored as the JSON text
//! `{"__sv": <version>, "data": <payload>}`. [`set_versioned`] builds that
//! text and [`parse_versioned`] reads it back, classifying the stored value
//! against the schema version the capsule currently understands.
use vstd::prelude::*;
use crate::strings::text_less;
use crate::error::{SysError, api_error};
use crate::json::{Json, JsonNumber, JsonValue, json_field, json_canonical, json_canonical_within, json_encode, json_get, json_parse, encode_json, parse_json};
use crate::text::{decimal, decimal_chars, push_str};

verus! {

/// A page of keys returned by a paginated key listing.
#[derive(Debug)]
pub struct KeyPage {
    /// Keys matching the prefix in this page.
    pub keys: Vec<String>,
    /// Cursor for the next call; `None` on the last page.
    pub next_cursor: Option<String>,
}

/// Result of reading versioned data.
#[derive(Debug, PartialEq)]
pub enum Versioned {
    /// Data is at the expected schema version (the `data` member).
    Current(JsonValue),
    /// Data is at an older version and needs migration.
    NeedsMigration {
        /// The stored `data` member.
        raw: JsonValue,
        /// The schema version that was stored.
        stored_version: u32,
    },
    /// The key holds JSON without a version envelope (legacy data).
    Unversioned(JsonValue),
    /// The key does not exist (or holds an empty value).
    NotFound,
}

/// The model of a [`Versioned`] read.
pub enum VersionedModel {
    Current(Json),
    NeedsMigration(Json, u32),
    Unversioned(Json),
    NotFound,
}

impl View for Versioned {
    type V = VersionedModel;

    open spec fn view(&self) -> VersionedModel {
        match *self {
            Versioned::Current(d) => VersionedModel::Current(d@),
            Versioned::NeedsMigration { raw, stored_version } => VersionedModel::NeedsMigration(raw@, stored_version),
            Versioned::Unversioned(v) => VersionedModel::Unversioned(v@),
            Versioned::NotFound => VersionedModel::NotFound,
        }
    }
}

/// Why a stored value could not be read as versioned data.
pub enum VersionedFailure {
    /// The stored bytes are not JSON.
    InvalidJson,
    /// The SDK refuses the envelope, with this message.
    Refused(Seq<char>),
}

pub open spec fn version_overflow_message() -> Seq<char> {
    "schema version exceeds u32::MAX"@
}

pub open spec fn newer_version_message(stored: u64, current: u32) -> Seq<char> {
    "stored schema version "@ + decimal(stored as nat) + " is newer than current version "@
        + decimal(current as nat) + " - cannot safely read"@
}

pub open spec fn malformed_envelope_message() -> Seq<char> {
    "malformed versioned envelope: __sv field present but data field missing or __sv is not a number"@
}

/// The envelope's `__sv` member, when it is a non-negative integer.
pub open spec fn envelope_version(value: Json) -> Option<u64> {
    match json_get(value, "__sv"@) {
        Some(Json::PosInt(v)) => Some(v),
        _ => None,
    }
}

/// How a parsed stored value reads against `current` schema version.
pub open spec fn versioned_from_json(value: Json, current: u32) -> Result<VersionedModel, VersionedFailure> {
    let data = json_get(value, "data"@);
    if envelope_version(value) is Some && data is Some {
        let v = envelope_version(value)->0;
        if v > u32::MAX {
            Err(VersionedFailure::Refused(version_overflow_message()))
        } else if v == current {
            Ok(VersionedModel::Current(data->0))
        } else if v < current {
            Ok(VersionedModel::NeedsMigration(data->0, v as u32))
        } else {
            Err(VersionedFailure::Refused(newer_version_message(v, current)))
        }
    } else if json_get(value, "__sv"@) is Some {
        Err(VersionedFailure::Refused(malformed_envelope_message()))
    } else {
        Ok(VersionedModel::Unversioned(value))
    }
}

/// How the stored bytes (or their absence) read against `current`.
pub open spec fn versioned_from_bytes(bytes: Option<Seq<u8>>, current: u32) -> Result<VersionedModel, VersionedFailure> {
    match bytes {
        None => Ok(VersionedModel::NotFound),
        Some(b) => if b.len() == 0 {
            Ok(VersionedModel::NotFound)
        } else {
            match json_parse(b) {
                None => Err(VersionedFailure::InvalidJson),
                Some(v) => versioned_from_json(v, current),
            }
        },
    }
}

/// `r` is what the specification `s` describes: the same value, a JSON error
/// for invalid JSON, an API error carrying the refusal message.
pub open spec fn versioned_result_is(r: Result<Versioned, SysError>, s: Result<VersionedModel, VersionedFailure>) -> bool {
    match s {
        Ok(v) => r is Ok && r->Ok_0@ == v,
        Err(VersionedFailure::InvalidJson) => r matches Err(SysError::JsonError(_)),
        Err(VersionedFailure::Refused(m)) => r matches Err(SysError::ApiError(e)) && e@ == m,
    }
}

/// Read versioned data from the bytes stored under a key (`None` when the
/// key is absent).
///
/// A value at `current_version` is [`Versioned::Current`]; an older one is
/// [`Versioned::NeedsMigration`]; a newer one is refused (fail secure: data
/// from a schema the capsule does not understand is never interpreted).
/// JSON without a `__sv` member is [`Versioned::Unversioned`]; a `__sv`
/// member without a numeric version or without `data` is refused.
pub fn parse_versioned(bytes: Option<&[u8]>, current_version: u32) -> (r: Result<Versioned, SysError>)
    ensures
        versioned_result_is(r, versioned_from_bytes(
            match bytes { Some(b) => Some(b@), None => None },
            current_version,
        )),
{
    let bytes = match bytes {
        None => return Ok(Versioned::NotFound),
        Some(b) => b,
    };
    if bytes.len() == 0 {
        return Ok(Versioned::NotFound);
    }
    let value = match parse_json(bytes) {
        Ok(v) => v,
        Err(e) => return Err(SysError::JsonError(e)),
    };
    let sv_key = String::from_str("__sv");
    let data_key = String::from_str("data");
    let sv_index = value.field_index(&sv_key);
    let data_index = value.field_index(&data_key);
    proof {
        reveal_strlit("__sv");
        reveal_strlit("data");
    }
    let version: Option<u64> = match sv_index {
        Some(i) => match &value {
            JsonValue::Object(fields) => fields[i].1.as_u64(),
            _ => None,
        },
        None => None,
    };
    match (version, data_index) {
        (Some(v), Some(di)) => {
            if v > 0xffff_ffffu64 {
                let mut msg = Vec::new();
                push_str(&mut msg, "schema version exceeds u32::MAX");
                return Err(api_error(&msg));
            }
            let v32 = v as u32;
            let data = match value {
                JsonValue::Object(mut fields) => fields.remove(di).1,
                _ => {
                    // `data_index` is only found in an object.
                    proof {
                        assert(false);
                    }
                    return Err(SysError::ApiError(String::new()));
                },
            };
            if v32 == current_version {
                Ok(Versioned::Current(data))
            } else if v32 < current_version {
                Ok(Versioned::NeedsMigration { raw: data, stored_version: v32 })
            } else {
                let mut msg = Vec::new();
                push_str(&mut msg, "stored schema version ");
                let mut d = decimal_chars(v);
                msg.append(&mut d);
                push_str(&mut msg, " is newer than current version ");
                let mut c = decimal_chars(current_version as u64);
                msg.append(&mut c);
                push_str(&mut msg, " - cannot safely read");
                Err(api_error(&msg))
            }
        },
        _ => {
            if sv_index.is_some() {
                let mut msg = Vec::new();
                push_str(
                    &mut msg,
                    "malformed versioned envelope: __sv field present but data field missing or __sv is not a number",
                );
                Err(api_error(&msg))
            } else {
                Ok(Versioned::Unversioned(value))
            }
        },
    }
}

/// The envelope `{"__sv": version, "data": data}`.
pub open spec fn envelope_model(data: Json, version: u32) -> Json {
    Json::Object(seq![("__sv"@, Json::PosInt(version as u64)), ("data"@, data)])
}

/// How data written at `version` reads back against `current`.
pub open spec fn versioned_read_back(data: Json, version: u32, current: u32) -> Result<VersionedModel, VersionedFailure> {
    if version == current {
        Ok(VersionedModel::Current(data))
    } else if version < current {
        Ok(VersionedModel::NeedsMigration(data, version))
    } else {
        Err(VersionedFailure::Refused(newer_version_message(version as u64, current)))
    }
}

/// A write the host performs: store `value` under `key`.
#[derive(Debug)]
pub struct KvWrite {
    pub key: String,
    pub value: Vec<u8>,
}

/// Wrap `value` in the schema-version envelope `{"__sv": version, "data": value}`.
pub fn versioned_envelope(value: JsonValue, version: u32) -> (e: JsonValue)
    ensures
        e@ == envelope_model(value@, version),
{
    let mut fields: Vec<(String, JsonValue)> = Vec::new();
    fields.push((String::from_str("__sv"), JsonValue::Number(JsonNumber::PosInt(version as u64))));
    fields.push((String::from_str("data"), value));
    let e = JsonValue::Object(fields);
    proof {
        reveal_strlit("__sv");
        reveal_strlit("data");
        reveal_with_fuel(crate::json::json_model, 2);
        let m = e@->Object_0;
        assert(fields@.len() == 2);
        assert(m.len() == 2);
        assert(m[0] == ("__sv"@, Json::PosInt(version as u64)));
        assert(m[1] == ("data"@, value@));
        assert(m =~= envelope_model(value@, version)->Object_0);
    }
    e
}

proof fn lemma_envelope_reads(data: Json, version: u32, current: u32)
    ensures
        versioned_from_json(envelope_model(data, version), current) == versioned_read_back(data, version, current),
{
    reveal_strlit("__sv");
    reveal_strlit("data");
    let f = envelope_model(data, version)->Object_0;
    assert(f.drop_first().drop_first().len() == 0);
    assert(json_get(envelope_model(data, version), "__sv"@) == Some(Json::PosInt(version as u64)));
    assert(f.drop_first()[0] == ("data"@, data));
    assert("data"@[0] == 'd' && "__sv"@[0] == '_');
    assert("data"@ != "__sv"@);
    assert(json_field(f.drop_first(), "data"@) == Some(data));
    assert(json_get(envelope_model(data, version), "data"@) == Some(data));
}

proof fn lemma_envelope_canonical(data: Json, version: u32)
    requires
        json_canonical_within(data, 126),
    ensures
        json_canonical(envelope_model(data, version)),
{
    reveal_strlit("__sv");
    reveal_strlit("data");
    let f = envelope_model(data, version)->Object_0;
    assert("data"@[0] == 'd' && "__sv"@[0] == '_' && "data"@.len() == 4 && "__sv"@.len() == 4);
    assert(text_less("__sv"@, "data"@)) by {
        assert(('_' as u32) < ('d' as u32));
    }
    assert forall|i: int, j: int| 0 <= i < j < f.len() implies text_less(#[trigger] f[i].0, #[trigger] f[j].0) by {
        assert(i == 0 && j == 1);
    }
    assert forall|i: int| 0 <= i < f.len() implies #[trigger] json_canonical_within(f[i].1, 126) by {
        if i == 0 {
            assert(f[0].1 == Json::PosInt(version as u64));
            reveal_with_fuel(json_canonical_within, 2);
        }
    }
    let e = envelope_model(data, version);
    assert(e is Object);
    assert(forall|i: int, j: int|
                0 <= i < j < f.len() ==> text_less(#[trigger] f[i].0, #[trigger] f[j].0));
    assert(forall|i: int|
                0 <= i < f.len() ==> #[trigger] json_canonical_within(f[i].1, (127 - 1) as nat));
    assert(e == Json::Object(f));
    reveal_with_fuel(json_canonical_within, 2);
    assert(json_canonical_within(Json::Object(f), 127));
}

/// The write that stores `value` under `key` in the versioned envelope
/// `{"__sv": version, "data": value}`.
///
/// The stored text reads back through [`parse_versioned`] as the same data:
/// current when `version` is the reader's version, in need of migration
/// when older, refused when newer (for data `serde_json` writes and reads
/// back unchanged: no non-integer numbers, object keys in increasing order,
/// and at most 126 levels of nesting, the envelope being the 127th).
pub fn set_versioned(key: &str, value: JsonValue, version: u32) -> (w: KvWrite)
    ensures
        w.key@ == key@,
        w.value@ == json_encode(envelope_model(value@, version)),
        json_canonical_within(value@, 126) ==> forall|current: u32|
            #[trigger] versioned_from_bytes(Some(w.value@), current)
                == versioned_read_back(value@, version, current),
{
    let ghost data = value@;
    let envelope = versioned_envelope(value, version);
    let bytes = encode_json(&envelope);
    proof {
        if json_canonical_within(data, 126) {
            lemma_envelope_canonical(data, version);
            assert forall|current: u32| #[trigger] versioned_from_bytes(Some(bytes@), current)
                == versioned_read_back(data, version, current) by {
                lemma_envelope_reads(data, version, current);
            }
        }
    }
    KvWrite { key: String::from_str(key), value: bytes }
}

/// A stored value as raw bytes, from the host's answer: an absent key reads
/// as no bytes (the host answer itself tells "absent" from "empty").
pub fn get_bytes(value: Option<Vec<u8>>) -> (b: Vec<u8>)
    ensures
        match value {
            Some(v) => b@ == v@,
            None => b@.len() == 0,
        },
{
    match value {
        Some(v) => v,
        None => Vec::new(),
    }
}

/// What reading versioned data leads to when a migration is offered.
#[derive(Debug, PartialEq)]
pub enum MigrationStep {
    /// The data is current: it is the answer.
    Ready(JsonValue),
    /// The data must be migrated from `from_version` (0 for unversioned
    /// data), then written back at the current version.
    Migrate { raw: JsonValue, from_version: u32 },
    /// The key holds nothing.
    Absent,
}

/// The step that follows a versioned read: current data is returned as is,
/// older or unversioned data (as version 0) goes through the migration,
/// and an absent key gives no value.
pub fn migration_step(read: Versioned) -> (s: MigrationStep)
    ensures
        match read {
            Versioned::Current(d) => s == MigrationStep::Ready(d),
            Versioned::NeedsMigration { raw, stored_version } => s == (MigrationStep::Migrate { raw, from_version: stored_version }),
            Versioned::Unversioned(raw) => s == (MigrationStep::Migrate { raw, from_version: 0 }),
            Versioned::NotFound => s == MigrationStep::Absent,
        },
{
    match read {
        Versioned::Current(d) => MigrationStep::Ready(d),
        Versioned::NeedsMigration { raw, stored_version } => MigrationStep::Migrate { raw, from_version: stored_version },
        Versioned::Unversioned(raw) => MigrationStep::Migrate { raw, from_version: 0 },
        Versioned::NotFound => MigrationStep::Absent,
    }
}

} // verus!
