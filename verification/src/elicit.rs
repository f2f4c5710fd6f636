//! Interactive user input during the install and upgrade lifecycle.
//!
//! Each prompt is a request handed to the host, which answers with a typed
//! response; this module validates the request before it leaves the capsule
//! and checks the response against what was asked.
use vstd::prelude::*;
use crate::error::{SysError, api_error, api_error_str};
use crate::strings::{is_white_space, white_space};
use crate::text::{chars_of, push_str, str_eq};

verus! {

/// Whether `s` is empty once surrounding white space is trimmed, that is,
/// whether every character of `s` is white space.
pub open spec fn is_blank(s: Seq<char>) -> bool {
    forall|i: int| 0 <= i < s.len() ==> is_white_space(#[trigger] s[i])
}

/// Refuse an elicit key that is empty or white space only.
pub fn validate_key(key: &str) -> (r: Result<(), SysError>)
    ensures
        is_blank(key@) ==> (r matches Err(SysError::ApiError(m)) && m@
            == "elicit key must not be empty"@),
        !is_blank(key@) ==> r is Ok,
{
    let chars = chars_of(key);
    let mut i: usize = 0;
    while i < chars.len()
        invariant
            i <= chars.len(),
            chars@ == key@,
            forall|j: int| 0 <= j < i ==> is_white_space(#[trigger] chars@[j]),
        decreases chars.len() - i,
    {
        if !white_space(chars[i]) {
            return Ok(());
        }
        i = i + 1;
    }
    Err(api_error_str("elicit key must not be empty"))
}

/// The kind of value a prompt asks for.
#[derive(Debug, Clone, Copy, PartialEq, Eq)]
pub enum ElicitType {
    Text,
    Secret,
    Select,
    Array,
}

/// A prompt as handed to the host.
#[derive(Debug, Clone)]
pub struct ElicitRequest {
    pub kind: ElicitType,
    pub key: String,
    pub description: String,
    pub options: Option<Vec<String>>,
    pub default_value: Option<String>,
}

/// The host's answer to a prompt.
#[derive(Debug, Clone)]
pub enum ElicitResponse {
    /// A single value.
    Value(String),
    /// Several values.
    Values(Vec<String>),
    /// A secret was stored by the kernel; the capsule never sees it.
    SecretStored,
}

/// What an elicit request says, as plain values.
pub open spec fn request_is(
    r: ElicitRequest,
    kind: ElicitType,
    key: Seq<char>,
    description: Seq<char>,
    default_value: Option<Seq<char>>,
) -> bool {
    &&& r.kind == kind
    &&& r.key@ == key
    &&& r.description@ == description
    &&& match default_value {
        Some(d) => r.default_value matches Some(v) && v@ == d,
        None => r.default_value is None,
    }
}

fn build_request(kind: ElicitType, key: &str, description: &str, options: Option<Vec<String>>, default_value: Option<String>) -> (r: ElicitRequest)
    ensures
        r.kind == kind,
        r.key@ == key@,
        r.description@ == description@,
        r.options == options,
        r.default_value == default_value,
{
    ElicitRequest {
        kind,
        key: String::from_str(key),
        description: String::from_str(description),
        options,
        default_value,
    }
}

/// The prompt storing a secret under `key` in the kernel's secret store.
pub fn secret(key: &str, description: &str) -> (r: Result<ElicitRequest, SysError>)
    ensures
        is_blank(key@) ==> (r matches Err(SysError::ApiError(m)) && m@
            == "elicit key must not be empty"@),
        !is_blank(key@) ==> (r matches Ok(q) && request_is(q, ElicitType::Secret, key@, description@, None)
            && q.options is None),
{
    validate_key(key)?;
    Ok(build_request(ElicitType::Secret, key, description, None, None))
}

/// The prefix of the error for a response of the wrong shape.
pub open spec fn unexpected_prefix(what: Seq<char>) -> Seq<char> {
    "host returned unexpected response for "@ + what + " elicit: "@
}

/// The escape of one character inside a quoted string: backslash, quote,
/// line feed, carriage return, tab and NUL as their escape sequences, any
/// other character as itself.
pub open spec fn escaped_char(c: char) -> Seq<char> {
    if c == '\\' {
        seq!['\\', '\\']
    } else if c == '"' {
        seq!['\\', '"']
    } else if c == '\n' {
        seq!['\\', 'n']
    } else if c == '\r' {
        seq!['\\', 'r']
    } else if c == '\t' {
        seq!['\\', 't']
    } else if c == '\0' {
        seq!['\\', '0']
    } else {
        seq![c]
    }
}

/// The characters of `s`, each escaped.
pub open spec fn escaped(s: Seq<char>) -> Seq<char>
    decreases s.len(),
{
    if s.len() == 0 {
        Seq::empty()
    } else {
        escaped(s.drop_last()) + escaped_char(s.last())
    }
}

/// `s` between double quotes, escaped.
pub open spec fn quoted(s: Seq<char>) -> Seq<char> {
    seq!['"'] + escaped(s) + seq!['"']
}

/// The quoted strings `v`, separated by `, `.
pub open spec fn quoted_list(v: Seq<Seq<char>>) -> Seq<char>
    decreases v.len(),
{
    if v.len() == 0 {
        Seq::empty()
    } else if v.len() == 1 {
        quoted(v[0])
    } else {
        quoted_list(v.drop_last()) + ", "@ + quoted(v.last())
    }
}

/// The text of a host response in an error message, in the shape of its
/// `Debug` form: `Value("..")`, `Values(["..", ".."])` or `SecretStored`.
pub open spec fn response_text(r: ElicitResponse) -> Seq<char> {
    match r {
        ElicitResponse::Value(v) => "Value("@ + quoted(v@) + ")"@,
        ElicitResponse::Values(vs) => "Values(["@ + quoted_list(string_texts(vs@)) + "])"@,
        ElicitResponse::SecretStored => "SecretStored"@,
    }
}

/// The error for a response of the wrong shape.
pub open spec fn unexpected_message(what: Seq<char>, r: ElicitResponse) -> Seq<char> {
    unexpected_prefix(what) + response_text(r)
}

fn push_quoted(out: &mut Vec<char>, s: &str)
    ensures
        final(out)@ == old(out)@ + quoted(s@),
{
    let ghost start = out@;
    let cs = chars_of(s);
    out.push('"');
    let mut i: usize = 0;
    while i < cs.len()
        invariant
            i <= cs@.len(),
            cs@ == s@,
            out@ == start + seq!['"'] + escaped(cs@.take(i as int)),
        decreases cs.len() - i,
    {
        let c = cs[i];
        if c == '\\' {
            out.push('\\');
            out.push('\\');
        } else if c == '"' {
            out.push('\\');
            out.push('"');
        } else if c == '\n' {
            out.push('\\');
            out.push('n');
        } else if c == '\r' {
            out.push('\\');
            out.push('r');
        } else if c == '\t' {
            out.push('\\');
            out.push('t');
        } else if c == '\0' {
            out.push('\\');
            out.push('0');
        } else {
            out.push(c);
        }
        proof {
            let t = cs@.take(i + 1);
            assert(t.drop_last() =~= cs@.take(i as int));
            assert(t.last() == c);
            assert(out@ =~= start + seq!['"'] + escaped(cs@.take(i as int)) + escaped_char(c));
        }
        i = i + 1;
    }
    assert(cs@.take(cs@.len() as int) =~= cs@);
    out.push('"');
    assert(out@ =~= start + quoted(s@));
}

fn push_response_text(out: &mut Vec<char>, response: &ElicitResponse)
    ensures
        final(out)@ == old(out)@ + response_text(*response),
{
    let ghost start = out@;
    match response {
        ElicitResponse::Value(v) => {
            push_str(out, "Value(");
            push_quoted(out, v.as_str());
            push_str(out, ")");
            proof {
                reveal_strlit("Value(");
                reveal_strlit(")");
            }
            assert(out@ =~= start + response_text(*response));
        },
        ElicitResponse::Values(vs) => {
            push_str(out, "Values([");
            let ghost mid = out@;
            let ghost texts = string_texts(vs@);
            let mut i: usize = 0;
            while i < vs.len()
                invariant
                    i <= vs@.len(),
                    texts == string_texts(vs@),
                    out@ == mid + quoted_list(texts.take(i as int)),
                decreases vs.len() - i,
            {
                let ghost before = out@;
                if i > 0 {
                    push_str(out, ", ");
                }
                push_quoted(out, vs[i].as_str());
                proof {
                    let t = texts.take(i + 1);
                    assert(t.drop_last() =~= texts.take(i as int));
                    assert(t.last() == vs@[i as int]@);
                    if i == 0 {
                        assert(out@ =~= mid + quoted_list(t));
                    } else {
                        reveal_strlit(", ");
                        assert(out@ =~= mid + quoted_list(t));
                    }
                }
                i = i + 1;
            }
            assert(texts.take(vs@.len() as int) =~= texts);
            push_str(out, "])");
            proof {
                reveal_strlit("Values([");
                reveal_strlit("])");
            }
            assert(out@ =~= start + response_text(*response));
        },
        ElicitResponse::SecretStored => {
            push_str(out, "SecretStored");
        },
    }
}

fn unexpected(what: &str, response: &ElicitResponse) -> (e: SysError)
    ensures
        e matches SysError::ApiError(m) && m@ == unexpected_message(what@, *response),
{
    let mut m: Vec<char> = Vec::new();
    push_str(&mut m, "host returned unexpected response for ");
    push_str(&mut m, what);
    push_str(&mut m, " elicit: ");
    proof {
        reveal_strlit("host returned unexpected response for ");
        reveal_strlit(" elicit: ");
    }
    assert(m@ =~= unexpected_prefix(what@));
    push_response_text(&mut m, response);
    api_error(&m)
}

/// The answer to a secret prompt: `Ok` when the host confirms the secret
/// was stored, an API error for any other response.
pub fn secret_response(response: ElicitResponse) -> (r: Result<(), SysError>)
    ensures
        response is SecretStored ==> r is Ok,
        !(response is SecretStored) ==> (r matches Err(SysError::ApiError(m))
            && m@ == unexpected_message("secret"@, response)),
{
    match response {
        ElicitResponse::SecretStored => Ok(()),
        other => Err(unexpected("secret", &other)),
    }
}

/// The prompt for a text value under `key`.
pub fn text(key: &str, description: &str) -> (r: Result<ElicitRequest, SysError>)
    ensures
        is_blank(key@) ==> (r matches Err(SysError::ApiError(m)) && m@
            == "elicit key must not be empty"@),
        !is_blank(key@) ==> (r matches Ok(q) && request_is(q, ElicitType::Text, key@, description@, None)
            && q.options is None),
{
    validate_key(key)?;
    Ok(build_request(ElicitType::Text, key, description, None, None))
}

/// The prompt for a text value under `key`, pre-filled with `default`.
pub fn text_with_default(key: &str, description: &str, default: &str) -> (r: Result<ElicitRequest, SysError>)
    ensures
        is_blank(key@) ==> (r matches Err(SysError::ApiError(m)) && m@
            == "elicit key must not be empty"@),
        !is_blank(key@) ==> (r matches Ok(q) && request_is(
            q,
            ElicitType::Text,
            key@,
            description@,
            Some(default@),
        ) && q.options is None),
{
    validate_key(key)?;
    Ok(build_request(ElicitType::Text, key, description, None, Some(String::from_str(default))))
}

/// The answer to a text prompt: the value the user gave, or an API error
/// for a response of another shape.
pub fn text_response(response: ElicitResponse) -> (r: Result<String, SysError>)
    ensures
        response matches ElicitResponse::Value(v) ==> (r matches Ok(s) && s@ == v@),
        !(response is Value) ==> (r matches Err(SysError::ApiError(m))
            && m@ == unexpected_message("text"@, response)),
{
    match response {
        ElicitResponse::Value(v) => Ok(v),
        other => Err(unexpected("text", &other)),
    }
}

/// The views of `options`, in order.
pub open spec fn option_texts(options: Seq<&str>) -> Seq<Seq<char>> {
    options.map_values(|o: &str| o@)
}

/// The views of `strings`, in order.
pub open spec fn string_texts(strings: Seq<String>) -> Seq<Seq<char>> {
    strings.map_values(|o: String| o@)
}

/// Whether the request's option list holds exactly `options`, in order.
pub open spec fn options_are(list: Option<Vec<String>>, options: Seq<&str>) -> bool {
    match list {
        Some(os) => string_texts(os@) == option_texts(options),
        None => false,
    }
}

/// The prompt for choosing one of `options` under `key`: a blank key is
/// refused first, then an empty option list.
pub fn select(key: &str, description: &str, options: &[&str]) -> (r: Result<ElicitRequest, SysError>)
    ensures
        is_blank(key@) ==> (r matches Err(SysError::ApiError(m)) && m@
            == "elicit key must not be empty"@),
        !is_blank(key@) && options@.len() == 0 ==> (r matches Err(SysError::ApiError(m)) && m@
            == "select requires at least one option"@),
        !is_blank(key@) && options@.len() > 0 ==> (r matches Ok(q) && request_is(
            q,
            ElicitType::Select,
            key@,
            description@,
            None,
        ) && options_are(q.options, options@)),
{
    validate_key(key)?;
    if options.len() == 0 {
        return Err(api_error_str("select requires at least one option"));
    }
    let mut owned: Vec<String> = Vec::new();
    let mut i: usize = 0;
    while i < options.len()
        invariant
            i <= options.len(),
            owned@.len() == i,
            string_texts(owned@) =~= option_texts(options@).take(i as int),
        decreases options.len() - i,
    {
        let item = String::from_str(options[i]);
        assert(item@ == options@[i as int]@);
        let ghost before = owned@;
        owned.push(item);
        proof {
            assert(owned@ == before.push(item));
            assert forall|j: int| 0 <= j < i + 1 implies #[trigger] string_texts(owned@)[j]
                == option_texts(options@).take(i + 1)[j] by {
                if j < i {
                    assert(owned@[j] == before[j]);
                    assert(string_texts(before)[j] == option_texts(options@).take(i as int)[j]);
                }
            }
        }
        i = i + 1;
        assert(string_texts(owned@) =~= option_texts(options@).take(i as int));
    }
    assert(option_texts(options@).take(options@.len() as int) =~= option_texts(options@));
    Ok(build_request(ElicitType::Select, key, description, Some(owned), None))
}

/// `s` cut to its first 64 characters.
pub open spec fn first_64(s: Seq<char>) -> Seq<char> {
    if s.len() <= 64 {
        s
    } else {
        s.take(64)
    }
}

#[verifier::loop_isolation(false)]
/// The answer to a select prompt: the chosen value when it is one of
/// `options`; a value outside them, or a response of another shape, is an
/// API error.
pub fn select_response(options: &[&str], response: ElicitResponse) -> (r: Result<String, SysError>)
    ensures
        match response {
            ElicitResponse::Value(v) => if option_texts(options@).contains(v@) {
                r matches Ok(s) && s@ == v@
            } else {
                r matches Err(SysError::ApiError(m)) && m@ == "host returned value '"@ + first_64(
                    v@,
                ) + "' not in provided options"@
            },
            _ => r matches Err(SysError::ApiError(m)) && m@ == unexpected_message("select"@, response),
        },
{
    let value = match response {
        ElicitResponse::Value(v) => v,
        other => {
            return Err(unexpected("select", &other));
        },
    };
    let mut i: usize = 0;
    while i < options.len()
        invariant
            i <= options.len(),
            forall|j: int| 0 <= j < i ==> options@[j]@ != value@,
        decreases options.len() - i,
    {
        if str_eq(options[i], value.as_str()) {
            assert(i < option_texts(options@).len());
            assert(option_texts(options@)[i as int] == value@);
            assert(option_texts(options@).contains(value@));
            return Ok(value);
        }
        i = i + 1;
    }
    assert(!option_texts(options@).contains(value@)) by {
        if option_texts(options@).contains(value@) {
            let k = choose|k: int| 0 <= k < option_texts(options@).len() && option_texts(options@)[k] == value@;
            assert(options@[k]@ == value@);
        }
    }
    let chars = chars_of(value.as_str());
    let mut m: Vec<char> = Vec::new();
    push_str(&mut m, "host returned value '");
    let n: usize = if chars.len() <= 64 { chars.len() } else { 64 };
    let mut k: usize = 0;
    let ghost start = m@;
    while k < n
        invariant
            k <= n <= chars.len(),
            n == (if chars@.len() <= 64 { chars@.len() } else { 64 }),
            m@ == start + chars@.take(k as int),
        decreases n - k,
    {
        m.push(chars[k]);
        k = k + 1;
        assert(m@ =~= start + chars@.take(k as int));
    }
    assert(chars@.take(n as int) =~= first_64(value@));
    push_str(&mut m, "' not in provided options");
    Err(api_error(&m))
}

/// The prompt for several text values under `key`.
pub fn array(key: &str, description: &str) -> (r: Result<ElicitRequest, SysError>)
    ensures
        is_blank(key@) ==> (r matches Err(SysError::ApiError(m)) && m@
            == "elicit key must not be empty"@),
        !is_blank(key@) ==> (r matches Ok(q) && request_is(q, ElicitType::Array, key@, description@, None)
            && q.options is None),
{
    validate_key(key)?;
    Ok(build_request(ElicitType::Array, key, description, None, None))
}

/// The answer to an array prompt: the values the user gave, or an API
/// error for a response of another shape.
pub fn array_response(response: ElicitResponse) -> (r: Result<Vec<String>, SysError>)
    ensures
        response matches ElicitResponse::Values(vs) ==> (r matches Ok(out) && out@ == vs@),
        !(response is Values) ==> (r matches Err(SysError::ApiError(m))
            && m@ == unexpected_message("array"@, response)),
{
    match response {
        ElicitResponse::Values(vs) => Ok(vs),
        other => Err(unexpected("array", &other)),
    }
}

} // verus!
