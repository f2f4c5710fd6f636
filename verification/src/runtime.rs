//! OS runtime introspection: the kernel socket path and entropy requests.
use vstd::prelude::*;
use crate::error::{SysError, api_error_str};
use crate::strings::contains_char;
use crate::text::{chars_of, decimal, decimal_chars, push_str, string_from_chars};

verus! {

/// Identifies the caller that triggered the current capsule execution.
#[derive(Debug, Clone)]
pub struct CallerContext {
    /// UUID of the capsule that originated the IPC message.
    pub source_id: String,
    /// The acting principal (user ID), if available.
    pub principal: Option<String>,
    /// ISO 8601 timestamp of the originating message.
    pub timestamp: String,
}

/// The kernel's Unix domain socket path, from the answer to reading the
/// `ASTRID_SOCKET_PATH` config key: an unset key, an empty value and a value
/// holding a NUL character (which would silently truncate at the OS level)
/// are each refused with their own API error.
pub fn socket_path(value: Option<String>) -> (r: Result<String, SysError>)
    ensures
        match value {
            None => r matches Err(SysError::ApiError(m)) && m@
                == "ASTRID_SOCKET_PATH config key is not set"@,
            Some(p) => if p@.len() == 0 {
                r matches Err(SysError::ApiError(m)) && m@ == "ASTRID_SOCKET_PATH config key is empty"@
            } else if p@.contains('\0') {
                r matches Err(SysError::ApiError(m)) && m@ == "ASTRID_SOCKET_PATH contains null byte"@
            } else {
                r matches Ok(s) && s@ == p@
            },
        },
{
    let path = match value {
        Some(p) => p,
        None => {
            return Err(api_error_str("ASTRID_SOCKET_PATH config key is not set"));
        },
    };
    let chars = chars_of(path.as_str());
    if chars.len() == 0 {
        return Err(api_error_str("ASTRID_SOCKET_PATH config key is empty"));
    }
    if contains_char(&chars, '\0') {
        return Err(api_error_str("ASTRID_SOCKET_PATH contains null byte"));
    }
    Ok(path)
}

/// The byte count asked of the host's CSPRNG for `length` random bytes
/// (a `usize` always fits).
pub fn random_bytes(length: usize) -> (n: u64)
    ensures
        n == length,
{
    length as u64
}

/// Where a panic happened: file, line and column.
#[derive(Debug, Clone)]
pub struct PanicLocation {
    pub file: String,
    pub line: u32,
    pub column: u32,
}

/// The text logged for a panic at `location` (`unknown location` when
/// there is none) with payload `payload` (`non-string panic payload` when
/// the payload is not text).
pub open spec fn panic_text(location: Option<PanicLocation>, payload: Option<String>) -> Seq<char> {
    let loc = match location {
        Some(l) => l.file@ + ":"@ + decimal(l.line as nat) + ":"@ + decimal(l.column as nat),
        None => "unknown location"@,
    };
    let text = match payload {
        Some(p) => p@,
        None => "non-string panic payload"@,
    };
    "capsule panic at "@ + loc + ": "@ + text
}

/// The error-level log line for a panic, as the panic hook writes it.
pub fn panic_message(location: &Option<PanicLocation>, payload: &Option<String>) -> (m: String)
    ensures
        m@ == panic_text(*location, *payload),
{
    let mut v: Vec<char> = Vec::new();
    push_str(&mut v, "capsule panic at ");
    match location {
        Some(l) => {
            push_str(&mut v, l.file.as_str());
            push_str(&mut v, ":");
            let mut line = decimal_chars(l.line as u64);
            v.append(&mut line);
            push_str(&mut v, ":");
            let mut col = decimal_chars(l.column as u64);
            v.append(&mut col);
        },
        None => push_str(&mut v, "unknown location"),
    }
    push_str(&mut v, ": ");
    match payload {
        Some(p) => push_str(&mut v, p.as_str()),
        None => push_str(&mut v, "non-string panic payload"),
    }
    string_from_chars(v.as_slice())
}

} // verus!
