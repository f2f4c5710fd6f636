use vstd::prelude::*;
use crate::text::{push_str, string_from_chars};

verus! {

/// Core error type for SDK operations.
///
/// Every typed kernel error is surfaced as [`SysError::HostError`] carrying
/// the error's name; malformed input detected by the SDK itself is an
/// [`SysError::ApiError`].
#[derive(Debug)]
pub enum SysError {
    /// A host function call failed.
    HostError(String),
    /// JSON (de)serialization failed.
    JsonError(String),
    /// Borsh (de)serialization failed.
    BorshError(String),
    /// The SDK rejected the request or the host's reply.
    ApiError(String),
}

impl SysError {
    /// The human-readable text of the error.
    pub open spec fn message_spec(&self) -> Seq<char> {
        match *self {
            SysError::HostError(s) => "Host function call failed: "@ + s@,
            SysError::JsonError(s) => "JSON serialization error: "@ + s@,
            SysError::BorshError(s) => "Borsh serialization error: "@ + s@,
            SysError::ApiError(s) => "API logic error: "@ + s@,
        }
    }

    /// The human-readable text of the error.
    pub fn message(&self) -> (m: String)
        ensures
            m@ == self.message_spec(),
    {
        let mut v: Vec<char> = Vec::new();
        match self {
            SysError::HostError(s) => {
                push_str(&mut v, "Host function call failed: ");
                push_str(&mut v, s.as_str());
            },
            SysError::JsonError(s) => {
                push_str(&mut v, "JSON serialization error: ");
                push_str(&mut v, s.as_str());
            },
            SysError::BorshError(s) => {
                push_str(&mut v, "Borsh serialization error: ");
                push_str(&mut v, s.as_str());
            },
            SysError::ApiError(s) => {
                push_str(&mut v, "API logic error: ");
                push_str(&mut v, s.as_str());
            },
        }
        string_from_chars(v.as_slice())
    }
}

/// An API error whose message is the characters `chars`.
pub fn api_error(chars: &Vec<char>) -> (e: SysError)
    ensures
        e matches SysError::ApiError(m) && m@ == chars@,
{
    SysError::ApiError(string_from_chars(chars.as_slice()))
}

/// An API error whose message is `text`.
pub fn api_error_str(text: &str) -> (e: SysError)
    ensures
        e matches SysError::ApiError(m) && m@ == text@,
{
    SysError::ApiError(String::from_str(text))
}

/// A host error whose message is `text`.
pub fn host_error_str(text: &str) -> (e: SysError)
    ensures
        e matches SysError::HostError(m) && m@ == text@,
{
    SysError::HostError(String::from_str(text))
}

} // verus!
