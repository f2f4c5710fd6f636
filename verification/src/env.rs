//! Capsule configuration, the Astrid counterpart of environment variables.
//!
//! The kernel injects configuration entries at load time; reading one is a
//! host call whose answer (`None` for an unset key) is interpreted here.
use vstd::prelude::*;
use crate::text::str_bytes;

verus! {

/// Well-known config key for the kernel's Unix domain socket path.
pub const CONFIG_SOCKET_PATH: &'static str = "ASTRID_SOCKET_PATH";

/// The text of a configuration answer: the value, or the empty string when
/// the key is not set.
pub open spec fn value_or_empty(value: Option<String>) -> Seq<char> {
    match value {
        Some(s) => s@,
        None => Seq::empty(),
    }
}

/// A config value as raw UTF-8 bytes; an unset key reads as no bytes.
pub fn var_bytes(value: Option<String>) -> (b: Vec<u8>)
    ensures
        b@ == vstd::utf8::encode_utf8(value_or_empty(value)),
{
    match value {
        Some(s) => str_bytes(s.as_str()),
        None => {
            let b: Vec<u8> = Vec::new();
            assert(b@ =~= vstd::utf8::encode_utf8(Seq::<char>::empty()));
            b
        },
    }
}

/// A config value as a string; an unset key reads as the empty string (use
/// the host answer itself to tell "unset" from "empty").
pub fn var(value: Option<String>) -> (s: String)
    ensures
        s@ == value_or_empty(value),
{
    match value {
        Some(s) => s,
        None => String::new(),
    }
}

} // verus!
