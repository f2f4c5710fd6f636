//! Direct frontend messaging: uplink identities and profiles.
use vstd::prelude::*;
use crate::error::{SysError, api_error};
use crate::text::{push_str, str_bytes, str_eq};
use vstd::string::StringSliceAdditionalSpecFns;

verus! {

/// An opaque uplink connection identifier.
#[derive(Debug, Clone, PartialEq, Eq)]
pub struct UplinkId(String);

impl View for UplinkId {
    type V = Seq<char>;

    closed spec fn view(&self) -> Seq<char> {
        self.0@
    }
}

impl UplinkId {
    /// The id the host returned on registration.
    pub fn new(id: String) -> (u: UplinkId)
        ensures
            u@ == id@,
    {
        UplinkId(id)
    }

    /// The id as text.
    pub fn as_str(&self) -> (s: &str)
        ensures
            s@ == self@,
    {
        self.0.as_str()
    }

    /// Raw id bytes (UTF-8) for lower-level interop.
    pub fn as_bytes(&self) -> (b: Vec<u8>)
        ensures
            b@ == vstd::utf8::encode_utf8(self@),
    {
        str_bytes(self.0.as_str())
    }
}

/// How the kernel routes inbound messages for an uplink.
#[derive(Debug, Clone, Copy, PartialEq, Eq)]
pub enum Profile {
    /// Conversational chat.
    Chat,
    /// Long-lived interactive session.
    Interactive,
    /// One-way notification sink.
    Notify,
    /// Bidirectional bridge to another runtime.
    Bridge,
}

/// The profile named by `s`, if it is one of the canonical lower-case names.
pub open spec fn profile_named(s: Seq<char>) -> Option<Profile> {
    if s == "chat"@ {
        Some(Profile::Chat)
    } else if s == "interactive"@ {
        Some(Profile::Interactive)
    } else if s == "notify"@ {
        Some(Profile::Notify)
    } else if s == "bridge"@ {
        Some(Profile::Bridge)
    } else {
        None
    }
}

impl Profile {
    /// Parse a profile from its canonical lower-case name (`chat`,
    /// `interactive`, `notify`, `bridge`); any other text is an API error.
    pub fn parse(s: &str) -> (r: Result<Profile, SysError>)
        ensures
            match profile_named(s@) {
                Some(p) => r == Ok::<Profile, SysError>(p),
                None => (r matches Err(SysError::ApiError(m)) && m@ == "unknown uplink profile: "@ + s@),
            },
    {
        if str_eq(s, "chat") {
            Ok(Profile::Chat)
        } else if str_eq(s, "interactive") {
            Ok(Profile::Interactive)
        } else if str_eq(s, "notify") {
            Ok(Profile::Notify)
        } else if str_eq(s, "bridge") {
            Ok(Profile::Bridge)
        } else {
            let mut m = Vec::new();
            push_str(&mut m, "unknown uplink profile: ");
            push_str(&mut m, s);
            Err(api_error(&m))
        }
    }
}

/// A registration the host performs.
#[derive(Debug, Clone, PartialEq, Eq)]
pub struct UplinkRegistration {
    pub name: String,
    pub platform: String,
    pub profile: Profile,
}

/// The registration of uplink `name` on `platform` with the profile named
/// `profile`; an unknown profile name is refused before reaching the host.
pub fn register(name: &str, platform: &str, profile: &str) -> (r: Result<UplinkRegistration, SysError>)
    ensures
        match profile_named(profile@) {
            Some(p) => r is Ok && r->Ok_0.name@ == name@ && r->Ok_0.platform@ == platform@ && r->Ok_0.profile == p,
            None => (r matches Err(SysError::ApiError(m)) && m@ == "unknown uplink profile: "@ + profile@),
        },
{
    let p = Profile::parse(profile)?;
    Ok(register_profile(name, platform, p))
}

/// The registration of uplink `name` on `platform` with profile `profile`.
pub fn register_profile(name: &str, platform: &str, profile: Profile) -> (r: UplinkRegistration)
    ensures
        r.name@ == name@,
        r.platform@ == platform@,
        r.profile == profile,
{
    UplinkRegistration { name: String::from_str(name), platform: String::from_str(platform), profile }
}

} // verus!
