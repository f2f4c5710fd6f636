//! Platform identity resolution and linking: what the host's answers mean.
//!
//! A platform identity that is not linked is reported by the host as the
//! `link-not-found` error code; resolving and unlinking treat that code as
//! an ordinary "no" rather than a failure.
use vstd::prelude::*;
use crate::error::SysError;

verus! {

/// A resolved Astrid user.
#[derive(Debug, Clone)]
pub struct ResolvedUser {
    /// The Astrid-native user ID (UUID).
    pub user_id: String,
    /// Optional display name.
    pub display_name: Option<String>,
}

/// A platform-to-Astrid identity link.
#[derive(Debug, Clone)]
pub struct Link {
    /// Platform name (e.g. "discord", "twitch").
    pub platform: String,
    /// Platform-specific user identifier.
    pub platform_user_id: String,
    /// The Astrid user this is linked to.
    pub astrid_user_id: String,
    /// When the link was created (RFC 3339).
    pub linked_at: String,
    /// How the link was established (e.g. "system", "chat_command").
    pub method: String,
}

/// A link as the host lists it for one user (the user is implied by the
/// request).
#[derive(Debug, Clone)]
pub struct PlatformLink {
    pub platform: String,
    pub platform_user_id: String,
    pub linked_at: String,
    pub method: String,
}

/// A failed identity host call.
#[derive(Debug, Clone)]
pub enum IdentityError {
    /// The platform identity is not linked.
    LinkNotFound,
    /// Any other error code, by its name.
    Other(String),
}

/// The error an identity host failure other than `link-not-found` becomes.
pub open spec fn host_failure(e: IdentityError, r: SysError) -> bool {
    match e {
        IdentityError::Other(name) => r matches SysError::HostError(m) && m@ == name@,
        IdentityError::LinkNotFound => r matches SysError::HostError(m) && m@ == "LinkNotFound"@,
    }
}

fn to_sys_error(e: IdentityError) -> (r: SysError)
    ensures
        host_failure(e, r),
{
    match e {
        IdentityError::LinkNotFound => crate::error::host_error_str("LinkNotFound"),
        IdentityError::Other(name) => SysError::HostError(name),
    }
}

/// The outcome of resolving a platform user from the host's answer: the
/// user when linked, `None` when the identity is not linked, an error for
/// any other failure.
pub fn resolve(answer: Result<ResolvedUser, IdentityError>) -> (r: Result<Option<ResolvedUser>, SysError>)
    ensures
        match answer {
            Ok(u) => r matches Ok(Some(v)) && v.user_id@ == u.user_id@ && v.display_name
                == u.display_name,
            Err(IdentityError::LinkNotFound) => r matches Ok(None),
            Err(e) => r matches Err(x) && host_failure(e, x),
        },
{
    match answer {
        Ok(u) => Ok(Some(u)),
        Err(IdentityError::LinkNotFound) => Ok(None),
        Err(e) => Err(to_sys_error(e)),
    }
}

/// The outcome of unlinking from the host's answer: `true` when a link was
/// removed, `false` when none existed, an error for any other failure.
pub fn unlink(answer: Result<(), IdentityError>) -> (r: Result<bool, SysError>)
    ensures
        match answer {
            Ok(()) => r matches Ok(true),
            Err(IdentityError::LinkNotFound) => r matches Ok(false),
            Err(e) => r matches Err(x) && host_failure(e, x),
        },
{
    match answer {
        Ok(()) => Ok(true),
        Err(IdentityError::LinkNotFound) => Ok(false),
        Err(e) => Err(to_sys_error(e)),
    }
}

/// Whether `link` is `host` attributed to `astrid_user_id`.
pub open spec fn link_from(link: Link, host: PlatformLink, astrid_user_id: Seq<char>) -> bool {
    &&& link.platform@ == host.platform@
    &&& link.platform_user_id@ == host.platform_user_id@
    &&& link.astrid_user_id@ == astrid_user_id
    &&& link.linked_at@ == host.linked_at@
    &&& link.method@ == host.method@
}

/// The links of `astrid_user_id`, from the host's listing, in order.
pub fn list_links(astrid_user_id: &str, links: Vec<PlatformLink>) -> (r: Vec<Link>)
    ensures
        r@.len() == links@.len(),
        forall|i: int| 0 <= i < r@.len() ==> link_from(#[trigger] r@[i], links@[i], astrid_user_id@),
{
    let mut out: Vec<Link> = Vec::new();
    let mut i: usize = 0;
    while i < links.len()
        invariant
            i <= links.len(),
            out@.len() == i,
            forall|j: int| 0 <= j < i ==> link_from(#[trigger] out@[j], links@[j], astrid_user_id@),
        decreases links.len() - i,
    {
        let l = &links[i];
        let link = Link {
            platform: l.platform.clone(),
            platform_user_id: l.platform_user_id.clone(),
            astrid_user_id: String::from_str(astrid_user_id),
            linked_at: l.linked_at.clone(),
            method: l.method.clone(),
        };
        out.push(link);
        i = i + 1;
    }
    out
}

} // verus!
