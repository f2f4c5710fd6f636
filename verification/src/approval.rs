//! Human-in-the-loop approval for sensitive actions.
//!
//! The capsule states what it wants to do; the kernel classifies risk,
//! consults stored allowances and, if needed, asks the user. The capsule
//! only sees the resulting decision.
use vstd::prelude::*;
use crate::error::SysError;

verus! {

/// The decision returned by the host (or by an existing allowance pattern).
#[derive(Debug, Clone, Copy, PartialEq, Eq)]
pub enum Decision {
    /// Denied: the capsule must not proceed.
    Denied,
    /// Approved once.
    Approved,
    /// Approved for the current session.
    ApprovedSession,
    /// Approved permanently.
    ApprovedAlways,
    /// Auto-approved via an existing allowance pattern.
    Allowance,
}

impl Decision {
    /// Whether this decision permits the action: every decision but
    /// [`Decision::Denied`] does.
    pub fn is_approved(self) -> (b: bool)
        ensures
            b == !(self is Denied),
    {
        !matches!(self, Decision::Denied)
    }
}

/// What is asked of the host: the action and the resource it touches.
#[derive(Debug, Clone)]
pub struct ApprovalRequest {
    pub action: String,
    pub target_resource: String,
}

/// The approval request for `action` on `resource`.
pub fn request_decision(action: &str, resource: &str) -> (r: ApprovalRequest)
    ensures
        r.action@ == action@,
        r.target_resource@ == resource@,
{
    ApprovalRequest { action: String::from_str(action), target_resource: String::from_str(resource) }
}

/// Whether the host's answer permits the action: `Ok(true)` for any
/// approval variant, `Ok(false)` for a denial; a failed host call stays an
/// error.
pub fn request(answer: Result<Decision, SysError>) -> (r: Result<bool, SysError>)
    ensures
        match answer {
            Ok(d) => r == Ok::<bool, SysError>(!(d is Denied)),
            Err(e) => r matches Err(e2) && e2 == e,
        },
{
    match answer {
        Ok(d) => Ok(d.is_approved()),
        Err(e) => Err(e),
    }
}

} // verus!
