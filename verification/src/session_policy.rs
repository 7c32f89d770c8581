//! The request and decision exchanged with session policy.
use vstd::prelude::*;

use crate::session::SessionIdentity;

verus! {

/// Session operation under evaluation.
#[derive(Clone, Copy, PartialEq, Eq, Structural, Debug)]
pub enum SessionPolicyAction {
    Create,
    Open,
    SubmitInput,
    Shutdown,
}

/// Policy evaluation request for a session operation.
#[derive(Clone, Debug, PartialEq, Eq)]
pub struct SessionPolicyRequest {
    pub identity: SessionIdentity,
    pub action: SessionPolicyAction,
}

impl SessionPolicyRequest {
    pub fn new(identity: SessionIdentity, action: SessionPolicyAction) -> (r: Self)
        ensures
            r.identity == identity,
            r.action == action,
    {
        SessionPolicyRequest { identity, action }
    }
}

/// Decision returned by session policy: a denial carries its reason.
#[derive(Clone, Debug, PartialEq, Eq)]
pub struct SessionPolicyDecision {
    pub allowed: bool,
    pub reason: Option<String>,
}

impl SessionPolicyDecision {
    /// An allowed decision, without reason.
    pub fn allow() -> (r: Self)
        ensures
            r.allowed,
            r.reason is None,
    {
        SessionPolicyDecision { allowed: true, reason: None }
    }

    /// A denied decision with its reason.
    pub fn deny(reason: String) -> (r: Self)
        ensures
            !r.allowed,
            r.reason == Some(reason),
    {
        SessionPolicyDecision { allowed: false, reason: Some(reason) }
    }
}

/// Failure reported while evaluating session policy.
#[derive(Clone, Debug, PartialEq, Eq)]
pub enum SessionPolicyError {
    Failed(String),
}

impl SessionPolicyError {
    /// The error's message.
    pub fn message(&self) -> (r: String)
        ensures
            match self {
                SessionPolicyError::Failed(m) => r@ == "session policy evaluation failed: "@ + m@,
            },
    {
        match self {
            SessionPolicyError::Failed(m) => {
                let mut v = crate::text::chars_of("session policy evaluation failed: ");
                crate::text::append_str(&mut v, m.as_str());
                crate::text::string_of(&v)
            },
        }
    }
}

} // verus!
