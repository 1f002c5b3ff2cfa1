//! The permission router's decision: whether a request for approval is
//! already moot when it arrives.

use crate::event::{PermissionRequest, PermissionRequestView};
use crate::session::{Session, SessionView};
use crate::text::contains_text;
use vstd::prelude::*;

verus! {

/// What to do with a permission request.
#[derive(Clone, Copy, Debug, PartialEq, Eq, Structural)]
pub enum Decision {
    /// The request belongs to work that the user has cancelled or left
    /// behind: answer it with a rejection and never show it.
    AutoReject,
    /// The request waits for the user.
    Queue,
}

/// The answers that a permission request can get.
#[derive(Clone, Copy, Debug, PartialEq, Eq, Structural)]
pub enum PermissionResponse {
    Reject,
    Once,
    Always,
}

impl PermissionResponse {
    /// The word that the server knows the answer by.
    pub open spec fn spec_as_str(self) -> Seq<char> {
        match self {
            PermissionResponse::Reject => "reject"@,
            PermissionResponse::Once => "once"@,
            PermissionResponse::Always => "always"@,
        }
    }

    /// The word that the server knows the answer by.
    pub fn as_str(&self) -> (r: &'static str)
        ensures
            r@ == self.spec_as_str(),
    {
        match self {
            PermissionResponse::Reject => "reject",
            PermissionResponse::Once => "once",
            PermissionResponse::Always => "always",
        }
    }
}

/// Whether a request is moot for its session: its call or its message was
/// cancelled, it was created at or before the last cancellation or the last
/// send, or the window after a cancellation is open.
pub open spec fn is_moot(s: SessionView, r: PermissionRequestView) -> bool {
    ||| (r.call_id is Some && s.cancelled_call_ids.contains(r.call_id->0))
    ||| s.cancelled_message_ids.contains(r.message_id)
    ||| (s.cancel_cutoff is Some && r.created <= s.cancel_cutoff->0)
    ||| r.created <= s.last_send_at
    ||| s.suppress_incoming
}

/// What the router decides for a request, given the session it names.
pub open spec fn decision_for(s: SessionView, r: PermissionRequestView) -> Decision {
    if is_moot(s, r) {
        Decision::AutoReject
    } else {
        Decision::Queue
    }
}

/// Whether a time given as an unsigned number is at or before one given as a
/// signed number.
pub fn at_or_before(created: u64, limit: i64) -> (r: bool)
    ensures
        r == (created <= limit),
{
    limit >= 0 && created <= limit as u64
}

/// Decides whether a request is moot. Reads the session, changes nothing.
pub fn classify(session: &Session, request: &PermissionRequest) -> (r: Decision)
    ensures
        r == decision_for(session@, request@),
{
    if let Some(call) = &request.call_id {
        if contains_text(&session.cancelled_call_ids, call.as_str()) {
            return Decision::AutoReject;
        }
    }
    if contains_text(&session.cancelled_message_ids, request.message_id.as_str()) {
        return Decision::AutoReject;
    }
    if let Some(cutoff) = session.cancel_cutoff {
        if at_or_before(request.created, cutoff) {
            return Decision::AutoReject;
        }
    }
    if at_or_before(request.created, session.last_send_at) {
        return Decision::AutoReject;
    }
    if session.suppress_incoming {
        return Decision::AutoReject;
    }
    Decision::Queue
}

} // verus!
