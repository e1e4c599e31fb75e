//! Wire-shaped records of the original service surface.

use vstd::prelude::*;

verus! {

/// Acknowledgement of a created run.
#[derive(Debug, Clone, PartialEq, Eq)]
pub struct RunCreated {
    pub id: String,
    pub status: String,
    pub repo: String,
}

/// Acknowledgement of an ingested provenance event.
#[derive(Debug, Clone, PartialEq, Eq)]
pub struct EventAck {
    pub id: String,
    pub event_type: String,
    pub accepted: bool,
}

/// The outward form of a policy decision.
#[derive(Debug, Clone, PartialEq, Eq)]
pub struct PolicyCheckResponse {
    pub action: String,
    pub decision: String,
    pub reason: String,
}

/// Acknowledgement of a created task.
#[derive(Debug, Clone, PartialEq, Eq)]
pub struct TaskCreated {
    pub id: String,
    pub status: String,
}

/// Report of a failed task.
#[derive(Debug, Clone, PartialEq, Eq)]
pub struct TaskFailRequest {
    pub error: String,
}

/// Acknowledgement of a created checkpoint.
#[derive(Debug, Clone, PartialEq, Eq)]
pub struct CheckpointCreated {
    pub id: String,
    pub thread_id: String,
    pub state_r2_key: String,
}

/// A generic error payload.
#[derive(Debug, Clone, PartialEq, Eq)]
pub struct ErrorResponse {
    pub error: String,
}

} // verus!
