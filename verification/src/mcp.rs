//! Wire-shaped records of the MCP task-queue surface.

use vstd::prelude::*;

verus! {

/// Acknowledgement of a created MCP task.
#[derive(Debug, Clone, PartialEq, Eq)]
pub struct McpTaskCreated {
    pub id: String,
    pub status: String,
}

/// Report of a failed MCP task.
#[derive(Debug, Clone, PartialEq, Eq)]
pub struct TaskFailRequest {
    pub error: String,
}

/// Acknowledgement of a created checkpoint.
#[derive(Debug, Clone, PartialEq, Eq)]
pub struct CheckpointCreated {
    pub id: String,
    pub thread_id: String,
    pub state_r2_key: String,
}

/// Request to create a memory entry (an index over runs, artifacts and
/// checkpoints).
#[derive(Debug, Clone, PartialEq, Eq)]
pub struct CreateMemory {
    pub thread_id: String,
    pub scope: String,
    pub key: String,
    pub ref_type: String,
    pub ref_id: String,
    pub run_id: Option<String>,
    pub expires_at: Option<String>,
}

/// A memory entry for retrieval and context packing.
#[derive(Debug, Clone, PartialEq, Eq)]
pub struct Memory {
    pub id: String,
    pub run_id: Option<String>,
    pub thread_id: String,
    pub scope: String,
    pub key: String,
    pub ref_type: String,
    pub ref_id: String,
    pub created_at: String,
    pub expires_at: Option<String>,
}

/// Acknowledgement of a created memory entry.
#[derive(Debug, Clone, PartialEq, Eq)]
pub struct MemoryCreated {
    pub id: String,
    pub thread_id: String,
    pub scope: String,
    pub key: String,
}

/// A generic error payload.
#[derive(Debug, Clone, PartialEq, Eq)]
pub struct ErrorResponse {
    pub error: String,
}

} // verus!
