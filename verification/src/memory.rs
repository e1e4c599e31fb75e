//! Wire-shaped records of the memory index surface.

use vstd::prelude::*;

verus! {

/// Kind of a memory item.
#[derive(Debug, Clone, Copy, PartialEq, Eq, Structural)]
pub enum MemoryKind {
    Checkpoint,
    Artifact,
    Decision,
    Context,
    RunSummary,
}

/// Acknowledgement of an upserted memory item.
#[derive(Debug, Clone, PartialEq, Eq)]
pub struct MemoryItemCreated {
    pub id: String,
    pub status: String,
    pub expires_at: Option<String>,
}

/// Request to retrieve memory candidates for a query.
#[derive(Debug, Clone, PartialEq, Eq)]
pub struct RetrieveMemoryRequest {
    pub repo: String,
    pub query: String,
    pub task_id: Option<String>,
    pub run_id: Option<String>,
    pub thread_id: Option<String>,
    pub related_repos: Vec<String>,
    pub top_k: usize,
    pub include_stale: bool,
    pub include_unsafe: bool,
    pub include_conflicted: bool,
}

/// Request to build a token-budgeted context pack.
#[derive(Debug, Clone, PartialEq, Eq)]
pub struct ContextPackRequest {
    pub retrieval: RetrieveMemoryRequest,
    pub token_budget: usize,
}

/// Acknowledgement of a retired memory item.
#[derive(Debug, Clone, PartialEq, Eq)]
pub struct RetireMemoryResponse {
    pub id: String,
    pub status: String,
}

/// Request to garbage-collect expired memory items.
#[derive(Debug, Clone, Copy, PartialEq, Eq, Structural)]
pub struct MemoryGcRequest {
    pub limit: usize,
}

/// Result of a garbage-collection pass.
#[derive(Debug, Clone, Copy, PartialEq, Eq, Structural)]
pub struct MemoryGcResponse {
    pub scanned: usize,
    pub retired: usize,
    pub deleted: usize,
}

/// Caller feedback on one retrieval query.
#[derive(Debug, Clone, PartialEq, Eq)]
pub struct RetrievalFeedback {
    pub query_id: String,
    pub run_id: Option<String>,
    pub task_id: Option<String>,
    pub success: bool,
    pub first_pass_success: bool,
    pub cache_hit: bool,
    pub latency_ms: Option<i64>,
}

/// Acknowledgement of recorded feedback.
#[derive(Debug, Clone, Copy, PartialEq, Eq, Structural)]
pub struct RetrievalFeedbackAck {
    pub recorded: bool,
}

/// Request to create a memory entry.
#[derive(Debug, Clone, PartialEq, Eq)]
pub struct CreateMemory {
    pub thread_id: String,
    pub scope: String,
    pub key: String,
    pub ref_type: String,
    pub ref_id: String,
    pub run_id: Option<String>,
    pub expires_at: Option<String>,
}

/// A memory entry for retrieval and context packing.
#[derive(Debug, Clone, PartialEq, Eq)]
pub struct Memory {
    pub id: String,
    pub run_id: Option<String>,
    pub thread_id: String,
    pub scope: String,
    pub key: String,
    pub ref_type: String,
    pub ref_id: String,
    pub created_at: String,
    pub expires_at: Option<String>,
}

/// Acknowledgement of a created memory entry.
#[derive(Debug, Clone, PartialEq, Eq)]
pub struct MemoryCreated {
    pub id: String,
    pub thread_id: String,
    pub scope: String,
    pub key: String,
}

/// Default number of candidates a retrieval returns.
pub fn default_top_k() -> (r: usize)
    ensures
        r == 8,
{
    8
}

/// Default token budget of a context pack.
pub fn default_token_budget() -> (r: usize)
    ensures
        r == 4096,
{
    4096
}

/// Default number of items one garbage-collection pass scans.
pub fn default_gc_limit() -> (r: usize)
    ensures
        r == 1000,
{
    1000
}

} // verus!
