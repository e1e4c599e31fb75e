//! Wire-shaped records of the orchestration and provenance surface.

use vstd::prelude::*;

verus! {

/// Acknowledgement of a created task.
#[derive(Debug, Clone, PartialEq, Eq)]
pub struct TaskCreated {
    pub id: String,
    pub status: String,
}

/// Report of a failed task.
#[derive(Debug, Clone, PartialEq, Eq)]
pub struct TaskFailRequest {
    pub error: String,
}

/// Acknowledgement of a created checkpoint.
#[derive(Debug, Clone, PartialEq, Eq)]
pub struct CheckpointCreated {
    pub id: String,
    pub thread_id: String,
    pub state_r2_key: String,
}

/// Edge in the task dependency graph.
#[derive(Debug, Clone, PartialEq, Eq)]
pub struct TaskDependencyEdge {
    pub run_id: String,
    pub task_id: String,
    pub depends_on_task_id: String,
    pub created_at: Option<String>,
}

/// Request to build a replay plan for a run.
#[derive(Debug, Clone, PartialEq, Eq)]
pub struct ReplayPlanRequest {
    pub run_id: String,
    pub from_event_id: Option<String>,
    pub to_event_id: Option<String>,
}

/// A single step in a replay plan.
#[derive(Debug, Clone, PartialEq, Eq)]
pub struct ReplayStep {
    pub sequence: usize,
    pub event_type: String,
    pub node_id: Option<String>,
    pub actor: Option<String>,
}

/// Response containing the replay plan.
#[derive(Debug, Clone, PartialEq, Eq)]
pub struct ReplayPlanResponse {
    pub run_id: String,
    pub steps: Vec<ReplayStep>,
    pub status: String,
}

/// A generic error payload.
#[derive(Debug, Clone, PartialEq, Eq)]
pub struct ErrorResponse {
    pub error: String,
}

/// Single edge in a provenance chain.
#[derive(Debug, Clone, PartialEq, Eq)]
pub struct ProvenanceEdge {
    pub depth: i32,
    pub rel_type: String,
    pub from_kind: String,
    pub from_id: String,
    pub to_kind: String,
    pub to_id: String,
    pub relation: Option<String>,
    pub created_at: Option<String>,
}

/// Response for a provenance chain query.
#[derive(Debug, Clone, PartialEq, Eq)]
pub struct ProvenanceResponse {
    pub entity_kind: String,
    pub entity_id: String,
    pub direction: String,
    pub hops: u32,
    pub edges: Vec<ProvenanceEdge>,
}

/// Materialized run summary.
#[derive(Debug, Clone, PartialEq, Eq)]
pub struct RunSummary {
    pub run_id: String,
    pub event_count: i32,
    pub first_event_at: Option<String>,
    pub last_event_at: Option<String>,
    pub actors: Vec<String>,
    pub event_types: Vec<String>,
    pub updated_at: String,
}

} // verus!
