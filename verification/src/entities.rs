//! Shared entity enums of the fabric's data model.

use vstd::prelude::*;

verus! {

/// Status shared across run, task and plan state machines.
#[derive(Debug, Clone, Copy, PartialEq, Eq, Structural)]
pub enum Status {
    Created,
    Running,
    Succeeded,
    Failed,
    Cancelled,
}

/// Entity kind discriminator for relationship endpoints.
#[derive(Debug, Clone, Copy, PartialEq, Eq, Structural)]
pub enum EntityKind {
    Run,
    Task,
    Plan,
    ToolCall,
    Artifact,
    PolicyDecision,
    Release,
    Event,
}

/// The verdict recorded with a policy decision.
#[derive(Debug, Clone, Copy, PartialEq, Eq, Structural)]
pub enum PolicyVerdict {
    Allow,
    Deny,
    Escalate,
}

} // verus!
