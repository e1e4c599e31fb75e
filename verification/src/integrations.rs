//! Typed contracts of the orchestration integrations.
//!
//! Each integration target has an ingest schema; the adapters that translate
//! the external formats into canonical fabric entities live with the
//! service boundary, outside this core.

use vstd::prelude::*;

verus! {

/// Supported integration targets.
#[derive(Debug, Clone, Copy, PartialEq, Eq, Structural)]
pub enum IntegrationTarget {
    Oxidizedgraph,
    Aivcs,
    LlamaRs,
}

impl IntegrationTarget {
    /// The registry name of the target.
    pub fn as_str(&self) -> (r: &'static str)
        ensures
            r@ == match *self {
                IntegrationTarget::Oxidizedgraph => "oxidizedgraph"@,
                IntegrationTarget::Aivcs => "aivcs"@,
                IntegrationTarget::LlamaRs => "llama_rs"@,
            },
    {
        match self {
            IntegrationTarget::Oxidizedgraph => "oxidizedgraph",
            IntegrationTarget::Aivcs => "aivcs",
            IntegrationTarget::LlamaRs => "llama_rs",
        }
    }
}

/// Graph-execution event kinds sent by the graph runner.
#[derive(Debug, Clone, Copy, PartialEq, Eq, Structural)]
pub enum GraphExecEventType {
    NodeStart,
    NodeEnd,
    NodeError,
    EdgeTraversal,
    CheckpointSave,
    CheckpointRestore,
    GraphStart,
    GraphEnd,
}

/// Pipeline event kinds sent by the CI integration.
#[derive(Debug, Clone, Copy, PartialEq, Eq, Structural)]
pub enum PipelineEventType {
    PipelineStart,
    PipelineEnd,
    StageStart,
    StageEnd,
    TestResult,
    BuildComplete,
    DeployStart,
    DeployEnd,
}

/// An artifact reported by a pipeline event.
#[derive(Debug, Clone, PartialEq, Eq)]
pub struct PipelineArtifact {
    pub key: String,
    pub content_type: Option<String>,
    pub size_bytes: Option<u64>,
    pub checksum: Option<String>,
}

/// Inference telemetry kinds sent by the model runner.
#[derive(Debug, Clone, Copy, PartialEq, Eq, Structural)]
pub enum InferenceTelemetryType {
    InferenceStart,
    InferenceEnd,
    ToolUse,
    TokenStream,
    InferenceError,
}

} // verus!
