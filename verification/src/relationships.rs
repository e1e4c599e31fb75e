//! Typed edges of the entity graph.

use vstd::prelude::*;
use crate::entities::EntityKind;

verus! {

/// What caused what: a causal edge between entities.
#[derive(Debug, Clone, PartialEq, Eq)]
pub struct Causality {
    pub from_kind: EntityKind,
    pub from_id: String,
    pub to_kind: EntityKind,
    pub to_id: String,
    pub relation: String,
}

/// A dependency: the source cannot start before the dependee completes.
#[derive(Debug, Clone, PartialEq, Eq)]
pub struct Dependency {
    pub source_kind: EntityKind,
    pub source_id: String,
    pub depends_on_kind: EntityKind,
    pub depends_on_id: String,
}

/// Who or what owns an entity.
#[derive(Debug, Clone, PartialEq, Eq)]
pub struct Ownership {
    pub entity_kind: EntityKind,
    pub entity_id: String,
    pub owner: String,
}

/// Artifact and release lineage: what was derived from what.
#[derive(Debug, Clone, PartialEq, Eq)]
pub struct Lineage {
    pub entity_kind: EntityKind,
    pub entity_id: String,
    pub parent_kind: EntityKind,
    pub parent_id: String,
}

/// A typed edge in the entity graph, wrapping all relationship variants.
#[derive(Debug, Clone, PartialEq, Eq)]
pub enum Relationship {
    Causality(Causality),
    Dependency(Dependency),
    Ownership(Ownership),
    Lineage(Lineage),
}

} // verus!
