//! Governance core for a multi-tenant orchestration fabric.
//!
//! Every mutating or sensitive action passes through this decision pipeline:
//! risk classification, rule-based policy evaluation, rate limiting with a
//! circuit breaker, tenant-boundary authorization, and secret-sensitivity
//! classification, redaction and anonymization.
//!
//! The modules mirror the pipeline: [`risk`] classifies actions, [`rules`]
//! and [`tenant_rules`] hold the two rule populations and their matchers,
//! [`rate`] enforces request budgets, [`engine`] turns a classified and
//! rate-checked request into a recorded decision, [`authz`] and [`gateway`]
//! guard the tenant boundary, and [`secrets`] classifies and scrubs
//! sensitive fields.

pub mod authz;
pub mod engine;
pub mod entities;
pub mod gateway;
pub mod ids;
pub mod integrations;
pub mod json;
pub mod mcp;
pub mod memory;
pub mod models;
pub mod orchestration;
pub mod rate;
pub mod relationships;
pub mod requests;
pub mod risk;
pub mod rules;
pub mod secrets;
pub mod tenant_rules;
pub mod text;
pub mod verification;
