//! Core model of a scan: rule identifiers, severities, findings, scores, and
//! the rules and their registry.
pub mod category;
pub mod error;
pub mod rule_id;
pub mod severity;
pub mod span;
pub mod finding;
pub mod finding_order;
pub mod score;
pub mod scan_result;
pub mod rule_config;
pub mod rule;
pub mod registry;
pub mod laws;
