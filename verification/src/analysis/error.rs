//! Errors of the core model.
use vstd::prelude::*;
use crate::analysis::rule_id::RuleId;

verus! {

/// What can go wrong when building the core model.
#[derive(Debug, Clone)]
pub enum CoreError {
    /// A rule identifier is not kebab-case; the text explains why.
    InvalidRuleId(String),
    /// A rule with this identifier is already registered.
    DuplicateRule(RuleId),
}

} // verus!
