//! What a scan needs to know to select and weigh rules.
use vstd::prelude::*;
use crate::analysis::rule_id::RuleId;
use crate::analysis::severity::Severity;

verus! {

/// The pairs of `v` as a map from rule identifier to severity; for a key that
/// occurs more than once, the last pair wins.
pub open spec fn overrides_map(v: Seq<(RuleId, Severity)>) -> Map<Seq<char>, Severity>
    decreases v.len(),
{
    if v.len() == 0 {
        Map::empty()
    } else {
        overrides_map(v.drop_last()).insert(v.last().0@, v.last().1)
    }
}

/// Severity threshold, rule selection, severity overrides and ignored paths.
#[derive(Debug, Clone)]
pub struct RuleConfig {
    pub severity_threshold: Severity,
    pub enabled: Vec<RuleId>,
    pub disabled: Vec<RuleId>,
    /// Severity overrides by rule; the last pair for an identifier wins
    /// (see `overrides_map`).
    pub severity_overrides: Vec<(RuleId, Severity)>,
    pub ignore_paths: Vec<String>,
}

impl Default for RuleConfig {
    fn default() -> (r: RuleConfig)
        ensures
            r.severity_threshold == Severity::Low,
            r.enabled@.len() == 0,
            r.disabled@.len() == 0,
            r.severity_overrides@.len() == 0,
            r.ignore_paths@.len() == 0,
    {
        RuleConfig {
            severity_threshold: Severity::Low,
            enabled: Vec::new(),
            disabled: Vec::new(),
            severity_overrides: Vec::new(),
            ignore_paths: Vec::new(),
        }
    }
}

} // verus!
