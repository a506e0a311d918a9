//! The outcome of one scan.
use vstd::prelude::*;
use crate::analysis::finding::Finding;
use crate::analysis::score::{SecurityScore, score_fits, score_of};

verus! {

/// Counters that describe a scan.
#[derive(Debug, Clone, PartialEq, Eq)]
pub struct ScanSummary {
    pub total_files: usize,
    pub total_rules: usize,
    pub total_findings: usize,
    pub suppressed_findings: usize,
    pub duration_ms: u64,
}

/// The findings of a scan with their score and summary.
#[derive(Debug, Clone, PartialEq, Eq)]
pub struct ScanResult {
    pub findings: Vec<Finding>,
    pub score: SecurityScore,
    pub summary: ScanSummary,
}

impl ScanResult {
    /// Assembles a result: the score and the number of findings come from `findings`.
    pub fn new(
        findings: Vec<Finding>,
        total_files: usize,
        total_rules: usize,
        suppressed_findings: usize,
        duration_ms: u64,
    ) -> (r: ScanResult)
        requires
            score_fits(findings@),
        ensures
            r.findings@ == findings@,
            r.score == score_of(findings@),
            r.summary == (ScanSummary {
                total_files,
                total_rules,
                total_findings: findings@.len() as usize,
                suppressed_findings,
                duration_ms,
            }),
    {
        let total_findings = findings.len();
        let score = SecurityScore::from_findings(findings.as_slice());
        ScanResult {
            findings,
            score,
            summary: ScanSummary {
                total_files,
                total_rules,
                total_findings,
                suppressed_findings,
                duration_ms,
            },
        }
    }
}

} // verus!
