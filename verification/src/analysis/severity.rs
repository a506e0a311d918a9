//! Severity levels of findings.
use vstd::prelude::*;
use crate::text::{eq_ignore_ascii_case, matches_ignore_ascii_case};
use vstd::string::StringExecFns;

verus! {

/// How serious a finding is. Declaration order runs from the most to the
/// least serious level, so the derived order sorts `Critical` first.
#[derive(Debug, Clone, Copy, PartialEq, Eq, Structural, PartialOrd, Ord, Hash)]
pub enum Severity {
    Critical,
    High,
    Medium,
    Low,
    Info,
}

impl Severity {
    /// The position of the level, from `Critical` (0) to `Info` (4).
    pub open spec fn rank(self) -> int {
        match self {
            Severity::Critical => 0,
            Severity::High => 1,
            Severity::Medium => 2,
            Severity::Low => 3,
            Severity::Info => 4,
        }
    }

    /// The lowercase name of the level.
    pub open spec fn name(self) -> Seq<char> {
        match self {
            Severity::Critical => "critical"@,
            Severity::High => "high"@,
            Severity::Medium => "medium"@,
            Severity::Low => "low"@,
            Severity::Info => "info"@,
        }
    }

    /// The penalty that one finding of this level costs the security score.
    pub open spec fn spec_weight(self) -> int {
        match self {
            Severity::Critical => 25,
            Severity::High => 10,
            Severity::Medium => 5,
            Severity::Low => 2,
            Severity::Info => 0,
        }
    }

    pub fn as_str(self) -> (r: &'static str)
        ensures
            r@ == self.name(),
    {
        match self {
            Severity::Critical => "critical",
            Severity::High => "high",
            Severity::Medium => "medium",
            Severity::Low => "low",
            Severity::Info => "info",
        }
    }

    /// Parses a level name, ignoring case. The name is lower-cased before it
    /// is compared; only ASCII letters lower-case to the letters of the five
    /// names, so comparing without regard to ASCII case gives the same levels.
    pub fn parse(s: &str) -> (r: Option<Severity>)
        ensures
            r == spec_parse_severity(s@),
    {
        if eq_ignore_ascii_case(s, "critical") {
            Some(Severity::Critical)
        } else if eq_ignore_ascii_case(s, "high") {
            Some(Severity::High)
        } else if eq_ignore_ascii_case(s, "medium") {
            Some(Severity::Medium)
        } else if eq_ignore_ascii_case(s, "low") {
            Some(Severity::Low)
        } else if eq_ignore_ascii_case(s, "info") {
            Some(Severity::Info)
        } else {
            None
        }
    }

    /// The name of the level as an owned string.
    pub fn to_string(&self) -> (r: String)
        ensures
            r@ == self.name(),
    {
        String::from_str(self.as_str())
    }

    /// The position of the level, from `Critical` (0) to `Info` (4).
    pub fn position(self) -> (r: u8)
        ensures
            r == self.rank(),
    {
        match self {
            Severity::Critical => 0,
            Severity::High => 1,
            Severity::Medium => 2,
            Severity::Low => 3,
            Severity::Info => 4,
        }
    }

    pub fn weight(self) -> (r: u8)
        ensures
            r == self.spec_weight(),
    {
        match self {
            Severity::Critical => 25,
            Severity::High => 10,
            Severity::Medium => 5,
            Severity::Low => 2,
            Severity::Info => 0,
        }
    }
}

/// The level whose name `s` spells, ASCII letters compared without case.
pub open spec fn spec_parse_severity(s: Seq<char>) -> Option<Severity> {
    if matches_ignore_ascii_case(s, "critical"@) {
        Some(Severity::Critical)
    } else if matches_ignore_ascii_case(s, "high"@) {
        Some(Severity::High)
    } else if matches_ignore_ascii_case(s, "medium"@) {
        Some(Severity::Medium)
    } else if matches_ignore_ascii_case(s, "low"@) {
        Some(Severity::Low)
    } else if matches_ignore_ascii_case(s, "info"@) {
        Some(Severity::Info)
    } else {
        None
    }
}

} // verus!
