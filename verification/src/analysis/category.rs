//! Categories that rules and findings belong to.
use vstd::prelude::*;
use vstd::string::StringExecFns;
use crate::text::{eq_ignore_ascii_case, matches_ignore_ascii_case};

verus! {

/// The area of concern of a rule.
#[derive(Debug, Clone, Copy, PartialEq, Eq, Structural, Hash)]
#[non_exhaustive]
pub enum Category {
    Security,
    Performance,
    Gas,
    BestPractice,
    Upgrade,
}

impl Category {
    /// The kebab-case name of the category.
    pub open spec fn name(self) -> Seq<char> {
        match self {
            Category::Security => "security"@,
            Category::Performance => "performance"@,
            Category::Gas => "gas"@,
            Category::BestPractice => "best-practice"@,
            Category::Upgrade => "upgrade"@,
        }
    }

    pub fn as_str(self) -> (r: &'static str)
        ensures
            r@ == self.name(),
    {
        match self {
            Category::Security => "security",
            Category::Performance => "performance",
            Category::Gas => "gas",
            Category::BestPractice => "best-practice",
            Category::Upgrade => "upgrade",
        }
    }

    /// The name of the category as an owned string.
    pub fn to_string(&self) -> (r: String)
        ensures
            r@ == self.name(),
    {
        String::from_str(self.as_str())
    }

    /// Parses a category name, ignoring case; the best-practice category is
    /// also accepted without its hyphen. The name is lower-cased before it is
    /// compared; only ASCII letters lower-case to the letters of the names, so
    /// comparing without regard to ASCII case gives the same categories.
    pub fn parse(s: &str) -> (r: Option<Category>)
        ensures
            r == spec_parse_category(s@),
    {
        if eq_ignore_ascii_case(s, "security") {
            Some(Category::Security)
        } else if eq_ignore_ascii_case(s, "performance") {
            Some(Category::Performance)
        } else if eq_ignore_ascii_case(s, "gas") {
            Some(Category::Gas)
        } else if eq_ignore_ascii_case(s, "best-practice") || eq_ignore_ascii_case(s, "bestpractice") {
            Some(Category::BestPractice)
        } else if eq_ignore_ascii_case(s, "upgrade") {
            Some(Category::Upgrade)
        } else {
            None
        }
    }
}

/// The category whose name `s` spells, ASCII letters compared without case.
pub open spec fn spec_parse_category(s: Seq<char>) -> Option<Category> {
    if matches_ignore_ascii_case(s, "security"@) {
        Some(Category::Security)
    } else if matches_ignore_ascii_case(s, "performance"@) {
        Some(Category::Performance)
    } else if matches_ignore_ascii_case(s, "gas"@) {
        Some(Category::Gas)
    } else if matches_ignore_ascii_case(s, "best-practice"@) || matches_ignore_ascii_case(s, "bestpractice"@) {
        Some(Category::BestPractice)
    } else if matches_ignore_ascii_case(s, "upgrade"@) {
        Some(Category::Upgrade)
    } else {
        None
    }
}

} // verus!
