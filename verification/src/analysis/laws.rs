//! Properties of the names of severities and categories.
use vstd::prelude::*;
use crate::analysis::category::{spec_parse_category, Category};
use crate::analysis::severity::{spec_parse_severity, Severity};
use crate::text::{ascii_lowered, lemma_match_ascii_lowered, lemma_match_iff_lowered, matches_ignore_ascii_case};

verus! {

/// Reading back the name of a severity gives the severity.
pub proof fn lemma_severity_name_round_trip(s: Severity)
    ensures
        spec_parse_severity(s.name()) == Some(s),
{
    reveal_strlit("critical");
    reveal_strlit("high");
    reveal_strlit("medium");
    reveal_strlit("low");
    reveal_strlit("info");
    let n = s.name();
    assert(matches_ignore_ascii_case(n, n));
    if s != Severity::Critical {
        assert(!matches_ignore_ascii_case(n, "critical"@)) by {
            if n.len() == 8 {
                assert(n[0] != 'c');
            }
        }
    }
    if s != Severity::Critical && s != Severity::High {
        assert(!matches_ignore_ascii_case(n, "high"@)) by {
            if n.len() == 4 {
                assert(n[0] != 'h');
            }
        }
    }
    if s == Severity::Low || s == Severity::Info {
        assert(!matches_ignore_ascii_case(n, "medium"@));
    }
    if s == Severity::Info {
        assert(!matches_ignore_ascii_case(n, "low"@));
    }
}

/// Reading back the name of a category gives the category.
pub proof fn lemma_category_name_round_trip(c: Category)
    ensures
        spec_parse_category(c.name()) == Some(c),
{
    reveal_strlit("security");
    reveal_strlit("performance");
    reveal_strlit("gas");
    reveal_strlit("best-practice");
    reveal_strlit("bestpractice");
    reveal_strlit("upgrade");
    let n = c.name();
    assert(matches_ignore_ascii_case(n, n));
    if c != Category::Security {
        assert(!matches_ignore_ascii_case(n, "security"@)) by {
            if n.len() == 8 {
                assert(n[0] != 's');
            }
        }
    }
    if c != Category::Security && c != Category::Performance {
        assert(!matches_ignore_ascii_case(n, "performance"@));
    }
    if c == Category::BestPractice || c == Category::Upgrade {
        assert(!matches_ignore_ascii_case(n, "gas"@));
    }
    if c == Category::Upgrade {
        assert(!matches_ignore_ascii_case(n, "best-practice"@));
        assert(!matches_ignore_ascii_case(n, "bestpractice"@));
    }
}

/// Severities are read without regard to case: the text gives a severity
/// exactly when, ASCII lower-cased, it is that severity's name, and
/// lower-casing the text first gives the same answer.
pub proof fn lemma_severity_parse_ignores_case(s: Seq<char>, v: Severity)
    ensures
        (spec_parse_severity(s) == Some(v)) <==> ascii_lowered(s) == v.name(),
        spec_parse_severity(ascii_lowered(s)) == spec_parse_severity(s),
{
    reveal_strlit("critical");
    reveal_strlit("high");
    reveal_strlit("medium");
    reveal_strlit("low");
    reveal_strlit("info");
    lemma_match_iff_lowered(s, "critical"@);
    lemma_match_iff_lowered(s, "high"@);
    lemma_match_iff_lowered(s, "medium"@);
    lemma_match_iff_lowered(s, "low"@);
    lemma_match_iff_lowered(s, "info"@);
    lemma_match_ascii_lowered(s, "critical"@);
    lemma_match_ascii_lowered(s, "high"@);
    lemma_match_ascii_lowered(s, "medium"@);
    lemma_match_ascii_lowered(s, "low"@);
    lemma_match_ascii_lowered(s, "info"@);
    assert("high"@ != "info"@) by {
        assert("high"@[0] != "info"@[0]);
    }
}

/// Categories are read without regard to case: the text gives a category
/// exactly when, ASCII lower-cased, it is that category's name (or, for best
/// practices, `bestpractice`), and lower-casing the text first gives the same
/// answer.
pub proof fn lemma_category_parse_ignores_case(s: Seq<char>, c: Category)
    ensures
        (spec_parse_category(s) == Some(c)) <==> (ascii_lowered(s) == c.name()
            || (c == Category::BestPractice && ascii_lowered(s) == "bestpractice"@)),
        spec_parse_category(ascii_lowered(s)) == spec_parse_category(s),
{
    reveal_strlit("security");
    reveal_strlit("performance");
    reveal_strlit("gas");
    reveal_strlit("best-practice");
    reveal_strlit("bestpractice");
    reveal_strlit("upgrade");
    lemma_match_iff_lowered(s, "security"@);
    lemma_match_iff_lowered(s, "performance"@);
    lemma_match_iff_lowered(s, "gas"@);
    lemma_match_iff_lowered(s, "best-practice"@);
    lemma_match_iff_lowered(s, "bestpractice"@);
    lemma_match_iff_lowered(s, "upgrade"@);
    lemma_match_ascii_lowered(s, "security"@);
    lemma_match_ascii_lowered(s, "performance"@);
    lemma_match_ascii_lowered(s, "gas"@);
    lemma_match_ascii_lowered(s, "best-practice"@);
    lemma_match_ascii_lowered(s, "bestpractice"@);
    lemma_match_ascii_lowered(s, "upgrade"@);
}

} // verus!
