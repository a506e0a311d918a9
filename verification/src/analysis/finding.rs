//! Findings reported by rules, and the order in which they are listed.
use vstd::prelude::*;
use vstd::string::StringExecFns;
use crate::analysis::category::Category;
use crate::analysis::rule_id::RuleId;
use crate::analysis::severity::Severity;
use crate::analysis::span::DiagnosticSpan;
use crate::text::{compare_str, seq_order, lemma_seq_order_antisym, lemma_seq_order_eq, lemma_seq_order_first_difference, lemma_seq_order_trans};

verus! {

/// One problem that a rule found at a place in the source.
#[derive(Debug, Clone, PartialEq, Eq)]
pub struct Finding {
    pub rule_id: RuleId,
    pub severity: Severity,
    pub category: Category,
    pub span: DiagnosticSpan,
    pub message: String,
    pub recommendation: String,
    pub fix_example: Option<String>,
}

/// Three-way comparison of integers: -1, 0 or 1.
pub open spec fn int_order(a: int, b: int) -> int {
    if a < b { -1 } else if a > b { 1 } else { 0 }
}

/// The listing order of findings as -1, 0 or 1: the more severe finding sorts
/// after the less severe one; at equal severity, by file path, then line, then
/// column, then rule identifier, each ascending.
pub open spec fn finding_order(a: Finding, b: Finding) -> int {
    if a.severity.rank() != b.severity.rank() {
        int_order(b.severity.rank(), a.severity.rank())
    } else if seq_order(a.span.file@, b.span.file@) != 0 {
        seq_order(a.span.file@, b.span.file@)
    } else if a.span.line != b.span.line {
        int_order(a.span.line as int, b.span.line as int)
    } else if a.span.column != b.span.column {
        int_order(a.span.column as int, b.span.column as int)
    } else {
        seq_order(a.rule_id@, b.rule_id@)
    }
}

impl Finding {
    pub fn new(
        rule_id: RuleId,
        severity: Severity,
        category: Category,
        span: DiagnosticSpan,
        message: &str,
        recommendation: &str,
    ) -> (r: Finding)
        ensures
            r.rule_id == rule_id,
            r.severity == severity,
            r.category == category,
            r.span == span,
            r.message@ == message@,
            r.recommendation@ == recommendation@,
            r.fix_example is None,
    {
        Finding {
            rule_id,
            severity,
            category,
            span,
            message: String::from_str(message),
            recommendation: String::from_str(recommendation),
            fix_example: None,
        }
    }

    /// The same finding with an example of a fix attached.
    pub fn with_fix(self, example: &str) -> (r: Finding)
        ensures
            r.rule_id == self.rule_id,
            r.severity == self.severity,
            r.category == self.category,
            r.span == self.span,
            r.message == self.message,
            r.recommendation == self.recommendation,
            r.fix_example matches Some(f) && f@ == example@,
    {
        let mut f = self;
        f.fix_example = Some(String::from_str(example));
        f
    }

    /// Three-way comparison in listing order (see `finding_order`).
    pub fn compare(&self, other: &Finding) -> (r: i8)
        ensures
            r as int == finding_order(*self, *other),
    {
        let a = self.severity.position();
        let b = other.severity.position();
        if a != b {
            return if b < a { -1 } else { 1 };
        }
        let f = compare_str(self.span.file.as_str(), other.span.file.as_str());
        if f != 0 {
            return f;
        }
        if self.span.line != other.span.line {
            return if self.span.line < other.span.line { -1 } else { 1 };
        }
        if self.span.column != other.span.column {
            return if self.span.column < other.span.column { -1 } else { 1 };
        }
        compare_str(self.rule_id.as_str(), other.rule_id.as_str())
    }
}

/// Swapping two findings negates their order, which is always -1, 0 or 1.
pub proof fn lemma_finding_order_antisymmetric(a: Finding, b: Finding)
    ensures
        finding_order(a, b) == -finding_order(b, a),
        -1 <= finding_order(a, b) <= 1,
{
    lemma_seq_order_antisym(a.span.file@, b.span.file@);
    lemma_seq_order_antisym(a.rule_id@, b.rule_id@);
}

/// Two findings are tied in the listing order exactly when they agree on
/// severity, file, line, column and rule identifier.
pub proof fn lemma_finding_order_tie(a: Finding, b: Finding)
    ensures
        finding_order(a, b) == 0 <==> (a.severity == b.severity && a.span.file@ == b.span.file@
            && a.span.line == b.span.line && a.span.column == b.span.column
            && a.rule_id@ == b.rule_id@),
{
    lemma_seq_order_eq(a.span.file@, b.span.file@);
    lemma_seq_order_eq(a.rule_id@, b.rule_id@);
}

/// The listing order is transitive.
pub proof fn lemma_finding_order_transitive(a: Finding, b: Finding, c: Finding)
    requires
        finding_order(a, b) < 0,
        finding_order(b, c) < 0,
    ensures
        finding_order(a, c) < 0,
{
    lemma_seq_order_eq(a.span.file@, b.span.file@);
    lemma_seq_order_eq(b.span.file@, c.span.file@);
    lemma_seq_order_eq(a.span.file@, c.span.file@);
    lemma_seq_order_eq(a.rule_id@, b.rule_id@);
    lemma_seq_order_eq(b.rule_id@, c.rule_id@);
    if seq_order(a.span.file@, b.span.file@) < 0 && seq_order(b.span.file@, c.span.file@) < 0 {
        lemma_seq_order_trans(a.span.file@, b.span.file@, c.span.file@);
    }
    if seq_order(a.rule_id@, b.rule_id@) < 0 && seq_order(b.rule_id@, c.rule_id@) < 0 {
        lemma_seq_order_trans(a.rule_id@, b.rule_id@, c.rule_id@);
    }
}

/// A more severe finding always sorts after a less severe one.
pub proof fn lemma_finding_order_severity_first(a: Finding, b: Finding)
    requires
        a.severity.rank() < b.severity.rank(),
    ensures
        finding_order(a, b) == 1,
        finding_order(b, a) == -1,
{
}

/// At equal severity, findings in different files are listed by file path,
/// whatever their lines, columns and rules: where the paths agree on their
/// first `k` characters and then `a`'s path has the smaller character, or
/// ends, `a` comes first.
pub proof fn lemma_finding_order_by_file(a: Finding, b: Finding, k: int)
    requires
        a.severity == b.severity,
        0 <= k <= a.span.file@.len(),
        k <= b.span.file@.len(),
        a.span.file@.take(k) == b.span.file@.take(k),
        (k < a.span.file@.len() && k < b.span.file@.len() && (a.span.file@[k] as u32) < (b.span.file@[k] as u32))
            || (k == a.span.file@.len() && k < b.span.file@.len()),
    ensures
        finding_order(a, b) == -1,
        finding_order(b, a) == 1,
{
    lemma_seq_order_first_difference(a.span.file@, b.span.file@, k);
    lemma_seq_order_antisym(a.span.file@, b.span.file@);
}

/// At equal severity and in the same file, findings are listed by line, and on
/// the same line by column, whatever their rules.
pub proof fn lemma_finding_order_by_position(a: Finding, b: Finding)
    requires
        a.severity == b.severity,
        a.span.file@ == b.span.file@,
    ensures
        a.span.line < b.span.line ==> finding_order(a, b) == -1,
        a.span.line == b.span.line && a.span.column < b.span.column ==> finding_order(a, b) == -1,
{
    lemma_seq_order_eq(a.span.file@, b.span.file@);
}

/// Holds of the findings of one category.
pub open spec fn of_category(c: Category) -> spec_fn(Finding) -> bool {
    |f: Finding| f.category == c
}

/// The findings a report shows: those of the requested category, in their
/// order, or all of them when no category is requested.
pub open spec fn shown_findings(findings: Seq<Finding>, category: Option<Category>) -> Seq<Finding> {
    match category {
        Some(c) => findings.filter(of_category(c)),
        None => findings,
    }
}

/// Filtering a sequence with one more element at its end.
proof fn lemma_filter_push(s: Seq<Finding>, x: Finding, p: spec_fn(Finding) -> bool)
    ensures
        s.push(x).filter(p) == if p(x) { s.filter(p).push(x) } else { s.filter(p) },
{
    reveal(Seq::filter);
    assert(s.push(x).drop_last() =~= s);
}

/// Keeps the findings of the requested category, in their order; with no
/// category requested, keeps them all.
pub fn filter_by_category(findings: Vec<Finding>, category: Option<Category>) -> (r: Vec<Finding>)
    ensures
        r@ == shown_findings(findings@, category),
{
    let c = match category {
        Some(c) => c,
        None => {
            return findings;
        },
    };
    let ghost p = of_category(c);
    let ghost orig = findings@;
    let mut v = findings;
    let mut i: usize = 0;
    proof {
        reveal(Seq::filter);
        assert(v@.take(0) =~= Seq::<Finding>::empty());
    }
    while i < v.len()
        invariant
            i <= v.len(),
            p == of_category(c),
            v@.take(i as int).filter(p) == v@.take(i as int),
            v@.filter(p) == orig.filter(p),
        decreases v.len() - i,
    {
        let ghost before = v@;
        if v[i].category == c {
            proof {
                assert(before.take(i + 1) =~= before.take(i as int).push(before[i as int]));
                lemma_filter_push(before.take(i as int), before[i as int], p);
            }
            i = i + 1;
        } else {
            let _removed = v.remove(i);
            proof {
                let a = before.take(i as int);
                let b = before.skip(i + 1);
                let x = before[i as int];
                assert(before =~= a.push(x) + b);
                assert(v@ =~= a + b);
                Seq::filter_distributes_over_add(a.push(x), b, p);
                Seq::filter_distributes_over_add(a, b, p);
                lemma_filter_push(a, x, p);
                assert(v@.take(i as int) =~= a);
            }
        }
    }
    proof {
        assert(v@.take(i as int) =~= v@);
    }
    v
}

} // verus!
