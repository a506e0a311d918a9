//! The security score of a set of findings.
use vstd::prelude::*;
use crate::analysis::finding::Finding;
use crate::analysis::severity::Severity;

verus! {

/// How many findings of `s` have severity `sev`.
pub open spec fn count_severity(s: Seq<Finding>, sev: Severity) -> nat
    decreases s.len(),
{
    if s.len() == 0 {
        0
    } else {
        count_severity(s.drop_last(), sev) + if s.last().severity == sev { 1nat } else { 0nat }
    }
}

/// The number of findings of severity `sev`, as the score's 16-bit signed
/// arithmetic takes it (`as i16`, which wraps from 32768 on).
pub open spec fn count16(s: Seq<Finding>, sev: Severity) -> int {
    (count_severity(s, sev) as i16) as int
}

/// The points that the findings of `s` cost: each finding costs the weight of
/// its severity (the counts taken as 16-bit values).
pub open spec fn penalty(s: Seq<Finding>) -> int {
    25 * count16(s, Severity::Critical) + 10 * count16(s, Severity::High)
        + 5 * count16(s, Severity::Medium) + 2 * count16(s, Severity::Low)
}

/// The score of `s`: 100 less the penalty, kept between 0 and 100.
pub open spec fn score_value(s: Seq<Finding>) -> int {
    if 100 - penalty(s) < 0 {
        0
    } else if 100 - penalty(s) > 100 {
        100
    } else {
        100 - penalty(s)
    }
}

/// Whether `v` fits in 16-bit signed arithmetic.
pub open spec fn fits_i16(v: int) -> bool {
    i16::MIN <= v <= i16::MAX
}

/// The score is computed in 16-bit signed arithmetic as
/// `100 - 25c - 10h - 5m - 2l`: each product and each partial difference
/// must fit in it.
pub open spec fn score_fits(s: Seq<Finding>) -> bool {
    let c = count16(s, Severity::Critical);
    let h = count16(s, Severity::High);
    let m = count16(s, Severity::Medium);
    let l = count16(s, Severity::Low);
    &&& fits_i16(25 * c)
    &&& fits_i16(10 * h)
    &&& fits_i16(5 * m)
    &&& fits_i16(2 * l)
    &&& fits_i16(100 - 25 * c)
    &&& fits_i16(100 - 25 * c - 10 * h)
    &&& fits_i16(100 - 25 * c - 10 * h - 5 * m)
    &&& fits_i16(100 - 25 * c - 10 * h - 5 * m - 2 * l)
}

/// Counts below 32768 are taken as they are.
pub proof fn lemma_count16_small(s: Seq<Finding>, sev: Severity)
    requires
        count_severity(s, sev) < 32768,
    ensures
        count16(s, sev) == count_severity(s, sev),
{
}

/// A security score out of 100, with the number of findings of each severity.
#[derive(Debug, Clone, PartialEq, Eq)]
pub struct SecurityScore {
    pub score: u8,
    pub critical: usize,
    pub high: usize,
    pub medium: usize,
    pub low: usize,
    pub info: usize,
}

/// The score that `from_findings` gives for the findings `s`.
pub open spec fn score_of(s: Seq<Finding>) -> SecurityScore {
    SecurityScore {
        score: score_value(s) as u8,
        critical: count_severity(s, Severity::Critical) as usize,
        high: count_severity(s, Severity::High) as usize,
        medium: count_severity(s, Severity::Medium) as usize,
        low: count_severity(s, Severity::Low) as usize,
        info: count_severity(s, Severity::Info) as usize,
    }
}

/// No severity occurs more often than there are findings.
pub proof fn lemma_count_bounded(s: Seq<Finding>, sev: Severity)
    ensures
        count_severity(s, sev) <= s.len(),
    decreases s.len(),
{
    if s.len() > 0 {
        lemma_count_bounded(s.drop_last(), sev);
    }
}

impl SecurityScore {
    /// Scores a list of findings.
    pub fn from_findings(findings: &[Finding]) -> (r: SecurityScore)
        requires
            score_fits(findings@),
        ensures
            r == score_of(findings@),
            r.score <= 100,
    {
        let mut critical: usize = 0;
        let mut high: usize = 0;
        let mut medium: usize = 0;
        let mut low: usize = 0;
        let mut info: usize = 0;
        let mut i: usize = 0;
        while i < findings.len()
            invariant
                i <= findings@.len(),
                critical == count_severity(findings@.take(i as int), Severity::Critical),
                high == count_severity(findings@.take(i as int), Severity::High),
                medium == count_severity(findings@.take(i as int), Severity::Medium),
                low == count_severity(findings@.take(i as int), Severity::Low),
                info == count_severity(findings@.take(i as int), Severity::Info),
            decreases findings.len() - i,
        {
            proof {
                let t = findings@.take(i as int);
                assert(findings@.take(i + 1).drop_last() =~= t);
                lemma_count_bounded(t, Severity::Critical);
                lemma_count_bounded(t, Severity::High);
                lemma_count_bounded(t, Severity::Medium);
                lemma_count_bounded(t, Severity::Low);
                lemma_count_bounded(t, Severity::Info);
            }
            match findings[i].severity {
                Severity::Critical => critical += 1,
                Severity::High => high += 1,
                Severity::Medium => medium += 1,
                Severity::Low => low += 1,
                Severity::Info => info += 1,
            }
            i = i + 1;
        }
        proof {
            assert(findings@.take(findings@.len() as int) =~= findings@);
        }
        let c16: i16 = critical as i16;
        let h16: i16 = high as i16;
        let m16: i16 = medium as i16;
        let l16: i16 = low as i16;
        let wc: i16 = Severity::Critical.weight() as i16;
        let wh: i16 = Severity::High.weight() as i16;
        let wm: i16 = Severity::Medium.weight() as i16;
        let wl: i16 = Severity::Low.weight() as i16;
        assert(wc == 25 && wh == 10 && wm == 5 && wl == 2);
        assert(c16 * wc == 25 * c16 && h16 * wh == 10 * h16 && m16 * wm == 5 * m16 && l16 * wl == 2 * l16) by (nonlinear_arith)
            requires wc == 25, wh == 10, wm == 5, wl == 2;
        let raw: i16 = 100i16 - c16 * wc - h16 * wh - m16 * wm - l16 * wl;
        let score: u8 = if raw < 0 {
            0
        } else if raw > 100 {
            100
        } else {
            raw as u8
        };
        SecurityScore { score, critical, high, medium, low, info }
    }

    /// The score of a scan without findings.
    pub fn perfect() -> (r: SecurityScore)
        ensures
            r == score_of(Seq::empty()),
            r.score == 100,
    {
        SecurityScore { score: 100, critical: 0, high: 0, medium: 0, low: 0, info: 0 }
    }

    /// The score as decimal text.
    pub fn to_string(&self) -> (r: String)
        ensures
            r@ == crate::text::decimal_text(self.score as nat),
    {
        crate::text::u64_to_decimal(self.score as u64)
    }
}

/// One more finding never raises the score, and an `Info` finding leaves it
/// unchanged, as long as no count reaches 32768, where the 16-bit arithmetic
/// wraps.
pub proof fn lemma_score_push(s: Seq<Finding>, f: Finding)
    requires
        count_severity(s.push(f), Severity::Critical) < 32768,
        count_severity(s.push(f), Severity::High) < 32768,
        count_severity(s.push(f), Severity::Medium) < 32768,
        count_severity(s.push(f), Severity::Low) < 32768,
    ensures
        score_value(s.push(f)) <= score_value(s),
        f.severity == Severity::Info ==> score_value(s.push(f)) == score_value(s),
        0 <= score_value(s) <= 100,
{
    assert(s.push(f).drop_last() =~= s);
    lemma_count16_small(s.push(f), Severity::Critical);
    lemma_count16_small(s.push(f), Severity::High);
    lemma_count16_small(s.push(f), Severity::Medium);
    lemma_count16_small(s.push(f), Severity::Low);
    lemma_count16_small(s, Severity::Critical);
    lemma_count16_small(s, Severity::High);
    lemma_count16_small(s, Severity::Medium);
    lemma_count16_small(s, Severity::Low);
}

/// Findings of severity `Info` alone count nothing of the other severities.
proof fn lemma_info_only_counts(s: Seq<Finding>, sev: Severity)
    requires
        forall|i: int| 0 <= i < s.len() ==> (#[trigger] s[i]).severity == Severity::Info,
        sev != Severity::Info,
    ensures
        count_severity(s, sev) == 0,
    decreases s.len(),
{
    if s.len() > 0 {
        assert forall|i: int| 0 <= i < s.drop_last().len() implies (#[trigger] s.drop_last()[i]).severity == Severity::Info by {
            assert(s.drop_last()[i] == s[i]);
        }
        lemma_info_only_counts(s.drop_last(), sev);
        assert(s.last() == s[s.len() - 1]);
    }
}

/// Findings of severity `Info` alone leave a perfect score.
pub proof fn lemma_info_only_is_perfect(s: Seq<Finding>)
    requires
        forall|i: int| 0 <= i < s.len() ==> (#[trigger] s[i]).severity == Severity::Info,
    ensures
        score_value(s) == 100,
{
    lemma_info_only_counts(s, Severity::Critical);
    lemma_info_only_counts(s, Severity::High);
    lemma_info_only_counts(s, Severity::Medium);
    lemma_info_only_counts(s, Severity::Low);
}

} // verus!
