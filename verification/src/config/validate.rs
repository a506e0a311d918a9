//! Validation of decoded configuration files.
use vstd::prelude::*;
use vstd::string::StringExecFns;
use crate::analysis::rule_id::{is_rule_id, all_rule_id_chars};
use crate::analysis::severity::{Severity, spec_parse_severity};
use crate::config::error::{ConfigError, ConfigErrorView};
use crate::config::model::{strings_view, ScanSection, RulesSection, SeveritySection, OutputSection, IgnoreSection, PerformanceSection, ConfigFile};
use crate::config::outside::{glob_pattern_error, glob_rejection, parse_toml_document, toml_parse, TomlDocument, TomlDocumentView};
use crate::text::str_eq;

verus! {

/// `i` is the first position of `s` whose element satisfies `p`.
pub open spec fn is_first_where<A>(s: Seq<A>, p: spec_fn(A) -> bool, i: int) -> bool {
    &&& 0 <= i < s.len()
    &&& p(s[i])
    &&& forall|j: int| 0 <= j < i ==> !p(#[trigger] s[j])
}

/// The first position of `s` whose element satisfies `p`, if any.
pub open spec fn first_where<A>(s: Seq<A>, p: spec_fn(A) -> bool) -> Option<int> {
    if exists|i: int| is_first_where(s, p, i) {
        Some(choose|i: int| is_first_where(s, p, i))
    } else {
        None
    }
}

/// A first position, once found, is the one `first_where` names.
pub proof fn lemma_first_where_is<A>(s: Seq<A>, p: spec_fn(A) -> bool, i: int)
    requires
        is_first_where(s, p, i),
    ensures
        first_where(s, p) == Some(i),
{
    let k = choose|k: int| is_first_where(s, p, k);
    assert(is_first_where(s, p, k));
    if k < i {
        assert(!p(s[k]));
    } else if i < k {
        assert(!p(s[i]));
    }
}

/// With no element satisfying `p`, there is no first position.
pub proof fn lemma_first_where_none<A>(s: Seq<A>, p: spec_fn(A) -> bool)
    requires
        forall|j: int| 0 <= j < s.len() ==> !p(#[trigger] s[j]),
    ensures
        first_where(s, p) is None,
{
    if exists|i: int| is_first_where(s, p, i) {
        let k = choose|k: int| is_first_where(s, p, k);
        assert(p(s[k]));
    }
}

/// Where some element satisfies `p`, there is a first position, at or before it.
pub proof fn lemma_first_where_some<A>(s: Seq<A>, p: spec_fn(A) -> bool, i: int)
    requires
        0 <= i < s.len(),
        p(s[i]),
    ensures
        first_where(s, p) matches Some(k) && k <= i && is_first_where(s, p, k),
    decreases i,
{
    if exists|j: int| 0 <= j < i && p(#[trigger] s[j]) {
        let j = choose|j: int| 0 <= j < i && p(#[trigger] s[j]);
        lemma_first_where_some(s, p, j);
    } else {
        assert(is_first_where(s, p, i));
        lemma_first_where_is(s, p, i);
    }
}

/// Holds of the strings that occur in `list`.
pub open spec fn in_list(list: Seq<Seq<char>>) -> spec_fn(Seq<char>) -> bool {
    |x: Seq<char>| list.contains(x)
}

/// Holds of strings that are not rule identifiers.
pub open spec fn not_rule_id() -> spec_fn(Seq<char>) -> bool {
    |x: Seq<char>| !is_rule_id(x)
}

/// Holds of patterns that the glob library rejects.
pub open spec fn glob_rejected() -> spec_fn(Seq<char>) -> bool {
    |x: Seq<char>| glob_rejection(x) is Some
}

/// Holds of rejected severity override pairs.
pub open spec fn override_rejected() -> spec_fn((Seq<char>, Seq<char>)) -> bool {
    |q: (Seq<char>, Seq<char>)| bad_override(q)
}

/// The strings of an optional list (none when absent).
pub open spec fn opt_strings(o: Option<Vec<String>>) -> Seq<Seq<char>> {
    match o {
        Some(v) => strings_view(v@),
        None => Seq::empty(),
    }
}

/// The pairs of an optional list of string pairs, as character sequences.
pub open spec fn opt_pairs(o: Option<Vec<(String, String)>>) -> Seq<(Seq<char>, Seq<char>)> {
    match o {
        Some(v) => Seq::new(v@.len(), |i: int| (v@[i].0@, v@[i].1@)),
        None => Seq::empty(),
    }
}

/// The error for the first pattern of `pats` that the glob library rejects; the
/// line is the pattern's position counted from 1.
pub open spec fn glob_list_outcome(pats: Seq<Seq<char>>, path: Seq<char>) -> Option<ConfigErrorView> {
    match first_where(pats, glob_rejected()) {
        Some(i) => Some(ConfigErrorView::InvalidGlob {
            pattern: pats[i],
            path,
            line: (i + 1) as usize,
            message: glob_rejection(pats[i])->0,
        }),
        None => None,
    }
}

/// The error that validating a `[scan]` section reports, if any.
pub open spec fn scan_outcome(s: ScanSection, path: Seq<char>) -> Option<ConfigErrorView> {
    if s.threads == Some(0usize) {
        Some(ConfigErrorView::NegativeThreads { value: 0, path, line: 0 })
    } else if glob_list_outcome(opt_strings(s.exclude), path) is Some {
        glob_list_outcome(opt_strings(s.exclude), path)
    } else if s.fail_on is Some && spec_parse_severity(s.fail_on->0@) is None {
        Some(ConfigErrorView::InvalidSeverity { value: s.fail_on->0@, path, line: 0 })
    } else {
        None
    }
}

/// The error that validating a `[rules]` section reports, if any: a rule both
/// enabled and disabled, then a malformed enabled identifier, then a malformed
/// disabled one (lines count list positions from 1).
pub open spec fn rules_outcome(s: RulesSection, path: Seq<char>) -> Option<ConfigErrorView> {
    let en = opt_strings(s.enable);
    let dis = opt_strings(s.disable);
    match first_where(en, in_list(dis)) {
        Some(i) => Some(ConfigErrorView::DuplicateRule { rule: en[i], path }),
        None => match first_where(en, not_rule_id()) {
            Some(i) => Some(ConfigErrorView::InvalidRuleId { rule: en[i], path, line: (i + 1) as usize }),
            None => match first_where(dis, not_rule_id()) {
                Some(i) => Some(ConfigErrorView::InvalidRuleId { rule: dis[i], path, line: (i + 1) as usize }),
                None => None,
            },
        },
    }
}

/// A severity override pair is rejected: its rule or its severity is malformed.
pub open spec fn bad_override(p: (Seq<char>, Seq<char>)) -> bool {
    !is_rule_id(p.0) || spec_parse_severity(p.1) is None
}

/// The error that validating a `[severity]` section reports, if any.
pub open spec fn severity_outcome(s: SeveritySection, path: Seq<char>) -> Option<ConfigErrorView> {
    let pairs = opt_pairs(s.overrides);
    if s.minimum is Some && spec_parse_severity(s.minimum->0@) is None {
        Some(ConfigErrorView::InvalidSeverity { value: s.minimum->0@, path, line: 0 })
    } else {
        match first_where(pairs, override_rejected()) {
            Some(i) => if !is_rule_id(pairs[i].0) {
                Some(ConfigErrorView::InvalidRuleId { rule: pairs[i].0, path, line: 0 })
            } else {
                Some(ConfigErrorView::InvalidSeverity { value: pairs[i].1, path, line: 0 })
            },
            None => None,
        }
    }
}

/// The output formats a file may name.
pub open spec fn is_format_name(s: Seq<char>) -> bool {
    s == "pretty"@ || s == "compact"@ || s == "json"@
}

/// The color settings a file may name.
pub open spec fn is_color_name(s: Seq<char>) -> bool {
    s == "auto"@ || s == "always"@ || s == "never"@
}

/// The error that validating an `[output]` section reports, if any.
pub open spec fn output_outcome(s: OutputSection, path: Seq<char>) -> Option<ConfigErrorView> {
    if s.format is Some && !is_format_name(s.format->0@) {
        Some(ConfigErrorView::InvalidOutputFormat { value: s.format->0@, path, line: 0 })
    } else if s.color is Some && !is_color_name(s.color->0@) {
        Some(ConfigErrorView::InvalidColor { value: s.color->0@, path, line: 0 })
    } else {
        None
    }
}

/// Maps an outcome onto a result: `None` is success.
pub open spec fn matches_outcome(r: Result<(), ConfigError>, o: Option<ConfigErrorView>) -> bool {
    match r {
        Ok(_) => o is None,
        Err(e) => o == Some(e@),
    }
}

/// Whether `s` is a well-formed rule identifier: non-empty, lowercase ASCII
/// letters, digits and hyphens.
pub fn is_valid_rule_id(s: &str) -> (r: bool)
    ensures
        r == is_rule_id(s@),
{
    !s.is_empty() && all_rule_id_chars(s)
}

/// Checks one glob pattern; `line` locates it in the file.
pub fn validate_glob(pattern: &str, path: &str, line: usize) -> (r: Result<(), ConfigError>)
    ensures
        match r {
            Ok(_) => glob_rejection(pattern@) is None,
            Err(e) => glob_rejection(pattern@) is Some && e@ == (ConfigErrorView::InvalidGlob {
                pattern: pattern@,
                path: path@,
                line,
                message: glob_rejection(pattern@)->0,
            }),
        },
{
    match glob_pattern_error(pattern) {
        Some(message) => Err(ConfigError::InvalidGlob {
            pattern: String::from_str(pattern),
            path: String::from_str(path),
            line,
            message,
        }),
        None => Ok(()),
    }
}

/// Checks a list of glob patterns in order.
fn validate_glob_list(pats: &Vec<String>, path: &str) -> (r: Result<(), ConfigError>)
    ensures
        matches_outcome(r, glob_list_outcome(strings_view(pats@), path@)),
{
    let ghost sv = strings_view(pats@);
    let ghost p = glob_rejected();
    let mut i: usize = 0;
    while i < pats.len()
        invariant
            i <= pats.len(),
            sv == strings_view(pats@),
            p == (glob_rejected()),
            forall|j: int| 0 <= j < i ==> !p(#[trigger] sv[j]),
        decreases pats.len() - i,
    {
        let res = validate_glob(pats[i].as_str(), path, i + 1);
        if res.is_err() {
            proof {
                lemma_first_where_is(sv, p, i as int);
            }
            return res;
        }
        i = i + 1;
    }
    proof {
        lemma_first_where_none(sv, p);
    }
    Ok(())
}


/// Whether `x` is one of the strings of `v`.
pub fn contains_str(v: &Vec<String>, x: &str) -> (r: bool)
    ensures
        r == strings_view(v@).contains(x@),
{
    let ghost sv = strings_view(v@);
    let mut i: usize = 0;
    while i < v.len()
        invariant
            i <= v.len(),
            sv == strings_view(v@),
            forall|j: int| 0 <= j < i ==> sv[j] != x@,
        decreases v.len() - i,
    {
        if str_eq(v[i].as_str(), x) {
            assert(sv[i as int] == x@);
            return true;
        }
        i = i + 1;
    }
    proof {
        if sv.contains(x@) {
            let k = choose|k: int| 0 <= k < sv.len() && sv[k] == x@;
            assert(sv[k] != x@);
        }
    }
    false
}

/// Checks the `[scan]` section: threads must not be 0, exclude patterns must
/// compile, and `fail_on` must name a severity.
pub fn validate_scan_section(s: &ScanSection, path: &str) -> (r: Result<(), ConfigError>)
    ensures
        matches_outcome(r, scan_outcome(*s, path@)),
{
    if let Some(threads) = s.threads {
        if threads == 0 {
            return Err(ConfigError::NegativeThreads { value: 0, path: String::from_str(path), line: 0 });
        }
    }
    if let Some(patterns) = &s.exclude {
        let res = validate_glob_list(patterns, path);
        if res.is_err() {
            return res;
        }
    }
    if let Some(fail_on) = &s.fail_on {
        if Severity::parse(fail_on.as_str()).is_none() {
            return Err(ConfigError::InvalidSeverity {
                value: fail_on.clone(),
                path: String::from_str(path),
                line: 0,
            });
        }
    }
    Ok(())
}

/// Position of the first string of `v` that is not a rule identifier.
fn first_invalid_rule_id(v: &Vec<String>) -> (r: Option<usize>)
    ensures
        r matches Some(i) ==> i < v.len(),
        match r {
            Some(i) => first_where(strings_view(v@), not_rule_id()) == Some(i as int),
            None => first_where(strings_view(v@), not_rule_id()) is None,
        },
{
    let ghost sv = strings_view(v@);
    let ghost p = not_rule_id();
    let mut i: usize = 0;
    while i < v.len()
        invariant
            i <= v.len(),
            sv == strings_view(v@),
            p == (not_rule_id()),
            forall|j: int| 0 <= j < i ==> !p(#[trigger] sv[j]),
        decreases v.len() - i,
    {
        if !is_valid_rule_id(v[i].as_str()) {
            proof {
                lemma_first_where_is(sv, p, i as int);
            }
            return Some(i);
        }
        i = i + 1;
    }
    proof {
        lemma_first_where_none(sv, p);
    }
    None
}

/// Checks the `[rules]` section: no rule may be both enabled and disabled, and
/// every listed rule must be a well-formed identifier.
pub fn validate_rules_section(s: &RulesSection, path: &str) -> (r: Result<(), ConfigError>)
    ensures
        matches_outcome(r, rules_outcome(*s, path@)),
{
    let empty: Vec<String> = Vec::new();
    let enabled: &Vec<String> = match &s.enable {
        Some(v) => v,
        None => &empty,
    };
    let disabled: &Vec<String> = match &s.disable {
        Some(v) => v,
        None => &empty,
    };
    let ghost en = strings_view(enabled@);
    let ghost dis = strings_view(disabled@);
    proof {
        assert(en == opt_strings(s.enable));
        assert(dis == opt_strings(s.disable));
    }
    let ghost dup = in_list(dis);
    let mut i: usize = 0;
    while i < enabled.len()
        invariant
            i <= enabled.len(),
            en == strings_view(enabled@),
            dis == strings_view(disabled@),
            dup == (in_list(dis)),
            en == opt_strings(s.enable),
            dis == opt_strings(s.disable),
            forall|j: int| 0 <= j < i ==> !dup(#[trigger] en[j]),
        decreases enabled.len() - i,
    {
        if contains_str(disabled, enabled[i].as_str()) {
            proof {
                lemma_first_where_is(en, dup, i as int);
            }
            return Err(ConfigError::DuplicateRule { rule: enabled[i].clone(), path: String::from_str(path) });
        }
        i = i + 1;
    }
    proof {
        lemma_first_where_none(en, dup);
    }
    match first_invalid_rule_id(enabled) {
        Some(i) => {
            return Err(ConfigError::InvalidRuleId {
                rule: enabled[i].clone(),
                path: String::from_str(path),
                line: i + 1,
            });
        },
        None => {},
    }
    match first_invalid_rule_id(disabled) {
        Some(i) => {
            return Err(ConfigError::InvalidRuleId {
                rule: disabled[i].clone(),
                path: String::from_str(path),
                line: i + 1,
            });
        },
        None => {},
    }
    Ok(())
}

/// Checks the `[severity]` section: the minimum must name a severity, and each
/// override must pair a well-formed rule identifier with a severity name.
pub fn validate_severity_section(s: &SeveritySection, path: &str) -> (r: Result<(), ConfigError>)
    ensures
        matches_outcome(r, severity_outcome(*s, path@)),
{
    if let Some(min) = &s.minimum {
        if Severity::parse(min.as_str()).is_none() {
            return Err(ConfigError::InvalidSeverity {
                value: min.clone(),
                path: String::from_str(path),
                line: 0,
            });
        }
    }
    if let Some(overrides) = &s.overrides {
        let ghost pairs = opt_pairs(s.overrides);
        let ghost p = override_rejected();
        let mut i: usize = 0;
        while i < overrides.len()
            invariant
                i <= overrides.len(),
                s.overrides == Some(*overrides),
                !(s.minimum is Some && spec_parse_severity(s.minimum->0@) is None),
                pairs == opt_pairs(s.overrides),
                p == (override_rejected()),
                forall|j: int| 0 <= j < i ==> !p(#[trigger] pairs[j]),
            decreases overrides.len() - i,
        {
            let (rule, sev) = &overrides[i];
            assert(pairs[i as int] == (rule@, sev@));
            if !is_valid_rule_id(rule.as_str()) {
                proof {
                    lemma_first_where_is(pairs, p, i as int);
                }
                return Err(ConfigError::InvalidRuleId { rule: rule.clone(), path: String::from_str(path), line: 0 });
            }
            if Severity::parse(sev.as_str()).is_none() {
                proof {
                    lemma_first_where_is(pairs, p, i as int);
                }
                return Err(ConfigError::InvalidSeverity { value: sev.clone(), path: String::from_str(path), line: 0 });
            }
            i = i + 1;
        }
        proof {
            lemma_first_where_none(pairs, p);
        }
    } else {
        proof {
            lemma_first_where_none(opt_pairs(s.overrides), override_rejected());
        }
    }
    Ok(())
}

/// Checks the `[output]` section: the format must be pretty, compact or json,
/// and the color auto, always or never.
pub fn validate_output_section(s: &OutputSection, path: &str) -> (r: Result<(), ConfigError>)
    ensures
        matches_outcome(r, output_outcome(*s, path@)),
{
    if let Some(format) = &s.format {
        let f = format.as_str();
        if !(str_eq(f, "pretty") || str_eq(f, "compact") || str_eq(f, "json")) {
            return Err(ConfigError::InvalidOutputFormat {
                value: format.clone(),
                path: String::from_str(path),
                line: 0,
            });
        }
    }
    if let Some(color) = &s.color {
        let c = color.as_str();
        if !(str_eq(c, "auto") || str_eq(c, "always") || str_eq(c, "never")) {
            return Err(ConfigError::InvalidColor {
                value: color.clone(),
                path: String::from_str(path),
                line: 0,
            });
        }
    }
    Ok(())
}

/// The `[performance]` section has nothing to check.
pub fn validate_performance_section(s: &PerformanceSection, path: &str) -> (r: Result<(), ConfigError>)
    ensures
        r is Ok,
{
    Ok(())
}

/// Checks the `[ignore]` section: every path pattern must compile.
pub fn validate_ignore_section(s: &IgnoreSection, path: &str) -> (r: Result<(), ConfigError>)
    ensures
        matches_outcome(r, glob_list_outcome(opt_strings(s.paths), path@)),
{
    if let Some(paths) = &s.paths {
        validate_glob_list(paths, path)
    } else {
        proof {
            lemma_first_where_none(opt_strings(s.paths), glob_rejected());
        }
        Ok(())
    }
}


/// The sections a configuration file may have.
pub open spec fn is_known_section(k: Seq<char>) -> bool {
    k == "scan"@ || k == "rules"@ || k == "severity"@ || k == "output"@ || k == "performance"@
        || k == "ignore"@ || k == "experimental"@
}

/// Holds of keys that name no known section.
pub open spec fn unknown_section() -> spec_fn(Seq<char>) -> bool {
    |k: Seq<char>| !is_known_section(k)
}

/// The error for the first top-level key that names no known section, if any.
pub open spec fn top_level_outcome(keys: Option<Seq<Seq<char>>>, path: Seq<char>) -> Option<ConfigErrorView> {
    match keys {
        Some(ks) => match first_where(ks, unknown_section()) {
            Some(i) => Some(ConfigErrorView::UnknownSection { path, section: ks[i], line: 0 }),
            None => None,
        },
        None => None,
    }
}

/// Checks that every top-level table of a document is a known section.
pub fn validate_top_level(top_level_keys: &Option<Vec<String>>, path: &str) -> (r: Result<(), ConfigError>)
    ensures
        matches_outcome(r, top_level_outcome(
            match top_level_keys {
                Some(ks) => Some(strings_view(ks@)),
                None => None,
            },
            path@,
        )),
{
    match top_level_keys {
        None => Ok(()),
        Some(keys) => {
            let ghost ks = strings_view(keys@);
            let mut i: usize = 0;
            while i < keys.len()
                invariant
                    i <= keys.len(),
                    ks == strings_view(keys@),
                    *top_level_keys == Some(*keys),
                    forall|j: int| 0 <= j < i ==> !unknown_section()(#[trigger] ks[j]),
                decreases keys.len() - i,
            {
                let k = keys[i].as_str();
                let known = str_eq(k, "scan") || str_eq(k, "rules") || str_eq(k, "severity")
                    || str_eq(k, "output") || str_eq(k, "performance") || str_eq(k, "ignore")
                    || str_eq(k, "experimental");
                if !known {
                    proof {
                        lemma_first_where_is(ks, unknown_section(), i as int);
                    }
                    return Err(ConfigError::UnknownSection {
                        path: String::from_str(path),
                        section: keys[i].clone(),
                        line: 0,
                    });
                }
                i = i + 1;
            }
            proof {
                lemma_first_where_none(ks, unknown_section());
            }
            Ok(())
        },
    }
}

/// The number of bytes that UTF-8 uses for `c`.
pub open spec fn utf8_width(c: char) -> int {
    if (c as u32) < 0x80 { 1 } else if (c as u32) < 0x800 { 2 } else if (c as u32) < 0x10000 { 3 } else { 4 }
}

/// How many characters of `s` start before byte offset `off` of its UTF-8 encoding.
pub open spec fn chars_before(s: Seq<char>, off: int) -> nat
    decreases s.len(),
{
    if s.len() == 0 || off <= 0 {
        0
    } else {
        1 + chars_before(s.drop_first(), off - utf8_width(s[0]))
    }
}

/// The line and column (from 1) just after reading the characters `p`.
pub open spec fn position_after(p: Seq<char>) -> (int, int)
    decreases p.len(),
{
    if p.len() == 0 {
        (1, 1)
    } else if p.last() == '\n' {
        (position_after(p.drop_last()).0 + 1, 1)
    } else {
        (position_after(p.drop_last()).0, position_after(p.drop_last()).1 + 1)
    }
}

/// The line and column (from 1) of the character at byte offset `byte_offset`
/// of `input`, or just past the end when the offset lies beyond it.
pub fn byte_offset_to_line_col(input: &str, byte_offset: usize) -> (r: (usize, usize))
    requires
        input@.len() < usize::MAX,
    ensures
        r.0 as int == position_after(input@.take(chars_before(input@, byte_offset as int) as int)).0,
        r.1 as int == position_after(input@.take(chars_before(input@, byte_offset as int) as int)).1,
{
    let v = crate::text::chars_of(input);
    let ghost s = input@;
    let mut line: usize = 1;
    let mut col: usize = 1;
    let mut pos: u128 = 0;
    let mut i: usize = 0;
    proof {
        assert(s.skip(0) =~= s);
    }
    while i < v.len() && pos < byte_offset as u128
        invariant
            v@ == s,
            s.len() < usize::MAX,
            i <= v.len(),
            pos <= byte_offset + 4,
            1 <= line <= i + 1,
            1 <= col <= i + 1,
            chars_before(s, byte_offset as int) == i + chars_before(s.skip(i as int), byte_offset - pos),
            position_after(s.take(i as int)) == (line as int, col as int),
        decreases v.len() - i,
    {
        let c = v[i];
        let code: u32 = c as u32;
        let w: u128 = if code < 0x80 { 1 } else if code < 0x800 { 2 } else if code < 0x10000 { 3 } else { 4 };
        assert(w == utf8_width(c));
        proof {
            assert(s.skip(i as int).drop_first() =~= s.skip(i + 1));
            assert(s.take(i + 1).drop_last() =~= s.take(i as int));
            assert(s.take(i + 1).last() == c);
        }
        if c == '\n' {
            line = line + 1;
            col = 1;
        } else {
            col = col + 1;
        }
        pos = pos + w;
        i = i + 1;
    }
    proof {
        if i == v.len() {
            assert(s.skip(i as int).len() == 0);
        }
    }
    (line, col)
}

/// The error that checking the sections of a decoded file reports, if any:
/// scan, then rules, severity, output and ignore, in that order.
pub open spec fn file_outcome(cf: ConfigFile, path: Seq<char>) -> Option<ConfigErrorView> {
    if cf.scan is Some && scan_outcome(cf.scan->0, path) is Some {
        scan_outcome(cf.scan->0, path)
    } else if cf.rules is Some && rules_outcome(cf.rules->0, path) is Some {
        rules_outcome(cf.rules->0, path)
    } else if cf.severity is Some && severity_outcome(cf.severity->0, path) is Some {
        severity_outcome(cf.severity->0, path)
    } else if cf.output is Some && output_outcome(cf.output->0, path) is Some {
        output_outcome(cf.output->0, path)
    } else if cf.ignore is Some && glob_list_outcome(opt_strings(cf.ignore->0.paths), path) is Some {
        glob_list_outcome(opt_strings(cf.ignore->0.paths), path)
    } else {
        None
    }
}

/// Checks every section of a decoded file.
pub fn validate_config_file(cf: &ConfigFile, path: &str) -> (r: Result<(), ConfigError>)
    ensures
        matches_outcome(r, file_outcome(*cf, path@)),
{
    if let Some(scan) = &cf.scan {
        let res = validate_scan_section(scan, path);
        if res.is_err() {
            return res;
        }
    }
    if let Some(rules) = &cf.rules {
        let res = validate_rules_section(rules, path);
        if res.is_err() {
            return res;
        }
    }
    if let Some(sev) = &cf.severity {
        let res = validate_severity_section(sev, path);
        if res.is_err() {
            return res;
        }
    }
    if let Some(out) = &cf.output {
        let res = validate_output_section(out, path);
        if res.is_err() {
            return res;
        }
    }
    if let Some(perf) = &cf.performance {
        let res = validate_performance_section(perf, path);
        if res.is_err() {
            return res;
        }
    }
    if let Some(ignore) = &cf.ignore {
        let res = validate_ignore_section(ignore, path);
        if res.is_err() {
            return res;
        }
    }
    Ok(())
}

/// What parsing a configuration document gives: for a syntax error, its
/// message at the line and column of the error's offset (0 when the parser
/// reports none); otherwise the first unknown section, then the decoder's
/// error, then the first invalid setting, or else the decoded file.
pub open spec fn parse_outcome(
    input: Seq<char>,
    path: Seq<char>,
    decoded: Result<ConfigFile, String>,
) -> Result<ConfigFile, ConfigErrorView> {
    match toml_parse(input) {
        TomlDocumentView::Malformed { message, offset } => {
            let off: int = match offset { Some(o) => o as int, None => 0 };
            let lc = position_after(input.take(chars_before(input, off) as int));
            Err(ConfigErrorView::InvalidTomlSyntax { path, line: lc.0 as usize, col: lc.1 as usize, message })
        },
        TomlDocumentView::Parsed { top_level_keys } => {
            if top_level_outcome(top_level_keys, path) is Some {
                Err(top_level_outcome(top_level_keys, path)->0)
            } else {
                match decoded {
                    Err(m) => Err(ConfigErrorView::InvalidToml { path, message: m@ }),
                    Ok(cf) => if file_outcome(cf, path) is Some {
                        Err(file_outcome(cf, path)->0)
                    } else {
                        Ok(cf)
                    },
                }
            }
        },
    }
}

/// Parses and validates a configuration document. `decoded` is what the
/// document's typed decoding (sections of known keys only) gave, an error
/// message in place of the file when decoding failed.
pub fn parse_config_toml(
    input: &str,
    path: &str,
    decoded: Result<ConfigFile, String>,
) -> (r: Result<ConfigFile, ConfigError>)
    requires
        input@.len() < usize::MAX,
    ensures
        match r {
            Ok(cf) => parse_outcome(input@, path@, decoded) == Ok::<ConfigFile, ConfigErrorView>(cf),
            Err(e) => parse_outcome(input@, path@, decoded) == Err::<ConfigFile, ConfigErrorView>(e@),
        },
{
    match parse_toml_document(input) {
        TomlDocument::Malformed { message, offset } => {
            let off: usize = match offset {
                Some(o) => o,
                None => 0,
            };
            let (line, col) = byte_offset_to_line_col(input, off);
            Err(ConfigError::InvalidTomlSyntax { path: String::from_str(path), line, col, message })
        },
        TomlDocument::Parsed { top_level_keys } => {
            let top = validate_top_level(&top_level_keys, path);
            if let Err(e) = top {
                return Err(e);
            }
            match decoded {
                Err(m) => Err(ConfigError::InvalidToml { path: String::from_str(path), message: m }),
                Ok(cf) => {
                    let res = validate_config_file(&cf, path);
                    match res {
                        Err(e) => Err(e),
                        Ok(_) => Ok(cf),
                    }
                },
            }
        },
    }
}

} // verus!
