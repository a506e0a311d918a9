//! Properties of configuration resolution that hold for all inputs.
use vstd::prelude::*;
use crate::analysis::category::spec_parse_category;
use crate::analysis::rule_id::is_rule_id;
use crate::analysis::severity::{spec_parse_severity, Severity};
use crate::config::error::ConfigErrorView;
use crate::config::model::{strings_view, default_run_config, CliOverrides, ConfigFile, ScanSection, ConfigSourceView, OutputFormat, RunConfigView};
use crate::config::resolve::{
    resolved, valid_rule_ids, apply_file, apply_input, apply_overrides, rules_setting, ConfigInput,
    insert_overrides,
    format_from_name, color_from_name,
};
use crate::config::discover::loaded;
use crate::config::validate::{scan_outcome, glob_list_outcome, file_outcome, opt_pairs, rules_outcome, opt_strings, not_rule_id, in_list, lemma_first_where_some};

verus! {

/// Settings given on the command line win over every configuration file.
pub proof fn lemma_cli_overrides_win(cli: CliOverrides, project: Option<ConfigInput>, user: Option<ConfigInput>)
    ensures
        resolved(cli, project, user) matches Ok(rc) ==> {
            &&& cli.threads matches Some(t) ==> rc.threads == t
            &&& cli.path matches Some(p) ==> rc.path == p@
            &&& cli.exclude matches Some(x) ==> rc.exclude == strings_view(x@)
            &&& cli.quiet matches Some(q) ==> rc.quiet == q
            &&& cli.verbose matches Some(v) ==> rc.verbose == v
            &&& cli.timings matches Some(t) ==> rc.show_timings == t
            &&& cli.score matches Some(s) ==> rc.show_score == s
            &&& cli.compact == Some(true) ==> rc.format == OutputFormat::Compact
            &&& (cli.json == Some(true) && cli.compact != Some(true)) ==> rc.format == OutputFormat::Json
            &&& (cli.severity matches Some(s) && spec_parse_severity(s@) is Some)
                ==> rc.severity_threshold == spec_parse_severity(cli.severity->0@)->0
            &&& (cli.fail_on matches Some(s) && spec_parse_severity(s@) is Some)
                ==> rc.fail_on == spec_parse_severity(cli.fail_on->0@)->0
        },
{
}

/// Each setting a configuration file gives replaces the setting it is applied
/// over, whatever that was: a file read later wins over one read earlier.
pub proof fn lemma_file_settings_override(cf: ConfigFile, rc: RunConfigView)
    ensures
        cf.scan matches Some(sc) ==> {
            &&& sc.threads matches Some(t) ==> apply_file(cf, rc).threads == t
            &&& sc.exclude matches Some(x) ==> apply_file(cf, rc).exclude == strings_view(x@)
            &&& (sc.fail_on matches Some(f) && spec_parse_severity(f@) is Some)
                ==> apply_file(cf, rc).fail_on == spec_parse_severity(sc.fail_on->0@)->0
        },
        cf.rules matches Some(ru) ==> {
            &&& ru.enable matches Some(e) ==> apply_file(cf, rc).enabled_rules == valid_rule_ids(strings_view(e@))
            &&& ru.disable matches Some(d) ==> apply_file(cf, rc).disabled_rules == valid_rule_ids(strings_view(d@))
        },
        cf.severity matches Some(sv) ==> (sv.minimum matches Some(m) && spec_parse_severity(m@) is Some)
            ==> apply_file(cf, rc).severity_threshold == spec_parse_severity(sv.minimum->0@)->0,
        cf.output matches Some(out) ==> {
            &&& out.format matches Some(f) ==> apply_file(cf, rc).format == format_from_name(f@)
            &&& out.color matches Some(c) ==> apply_file(cf, rc).color == color_from_name(c@)
            &&& out.quiet matches Some(q) ==> apply_file(cf, rc).quiet == q
            &&& out.verbose matches Some(v) ==> apply_file(cf, rc).verbose == v
            &&& out.show_score matches Some(v) ==> apply_file(cf, rc).show_score == v
            &&& out.show_timings matches Some(v) ==> apply_file(cf, rc).show_timings == v
        },
        cf.performance matches Some(p) ==> (p.parallel matches Some(v) ==> apply_file(cf, rc).parallel == v),
        cf.ignore matches Some(ig) ==> (ig.paths matches Some(x) ==> apply_file(cf, rc).ignore_paths == strings_view(x@)),
{
}

/// A setting of the project file wins over the same setting of the user file
/// when the command line leaves it alone.
pub proof fn lemma_project_over_user(cli: CliOverrides, project: ConfigInput, user: ConfigInput)
    requires
        cli.threads is None && cli.compact is None && cli.json is None && cli.color is None,
        cli.severity is None && cli.exclude is None,
        project.file is Ok,
    ensures
        resolved(cli, Some(project), Some(user)) matches Ok(rc) ==> {
            let cf = project.file->Ok_0;
            &&& (cf.scan is Some && cf.scan->0.threads is Some) ==> rc.threads == cf.scan->0.threads->0
            &&& (cf.scan is Some && cf.scan->0.exclude is Some) ==> rc.exclude == strings_view(cf.scan->0.exclude->0@)
            &&& (cf.output is Some && cf.output->0.format is Some)
                ==> rc.format == format_from_name(cf.output->0.format->0@)
            &&& (cf.output is Some && cf.output->0.color is Some)
                ==> rc.color == color_from_name(cf.output->0.color->0@)
            &&& (cf.severity is Some && cf.severity->0.minimum is Some
                && spec_parse_severity(cf.severity->0.minimum->0@) is Some)
                ==> rc.severity_threshold == spec_parse_severity(cf.severity->0.minimum->0@)->0
        },
{
    let cf = project.file->Ok_0;
    let base = apply_input(Some(user), default_run_config());
    lemma_file_settings_override(cf, base);
    let p = apply_file(cf, base);
    assert(apply_input(Some(project), base) == p);
    let o = apply_overrides(cli, p);
    assert(o.threads == p.threads && o.exclude == p.exclude && o.format == p.format);
    assert(o.color == p.color && o.severity_threshold == p.severity_threshold);
}

/// Without files and without command-line settings, the run uses the built-in
/// defaults and says so.
pub proof fn lemma_defaults_only(cli: CliOverrides)
    requires
        cli.path is None && cli.json is None && cli.compact is None && cli.quiet is None,
        cli.verbose is None && cli.color is None && cli.fail_on is None && cli.severity is None,
        cli.category is None && cli.rule is None && cli.exclude is None && cli.timings is None,
        cli.score is None && cli.threads is None && cli.config_path is None,
    ensures
        resolved(cli, None, None) == Ok::<RunConfigView, crate::config::error::ConfigErrorView>(
            RunConfigView { config_source: Some(ConfigSourceView::Defaults), ..default_run_config() },
        ),
{
}

/// A category given on the command line that names a category empties both
/// rule lists before `--rule` is applied.
pub proof fn lemma_category_clears_rules(cli: CliOverrides, project: Option<ConfigInput>, user: Option<ConfigInput>)
    requires
        cli.category matches Some(c) && spec_parse_category(c@) is Some,
    ensures
        resolved(cli, project, user) matches Ok(rc) ==> {
            &&& rc.disabled_rules.len() == 0
            &&& rc.enabled_rules == rules_setting(cli.rule, Seq::empty())
            &&& rc.category_filter == spec_parse_category(cli.category->0@)
        },
{
}

/// Keeping the well-formed identifiers of a list of well-formed identifiers
/// keeps the whole list.
pub proof fn lemma_valid_rule_ids_keeps_valid(s: Seq<Seq<char>>)
    requires
        forall|i: int| 0 <= i < s.len() ==> is_rule_id(#[trigger] s[i]),
    ensures
        valid_rule_ids(s) == s,
    decreases s.len(),
{
    if s.len() > 0 {
        assert forall|i: int| 0 <= i < s.drop_last().len() implies is_rule_id(#[trigger] s.drop_last()[i]) by {
            assert(s.drop_last()[i] == s[i]);
        }
        lemma_valid_rule_ids_keeps_valid(s.drop_last());
        assert(s.drop_last().push(s.last()) =~= s);
    }
}

/// A configuration file that passes validation enables and disables exactly
/// the rules its `[rules]` section lists, and no rule is both enabled and
/// disabled: validation leaves nothing for resolution to drop.
pub proof fn lemma_validated_rules_kept(cf: ConfigFile, path: Seq<char>, rc: RunConfigView)
    requires
        file_outcome(cf, path) is None,
        cf.rules is Some,
    ensures
        cf.rules->0.enable is Some ==> apply_file(cf, rc).enabled_rules == opt_strings(cf.rules->0.enable),
        cf.rules->0.disable is Some ==> apply_file(cf, rc).disabled_rules == opt_strings(cf.rules->0.disable),
        forall|i: int| 0 <= i < opt_strings(cf.rules->0.enable).len()
            ==> !opt_strings(cf.rules->0.disable).contains(#[trigger] opt_strings(cf.rules->0.enable)[i]),
{
    let ru = cf.rules->0;
    let en = opt_strings(ru.enable);
    let dis = opt_strings(ru.disable);
    assert(rules_outcome(ru, path) is None);
    assert forall|i: int| 0 <= i < en.len() implies !dis.contains(#[trigger] en[i]) by {
        if dis.contains(en[i]) {
            assert(in_list(dis)(en[i]));
            lemma_first_where_some(en, in_list(dis), i);
        }
    }
    assert forall|i: int| 0 <= i < en.len() implies is_rule_id(#[trigger] en[i]) by {
        if !is_rule_id(en[i]) {
            lemma_first_where_some(en, not_rule_id(), i);
        }
    }
    assert forall|i: int| 0 <= i < dis.len() implies is_rule_id(#[trigger] dis[i]) by {
        if !is_rule_id(dis[i]) {
            lemma_first_where_some(dis, not_rule_id(), i);
        }
    }
    lemma_valid_rule_ids_keeps_valid(en);
    lemma_valid_rule_ids_keeps_valid(dis);
}

/// Loading merges both configuration files: a discovered project file other
/// than the user-level file is applied over the user file, so a setting the
/// project file leaves alone keeps the user file's value; a discovered file
/// that is the user file itself is read as the user file only.
pub proof fn lemma_load_merges_user_and_project(cli: CliOverrides, project: ConfigInput, user: ConfigInput)
    ensures
        project.path@ != user.path@ ==> loaded(cli, Ok(Some(project)), Some(user)) == resolved(cli, Some(project), Some(user)),
        project.path@ == user.path@ ==> loaded(cli, Ok(Some(project)), Some(user)) == resolved(cli, None, Some(user)),
        loaded(cli, Ok(None), Some(user)) == resolved(cli, None, Some(user)),
{
}

/// Inserting override pairs in order: a well-formed pair that no later pair
/// for the same rule follows decides that rule's severity; a rule that no pair
/// names keeps what it had.
proof fn lemma_insert_overrides_pair(m: Map<Seq<char>, Severity>, ps: Seq<(Seq<char>, Seq<char>)>, j: int)
    requires
        0 <= j < ps.len(),
        is_rule_id(ps[j].0),
        spec_parse_severity(ps[j].1) is Some,
        forall|k: int| j < k < ps.len() ==> (#[trigger] ps[k]).0 != ps[j].0,
    ensures
        insert_overrides(m, ps).contains_key(ps[j].0),
        insert_overrides(m, ps)[ps[j].0] == spec_parse_severity(ps[j].1)->0,
    decreases ps.len(),
{
    if j < ps.len() - 1 {
        let q = ps.drop_last();
        assert forall|k: int| j < k < q.len() implies (#[trigger] q[k]).0 != q[j].0 by {
            assert(q[k] == ps[k]);
        }
        lemma_insert_overrides_pair(m, q, j);
        assert(ps.last() == ps[ps.len() - 1]);
    }
}

/// A rule that no well-formed pair names keeps its override, or its lack of one.
proof fn lemma_insert_overrides_other(m: Map<Seq<char>, Severity>, ps: Seq<(Seq<char>, Seq<char>)>, r: Seq<char>)
    requires
        forall|k: int| 0 <= k < ps.len() && (#[trigger] ps[k]).0 == r
            ==> !(is_rule_id(ps[k].0) && spec_parse_severity(ps[k].1) is Some),
    ensures
        insert_overrides(m, ps).contains_key(r) == m.contains_key(r),
        m.contains_key(r) ==> insert_overrides(m, ps)[r] == m[r],
    decreases ps.len(),
{
    if ps.len() > 0 {
        let q = ps.drop_last();
        assert forall|k: int| 0 <= k < q.len() && (#[trigger] q[k]).0 == r
            implies !(is_rule_id(q[k].0) && spec_parse_severity(q[k].1) is Some) by {
            assert(q[k] == ps[k]);
        }
        lemma_insert_overrides_other(m, q, r);
        assert(ps.last() == ps[ps.len() - 1]);
    }
}

/// The severity overrides of a configuration file take effect: every pair of
/// its `[severity]` section that names a well-formed rule and a severity, and
/// that no later pair for the same rule follows, maps that rule to the named
/// severity in the resolved settings; a rule that no well-formed pair names
/// (malformed identifiers and unknown severities are skipped) keeps the
/// override it had before the file.
pub proof fn lemma_file_severity_overrides(cf: ConfigFile, rc: RunConfigView, j: int, other: Seq<char>)
    requires
        cf.severity is Some,
        0 <= j < opt_pairs(cf.severity->0.overrides).len(),
        is_rule_id(opt_pairs(cf.severity->0.overrides)[j].0),
        spec_parse_severity(opt_pairs(cf.severity->0.overrides)[j].1) is Some,
        forall|k: int| j < k < opt_pairs(cf.severity->0.overrides).len()
            ==> (#[trigger] opt_pairs(cf.severity->0.overrides)[k]).0 != opt_pairs(cf.severity->0.overrides)[j].0,
    ensures
        apply_file(cf, rc).severity_overrides.contains_key(opt_pairs(cf.severity->0.overrides)[j].0),
        apply_file(cf, rc).severity_overrides[opt_pairs(cf.severity->0.overrides)[j].0]
            == spec_parse_severity(opt_pairs(cf.severity->0.overrides)[j].1)->0,
        (forall|k: int| 0 <= k < opt_pairs(cf.severity->0.overrides).len()
            && (#[trigger] opt_pairs(cf.severity->0.overrides)[k]).0 == other
            ==> !(is_rule_id(opt_pairs(cf.severity->0.overrides)[k].0)
                && spec_parse_severity(opt_pairs(cf.severity->0.overrides)[k].1) is Some))
            ==> (apply_file(cf, rc).severity_overrides.contains_key(other) == rc.severity_overrides.contains_key(other)
                && (rc.severity_overrides.contains_key(other)
                    ==> apply_file(cf, rc).severity_overrides[other] == rc.severity_overrides[other])),
{
    let ps = opt_pairs(cf.severity->0.overrides);
    let m = apply_file(ConfigFile { severity: None, output: None, performance: None, ignore: None, experimental: None, ..cf }, rc).severity_overrides;
    assert(m == rc.severity_overrides);
    lemma_insert_overrides_pair(m, ps, j);
    if forall|k: int| 0 <= k < ps.len() && (#[trigger] ps[k]).0 == other
        ==> !(is_rule_id(ps[k].0) && spec_parse_severity(ps[k].1) is Some) {
        lemma_insert_overrides_other(m, ps, other);
    }
}

/// A `[scan]` section whose `fail_on` names no severity never validates; when
/// the thread count and the exclude patterns are fine, the error names the
/// bad value.
pub proof fn lemma_unknown_fail_on_rejected(s: ScanSection, path: Seq<char>)
    requires
        s.fail_on is Some,
        spec_parse_severity(s.fail_on->0@) is None,
    ensures
        scan_outcome(s, path) is Some,
        s.threads != Some(0usize) && glob_list_outcome(opt_strings(s.exclude), path) is None
            ==> scan_outcome(s, path) == Some(ConfigErrorView::InvalidSeverity { value: s.fail_on->0@, path, line: 0 }),
{
}

/// A configuration file that validates has a `fail_on` that names a severity,
/// and resolution takes that severity: a valid file never has its `fail_on`
/// silently dropped.
pub proof fn lemma_validated_fail_on_applies(cf: ConfigFile, path: Seq<char>, rc: RunConfigView)
    requires
        file_outcome(cf, path) is None,
        cf.scan is Some,
        cf.scan->0.fail_on is Some,
    ensures
        spec_parse_severity(cf.scan->0.fail_on->0@) is Some,
        apply_file(cf, rc).fail_on == spec_parse_severity(cf.scan->0.fail_on->0@)->0,
{
}

/// A `[scan]` section with zero threads never validates, and a file that
/// validates has a thread count other than zero, exclude patterns that the glob
/// library accepts, and a `fail_on` that names a severity.
pub proof fn lemma_validated_scan_section(cf: ConfigFile, path: Seq<char>)
    ensures
        cf.scan is Some && cf.scan->0.threads == Some(0usize)
            ==> file_outcome(cf, path) == Some(ConfigErrorView::NegativeThreads { value: 0, path, line: 0 }),
        file_outcome(cf, path) is None && cf.scan is Some ==> {
            &&& cf.scan->0.threads != Some(0usize)
            &&& glob_list_outcome(opt_strings(cf.scan->0.exclude), path) is None
            &&& (cf.scan->0.fail_on is Some ==> spec_parse_severity(cf.scan->0.fail_on->0@) is Some)
        },
{
}

} // verus!
