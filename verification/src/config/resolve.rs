//! How configuration files and command-line overrides resolve into a `RunConfig`.
use vstd::prelude::*;
use vstd::string::StringExecFns;
use crate::analysis::category::{Category, spec_parse_category};
use crate::analysis::rule_config::{RuleConfig, overrides_map};
use crate::analysis::rule_id::{RuleId, is_rule_id};
use crate::analysis::severity::{Severity, spec_parse_severity};
use crate::config::error::{ConfigError, ConfigErrorView};
use crate::config::model::{
    strings_view, rule_ids_view, default_run_config, CategoryFilter, CliOverrides, ConfigFile,
    ScanSection, RulesSection, SeveritySection, OutputSection, PerformanceSection, IgnoreSection,
    ConfigSource, ConfigSourceView, OutputColor, OutputFormat, RunConfig, RunConfigView,
};
use crate::config::validate::opt_pairs;
use crate::text::str_eq;

verus! {

/// The well-formed rule identifiers among `s`, in order.
pub open spec fn valid_rule_ids(s: Seq<Seq<char>>) -> Seq<Seq<char>>
    decreases s.len(),
{
    if s.len() == 0 {
        Seq::empty()
    } else if is_rule_id(s.last()) {
        valid_rule_ids(s.drop_last()).push(s.last())
    } else {
        valid_rule_ids(s.drop_last())
    }
}

/// `m` with the well-formed pairs of `pairs` inserted in order (rule identifier
/// to parsed severity); other pairs are skipped.
pub open spec fn insert_overrides(
    m: Map<Seq<char>, Severity>,
    pairs: Seq<(Seq<char>, Seq<char>)>,
) -> Map<Seq<char>, Severity>
    decreases pairs.len(),
{
    if pairs.len() == 0 {
        m
    } else {
        let before = insert_overrides(m, pairs.drop_last());
        let p = pairs.last();
        if is_rule_id(p.0) && spec_parse_severity(p.1) is Some {
            before.insert(p.0, spec_parse_severity(p.1)->0)
        } else {
            before
        }
    }
}

/// The output format a file names: json, compact, or pretty for anything else.
pub open spec fn format_from_name(s: Seq<char>) -> OutputFormat {
    if s == "json"@ {
        OutputFormat::Json
    } else if s == "compact"@ {
        OutputFormat::Compact
    } else {
        OutputFormat::Pretty
    }
}

/// The color setting a name gives: always, never, or auto for anything else.
pub open spec fn color_from_name(s: Seq<char>) -> OutputColor {
    if s == "always"@ {
        OutputColor::Always
    } else if s == "never"@ {
        OutputColor::Never
    } else {
        OutputColor::Auto
    }
}

/// A severity setting: the parsed level when `o` names one, else `cur`.
pub open spec fn severity_setting(o: Option<String>, cur: Severity) -> Severity {
    match o {
        Some(s) => match spec_parse_severity(s@) {
            Some(v) => v,
            None => cur,
        },
        None => cur,
    }
}

/// A value that is set when given.
pub open spec fn setting<T>(o: Option<T>, cur: T) -> T {
    match o {
        Some(v) => v,
        None => cur,
    }
}

/// A list of strings that is replaced when given.
pub open spec fn strings_setting(o: Option<Vec<String>>, cur: Seq<Seq<char>>) -> Seq<Seq<char>> {
    match o {
        Some(v) => strings_view(v@),
        None => cur,
    }
}

/// A list of rule identifiers that is replaced, by the well-formed ones of the
/// given strings, when given.
pub open spec fn rules_setting(o: Option<Vec<String>>, cur: Seq<Seq<char>>) -> Seq<Seq<char>> {
    match o {
        Some(v) => valid_rule_ids(strings_view(v@)),
        None => cur,
    }
}

/// The settings after applying a `[scan]` section.
pub open spec fn apply_scan(sc: ScanSection, rc: RunConfigView) -> RunConfigView {
    RunConfigView {
        threads: setting(sc.threads, rc.threads),
        exclude: strings_setting(sc.exclude, rc.exclude),
        fail_on: severity_setting(sc.fail_on, rc.fail_on),
        ..rc
    }
}

/// The settings after applying a `[rules]` section.
pub open spec fn apply_rules(ru: RulesSection, rc: RunConfigView) -> RunConfigView {
    RunConfigView {
        enabled_rules: rules_setting(ru.enable, rc.enabled_rules),
        disabled_rules: rules_setting(ru.disable, rc.disabled_rules),
        ..rc
    }
}

/// The settings after applying a `[severity]` section.
pub open spec fn apply_severity(sv: SeveritySection, rc: RunConfigView) -> RunConfigView {
    RunConfigView {
        severity_threshold: severity_setting(sv.minimum, rc.severity_threshold),
        severity_overrides: insert_overrides(rc.severity_overrides, opt_pairs(sv.overrides)),
        ..rc
    }
}

/// The settings after applying an `[output]` section.
pub open spec fn apply_output(out: OutputSection, rc: RunConfigView) -> RunConfigView {
    RunConfigView {
        format: match out.format {
            Some(f) => format_from_name(f@),
            None => rc.format,
        },
        color: match out.color {
            Some(c) => color_from_name(c@),
            None => rc.color,
        },
        quiet: setting(out.quiet, rc.quiet),
        verbose: setting(out.verbose, rc.verbose),
        show_score: setting(out.show_score, rc.show_score),
        show_timings: setting(out.show_timings, rc.show_timings),
        ..rc
    }
}

/// The settings after applying a `[performance]` section.
pub open spec fn apply_performance(p: PerformanceSection, rc: RunConfigView) -> RunConfigView {
    RunConfigView { parallel: setting(p.parallel, rc.parallel), ..rc }
}

/// The settings after applying an `[ignore]` section.
pub open spec fn apply_ignore(ig: IgnoreSection, rc: RunConfigView) -> RunConfigView {
    RunConfigView { ignore_paths: strings_setting(ig.paths, rc.ignore_paths), ..rc }
}

/// `f` applied to `rc` when a section is present.
pub open spec fn when_present<S>(o: Option<S>, rc: RunConfigView, f: spec_fn(S, RunConfigView) -> RunConfigView) -> RunConfigView {
    match o {
        Some(x) => f(x, rc),
        None => rc,
    }
}

/// The settings after applying the sections of a configuration file to `rc`,
/// in the order scan, rules, severity, output, performance, ignore.
pub open spec fn apply_file(cf: ConfigFile, rc: RunConfigView) -> RunConfigView {
    let rc1 = when_present(cf.scan, rc, |x: ScanSection, r: RunConfigView| apply_scan(x, r));
    let rc2 = when_present(cf.rules, rc1, |x: RulesSection, r: RunConfigView| apply_rules(x, r));
    let rc3 = when_present(cf.severity, rc2, |x: SeveritySection, r: RunConfigView| apply_severity(x, r));
    let rc4 = when_present(cf.output, rc3, |x: OutputSection, r: RunConfigView| apply_output(x, r));
    let rc5 = when_present(cf.performance, rc4, |x: PerformanceSection, r: RunConfigView| apply_performance(x, r));
    when_present(cf.ignore, rc5, |x: IgnoreSection, r: RunConfigView| apply_ignore(x, r))
}

/// The presentation settings after the command-line overrides: path, format
/// (`--compact` wins over `--json`), quiet, verbose and color.
pub open spec fn apply_cli_presentation(cli: CliOverrides, rc: RunConfigView) -> RunConfigView {
    RunConfigView {
        path: match cli.path {
            Some(p) => p@,
            None => rc.path,
        },
        format: if cli.compact == Some(true) {
            OutputFormat::Compact
        } else if cli.json == Some(true) {
            OutputFormat::Json
        } else {
            rc.format
        },
        quiet: setting(cli.quiet, rc.quiet),
        verbose: setting(cli.verbose, rc.verbose),
        color: match cli.color {
            Some(c) => color_from_name(c@),
            None => rc.color,
        },
        ..rc
    }
}

/// Whether a category given on the command line parses (and so clears the rule lists).
pub open spec fn cli_category_clears(cli: CliOverrides) -> bool {
    cli.category is Some && spec_parse_category(cli.category->0@) is Some
}

/// The severity settings after the command-line overrides.
pub open spec fn apply_cli_severities(cli: CliOverrides, rc: RunConfigView) -> RunConfigView {
    RunConfigView {
        fail_on: severity_setting(cli.fail_on, rc.fail_on),
        severity_threshold: severity_setting(cli.severity, rc.severity_threshold),
        ..rc
    }
}

/// The rule selection after the command-line overrides: the category filter (a
/// category that parses clears both rule lists), then the enabled rules.
pub open spec fn apply_cli_rules(cli: CliOverrides, rc: RunConfigView) -> RunConfigView {
    RunConfigView {
        category_filter: match cli.category {
            Some(c) => spec_parse_category(c@),
            None => rc.category_filter,
        },
        disabled_rules: if cli_category_clears(cli) { Seq::empty() } else { rc.disabled_rules },
        enabled_rules: rules_setting(
            cli.rule,
            if cli_category_clears(cli) { Seq::empty() } else { rc.enabled_rules },
        ),
        ..rc
    }
}

/// The selection settings after the command-line overrides.
pub open spec fn apply_cli_selection(cli: CliOverrides, rc: RunConfigView) -> RunConfigView {
    apply_cli_rules(cli, apply_cli_severities(cli, rc))
}

/// The remaining settings after the command-line overrides.
pub open spec fn apply_cli_rest(cli: CliOverrides, rc: RunConfigView) -> RunConfigView {
    RunConfigView {
        exclude: strings_setting(cli.exclude, rc.exclude),
        show_timings: setting(cli.timings, rc.show_timings),
        show_score: setting(cli.score, rc.show_score),
        threads: setting(cli.threads, rc.threads),
        ..rc
    }
}

/// The settings after applying command-line overrides to `rc`.
pub open spec fn apply_overrides(cli: CliOverrides, rc: RunConfigView) -> RunConfigView {
    apply_cli_rest(cli, apply_cli_selection(cli, apply_cli_presentation(cli, rc)))
}

/// The well-formed rule identifiers among `strs`, in order.
pub fn rule_ids_from(strs: &Vec<String>) -> (r: Vec<RuleId>)
    ensures
        rule_ids_view(r@) == valid_rule_ids(strings_view(strs@)),
{
    let ghost sv = strings_view(strs@);
    let mut out: Vec<RuleId> = Vec::new();
    let mut i: usize = 0;
    while i < strs.len()
        invariant
            i <= strs.len(),
            sv == strings_view(strs@),
            rule_ids_view(out@) == valid_rule_ids(sv.take(i as int)),
        decreases strs.len() - i,
    {
        proof {
            assert(sv.take(i + 1).drop_last() =~= sv.take(i as int));
            assert(sv.take(i + 1).last() == strs@[i as int]@);
        }
        match RuleId::new(strs[i].as_str()) {
            Ok(id) => {
                let ghost before = out@;
                out.push(id);
                proof {
                    assert(rule_ids_view(out@) =~= rule_ids_view(before).push(id@));
                }
            },
            Err(_) => {},
        }
        i = i + 1;
    }
    proof {
        assert(sv.take(strs@.len() as int) =~= sv);
    }
    out
}

/// A copy of a list of strings.
pub fn clone_strings(v: &Vec<String>) -> (r: Vec<String>)
    ensures
        r@ == v@,
{
    let r = v.clone();
    proof {
        assert(r@ =~= v@);
    }
    r
}

/// A copy of a list of rule identifiers.
pub fn clone_rule_ids(v: &Vec<RuleId>) -> (r: Vec<RuleId>)
    ensures
        r@ == v@,
{
    let r = v.clone();
    proof {
        assert(r@ =~= v@);
    }
    r
}

/// Inserts the well-formed override pairs, in order.
fn insert_override_pairs(v: &mut Vec<(RuleId, Severity)>, overrides: &Vec<(String, String)>)
    ensures
        overrides_map(final(v)@) == insert_overrides(overrides_map(old(v)@), opt_pairs(Some(*overrides))),
{
    let ghost pairs = opt_pairs(Some(*overrides));
    let ghost m0 = overrides_map(v@);
    let mut i: usize = 0;
    while i < overrides.len()
        invariant
            i <= overrides.len(),
            pairs == opt_pairs(Some(*overrides)),
            overrides_map(v@) == insert_overrides(m0, pairs.take(i as int)),
        decreases overrides.len() - i,
    {
        let (rule, sev_str) = &overrides[i];
        proof {
            assert(pairs.take(i + 1).drop_last() =~= pairs.take(i as int));
            assert(pairs.take(i + 1).last() == (rule@, sev_str@));
        }
        match (RuleId::new(rule.as_str()), Severity::parse(sev_str.as_str())) {
            (Ok(rid), Some(s)) => {
                let ghost before = v@;
                v.push((rid, s));
                proof {
                    assert(v@.drop_last() =~= before);
                }
            },
            _ => {},
        }
        i = i + 1;
    }
    proof {
        assert(pairs.take(overrides@.len() as int) =~= pairs);
    }
}

fn apply_scan_section(sc: &ScanSection, rc: &mut RunConfig)
    ensures
        final(rc)@ == apply_scan(*sc, old(rc)@),
{
    if let Some(threads) = sc.threads {
        rc.threads = threads;
    }
    if let Some(exclude) = &sc.exclude {
        rc.exclude = clone_strings(exclude);
    }
    if let Some(fail_on) = &sc.fail_on {
        if let Some(sev) = Severity::parse(fail_on.as_str()) {
            rc.fail_on = sev;
        }
    }
}

fn apply_rules_section(ru: &RulesSection, rc: &mut RunConfig)
    ensures
        final(rc)@ == apply_rules(*ru, old(rc)@),
{
    if let Some(enable) = &ru.enable {
        rc.enabled_rules = rule_ids_from(enable);
    }
    if let Some(disable) = &ru.disable {
        rc.disabled_rules = rule_ids_from(disable);
    }
}

fn apply_severity_section(sv: &SeveritySection, rc: &mut RunConfig)
    ensures
        final(rc)@ == apply_severity(*sv, old(rc)@),
{
    if let Some(min) = &sv.minimum {
        if let Some(s) = Severity::parse(min.as_str()) {
            rc.severity_threshold = s;
        }
    }
    if let Some(overrides) = &sv.overrides {
        insert_override_pairs(&mut rc.severity_overrides, overrides);
    }
}

#[verifier::rlimit(60)]
fn apply_output_section(out: &OutputSection, rc: &mut RunConfig)
    ensures
        final(rc)@ == apply_output(*out, old(rc)@),
{
    if let Some(format) = &out.format {
        let f = format.as_str();
        rc.format = if str_eq(f, "json") {
            OutputFormat::Json
        } else if str_eq(f, "compact") {
            OutputFormat::Compact
        } else {
            OutputFormat::Pretty
        };
    }
    if let Some(color) = &out.color {
        rc.color = color_setting(color.as_str());
    }
    if let Some(q) = out.quiet {
        rc.quiet = q;
    }
    if let Some(v) = out.verbose {
        rc.verbose = v;
    }
    if let Some(s) = out.show_score {
        rc.show_score = s;
    }
    if let Some(t) = out.show_timings {
        rc.show_timings = t;
    }
}

/// Applies the sections of a configuration file.
fn apply_scan_opt(o: &Option<ScanSection>, rc: &mut RunConfig)
    ensures
        final(rc)@ == when_present(*o, old(rc)@, |x: ScanSection, r: RunConfigView| apply_scan(x, r)),
{
    if let Some(x) = o {
        apply_scan_section(x, rc);
    }
}

fn apply_rules_opt(o: &Option<RulesSection>, rc: &mut RunConfig)
    ensures
        final(rc)@ == when_present(*o, old(rc)@, |x: RulesSection, r: RunConfigView| apply_rules(x, r)),
{
    if let Some(x) = o {
        apply_rules_section(x, rc);
    }
}

fn apply_severity_opt(o: &Option<SeveritySection>, rc: &mut RunConfig)
    ensures
        final(rc)@ == when_present(*o, old(rc)@, |x: SeveritySection, r: RunConfigView| apply_severity(x, r)),
{
    if let Some(x) = o {
        apply_severity_section(x, rc);
    }
}

fn apply_output_opt(o: &Option<OutputSection>, rc: &mut RunConfig)
    ensures
        final(rc)@ == when_present(*o, old(rc)@, |x: OutputSection, r: RunConfigView| apply_output(x, r)),
{
    if let Some(x) = o {
        apply_output_section(x, rc);
    }
}

fn apply_performance_opt(o: &Option<PerformanceSection>, rc: &mut RunConfig)
    ensures
        final(rc)@ == when_present(*o, old(rc)@, |x: PerformanceSection, r: RunConfigView| apply_performance(x, r)),
{
    if let Some(x) = o {
        if let Some(p) = x.parallel {
            rc.parallel = p;
        }
    }
}

fn apply_ignore_opt(o: &Option<IgnoreSection>, rc: &mut RunConfig)
    ensures
        final(rc)@ == when_present(*o, old(rc)@, |x: IgnoreSection, r: RunConfigView| apply_ignore(x, r)),
{
    if let Some(x) = o {
        if let Some(paths) = &x.paths {
            rc.ignore_paths = clone_strings(paths);
        }
    }
}

/// Applies the sections of a configuration file.
pub fn apply_config_file(cf: &ConfigFile, rc: &mut RunConfig)
    ensures
        final(rc)@ == apply_file(*cf, old(rc)@),
{
    apply_scan_opt(&cf.scan, rc);
    apply_rules_opt(&cf.rules, rc);
    apply_severity_opt(&cf.severity, rc);
    apply_output_opt(&cf.output, rc);
    apply_performance_opt(&cf.performance, rc);
    apply_ignore_opt(&cf.ignore, rc);
}

/// The color setting `s` names: always, never, or auto for anything else.
pub fn color_setting(s: &str) -> (r: OutputColor)
    ensures
        r == color_from_name(s@),
{
    if str_eq(s, "always") {
        OutputColor::Always
    } else if str_eq(s, "never") {
        OutputColor::Never
    } else {
        OutputColor::Auto
    }
}


fn apply_cli_presentation_exec(cli: &CliOverrides, rc: &mut RunConfig)
    ensures
        final(rc)@ == apply_cli_presentation(*cli, old(rc)@),
{
    if let Some(path) = &cli.path {
        rc.path = path.clone();
    }
    if let Some(true) = cli.json {
        rc.format = OutputFormat::Json;
    }
    if let Some(true) = cli.compact {
        rc.format = OutputFormat::Compact;
    }
    if let Some(quiet) = cli.quiet {
        rc.quiet = quiet;
    }
    if let Some(verbose) = cli.verbose {
        rc.verbose = verbose;
    }
    if let Some(color) = &cli.color {
        rc.color = color_setting(color.as_str());
    }
}

fn apply_cli_severities_exec(cli: &CliOverrides, rc: &mut RunConfig)
    ensures
        final(rc)@ == apply_cli_severities(*cli, old(rc)@),
{
    if let Some(fail_on) = &cli.fail_on {
        if let Some(sev) = Severity::parse(fail_on.as_str()) {
            rc.fail_on = sev;
        }
    }
    if let Some(sev) = &cli.severity {
        if let Some(s) = Severity::parse(sev.as_str()) {
            rc.severity_threshold = s;
        }
    }
}

fn apply_cli_category_exec(cli: &CliOverrides, rc: &mut RunConfig)
    ensures
        final(rc)@ == (RunConfigView {
            category_filter: match cli.category {
                Some(c) => spec_parse_category(c@),
                None => old(rc)@.category_filter,
            },
            disabled_rules: if cli_category_clears(*cli) { Seq::empty() } else { old(rc)@.disabled_rules },
            enabled_rules: if cli_category_clears(*cli) { Seq::empty() } else { old(rc)@.enabled_rules },
            ..old(rc)@
        }),
{
    if let Some(category) = &cli.category {
        rc.category_filter = Category::parse(category.as_str());
        if rc.category_filter.is_some() {
            rc.disabled_rules = Vec::new();
            rc.enabled_rules = Vec::new();
            proof {
                assert(rule_ids_view(rc.enabled_rules@) =~= Seq::empty());
                assert(rule_ids_view(rc.disabled_rules@) =~= Seq::empty());
            }
        }
    }
}

fn apply_cli_rules_exec(cli: &CliOverrides, rc: &mut RunConfig)
    ensures
        final(rc)@ == apply_cli_rules(*cli, old(rc)@),
{
    apply_cli_category_exec(cli, rc);
    if let Some(rules) = &cli.rule {
        rc.enabled_rules = rule_ids_from(rules);
    }
}

fn apply_cli_rest_exec(cli: &CliOverrides, rc: &mut RunConfig)
    ensures
        final(rc)@ == apply_cli_rest(*cli, old(rc)@),
{
    if let Some(exclude) = &cli.exclude {
        rc.exclude = clone_strings(exclude);
    }
    if let Some(timings) = cli.timings {
        rc.show_timings = timings;
    }
    if let Some(score) = cli.score {
        rc.show_score = score;
    }
    if let Some(threads) = cli.threads {
        rc.threads = threads;
    }
}

/// Applies command-line overrides; they take precedence over every file.
pub fn apply_cli(cli: &CliOverrides, rc: &mut RunConfig)
    ensures
        final(rc)@ == apply_overrides(*cli, old(rc)@),
{
    apply_cli_presentation_exec(cli, rc);
    apply_cli_severities_exec(cli, rc);
    apply_cli_rules_exec(cli, rc);
    apply_cli_rest_exec(cli, rc);
}


/// A configuration file that was read: its path, and what parsing and
/// validating it gave.
pub struct ConfigInput {
    pub path: String,
    pub file: Result<ConfigFile, ConfigError>,
}

/// Where the settings come from: an explicit path from the command line, else
/// the project file, else the user file, else the built-in defaults.
pub open spec fn source_of(cli: CliOverrides, project: Option<ConfigInput>, user: Option<ConfigInput>) -> ConfigSourceView {
    match cli.config_path {
        Some(p) => ConfigSourceView::Explicit(p@),
        None => match project {
            Some(pr) => ConfigSourceView::Discovered(pr.path@),
            None => match user {
                Some(u) => ConfigSourceView::Discovered(u.path@),
                None => ConfigSourceView::Defaults,
            },
        },
    }
}

/// The settings after applying an optional file (that was read without error).
pub open spec fn apply_input(i: Option<ConfigInput>, rc: RunConfigView) -> RunConfigView {
    match i {
        Some(inp) => match inp.file {
            Ok(cf) => apply_file(cf, rc),
            Err(_) => rc,
        },
        None => rc,
    }
}

/// The error of an optional file, if it could not be read.
pub open spec fn input_error(i: Option<ConfigInput>) -> Option<ConfigErrorView> {
    match i {
        Some(inp) => match inp.file {
            Err(e) => Some(e@),
            Ok(_) => None,
        },
        None => None,
    }
}

/// The resolved settings: the user file's error, else the project file's error;
/// otherwise the defaults, then the user file, then the project file, then the
/// command line, each overriding what came before.
pub open spec fn resolved(cli: CliOverrides, project: Option<ConfigInput>, user: Option<ConfigInput>) -> Result<RunConfigView, ConfigErrorView> {
    if input_error(user) is Some {
        Err(input_error(user)->0)
    } else if input_error(project) is Some {
        Err(input_error(project)->0)
    } else {
        let rc = apply_overrides(cli, apply_input(project, apply_input(user, default_run_config())));
        Ok(RunConfigView { config_source: Some(source_of(cli, project, user)), ..rc })
    }
}

fn apply_input_exec(i: &Option<ConfigInput>, rc: &mut RunConfig) -> (r: Result<(), ConfigError>)
    ensures
        match r {
            Ok(_) => input_error(*i) is None && final(rc)@ == apply_input(*i, old(rc)@),
            Err(e) => input_error(*i) == Some(e@),
        },
{
    if let Some(inp) = i {
        match &inp.file {
            Err(e) => {
                return Err(e.clone_error());
            },
            Ok(cf) => {
                apply_config_file(cf, rc);
            },
        }
    }
    Ok(())
}

/// Resolves the settings of a run from the optional user and project files
/// and the command-line overrides.
pub fn build_run_config(
    cli: &CliOverrides,
    project: Option<ConfigInput>,
    user: Option<ConfigInput>,
) -> (r: Result<RunConfig, ConfigError>)
    ensures
        match r {
            Ok(rc) => resolved(*cli, project, user) == Ok::<RunConfigView, ConfigErrorView>(rc@),
            Err(e) => resolved(*cli, project, user) == Err::<RunConfigView, ConfigErrorView>(e@),
        },
{
    let mut rc = RunConfig::default();
    let ru = apply_input_exec(&user, &mut rc);
    if let Err(e) = ru {
        return Err(e);
    }
    let rp = apply_input_exec(&project, &mut rc);
    if let Err(e) = rp {
        return Err(e);
    }
    apply_cli(cli, &mut rc);
    let source = match &cli.config_path {
        Some(p) => ConfigSource::Explicit(p.clone()),
        None => match &project {
            Some(pr) => ConfigSource::Discovered(pr.path.clone()),
            None => match &user {
                Some(u) => ConfigSource::Discovered(u.path.clone()),
                None => ConfigSource::Defaults,
            },
        },
    };
    rc.config_source = Some(source);
    Ok(rc)
}

/// A copy of a list of severity overrides.
fn clone_overrides(v: &Vec<(RuleId, Severity)>) -> (r: Vec<(RuleId, Severity)>)
    ensures
        r@ == v@,
{
    let mut r: Vec<(RuleId, Severity)> = Vec::new();
    let mut i: usize = 0;
    while i < v.len()
        invariant
            i <= v.len(),
            r@ == v@.take(i as int),
        decreases v.len() - i,
    {
        let (id, s) = &v[i];
        r.push((id.clone(), *s));
        proof {
            assert(v@.take(i + 1) =~= v@.take(i as int).push(v@[i as int]));
        }
        i = i + 1;
    }
    proof {
        assert(v@.take(v@.len() as int) =~= v@);
    }
    r
}

impl RunConfig {
    /// The part of the settings that selects and weighs rules.
    pub fn to_rule_config(&self) -> (r: RuleConfig)
        ensures
            r.severity_threshold == self.severity_threshold,
            r.enabled@ == self.enabled_rules@,
            r.disabled@ == self.disabled_rules@,
            r.severity_overrides@ == self.severity_overrides@,
            r.ignore_paths@ == self.ignore_paths@,
    {
        RuleConfig {
            severity_threshold: self.severity_threshold,
            enabled: clone_rule_ids(&self.enabled_rules),
            disabled: clone_rule_ids(&self.disabled_rules),
            severity_overrides: clone_overrides(&self.severity_overrides),
            ignore_paths: clone_strings(&self.ignore_paths),
        }
    }

    /// The category filter of the run; it is always `Any` (the category given
    /// on the command line is kept in the `category_filter` field instead).
    pub fn category_filter(&self) -> (r: CategoryFilter)
        ensures
            r == CategoryFilter::Any,
    {
        CategoryFilter::Any
    }
}

} // verus!
