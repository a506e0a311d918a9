//! Data model of configuration files, command-line overrides and resolved settings.
use vstd::prelude::*;
use vstd::string::StringExecFns;
use crate::analysis::category::Category;
use crate::analysis::rule_config::overrides_map;
use crate::analysis::rule_id::RuleId;
use crate::analysis::severity::Severity;

verus! {

/// The views of a sequence of strings.
pub open spec fn strings_view(v: Seq<String>) -> Seq<Seq<char>> {
    Seq::new(v.len(), |i: int| v[i]@)
}

/// The views of a sequence of rule identifiers.
pub open spec fn rule_ids_view(v: Seq<RuleId>) -> Seq<Seq<char>> {
    Seq::new(v.len(), |i: int| v[i]@)
}

/// The `[scan]` section.
#[derive(Debug, Clone)]
pub struct ScanSection {
    pub threads: Option<usize>,
    pub exclude: Option<Vec<String>>,
    pub fail_on: Option<String>,
}

/// The `[rules]` section.
#[derive(Debug, Clone)]
pub struct RulesSection {
    pub enable: Option<Vec<String>>,
    pub disable: Option<Vec<String>>,
}

/// The `[severity]` section; `overrides` holds the pairs of its table in table order.
#[derive(Debug, Clone)]
pub struct SeveritySection {
    pub minimum: Option<String>,
    pub overrides: Option<Vec<(String, String)>>,
}

/// The `[output]` section.
#[derive(Debug, Clone)]
pub struct OutputSection {
    pub format: Option<String>,
    pub color: Option<String>,
    pub quiet: Option<bool>,
    pub verbose: Option<bool>,
    pub show_score: Option<bool>,
    pub show_timings: Option<bool>,
}

/// The `[performance]` section.
#[derive(Debug, Clone)]
pub struct PerformanceSection {
    pub parallel: Option<bool>,
}

/// The `[ignore]` section.
#[derive(Debug, Clone)]
pub struct IgnoreSection {
    pub paths: Option<Vec<String>>,
}

/// A decoded configuration file; `experimental` keeps the TOML text of the
/// `[experimental]` section, which nothing interprets.
#[derive(Debug, Clone)]
pub struct ConfigFile {
    pub scan: Option<ScanSection>,
    pub rules: Option<RulesSection>,
    pub severity: Option<SeveritySection>,
    pub output: Option<OutputSection>,
    pub performance: Option<PerformanceSection>,
    pub ignore: Option<IgnoreSection>,
    pub experimental: Option<String>,
}

/// Settings given on the command line; `None` means not given.
#[derive(Debug, Clone)]
pub struct CliOverrides {
    pub path: Option<String>,
    pub json: Option<bool>,
    pub compact: Option<bool>,
    pub quiet: Option<bool>,
    pub verbose: Option<bool>,
    pub color: Option<String>,
    pub fail_on: Option<String>,
    pub severity: Option<String>,
    pub category: Option<String>,
    pub rule: Option<Vec<String>>,
    pub exclude: Option<Vec<String>>,
    pub timings: Option<bool>,
    pub score: Option<bool>,
    pub threads: Option<usize>,
    pub config_path: Option<String>,
}

impl Default for CliOverrides {
    fn default() -> (r: CliOverrides)
        ensures
            r.path is None && r.json is None && r.compact is None && r.quiet is None,
            r.verbose is None && r.color is None && r.fail_on is None && r.severity is None,
            r.category is None && r.rule is None && r.exclude is None && r.timings is None,
            r.score is None && r.threads is None && r.config_path is None,
    {
        CliOverrides {
            path: None,
            json: None,
            compact: None,
            quiet: None,
            verbose: None,
            color: None,
            fail_on: None,
            severity: None,
            category: None,
            rule: None,
            exclude: None,
            timings: None,
            score: None,
            threads: None,
            config_path: None,
        }
    }
}

/// Where the settings of a run came from.
#[derive(Debug, Clone)]
pub enum ConfigSource {
    Discovered(String),
    Explicit(String),
    Defaults,
}

/// The spec value of a `ConfigSource`.
pub enum ConfigSourceView {
    Discovered(Seq<char>),
    Explicit(Seq<char>),
    Defaults,
}

impl View for ConfigSource {
    type V = ConfigSourceView;

    open spec fn view(&self) -> ConfigSourceView {
        match self {
            ConfigSource::Discovered(p) => ConfigSourceView::Discovered(p@),
            ConfigSource::Explicit(p) => ConfigSourceView::Explicit(p@),
            ConfigSource::Defaults => ConfigSourceView::Defaults,
        }
    }
}

#[derive(Debug, Clone, Copy, PartialEq, Eq, Structural)]
pub enum OutputFormat {
    Pretty,
    Compact,
    Json,
}

#[derive(Debug, Clone, Copy, PartialEq, Eq, Structural)]
pub enum OutputColor {
    Auto,
    Always,
    Never,
}

#[derive(Debug, Clone, Copy, PartialEq, Eq, Structural)]
pub enum CategoryFilter {
    Any,
    Specific(Category),
}

/// The resolved settings of a run.
#[derive(Debug, Clone)]
pub struct RunConfig {
    pub path: String,
    pub threads: usize,
    pub exclude: Vec<String>,
    pub fail_on: Severity,
    pub enabled_rules: Vec<RuleId>,
    pub disabled_rules: Vec<RuleId>,
    pub severity_threshold: Severity,
    /// Severity overrides by rule; the last pair for an identifier wins.
    pub severity_overrides: Vec<(RuleId, Severity)>,
    pub format: OutputFormat,
    pub color: OutputColor,
    pub quiet: bool,
    pub verbose: bool,
    pub show_score: bool,
    pub show_timings: bool,
    pub parallel: bool,
    pub ignore_paths: Vec<String>,
    pub category_filter: Option<Category>,
    pub config_source: Option<ConfigSource>,
    pub project_name: Option<String>,
}

/// The spec value of a `RunConfig`: strings as character sequences, and the
/// severity overrides as a map.
pub struct RunConfigView {
    pub path: Seq<char>,
    pub threads: usize,
    pub exclude: Seq<Seq<char>>,
    pub fail_on: Severity,
    pub enabled_rules: Seq<Seq<char>>,
    pub disabled_rules: Seq<Seq<char>>,
    pub severity_threshold: Severity,
    pub severity_overrides: Map<Seq<char>, Severity>,
    pub format: OutputFormat,
    pub color: OutputColor,
    pub quiet: bool,
    pub verbose: bool,
    pub show_score: bool,
    pub show_timings: bool,
    pub parallel: bool,
    pub ignore_paths: Seq<Seq<char>>,
    pub category_filter: Option<Category>,
    pub config_source: Option<ConfigSourceView>,
    pub project_name: Option<Seq<char>>,
}

impl View for RunConfig {
    type V = RunConfigView;

    open spec fn view(&self) -> RunConfigView {
        RunConfigView {
            path: self.path@,
            threads: self.threads,
            exclude: strings_view(self.exclude@),
            fail_on: self.fail_on,
            enabled_rules: rule_ids_view(self.enabled_rules@),
            disabled_rules: rule_ids_view(self.disabled_rules@),
            severity_threshold: self.severity_threshold,
            severity_overrides: overrides_map(self.severity_overrides@),
            format: self.format,
            color: self.color,
            quiet: self.quiet,
            verbose: self.verbose,
            show_score: self.show_score,
            show_timings: self.show_timings,
            parallel: self.parallel,
            ignore_paths: strings_view(self.ignore_paths@),
            category_filter: self.category_filter,
            config_source: match self.config_source {
                Some(s) => Some(s@),
                None => None,
            },
            project_name: match self.project_name {
                Some(n) => Some(n@),
                None => None,
            },
        }
    }
}

/// The built-in settings.
pub open spec fn default_run_config() -> RunConfigView {
    RunConfigView {
        path: "."@,
        threads: 4,
        exclude: Seq::empty(),
        fail_on: Severity::High,
        enabled_rules: Seq::empty(),
        disabled_rules: Seq::empty(),
        severity_threshold: Severity::Low,
        severity_overrides: Map::empty(),
        format: OutputFormat::Pretty,
        color: OutputColor::Auto,
        quiet: false,
        verbose: false,
        show_score: true,
        show_timings: false,
        parallel: true,
        ignore_paths: Seq::empty(),
        category_filter: None,
        config_source: None,
        project_name: None,
    }
}

impl Default for RunConfig {
    fn default() -> (r: RunConfig)
        ensures
            r@ == default_run_config(),
    {
        let r = RunConfig {
            path: String::from_str("."),
            threads: 4,
            exclude: Vec::new(),
            fail_on: Severity::High,
            enabled_rules: Vec::new(),
            disabled_rules: Vec::new(),
            severity_threshold: Severity::Low,
            severity_overrides: Vec::new(),
            format: OutputFormat::Pretty,
            color: OutputColor::Auto,
            quiet: false,
            verbose: false,
            show_score: true,
            show_timings: false,
            parallel: true,
            ignore_paths: Vec::new(),
            category_filter: None,
            config_source: None,
            project_name: None,
        };
        proof {
            assert(strings_view(r.exclude@) =~= Seq::empty());
            assert(strings_view(r.ignore_paths@) =~= Seq::empty());
            assert(rule_ids_view(r.enabled_rules@) =~= Seq::empty());
            assert(rule_ids_view(r.disabled_rules@) =~= Seq::empty());
        }
        r
    }
}

} // verus!
