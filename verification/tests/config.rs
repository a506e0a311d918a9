use astinel_backend::analysis::rule_id::RuleId;
use astinel_backend::analysis::severity::Severity;
use astinel_backend::config::discover::{
    canonicalize, discovery_candidates, explicit_config, first_existing, is_user_config_path, join_path,
    load_config, user_config_candidates,
};
use astinel_backend::config::error::ConfigError;
use astinel_backend::config::model::{
    CategoryFilter, CliOverrides, ConfigFile, ConfigSource, IgnoreSection, OutputColor, OutputFormat, OutputSection,
    PerformanceSection, RulesSection, RunConfig, ScanSection, SeveritySection,
};
use astinel_backend::config::resolve::{build_run_config, ConfigInput};
use astinel_backend::config::validate::{byte_offset_to_line_col, is_valid_rule_id, parse_config_toml, validate_glob};

fn empty_file() -> ConfigFile {
    ConfigFile { scan: None, rules: None, severity: None, output: None, performance: None, ignore: None, experimental: None }
}

fn strings(v: &[&str]) -> Vec<String> {
    v.iter().map(|s| s.to_string()).collect()
}

#[test]
fn test_parse_valid_toml() {
    let toml = r#"
[scan]
threads = 8
exclude = ["target/**"]
fail_on = "high"

[rules]
enable = ["rule-one", "rule-two"]
disable = ["rule-three"]

[severity]
minimum = "medium"
overrides = { "some-rule" = "critical" }

[output]
format = "pretty"
color = "auto"
quiet = false
verbose = false
show_score = true
show_timings = false

[performance]
parallel = true

[ignore]
paths = ["examples/**"]

[experimental]
future-option = true
"#;
    let decoded = ConfigFile {
        scan: Some(ScanSection { threads: Some(8), exclude: Some(strings(&["target/**"])), fail_on: Some("high".to_string()) }),
        rules: Some(RulesSection {
            enable: Some(strings(&["rule-one", "rule-two"])),
            disable: Some(strings(&["rule-three"])),
        }),
        severity: Some(SeveritySection {
            minimum: Some("medium".to_string()),
            overrides: Some(vec![("some-rule".to_string(), "critical".to_string())]),
        }),
        output: Some(OutputSection {
            format: Some("pretty".to_string()),
            color: Some("auto".to_string()),
            quiet: Some(false),
            verbose: Some(false),
            show_score: Some(true),
            show_timings: Some(false),
        }),
        performance: Some(PerformanceSection { parallel: Some(true) }),
        ignore: Some(IgnoreSection { paths: Some(strings(&["examples/**"])) }),
        experimental: Some("future-option = true".to_string()),
    };
    let cf = parse_config_toml(toml, "test.toml", Ok(decoded)).unwrap();
    assert!(cf.scan.is_some());
    assert!(cf.rules.is_some());
    assert!(cf.severity.is_some());
    assert!(cf.output.is_some());
    assert!(cf.performance.is_some());
    assert!(cf.ignore.is_some());
    assert!(cf.experimental.is_some());
}

#[test]
fn test_parse_empty_toml() {
    let cf = parse_config_toml("", "test.toml", Ok(empty_file())).unwrap();
    assert!(cf.scan.is_none());
    assert!(cf.rules.is_none());
}

#[test]
fn test_parse_unknown_section() {
    let err = parse_config_toml("[bogus]\nfoo = 1", "test.toml", Ok(empty_file())).unwrap_err();
    assert!(matches!(err, ConfigError::UnknownSection { .. }));
}

#[test]
fn test_parse_invalid_toml_syntax() {
    let err = parse_config_toml("[[broken", "test.toml", Ok(empty_file())).unwrap_err();
    assert!(matches!(err, ConfigError::InvalidTomlSyntax { .. }));
}

#[test]
fn test_parse_unknown_key_in_section() {
    let err = parse_config_toml(
        "[scan]\nunknown_key = 42",
        "test.toml",
        Err("unknown field `unknown_key`".to_string()),
    )
    .unwrap_err();
    assert!(matches!(err, ConfigError::InvalidToml { .. }));
}

#[test]
fn test_validate_glob_invalid() {
    let toml = "\n[scan]\nexclude = [\"[invalid\"]\n";
    let decoded = ConfigFile {
        scan: Some(ScanSection { threads: None, exclude: Some(strings(&["[invalid"])), fail_on: None }),
        ..empty_file()
    };
    let err = parse_config_toml(toml, "test.toml", Ok(decoded)).unwrap_err();
    assert!(matches!(err, ConfigError::InvalidGlob { .. }));
}

#[test]
fn test_validate_severity_invalid() {
    let toml = "\n[severity]\nminimum = \"super\"\n";
    let decoded = ConfigFile {
        severity: Some(SeveritySection { minimum: Some("super".to_string()), overrides: None }),
        ..empty_file()
    };
    let err = parse_config_toml(toml, "test.toml", Ok(decoded)).unwrap_err();
    assert!(matches!(err, ConfigError::InvalidSeverity { .. }));
}

fn output_only(format: Option<&str>, color: Option<&str>) -> ConfigFile {
    ConfigFile {
        output: Some(OutputSection {
            format: format.map(|s| s.to_string()),
            color: color.map(|s| s.to_string()),
            quiet: None,
            verbose: None,
            show_score: None,
            show_timings: None,
        }),
        ..empty_file()
    }
}

#[test]
fn test_validate_output_format_invalid() {
    let toml = "\n[output]\nformat = \"html\"\n";
    let err = parse_config_toml(toml, "test.toml", Ok(output_only(Some("html"), None))).unwrap_err();
    assert!(matches!(err, ConfigError::InvalidOutputFormat { .. }));
}

#[test]
fn test_validate_color_invalid() {
    let toml = "\n[output]\ncolor = \"neon\"\n";
    let err = parse_config_toml(toml, "test.toml", Ok(output_only(None, Some("neon")))).unwrap_err();
    assert!(matches!(err, ConfigError::InvalidColor { .. }));
}

#[test]
fn test_duplicate_rule_across_lists() {
    let toml = "\n[rules]\nenable = [\"dup-rule\"]\ndisable = [\"dup-rule\"]\n";
    let decoded = ConfigFile {
        rules: Some(RulesSection { enable: Some(strings(&["dup-rule"])), disable: Some(strings(&["dup-rule"])) }),
        ..empty_file()
    };
    let err = parse_config_toml(toml, "test.toml", Ok(decoded)).unwrap_err();
    assert!(matches!(err, ConfigError::DuplicateRule { .. }));
}

#[test]
fn test_invalid_rule_id() {
    let toml = "\n[rules]\nenable = [\"Invalid_Rule!\"]\n";
    let decoded = ConfigFile {
        rules: Some(RulesSection { enable: Some(strings(&["Invalid_Rule!"])), disable: None }),
        ..empty_file()
    };
    let err = parse_config_toml(toml, "test.toml", Ok(decoded)).unwrap_err();
    assert!(matches!(err, ConfigError::InvalidRuleId { .. }));
}

#[test]
fn test_negative_threads() {
    let toml = "\n[scan]\nthreads = 0\n";
    let decoded = ConfigFile { scan: Some(ScanSection { threads: Some(0), exclude: None, fail_on: None }), ..empty_file() };
    let err = parse_config_toml(toml, "test.toml", Ok(decoded)).unwrap_err();
    assert!(matches!(err, ConfigError::NegativeThreads { .. }));
}

#[test]
fn test_run_config_defaults() {
    let rc = RunConfig::default();
    assert_eq!(rc.threads, 4);
    assert_eq!(rc.path, ".");
    assert_eq!(rc.format, OutputFormat::Pretty);
    assert_eq!(rc.color, OutputColor::Auto);
    assert_eq!(rc.severity_threshold, Severity::Low);
    assert_eq!(rc.fail_on, Severity::High);
    assert!(rc.parallel);
    assert!(rc.show_score);
    assert!(!rc.show_timings);
    assert!(!rc.quiet);
    assert!(!rc.verbose);
    assert!(rc.enabled_rules.is_empty());
    assert!(rc.disabled_rules.is_empty());
    assert!(rc.severity_overrides.is_empty());
    assert!(rc.ignore_paths.is_empty());
    assert!(rc.exclude.is_empty());
}

#[test]
fn test_build_run_config_defaults_only() {
    let cli = CliOverrides::default();
    let rc = build_run_config(&cli, None, None).unwrap();
    assert_eq!(rc.threads, 4);
    assert_eq!(rc.format, OutputFormat::Pretty);
    assert!(matches!(rc.config_source, Some(ConfigSource::Defaults)));
}

#[test]
fn test_build_run_config_cli_overrides() {
    let cli = CliOverrides {
        path: Some("/my/project".to_string()),
        threads: Some(16),
        json: Some(true),
        color: Some("never".to_string()),
        quiet: Some(true),
        fail_on: Some("medium".to_string()),
        severity: Some("high".to_string()),
        exclude: Some(vec!["build/**".to_string()]),
        timings: Some(true),
        score: Some(false),
        ..Default::default()
    };
    let rc = build_run_config(&cli, None, None).unwrap();
    assert_eq!(rc.path, "/my/project");
    assert_eq!(rc.threads, 16);
    assert_eq!(rc.format, OutputFormat::Json);
    assert_eq!(rc.color, OutputColor::Never);
    assert!(rc.quiet);
    assert_eq!(rc.fail_on, Severity::Medium);
    assert_eq!(rc.severity_threshold, Severity::High);
    assert_eq!(rc.exclude, vec!["build/**"]);
    assert!(rc.show_timings);
    assert!(!rc.show_score);
}

fn project_input(path: &str, cf: ConfigFile) -> ConfigInput {
    ConfigInput { path: path.to_string(), file: Ok(cf) }
}

#[test]
fn test_build_run_config_with_project_toml() {
    let cf = ConfigFile {
        scan: Some(ScanSection { threads: Some(2), exclude: None, fail_on: None }),
        severity: Some(SeveritySection { minimum: Some("high".to_string()), overrides: None }),
        ..output_only(Some("compact"), None)
    };
    let cli = CliOverrides { threads: Some(8), ..Default::default() };
    let rc = build_run_config(&cli, Some(project_input("/p/sentinel.toml", cf)), None).unwrap();
    assert_eq!(rc.threads, 8);
    assert_eq!(rc.format, OutputFormat::Compact);
    assert_eq!(rc.severity_threshold, Severity::High);
}

#[test]
fn test_to_rule_config() {
    let rc = RunConfig {
        severity_threshold: Severity::Medium,
        enabled_rules: vec![RuleId::new("rule-a").unwrap()],
        disabled_rules: vec![RuleId::new("rule-b").unwrap()],
        ignore_paths: vec!["test/**".to_string()],
        ..Default::default()
    };
    let rcfg = rc.to_rule_config();
    assert_eq!(rcfg.severity_threshold, Severity::Medium);
    assert_eq!(rcfg.enabled, vec![RuleId::new("rule-a").unwrap()]);
    assert_eq!(rcfg.disabled, vec![RuleId::new("rule-b").unwrap()]);
    assert_eq!(rcfg.ignore_paths, vec!["test/**"]);
}

#[test]
fn test_is_valid_rule_id_valid() {
    assert!(is_valid_rule_id("simple-rule"));
    assert!(is_valid_rule_id("rule123"));
    assert!(is_valid_rule_id("a"));
}

#[test]
fn test_is_valid_rule_id_invalid() {
    assert!(!is_valid_rule_id(""));
    assert!(!is_valid_rule_id("UPPERCASE"));
    assert!(!is_valid_rule_id("has space"));
    assert!(!is_valid_rule_id("special!"));
}

#[test]
fn test_parse_config_with_experimental() {
    let toml = "\n[experimental]\nfeature_x = true\nfeature_y = \"test\"\n";
    let decoded = ConfigFile { experimental: Some("feature_x = true\nfeature_y = \"test\"".to_string()), ..empty_file() };
    let cf = parse_config_toml(toml, "test.toml", Ok(decoded)).unwrap();
    assert!(cf.experimental.is_some());
    assert!(cf.scan.is_none());
}

#[test]
fn test_build_run_config_explicit_source() {
    let cli = CliOverrides { config_path: Some("/some/path.toml".to_string()), ..Default::default() };
    let rc = build_run_config(&cli, None, None).unwrap();
    assert!(matches!(rc.config_source, Some(ConfigSource::Explicit(_))));
}

#[test]
fn test_severity_override_invalid_value() {
    let toml = "\n[severity]\noverrides = { \"my-rule\" = \"bogus\" }\n";
    let decoded = ConfigFile {
        severity: Some(SeveritySection { minimum: None, overrides: Some(vec![("my-rule".to_string(), "bogus".to_string())]) }),
        ..empty_file()
    };
    let err = parse_config_toml(toml, "test.toml", Ok(decoded)).unwrap_err();
    assert!(matches!(err, ConfigError::InvalidSeverity { .. }));
}

#[test]
fn test_severity_override_invalid_rule_id() {
    let toml = "\n[severity]\noverrides = { \"Invalid!\" = \"high\" }\n";
    let decoded = ConfigFile {
        severity: Some(SeveritySection { minimum: None, overrides: Some(vec![("Invalid!".to_string(), "high".to_string())]) }),
        ..empty_file()
    };
    let err = parse_config_toml(toml, "test.toml", Ok(decoded)).unwrap_err();
    assert!(matches!(err, ConfigError::InvalidRuleId { .. }));
}

#[test]
fn test_build_run_config_cli_category() {
    let cli = CliOverrides { category: Some("security".to_string()), ..Default::default() };
    let rc = build_run_config(&cli, None, None).unwrap();
    assert!(rc.enabled_rules.is_empty());
    assert!(rc.disabled_rules.is_empty());
    assert!(matches!(rc.category_filter(), CategoryFilter::Any));
}

#[test]
fn test_build_run_config_cli_rule() {
    let cli = CliOverrides { rule: Some(vec!["my-rule".to_string()]), ..Default::default() };
    let rc = build_run_config(&cli, None, None).unwrap();
    assert_eq!(rc.enabled_rules.len(), 1);
    assert_eq!(rc.enabled_rules[0].as_str(), "my-rule");
}

#[test]
fn test_build_run_config_project_then_cli_severity() {
    let cf = ConfigFile {
        severity: Some(SeveritySection { minimum: Some("low".to_string()), overrides: None }),
        ..empty_file()
    };
    let cli = CliOverrides { severity: Some("critical".to_string()), ..Default::default() };
    let rc = build_run_config(&cli, Some(project_input("/p/sentinel.toml", cf)), None).unwrap();
    assert_eq!(rc.severity_threshold, Severity::Critical);
}

#[test]
fn test_parse_toml_skip_unknown_section() {
    let toml = "\n[unknown]\nkey = \"value\"\n";
    let err = parse_config_toml(toml, "test.toml", Ok(empty_file())).unwrap_err();
    assert!(matches!(err, ConfigError::UnknownSection { .. }));
}

#[test]
fn test_discover_config_explicit() {
    let result = explicit_config("/tmp/x/mysentinel.toml", true, Ok("/tmp/x/mysentinel.toml".to_string())).unwrap();
    assert!(result.is_some());
}

#[test]
fn test_discover_config_explicit_not_found() {
    let err = explicit_config("/tmp/x/nope.toml", false, Err("missing".to_string())).unwrap_err();
    assert!(matches!(err, ConfigError::ConfigurationNotFound(_)));
}

#[test]
fn test_discover_config_none_found() {
    let candidates = discovery_candidates(&vec!["/tmp/x".to_string(), "/tmp".to_string(), "/".to_string()]);
    let found = vec![false; candidates.len()];
    assert!(first_existing(&candidates, &found).is_none());
}

#[test]
fn test_discover_config_sentinel_toml_in_cwd() {
    let candidates = discovery_candidates(&vec!["/tmp/x".to_string(), "/tmp".to_string()]);
    let found: Vec<bool> = candidates.iter().map(|c| c == "/tmp/x/sentinel.toml").collect();
    let result = first_existing(&candidates, &found);
    assert!(result.is_some());
    assert!(result.unwrap().ends_with("sentinel.toml"));
}

#[test]
fn test_discover_config_dot_sentinel_toml() {
    let candidates = discovery_candidates(&vec!["/tmp/x".to_string()]);
    let found: Vec<bool> = candidates.iter().map(|c| c == "/tmp/x/.sentinel.toml").collect();
    let result = first_existing(&candidates, &found).unwrap();
    assert!(result.ends_with(".sentinel.toml"));
}

#[test]
fn discovery_order_is_nearest_first() {
    let candidates = discovery_candidates(&vec!["/a/b".to_string(), "/".to_string()]);
    assert_eq!(
        candidates,
        vec![
            "/a/b/sentinel.toml",
            "/a/b/.sentinel.toml",
            "/a/b/.config/sentinel.toml",
            "/sentinel.toml",
            "/.sentinel.toml",
            "/.config/sentinel.toml",
        ]
    );
    let found = vec![false, false, true, true, false, false];
    assert_eq!(first_existing(&candidates, &found).unwrap(), "/a/b/.config/sentinel.toml");
}

#[test]
fn user_candidates_follow_xdg_then_home() {
    assert_eq!(
        user_config_candidates(Some("/x"), Some("/home/u/")),
        vec!["/x/sentinel.toml", "/home/u/.config/sentinel/sentinel.toml"]
    );
    assert!(user_config_candidates(None, None).is_empty());
    assert_eq!(join_path("", "a"), "a");
}

#[test]
fn load_config_treats_user_file_as_user() {
    let cf = ConfigFile { scan: Some(ScanSection { threads: Some(3), exclude: None, fail_on: None }), ..empty_file() };
    let user = "/home/u/.config/sentinel/sentinel.toml";
    let rc = load_config(
        &CliOverrides::default(),
        Ok(Some(project_input(user, cf.clone()))),
        Some(project_input(user, cf)),
    )
    .unwrap();
    assert_eq!(rc.threads, 3);
    assert!(matches!(rc.config_source, Some(ConfigSource::Discovered(ref p)) if p == user));
    assert!(is_user_config_path(user, Some(user)));
    assert!(!is_user_config_path("/p/sentinel.toml", Some(user)));
}

#[test]
fn load_config_merges_user_and_project_files() {
    let user_file = ConfigFile { scan: Some(ScanSection { threads: Some(2), exclude: None, fail_on: None }), ..empty_file() };
    let user = "/home/u/.config/sentinel/sentinel.toml";
    let rc = load_config(
        &CliOverrides::default(),
        Ok(Some(project_input("/p/sentinel.toml", empty_file()))),
        Some(project_input(user, user_file.clone())),
    )
    .unwrap();
    assert_eq!(rc.threads, 2);
    assert!(matches!(rc.config_source, Some(ConfigSource::Discovered(ref p)) if p == "/p/sentinel.toml"));

    let project_file = ConfigFile { scan: Some(ScanSection { threads: Some(6), exclude: None, fail_on: None }), ..empty_file() };
    let rc = load_config(
        &CliOverrides::default(),
        Ok(Some(project_input("/p/sentinel.toml", project_file))),
        Some(project_input(user, user_file)),
    )
    .unwrap();
    assert_eq!(rc.threads, 6);
}

#[test]
fn load_config_passes_discovery_errors_on() {
    let err = load_config(&CliOverrides::default(), Err(ConfigError::ConfigurationNotFound("x".to_string())), None);
    assert!(matches!(err, Err(ConfigError::ConfigurationNotFound(_))));
    let e = canonicalize("/missing", Err("No such file or directory".to_string())).unwrap_err();
    assert_eq!(e.to_string(), "Failed to read configuration file /missing: No such file or directory");
}

#[test]
fn unreadable_user_file_is_reported_first() {
    let user = ConfigInput { path: "u.toml".to_string(), file: Err(ConfigError::InvalidToml { path: "u.toml".to_string(), message: "bad".to_string() }) };
    let project = ConfigInput { path: "p.toml".to_string(), file: Err(ConfigError::SectionNotFound { section: "x".to_string(), path: "p.toml".to_string() }) };
    let err = build_run_config(&CliOverrides::default(), Some(project), Some(user)).unwrap_err();
    assert_eq!(err.to_string(), "Invalid TOML in u.toml: bad");
}

#[test]
fn syntax_error_position_is_line_and_column() {
    assert_eq!(byte_offset_to_line_col("ab\ncd", 4), (2, 2));
    assert_eq!(byte_offset_to_line_col("", 0), (1, 1));
    let err = parse_config_toml("a = 1\n[[broken", "t.toml", Ok(empty_file())).unwrap_err();
    match err {
        ConfigError::InvalidTomlSyntax { line, .. } => assert_eq!(line, 2),
        other => panic!("unexpected {:?}", other),
    }
}

#[test]
fn glob_patterns_are_checked() {
    assert!(validate_glob("src/**/*.rs", "t.toml", 1).is_ok());
    assert!(matches!(validate_glob("[invalid", "t.toml", 1), Err(ConfigError::InvalidGlob { .. })));
}

#[test]
fn config_error_messages() {
    let e = ConfigError::NegativeThreads { value: -3, path: "c.toml".to_string(), line: 0 };
    assert_eq!(e.to_string(), "Negative value for 'threads' (-3) in c.toml");
    let e = ConfigError::UnknownKey { path: "c.toml".to_string(), section: "scan".to_string(), key: "k".to_string(), line: 7 };
    assert_eq!(e.to_string(), "Unknown key 'k' in section [scan] at line 7 in c.toml");
}
