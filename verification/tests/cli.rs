use astinel_backend::cli::args::CliArgs;
use astinel_backend::cli::commands::{dispatch, handle_scan, Cli, Commands, ScanArgs, ScanPlan};
use astinel_backend::cli::outcome::{CliError, ExitCode};
use astinel_backend::cli::progress::{Progress, ProgressMode};
use astinel_backend::cli::terminal::{stty_width, terminal_width, ColorPreference, TerminalCapabilities};
use astinel_backend::config::error::ConfigError;
use astinel_backend::config::model::ConfigFile;
use astinel_backend::config::resolve::ConfigInput;
use astinel_backend::tokens::{parse_usize, split_comma_list, split_words};

fn no_scan(_plan: ScanPlan) -> Result<ExitCode, CliError> {
    Err(CliError::Internal("no scanner in this test".to_string()))
}

#[test]
fn version_command_succeeds() {
    let cli = Cli { command: Commands::Version };
    let mut shown = String::new();
    let result = dispatch(cli, "0.1.0", |line| shown = line, no_scan);
    assert!(result.is_ok());
    assert_eq!(result.unwrap(), ExitCode::Success);
    assert_eq!(shown, "sentinel v0.1.0");
}

#[test]
fn invalid_color_returns_error() {
    let args = ScanArgs { color: "invalid".to_string(), ..ScanArgs::default() };
    let cli = Cli { command: Commands::Scan(Box::new(args)) };
    let result = dispatch(cli, "0.1.0", |_| {}, no_scan);
    assert!(result.is_err());
    match result {
        Err(CliError::InvalidArguments(m)) => {
            assert_eq!(m, "Invalid color value: `invalid`. Use auto, always, or never.")
        },
        other => panic!("unexpected {:?}", other),
    }
}

#[test]
fn scan_default_args_ok() {
    let args = ScanArgs::default();
    assert_eq!(args.path, ".");
    assert!(!args.json);
    assert!(!args.compact);
    assert_eq!(args.color, "auto");
}

#[test]
fn scan_hands_its_plan_to_the_runner() {
    let args = ScanArgs {
        path: "src".to_string(),
        quiet: true,
        verbose: true,
        color: "never".to_string(),
        rule: Some("a, b,,c ".to_string()),
        config: Some("sentinel.toml".to_string()),
        ..ScanArgs::default()
    };
    let mut seen: Option<ScanPlan> = None;
    let result = handle_scan(args, |plan| {
        seen = Some(plan);
        Ok(ExitCode::Success)
    });
    assert_eq!(result.unwrap(), ExitCode::Success);
    let plan = seen.unwrap();
    assert_eq!(plan.color, ColorPreference::Never);
    assert_eq!(plan.progress, ProgressMode::Quiet);
    assert_eq!(plan.args.path, "src");
    assert_eq!(plan.args.config_path.as_deref(), Some("sentinel.toml"));
    let overrides = plan.args.to_overrides();
    assert_eq!(overrides.rule, Some(vec!["a".to_string(), "b".to_string(), "c".to_string()]));
    assert_eq!(overrides.json, Some(false));
}

fn cli_args(rule: Option<&str>, exclude: Option<&str>) -> CliArgs {
    CliArgs {
        path: ".".to_string(),
        json: true,
        compact: false,
        quiet: false,
        verbose: false,
        color: "auto".to_string(),
        fail_on: None,
        severity: Some("high".to_string()),
        category: None,
        rule: rule.map(|s| s.to_string()),
        exclude: exclude.map(|s| s.to_string()),
        timings: false,
        score: true,
        threads: Some(2),
        config_path: None,
    }
}

#[test]
fn merge_applies_arguments_over_defaults() {
    let args = cli_args(Some("rule-a,rule-b"), Some(" tests , examples "));
    let rc = args.merge_into_run_config(Ok(None), None).unwrap();
    assert_eq!(rc.threads, 2);
    assert_eq!(rc.exclude, vec!["tests", "examples"]);
    assert_eq!(rc.enabled_rules.len(), 2);
    assert_eq!(rc.enabled_rules[1].as_str(), "rule-b");
}

#[test]
fn merge_reports_configuration_errors() {
    let args = cli_args(None, None);
    let file = ConfigInput {
        path: "p.toml".to_string(),
        file: Err(ConfigError::InvalidToml { path: "p.toml".to_string(), message: "oops".to_string() }),
    };
    match args.merge_into_run_config(Ok(Some(file)), None) {
        Err(CliError::Config(m)) => assert_eq!(m, "Invalid TOML in p.toml: oops"),
        other => panic!("unexpected {:?}", other.is_ok()),
    }
    let empty = ConfigFile { scan: None, rules: None, severity: None, output: None, performance: None, ignore: None, experimental: None };
    let ok = ConfigInput { path: "p.toml".to_string(), file: Ok(empty) };
    assert!(args.merge_into_run_config(Ok(Some(ok)), None).is_ok());
}

#[test]
fn color_preference_parsing() {
    assert_eq!(ColorPreference::parse("auto"), Some(ColorPreference::Auto));
    assert_eq!(ColorPreference::parse("always"), Some(ColorPreference::Always));
    assert_eq!(ColorPreference::parse("never"), Some(ColorPreference::Never));
    assert_eq!(ColorPreference::parse("bad"), None);
}

#[test]
fn detect_respects_no_color() {
    let caps = TerminalCapabilities::detect(ColorPreference::Auto, true, None, true, None);
    assert!(!caps.color);
    assert!(caps.unicode);
    assert_eq!(caps.width, 80);
    let dumb = TerminalCapabilities::detect(ColorPreference::Auto, false, Some("dumb"), true, Some(120));
    assert!(!dumb.color && !dumb.unicode);
    assert_eq!(dumb.width, 120);
    assert!(TerminalCapabilities::detect(ColorPreference::Always, true, Some("dumb"), false, None).color);
}

#[test]
fn terminal_width_from_columns_then_stty() {
    assert_eq!(terminal_width(Some("132"), Some("24 80\n")), Some(132));
    assert_eq!(terminal_width(Some("wide"), Some("24 80\n")), Some(80));
    assert_eq!(terminal_width(None, None), None);
    assert_eq!(stty_width("24"), None);
    assert_eq!(parse_usize("+7"), Some(7));
    assert_eq!(parse_usize("-7"), None);
    assert_eq!(parse_usize(""), None);
    assert_eq!(parse_usize("18446744073709551616"), None);
    assert_eq!(parse_usize("18446744073709551615"), Some(usize::MAX));
}

#[test]
fn splitting_lists_and_words() {
    assert_eq!(split_comma_list("tests,examples"), vec!["tests", "examples"]);
    assert_eq!(split_comma_list(" , ,"), Vec::<String>::new());
    assert_eq!(split_comma_list("a\u{3000},b"), vec!["a", "b"]);
    assert_eq!(split_words("  24\t80 \n"), vec!["24", "80"]);
}

#[test]
fn quiet_mode_suppresses_info() {
    let p = Progress::new(ProgressMode::Quiet);
    assert_eq!(p.info("should not appear"), None);
    assert_eq!(p.warn("should not appear"), None);
    assert_eq!(p.finding_count(5), None);
}

#[test]
fn verbose_mode_enables_all() {
    let p = Progress::new(ProgressMode::Verbose);
    assert_eq!(p.info("info").as_deref(), Some("info"));
    assert_eq!(p.verbose("verbose detail").as_deref(), Some("verbose detail"));
    assert_eq!(p.rules_run(3).as_deref(), Some("Executed 3 rule(s)"));
}

#[test]
fn progress_messages_in_default_mode() {
    let p = Progress::new(ProgressMode::from(false));
    assert_eq!(p.mode(), ProgressMode::Auto);
    assert_eq!(p.finding_count(2).as_deref(), Some("Found 2 issue(s)"));
    assert_eq!(p.files_scanned(10).as_deref(), Some("Scanned 10 file(s)"));
    assert_eq!(p.warn("careful").as_deref(), Some("warning: careful"));
    assert_eq!(p.rules_run(3), None);
    assert_eq!(ProgressMode::from(true), ProgressMode::Quiet);
    assert_eq!(ExitCode::Success.to_i32(), 0);
}
