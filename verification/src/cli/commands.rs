//! The commands of the command line and their dispatch. Parsing the command
//! line, printing and running the scanner are the caller's work; the caller
//! hands them in as closures.
use vstd::prelude::*;
use vstd::string::StringExecFns;
use crate::cli::args::CliArgs;
use crate::cli::outcome::{CliError, ExitCode};
use crate::cli::progress::ProgressMode;
use crate::cli::terminal::{color_preference_named, ColorPreference};

verus! {

/// A parsed command line.
#[derive(Debug)]
pub struct Cli {
    pub command: Commands,
}

/// The commands.
#[derive(Debug)]
pub enum Commands {
    /// Scan a Soroban project for security issues.
    Scan(Box<ScanArgs>),
    /// Show version information.
    Version,
}

/// The arguments of `scan`.
#[derive(Debug, Clone)]
pub struct ScanArgs {
    /// Path to scan (file or directory); `.` when not given.
    pub path: String,
    pub json: bool,
    pub compact: bool,
    pub quiet: bool,
    pub verbose: bool,
    /// `auto`, `always` or `never`; `auto` when not given.
    pub color: String,
    pub fail_on: Option<String>,
    pub severity: Option<String>,
    pub category: Option<String>,
    /// Only these rules (comma-separated).
    pub rule: Option<String>,
    /// Exclude files matching these path patterns (comma-separated).
    pub exclude: Option<String>,
    pub timings: bool,
    pub score: bool,
    pub threads: Option<usize>,
    /// Path to a configuration file.
    pub config: Option<String>,
}

impl Default for ScanArgs {
    /// The arguments of a bare `scan`: path `.`, colour `auto`, nothing else set.
    fn default() -> (r: ScanArgs)
        ensures
            r.path@ == "."@,
            r.color@ == "auto"@,
            !r.json && !r.compact && !r.quiet && !r.verbose && !r.timings && !r.score,
            r.fail_on is None && r.severity is None && r.category is None,
            r.rule is None && r.exclude is None && r.threads is None && r.config is None,
    {
        ScanArgs {
            path: String::from_str("."),
            json: false,
            compact: false,
            quiet: false,
            verbose: false,
            color: String::from_str("auto"),
            fail_on: None,
            severity: None,
            category: None,
            rule: None,
            exclude: None,
            timings: false,
            score: false,
            threads: None,
            config: None,
        }
    }
}

/// What a scan is run with: its arguments, the colour preference they name and
/// the progress mode they ask for.
#[derive(Debug)]
pub struct ScanPlan {
    pub args: CliArgs,
    pub color: ColorPreference,
    pub progress: ProgressMode,
}

/// Quiet wins over verbose; neither gives the default mode.
pub open spec fn progress_mode_for(quiet: bool, verbose: bool) -> ProgressMode {
    if quiet {
        ProgressMode::Quiet
    } else if verbose {
        ProgressMode::Verbose
    } else {
        ProgressMode::Auto
    }
}

/// The raw arguments of a scan, field for field.
pub open spec fn cli_args_of(a: ScanArgs) -> CliArgs {
    CliArgs {
        path: a.path,
        json: a.json,
        compact: a.compact,
        quiet: a.quiet,
        verbose: a.verbose,
        color: a.color,
        fail_on: a.fail_on,
        severity: a.severity,
        category: a.category,
        rule: a.rule,
        exclude: a.exclude,
        timings: a.timings,
        score: a.score,
        threads: a.threads,
        config_path: a.config,
    }
}

/// The message for a colour value that names no preference.
pub open spec fn invalid_color_text(color: Seq<char>) -> Seq<char> {
    "Invalid color value: `"@ + color + "`. Use auto, always, or never."@
}

/// The plan of a scan whose colour value names `c`.
pub open spec fn plan_for(args: ScanArgs, c: ColorPreference) -> ScanPlan {
    ScanPlan { args: cli_args_of(args), color: c, progress: progress_mode_for(args.quiet, args.verbose) }
}

/// Checks the colour value, then hands the plan of the scan to `run`.
pub fn handle_scan<F>(args: ScanArgs, run: F) -> (r: Result<ExitCode, CliError>)
    where
        F: FnOnce(ScanPlan) -> Result<ExitCode, CliError>,
    requires
        forall|p: ScanPlan| run.requires((p,)),
    ensures
        match color_preference_named(args.color@) {
            None => r matches Err(CliError::InvalidArguments(m)) && m@ == invalid_color_text(args.color@),
            Some(c) => run.ensures((plan_for(args, c),), r),
        },
{
    let color = match ColorPreference::parse(args.color.as_str()) {
        Some(c) => c,
        None => {
            let mut m = String::from_str("Invalid color value: `");
            m.append(args.color.as_str());
            m.append("`. Use auto, always, or never.");
            return Err(CliError::InvalidArguments(m));
        },
    };
    let progress = if args.quiet {
        ProgressMode::Quiet
    } else if args.verbose {
        ProgressMode::Verbose
    } else {
        ProgressMode::Auto
    };
    let ScanArgs {
        path, json, compact, quiet, verbose, color: color_text, fail_on, severity, category, rule,
        exclude, timings, score, threads, config,
    } = args;
    let cli_args = CliArgs {
        path,
        json,
        compact,
        quiet,
        verbose,
        color: color_text,
        fail_on,
        severity,
        category,
        rule,
        exclude,
        timings,
        score,
        threads,
        config_path: config,
    };
    run(ScanPlan { args: cli_args, color, progress })
}

/// The line `version` shows.
pub open spec fn version_text(version: Seq<char>) -> Seq<char> {
    "sentinel v"@ + version
}

/// Runs a command: `version` hands its line to `show` and succeeds; `scan`
/// goes to `handle_scan`.
pub fn dispatch<F, G>(cli: Cli, version: &str, show: G, run: F) -> (r: Result<ExitCode, CliError>)
    where
        F: FnOnce(ScanPlan) -> Result<ExitCode, CliError>,
        G: FnOnce(String),
    requires
        forall|p: ScanPlan| run.requires((p,)),
        forall|s: String| show.requires((s,)),
    ensures
        match cli.command {
            Commands::Version => r == Ok::<ExitCode, CliError>(ExitCode::Success)
                && exists|s: String| s@ == version_text(version@) && show.ensures((s,), ()),
            Commands::Scan(args) => match color_preference_named(args.color@) {
                None => r matches Err(CliError::InvalidArguments(m)) && m@ == invalid_color_text(args.color@),
                Some(c) => run.ensures((plan_for(*args, c),), r),
            },
        },
{
    match cli.command {
        Commands::Scan(args) => handle_scan(*args, run),
        Commands::Version => {
            let mut line = String::from_str("sentinel v");
            line.append(version);
            show(line);
            Ok(ExitCode::Success)
        },
    }
}

} // verus!
