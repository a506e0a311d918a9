//! The arguments of `scan` as the command line gave them, and how they become
//! configuration overrides.
use vstd::prelude::*;
use crate::cli::outcome::CliError;
use crate::config::error::{config_error_text, ConfigError};
use crate::config::discover::{load_config, loaded};
use crate::config::model::{CliOverrides, RunConfig};
use crate::config::resolve::ConfigInput;
use crate::tokens::{comma_list, split_comma_list, views};

verus! {

/// Raw command-line arguments of a scan.
#[derive(Debug, Clone)]
pub struct CliArgs {
    pub path: String,
    pub json: bool,
    pub compact: bool,
    pub quiet: bool,
    pub verbose: bool,
    pub color: String,
    pub fail_on: Option<String>,
    pub severity: Option<String>,
    pub category: Option<String>,
    pub rule: Option<String>,
    pub exclude: Option<String>,
    pub timings: bool,
    pub score: bool,
    pub threads: Option<usize>,
    pub config_path: Option<String>,
}

/// Two optional strings hold the same text.
pub open spec fn same_text(a: Option<String>, b: Option<String>) -> bool {
    match (a, b) {
        (Some(x), Some(y)) => x@ == y@,
        (None, None) => true,
        _ => false,
    }
}

/// An optional list of strings is the comma list of an optional string.
pub open spec fn listed(list: Option<Vec<String>>, text: Option<String>) -> bool {
    match (list, text) {
        (Some(v), Some(t)) => views(v@) == comma_list(t@),
        (None, None) => true,
        _ => false,
    }
}

/// The overrides a scan's arguments give: every flag is set (`false` when
/// absent), and `--rule` and `--exclude` are comma lists with the pieces
/// trimmed and empty ones dropped.
pub open spec fn overrides_from(o: CliOverrides, a: CliArgs) -> bool {
    &&& o.path matches Some(p) && p@ == a.path@
    &&& o.json == Some(a.json)
    &&& o.compact == Some(a.compact)
    &&& o.quiet == Some(a.quiet)
    &&& o.verbose == Some(a.verbose)
    &&& o.color matches Some(c) && c@ == a.color@
    &&& same_text(o.fail_on, a.fail_on)
    &&& same_text(o.severity, a.severity)
    &&& same_text(o.category, a.category)
    &&& listed(o.rule, a.rule)
    &&& listed(o.exclude, a.exclude)
    &&& o.timings == Some(a.timings)
    &&& o.score == Some(a.score)
    &&& o.threads == a.threads
    &&& same_text(o.config_path, a.config_path)
}

fn copy_opt(o: &Option<String>) -> (r: Option<String>)
    ensures
        same_text(r, *o),
{
    match o {
        Some(s) => Some(s.clone()),
        None => None,
    }
}

fn list_opt(o: &Option<String>) -> (r: Option<Vec<String>>)
    ensures
        listed(r, *o),
{
    match o {
        Some(s) => Some(split_comma_list(s.as_str())),
        None => None,
    }
}

impl CliArgs {
    /// The configuration overrides these arguments give.
    pub fn to_overrides(&self) -> (r: CliOverrides)
        ensures
            overrides_from(r, *self),
    {
        CliOverrides {
            path: Some(self.path.clone()),
            json: Some(self.json),
            compact: Some(self.compact),
            quiet: Some(self.quiet),
            verbose: Some(self.verbose),
            color: Some(self.color.clone()),
            fail_on: copy_opt(&self.fail_on),
            severity: copy_opt(&self.severity),
            category: copy_opt(&self.category),
            rule: list_opt(&self.rule),
            exclude: list_opt(&self.exclude),
            timings: Some(self.timings),
            score: Some(self.score),
            threads: self.threads,
            config_path: copy_opt(&self.config_path),
        }
    }

    /// The settings of the scan: the overrides of these arguments applied over
    /// the discovered file and the user-level file (see `load_config`); a
    /// configuration error becomes `CliError::Config` with the error's message.
    pub fn merge_into_run_config(
        &self,
        discovered: Result<Option<ConfigInput>, ConfigError>,
        user_config: Option<ConfigInput>,
    ) -> (r: Result<RunConfig, CliError>)
        ensures
            exists|o: CliOverrides| #![auto] overrides_from(o, *self) && match loaded(
                o,
                discovered,
                user_config,
            ) {
                Ok(v) => r matches Ok(rc) && rc@ == v,
                Err(e) => r matches Err(CliError::Config(m)) && m@ == config_error_text(e),
            },
    {
        let cli = self.to_overrides();
        match load_config(&cli, discovered, user_config) {
            Ok(rc) => Ok(rc),
            Err(e) => Err(CliError::Config(e.to_string())),
        }
    }
}

} // verus!
