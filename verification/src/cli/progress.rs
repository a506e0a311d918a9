//! Progress reporting: which messages a run shows, given its verbosity.
//! The caller writes the returned lines to standard error.
use vstd::prelude::*;
use vstd::string::StringExecFns;
use crate::text::{decimal_text, opt_view, u64_to_decimal};

verus! {

/// How much progress output a run shows.
#[derive(Debug, Clone, Copy, PartialEq, Eq, Structural)]
pub enum ProgressMode {
    /// Progress on standard error (the default).
    Auto,
    /// No progress output.
    Quiet,
    /// Detailed progress output.
    Verbose,
}

impl From<bool> for ProgressMode {
    /// `true` (quiet) gives `Quiet`, `false` gives `Auto`.
    fn from(quiet: bool) -> (r: ProgressMode) {
        if quiet {
            ProgressMode::Quiet
        } else {
            ProgressMode::Auto
        }
    }
}

impl vstd::std_specs::convert::FromSpecImpl<bool> for ProgressMode {
    open spec fn obeys_from_spec() -> bool {
        true
    }

    open spec fn from_spec(quiet: bool) -> ProgressMode {
        if quiet {
            ProgressMode::Quiet
        } else {
            ProgressMode::Auto
        }
    }
}

/// A progress reporter for one run.
pub struct Progress {
    mode: ProgressMode,
}

/// The line a message of the given kind shows in `mode`, if any.
pub open spec fn shown(mode: ProgressMode, verbose_only: bool, line: Seq<char>) -> Option<Seq<char>> {
    if mode == ProgressMode::Quiet || (verbose_only && mode != ProgressMode::Verbose) {
        None
    } else {
        Some(line)
    }
}

impl Progress {
    /// The mode of the reporter.
    pub closed spec fn spec_mode(&self) -> ProgressMode {
        self.mode
    }

    /// A reporter in `mode`.
    pub fn new(mode: ProgressMode) -> (r: Progress)
        ensures
            r.spec_mode() == mode,
    {
        Progress { mode }
    }

    /// The mode of the reporter.
    pub fn mode(&self) -> (r: ProgressMode)
        ensures
            r == self.spec_mode(),
    {
        self.mode
    }

    /// An informational message: shown unless quiet.
    pub fn info(&self, msg: &str) -> (r: Option<String>)
        ensures
            opt_view(r) == shown(self.spec_mode(), false, msg@),
    {
        if self.mode == ProgressMode::Quiet {
            None
        } else {
            Some(String::from_str(msg))
        }
    }

    /// A detailed message: shown only when verbose.
    pub fn verbose(&self, msg: &str) -> (r: Option<String>)
        ensures
            opt_view(r) == shown(self.spec_mode(), true, msg@),
    {
        if self.mode == ProgressMode::Verbose {
            Some(String::from_str(msg))
        } else {
            None
        }
    }

    /// A warning, prefixed with `warning: `: shown unless quiet.
    pub fn warn(&self, msg: &str) -> (r: Option<String>)
        ensures
            opt_view(r) == shown(self.spec_mode(), false, "warning: "@ + msg@),
    {
        if self.mode == ProgressMode::Quiet {
            None
        } else {
            let mut s = String::from_str("warning: ");
            s.append(msg);
            Some(s)
        }
    }

    /// `Found <count> issue(s)`: shown unless quiet.
    pub fn finding_count(&self, count: usize) -> (r: Option<String>)
        ensures
            opt_view(r) == shown(self.spec_mode(), false, "Found "@ + decimal_text(count as nat) + " issue(s)"@),
    {
        let mut s = String::from_str("Found ");
        let d = u64_to_decimal(count as u64);
        s.append(d.as_str());
        s.append(" issue(s)");
        self.info(s.as_str())
    }

    /// `Scanned <count> file(s)`: shown unless quiet.
    pub fn files_scanned(&self, count: usize) -> (r: Option<String>)
        ensures
            opt_view(r) == shown(self.spec_mode(), false, "Scanned "@ + decimal_text(count as nat) + " file(s)"@),
    {
        let mut s = String::from_str("Scanned ");
        let d = u64_to_decimal(count as u64);
        s.append(d.as_str());
        s.append(" file(s)");
        self.info(s.as_str())
    }

    /// `Executed <count> rule(s)`: shown only when verbose.
    pub fn rules_run(&self, count: usize) -> (r: Option<String>)
        ensures
            opt_view(r) == shown(self.spec_mode(), true, "Executed "@ + decimal_text(count as nat) + " rule(s)"@),
    {
        let mut s = String::from_str("Executed ");
        let d = u64_to_decimal(count as u64);
        s.append(d.as_str());
        s.append(" rule(s)");
        self.verbose(s.as_str())
    }
}

} // verus!
