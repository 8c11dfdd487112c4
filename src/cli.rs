//! Command-line options and the logging level they select.
use vstd::prelude::*;

verus! {

/// Relies on `log::LevelFilter`: a plain enum of six variants, from `Off`
/// to `Trace`, whose variants the contracts name.
#[verifier::external_type_specification]
pub struct ExLevelFilter(log::LevelFilter);

/// Options given on the command line.
#[derive(Debug, Clone, Copy, PartialEq, Eq, Structural)]
pub struct Args {
    /// Verbosity: each `-v` raises the logging level one step.
    pub verbose: u8,
    /// Only errors are logged.
    pub quiet: bool,
}

/// The logging level that a set of options selects.
pub open spec fn level_for(quiet: bool, verbose: u8) -> log::LevelFilter {
    if quiet {
        log::LevelFilter::Error
    } else if verbose == 0 {
        log::LevelFilter::Warn
    } else if verbose == 1 {
        log::LevelFilter::Info
    } else if verbose == 2 {
        log::LevelFilter::Debug
    } else {
        log::LevelFilter::Trace
    }
}

impl Args {
    /// The log level filter selected by the verbosity flags.
    pub fn log_level(&self) -> (r: log::LevelFilter)
        ensures
            r == level_for(self.quiet, self.verbose),
    {
        if self.quiet {
            log::LevelFilter::Error
        } else {
            match self.verbose {
                0 => log::LevelFilter::Warn,
                1 => log::LevelFilter::Info,
                2 => log::LevelFilter::Debug,
                _ => log::LevelFilter::Trace,
            }
        }
    }

    /// Whether the speech model's own diagnostics are shown: only at the
    /// trace level (three or more `-v`).
    pub fn whisper_verbose(&self) -> (r: bool)
        ensures
            r == (self.verbose >= 3),
    {
        self.verbose >= 3
    }
}

} // verus!
