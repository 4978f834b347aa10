//! The decisions behind the command-line options: log level, colour and
//! whether `init` may write.

use vstd::prelude::*;

use crate::config::LogLevel;

verus! {

/// When coloured output is wanted.
#[derive(Clone, Copy, Debug, PartialEq, Eq, Structural)]
pub enum ColorOption {
    Auto,
    Always,
    Never,
}

/// How log output is styled.
#[derive(Clone, Copy, Debug, PartialEq, Eq, Structural)]
pub enum ColorMode {
    Auto,
    Always,
    Never,
}

/// What `init` does.
#[derive(Clone, Copy, Debug, PartialEq, Eq, Structural)]
pub enum InitAction {
    /// A config file exists and overwriting it was not asked for.
    Refuse,
    /// Report the file that would be written, and write nothing.
    Preview,
    /// Write the default config file.
    Write,
}

/// The options that every command takes.
#[derive(Clone, Debug, PartialEq, Eq)]
pub struct CommonOpts {
    /// Override of the config file path.
    pub config: Option<String>,
    /// Only report errors.
    pub quiet: bool,
    /// How many times more verbose logging was asked for.
    pub verbose: u8,
    /// Debug logging.
    pub debug: bool,
    /// Trace logging; overrides the other levels.
    pub trace: bool,
    /// Machine-readable JSON output.
    pub json: bool,
    /// Machine-readable YAML output.
    pub yaml: bool,
    /// No ANSI colours.
    pub no_color: bool,
    /// When to colour output.
    pub color: ColorOption,
    /// Change nothing on disk.
    pub dry_run: bool,
    /// Answer "yes" to prompts.
    pub assume_yes: bool,
    /// Never prompt; fail where confirmation would be needed.
    pub no_input: bool,
    /// Longest time an operation may run, in seconds.
    pub timeout: Option<u64>,
    /// Degree of parallelism.
    pub parallel: Option<usize>,
    /// No progress indicators.
    pub no_progress: bool,
    /// Extra diagnostics in the log.
    pub diagnostics: bool,
}

/// The level that the verbosity options select.
pub open spec fn level_for(trace: bool, debug: bool, verbose: u8) -> LogLevel {
    if trace {
        LogLevel::Trace
    } else if debug {
        LogLevel::Debug
    } else if verbose == 0 {
        LogLevel::Info
    } else if verbose == 1 {
        LogLevel::Debug
    } else {
        LogLevel::Trace
    }
}

/// The styling that the colour options and the surroundings select.
pub open spec fn color_for(
    no_color: bool,
    color: ColorOption,
    force_color_env: bool,
    no_color_env: bool,
    stderr_is_terminal: bool,
) -> ColorMode {
    let force = color == ColorOption::Always || force_color_env;
    let disable = no_color || color == ColorOption::Never || no_color_env || (!force
        && !stderr_is_terminal);
    if disable {
        ColorMode::Never
    } else if force {
        ColorMode::Always
    } else {
        ColorMode::Auto
    }
}

impl CommonOpts {
    /// The log level: trace beats debug, which beats the count of `-v`.
    pub fn effective_log_level(&self) -> (r: LogLevel)
        ensures
            r == level_for(self.trace, self.debug, self.verbose),
    {
        if self.trace {
            LogLevel::Trace
        } else if self.debug {
            LogLevel::Debug
        } else if self.verbose == 0 {
            LogLevel::Info
        } else if self.verbose == 1 {
            LogLevel::Debug
        } else {
            LogLevel::Trace
        }
    }

    /// How log output is styled, given whether `FORCE_COLOR` and `NO_COLOR`
    /// are set and whether standard error is a terminal. Anything that
    /// disables colour wins; forcing it comes next.
    pub fn color_mode(&self, force_color_env: bool, no_color_env: bool, stderr_is_terminal: bool) -> (r:
        ColorMode)
        ensures
            r == color_for(self.no_color, self.color, force_color_env, no_color_env, stderr_is_terminal),
    {
        let force = self.color == ColorOption::Always || force_color_env;
        let disable = self.no_color || self.color == ColorOption::Never || no_color_env || (!force
            && !stderr_is_terminal);
        if disable {
            ColorMode::Never
        } else if force {
            ColorMode::Always
        } else {
            ColorMode::Auto
        }
    }

    /// What `init` does: an existing file is kept unless `force` or
    /// `assume_yes` is given; a dry run only reports.
    pub fn init_action(&self, config_exists: bool, force: bool) -> (r: InitAction)
        ensures
            config_exists && !(force || self.assume_yes) ==> r == InitAction::Refuse,
            !(config_exists && !(force || self.assume_yes)) && self.dry_run ==> r == InitAction::Preview,
            !(config_exists && !(force || self.assume_yes)) && !self.dry_run ==> r == InitAction::Write,
    {
        if config_exists && !(force || self.assume_yes) {
            InitAction::Refuse
        } else if self.dry_run {
            InitAction::Preview
        } else {
            InitAction::Write
        }
    }
}

} // verus!
