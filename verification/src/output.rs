//! The decisions behind the runtime's command-line output: which log levels a
//! verbosity count selects, whether colored output is wanted, and whether
//! progress drawing is suppressed.
//!
//! Installing the actual log subscriber, probing the terminal and drawing
//! progress bars are I/O and live outside the library; everything here is the
//! pure decision those edges act on.

use vstd::prelude::*;

verus! {

/// The format used when generating logs.
#[derive(Clone, Copy, Debug, PartialEq, Eq, Structural)]
pub enum LogFormat {
    /// Human-readable logs.
    Text,
    /// Machine-readable logs.
    Json,
}

impl Default for LogFormat {
    /// Text logs unless asked otherwise.
    fn default() -> (f: LogFormat)
        ensures
            f == LogFormat::Text,
    {
        LogFormat::Text
    }
}

/// When to display colored output.
#[derive(Clone, Copy, Debug, PartialEq, Eq, Structural)]
pub enum ColorChoice {
    /// Color exactly when standard error is a terminal.
    Auto,
    /// Always color.
    Always,
    /// Never color.
    Never,
}

/// A maximum log level.
#[derive(Clone, Copy, Debug, PartialEq, Eq, Structural)]
pub enum LevelFilter {
    /// Log nothing.
    Off,
    /// Log warnings and errors.
    Warn,
    /// Log informational messages and above.
    Info,
    /// Log debug messages and above.
    Debug,
    /// Log everything.
    Trace,
}

/// The default log level a verbosity count selects: quiet by default, one
/// step louder per repetition, saturating at trace.
pub open spec fn default_level_of(verbose: u8) -> LevelFilter {
    if verbose == 0 {
        LevelFilter::Off
    } else if verbose == 1 {
        LevelFilter::Warn
    } else if verbose == 2 {
        LevelFilter::Info
    } else if verbose == 3 {
        LevelFilter::Debug
    } else {
        LevelFilter::Trace
    }
}

/// The level granted to the runtime's own whitelisted log targets: one step
/// above the default level, and no override at all when not verbose.
pub open spec fn target_level_of(verbose: u8) -> Option<LevelFilter> {
    if verbose == 0 {
        None
    } else if verbose == 1 {
        Some(LevelFilter::Info)
    } else if verbose == 2 {
        Some(LevelFilter::Debug)
    } else {
        Some(LevelFilter::Trace)
    }
}

/// Control of the output the command line generates.
pub struct Output {
    /// How often the verbose flag was given.
    pub verbose: u8,
    /// Do not print progress messages.
    pub quiet: bool,
    /// The format to use when generating logs.
    pub log_format: LogFormat,
    /// When to display colored output.
    pub color: ColorChoice,
}

impl Default for Output {
    /// Not verbose, not quiet, text logs, automatic color.
    fn default() -> (o: Output)
        ensures
            o.verbose == 0,
            !o.quiet,
            o.log_format == LogFormat::Text,
            o.color == ColorChoice::Auto,
    {
        Output { verbose: 0, quiet: false, log_format: LogFormat::Text, color: ColorChoice::Auto }
    }
}

impl Output {
    /// Has the verbose flag been set?
    pub fn is_verbose(&self) -> (b: bool)
        ensures
            b == (self.verbose > 0),
    {
        self.verbose > 0
    }

    /// The default log level the verbosity selects.
    pub fn default_log_level(&self) -> (l: LevelFilter)
        ensures
            l == default_level_of(self.verbose),
    {
        match self.verbose {
            0 => LevelFilter::Off,
            1 => LevelFilter::Warn,
            2 => LevelFilter::Info,
            3 => LevelFilter::Debug,
            _ => LevelFilter::Trace,
        }
    }

    /// The level granted to the runtime's own whitelisted log targets, one
    /// step above the default, or `None` when nothing is overridden.
    pub fn target_log_level(&self) -> (l: Option<LevelFilter>)
        ensures
            l == target_level_of(self.verbose),
    {
        match self.verbose {
            0 => None,
            1 => Some(LevelFilter::Info),
            2 => Some(LevelFilter::Debug),
            _ => Some(LevelFilter::Trace),
        }
    }

    /// Whether to emit ANSI escape codes, given whether standard error is a
    /// terminal (the caller probes that).
    pub fn should_emit_colors(&self, stderr_is_terminal: bool) -> (b: bool)
        ensures
            b == (match self.color {
                ColorChoice::Auto => stderr_is_terminal,
                ColorChoice::Always => true,
                ColorChoice::Never => false,
            }),
    {
        match self.color {
            ColorChoice::Auto => stderr_is_terminal,
            ColorChoice::Always => true,
            ColorChoice::Never => false,
        }
    }

    /// Whether progress indicators must draw nothing.
    pub fn progress_hidden(&self) -> (b: bool)
        ensures
            b == self.quiet,
    {
        self.quiet
    }
}

} // verus!
