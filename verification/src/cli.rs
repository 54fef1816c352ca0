//! The options that the program is started with.

use vstd::prelude::*;

verus! {

/// Where log lines go.
#[derive(Debug, Clone, Copy, PartialEq, Eq, Structural)]
pub enum LogOutput {
    Syslog,
    Stdout,
}

/// How severe a log line must be to be written.
#[derive(Debug, Clone, Copy, PartialEq, Eq, Structural)]
pub enum LogLevel {
    Error,
    Warn,
    Info,
    Debug,
    Trace,
}

/// The options, read once when the program starts and handed to whoever needs
/// them.
#[derive(Debug, Clone, Copy, PartialEq, Eq, Structural)]
pub struct Args {
    pub log_level: LogLevel,
    pub log_output: LogOutput,
}

impl Default for LogOutput {
    fn default() -> (r: LogOutput)
        ensures
            r == LogOutput::Syslog,
    {
        LogOutput::Syslog
    }
}

impl Default for Args {
    fn default() -> (r: Args)
        ensures
            r == (Args { log_level: LogLevel::Info, log_output: LogOutput::Syslog }),
    {
        Args { log_level: LogLevel::Info, log_output: LogOutput::Syslog }
    }
}

/// The options for what the command line gave; an option that it left out has
/// its default: severity `Info`, output to the system log.
pub fn handling_args(log_level: Option<LogLevel>, log_output: Option<LogOutput>) -> (args: Args)
    ensures
        args.log_level == (match log_level {
            Some(level) => level,
            None => LogLevel::Info,
        }),
        args.log_output == (match log_output {
            Some(output) => output,
            None => LogOutput::Syslog,
        }),
{
    Args {
        log_level: match log_level {
            Some(level) => level,
            None => LogLevel::Info,
        },
        log_output: match log_output {
            Some(output) => output,
            None => LogOutput::Syslog,
        },
    }
}

/// The severity from which log lines are written.
pub fn get_log_level(args: &Args) -> (level: &LogLevel)
    ensures
        *level == args.log_level,
{
    &args.log_level
}

/// Where log lines go.
pub fn get_log_output(args: &Args) -> (output: &LogOutput)
    ensures
        *output == args.log_output,
{
    &args.log_output
}

} // verus!
