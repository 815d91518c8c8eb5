//! A logging capability: a severity threshold and a sink of formatted
//! lines. The library decides what a log call records and how the line is
//! formatted; the caller owning the logger drains the sink and performs the
//! printing.

use vstd::prelude::*;
use vstd::string::StringExecFns;

verus! {

/// Severity levels, most severe first.
#[derive(Debug, Copy, Clone, PartialEq, Eq, Hash, PartialOrd, Ord, Structural)]
pub enum LogLevel {
    Emerg,
    Alert,
    Crit,
    Error,
    Warning,
    Notice,
    Info,
    Debug,
}

/// The numeric rank of a level: lower is more severe.
pub open spec fn spec_severity(l: LogLevel) -> u8 {
    match l {
        LogLevel::Emerg => 0,
        LogLevel::Alert => 1,
        LogLevel::Crit => 2,
        LogLevel::Error => 3,
        LogLevel::Warning => 4,
        LogLevel::Notice => 5,
        LogLevel::Info => 6,
        LogLevel::Debug => 7,
    }
}

/// The display name of a level.
pub open spec fn spec_level_name(l: LogLevel) -> Seq<char> {
    match l {
        LogLevel::Emerg => "EMERG"@,
        LogLevel::Alert => "ALERT"@,
        LogLevel::Crit => "CRIT"@,
        LogLevel::Error => "ERR"@,
        LogLevel::Warning => "WARNING"@,
        LogLevel::Notice => "NOTICE"@,
        LogLevel::Info => "INFO"@,
        LogLevel::Debug => "DEBUG"@,
    }
}

/// The display name padded to the width of the widest level.
pub open spec fn spec_padded_name(l: LogLevel) -> Seq<char> {
    match l {
        LogLevel::Emerg => "EMERG  "@,
        LogLevel::Alert => "ALERT  "@,
        LogLevel::Crit => "CRIT   "@,
        LogLevel::Error => "ERR    "@,
        LogLevel::Warning => "WARNING"@,
        LogLevel::Notice => "NOTICE "@,
        LogLevel::Info => "INFO   "@,
        LogLevel::Debug => "DEBUG  "@,
    }
}

/// One formatted log line: the padded level name, a separator, the message.
pub open spec fn spec_format_line(l: LogLevel, msg: Seq<char>) -> Seq<char> {
    spec_padded_name(l) + " | "@ + msg
}

impl LogLevel {
    /// The numeric rank, exactly as `spec_severity` states.
    pub fn severity(&self) -> (r: u8)
        ensures
            r == spec_severity(*self),
    {
        match self {
            LogLevel::Emerg => 0,
            LogLevel::Alert => 1,
            LogLevel::Crit => 2,
            LogLevel::Error => 3,
            LogLevel::Warning => 4,
            LogLevel::Notice => 5,
            LogLevel::Info => 6,
            LogLevel::Debug => 7,
        }
    }

    /// The display name, exactly as `spec_level_name` states.
    pub fn name(&self) -> (r: String)
        ensures
            r@ == spec_level_name(*self),
    {
        match self {
            LogLevel::Emerg => String::from_str("EMERG"),
            LogLevel::Alert => String::from_str("ALERT"),
            LogLevel::Crit => String::from_str("CRIT"),
            LogLevel::Error => String::from_str("ERR"),
            LogLevel::Warning => String::from_str("WARNING"),
            LogLevel::Notice => String::from_str("NOTICE"),
            LogLevel::Info => String::from_str("INFO"),
            LogLevel::Debug => String::from_str("DEBUG"),
        }
    }
}

/// Formats one log line, exactly as `spec_format_line` states.
pub fn format_line(level: LogLevel, msg: &str) -> (r: String)
    ensures
        r@ == spec_format_line(level, msg@),
{
    let mut s = match level {
        LogLevel::Emerg => String::from_str("EMERG  "),
        LogLevel::Alert => String::from_str("ALERT  "),
        LogLevel::Crit => String::from_str("CRIT   "),
        LogLevel::Error => String::from_str("ERR    "),
        LogLevel::Warning => String::from_str("WARNING"),
        LogLevel::Notice => String::from_str("NOTICE "),
        LogLevel::Info => String::from_str("INFO   "),
        LogLevel::Debug => String::from_str("DEBUG  "),
    };
    s.append(" | ");
    s.append(msg);
    s
}

/// A logging capability: lines at or above the threshold severity are
/// recorded, the rest are dropped.
#[derive(Debug)]
pub struct Logger {
    pub level: LogLevel,
    pub lines: Vec<String>,
}

/// The recorded lines as mathematical values.
pub open spec fn spec_lines(l: Logger) -> Seq<Seq<char>> {
    l.lines@.map_values(|s: String| s@)
}

impl Logger {
    /// A fresh logger with the given threshold and an empty sink.
    pub fn new(level: LogLevel) -> (r: Logger)
        ensures
            r.level == level,
            spec_lines(r) == Seq::<Seq<char>>::empty(),
    {
        let r = Logger { level, lines: Vec::new() };
        proof {
            assert(spec_lines(r) =~= Seq::<Seq<char>>::empty());
        }
        r
    }

    /// Records one message when its level passes the threshold: a level is
    /// recorded exactly when its severity rank is at most the threshold's.
    pub fn log(&mut self, level: LogLevel, msg: &str)
        ensures
            final(self).level == old(self).level,
            spec_severity(level) <= spec_severity(old(self).level) ==> spec_lines(*final(self))
                == spec_lines(*old(self)).push(spec_format_line(level, msg@)),
            spec_severity(level) > spec_severity(old(self).level) ==> *final(self) == *old(self),
    {
        if level.severity() <= self.level.severity() {
            let line = format_line(level, msg);
            let ghost before = self.lines@;
            self.lines.push(line);
            proof {
                assert(spec_lines(*self) =~= before.map_values(|s: String| s@).push(
                    spec_format_line(level, msg@),
                ));
            }
        }
    }

    /// Hands the recorded lines out and leaves the sink empty.
    pub fn take_lines(&mut self) -> (r: Vec<String>)
        ensures
            r == old(self).lines,
            final(self).level == old(self).level,
            final(self).lines@.len() == 0,
    {
        let mut out: Vec<String> = Vec::new();
        core::mem::swap(&mut out, &mut self.lines);
        out
    }
}

/// Sets the threshold below which messages are dropped.
pub fn set_log_level(logger: &mut Logger, new_log_level: LogLevel)
    ensures
        final(logger).level == new_log_level,
        final(logger).lines == old(logger).lines,
{
    logger.level = new_log_level;
}

/// Reads the current threshold.
pub fn get_log_level(logger: &Logger) -> (r: LogLevel)
    ensures
        r == logger.level,
{
    logger.level
}

/// Records one message against the given logger, as `Logger::log` states.
pub fn log(logger: &mut Logger, level: LogLevel, msg: &str)
    ensures
        final(logger).level == old(logger).level,
        spec_severity(level) <= spec_severity(old(logger).level) ==> spec_lines(*final(logger))
            == spec_lines(*old(logger)).push(spec_format_line(level, msg@)),
        spec_severity(level) > spec_severity(old(logger).level) ==> *final(logger) == *old(
            logger,
        ),
{
    logger.log(level, msg);
}

} // verus!
