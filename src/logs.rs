use vstd::prelude::*;

use crate::text::concat_text;

verus! {

/// How much of the run is reported as it goes.
#[derive(Debug, Clone, Copy, PartialEq, Eq, Structural)]
pub enum LogLevel {
    Quiet,
    Verbose,
}

impl Default for LogLevel {
    fn default() -> (r: Self)
        ensures
            r == LogLevel::Quiet,
    {
        LogLevel::Quiet
    }
}

/// Decides which progress lines a run reports, and how they read.
#[derive(Debug, Clone, Copy)]
pub struct Logger {
    pub level: LogLevel,
}

impl Logger {
    /// A logger at `level`.
    pub fn new(level: LogLevel) -> (r: Self)
        ensures
            r.level == level,
    {
        Logger { level }
    }

    /// Whether progress is reported.
    pub fn is_verbose(&self) -> (r: bool)
        ensures
            r == (self.level == LogLevel::Verbose),
    {
        match self.level {
            LogLevel::Verbose => true,
            LogLevel::Quiet => false,
        }
    }

    /// The line that announces `step`, where progress is reported.
    pub fn step_line(&self, step: &str) -> (r: Option<String>)
        ensures
            self.level == LogLevel::Verbose ==> (r matches Some(l) && l@ == "[STEP] "@ + step@),
            self.level == LogLevel::Quiet ==> r is None,
    {
        if self.is_verbose() {
            Some(concat_text("[STEP] ", step))
        } else {
            None
        }
    }

    /// The line that reports `output`, where progress is reported.
    pub fn output_line(&self, output: &str) -> (r: Option<String>)
        ensures
            self.level == LogLevel::Verbose ==> (r matches Some(l) && l@ == "[OUTPUT] "@ + output@),
            self.level == LogLevel::Quiet ==> r is None,
    {
        if self.is_verbose() {
            Some(concat_text("[OUTPUT] ", output))
        } else {
            None
        }
    }
}

impl Default for Logger {
    fn default() -> (r: Self)
        ensures
            r.level == LogLevel::Quiet,
    {
        Logger::new(LogLevel::Quiet)
    }
}

} // verus!
