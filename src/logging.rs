//! Log line layout and module filtering of the firmware's console loggers.

use vstd::prelude::*;
use vstd::string::*;

verus! {

/// Severity of a log record.
#[derive(Debug, Clone, Copy, PartialEq, Eq, Structural)]
pub enum Level {
    Error,
    Warn,
    Info,
    Debug,
    Trace,
}

/// Modules whose records the console logger drops.
pub const BLACKLISTED_MODULE: &'static str = "esp_idf_svc";

/// Prefix of the modules whose records the plain logger keeps.
pub const OWN_MODULE_PREFIX: &'static str = "pwos";

pub const INFO_HEADER: &'static str = "\x1b[1;94mINFO\x1b[0m  [";
pub const WARN_HEADER: &'static str = "\x1b[1;33mWARN\x1b[0m  [";
pub const ERROR_HEADER: &'static str = "\x1b[1;91mERROR\x1b[0m [";
pub const DEBUG_HEADER: &'static str = "\x1b[1;95mDEBUG\x1b[0m [";
pub const TRACE_HEADER: &'static str = "TRACE [";

/// `s` begins with `prefix`.
pub open spec fn has_prefix(s: Seq<char>, prefix: Seq<char>) -> bool {
    prefix.len() <= s.len() && s.subrange(0, prefix.len() as int) == prefix
}

/// Whether `s` begins with `prefix`.
pub fn starts_with(s: &str, prefix: &str) -> (r: bool)
    ensures
        r == has_prefix(s@, prefix@),
{
    let n = prefix.unicode_len();
    if n > s.unicode_len() {
        return false;
    }
    let mut i: usize = 0;
    while i < n
        invariant
            n == prefix@.len() <= s@.len(),
            i <= n,
            forall|j: int| 0 <= j < i ==> s@[j] == prefix@[j],
        decreases n - i,
    {
        if s.get_char(i) != prefix.get_char(i) {
            assert(s@.subrange(0, n as int)[i as int] != prefix@[i as int]);
            return false;
        }
        i = i + 1;
    }
    assert(s@.subrange(0, n as int) =~= prefix@);
    true
}

/// The coloured header of a console line.
pub open spec fn header(level: Level) -> Seq<char> {
    match level {
        Level::Info => INFO_HEADER@,
        Level::Warn => WARN_HEADER@,
        Level::Error => ERROR_HEADER@,
        Level::Debug => DEBUG_HEADER@,
        Level::Trace => TRACE_HEADER@,
    }
}

/// The plain name of a level.
pub open spec fn level_name(level: Level) -> Seq<char> {
    match level {
        Level::Info => "INFO"@,
        Level::Warn => "WARN"@,
        Level::Error => "ERROR"@,
        Level::Debug => "DEBUG"@,
        Level::Trace => "TRACE"@,
    }
}

fn header_of(level: Level) -> (r: &'static str)
    ensures
        r@ == header(level),
{
    match level {
        Level::Info => INFO_HEADER,
        Level::Warn => WARN_HEADER,
        Level::Error => ERROR_HEADER,
        Level::Debug => DEBUG_HEADER,
        Level::Trace => TRACE_HEADER,
    }
}

fn name_of(level: Level) -> (r: &'static str)
    ensures
        r@ == level_name(level),
{
    match level {
        Level::Info => "INFO",
        Level::Warn => "WARN",
        Level::Error => "ERROR",
        Level::Debug => "DEBUG",
        Level::Trace => "TRACE",
    }
}

/// The console logger: coloured level header, module path, message.
pub struct OsLogger {
    enabled: bool,
}

impl OsLogger {
    pub closed spec fn is_enabled(&self) -> bool {
        self.enabled
    }

    pub fn new() -> (r: OsLogger)
        ensures
            r.is_enabled(),
    {
        OsLogger { enabled: true }
    }

    /// Silences the logger.
    pub fn disable(&mut self)
        ensures
            !final(self).is_enabled(),
    {
        self.enabled = false;
    }

    /// Whether records of this module are dropped; a record without a module
    /// path is dropped too.
    pub fn check_blacklist(module: Option<&str>) -> (r: bool)
        ensures
            r == match module {
                Some(m) => has_prefix(m@, BLACKLISTED_MODULE@),
                None => true,
            },
    {
        match module {
            Some(m) => starts_with(m, BLACKLISTED_MODULE),
            None => true,
        }
    }

    /// The console line for a record, or `None` when the logger is disabled
    /// or the module is blacklisted; a missing module path shows as `?`.
    pub fn format_record(&self, level: Level, module: Option<&str>, message: &str) -> (r: Option<String>)
        ensures
            ({
                let m = match module {
                    Some(m) => m@,
                    None => "?"@,
                };
                if !self.is_enabled() || has_prefix(m, BLACKLISTED_MODULE@) {
                    r is None
                } else {
                    r matches Some(line) && line@ == header(level) + m + "] "@ + message@ + "\n"@
                }
            }),
    {
        if !self.enabled {
            return None;
        }
        let m = match module {
            Some(m) => m,
            None => "?",
        };
        if starts_with(m, BLACKLISTED_MODULE) {
            return None;
        }
        let mut line = header_of(level).to_owned();
        line.append(m);
        line.append("] ");
        line.append(message);
        line.append("\n");
        Some(line)
    }
}

/// The plain logger: level name, module path, message; only the firmware's
/// own modules are logged.
pub struct PwosLogger;

impl PwosLogger {
    /// The line for a record, or `None` when it does not come from one of the
    /// firmware's own modules; a missing module path shows as `unknown`.
    pub fn format_record(level: Level, module: Option<&str>, message: &str) -> (r: Option<String>)
        ensures
            ({
                let m = match module {
                    Some(m) => m@,
                    None => "unknown"@,
                };
                if !has_prefix(m, OWN_MODULE_PREFIX@) {
                    r is None
                } else {
                    r matches Some(line) && line@ == level_name(level) + " "@ + m + ": "@ + message@ + "\n"@
                }
            }),
    {
        let m = match module {
            Some(m) => m,
            None => "unknown",
        };
        if !starts_with(m, OWN_MODULE_PREFIX) {
            return None;
        }
        let mut line = name_of(level).to_owned();
        line.append(" ");
        line.append(m);
        line.append(": ");
        line.append(message);
        line.append("\n");
        Some(line)
    }
}

} // verus!
