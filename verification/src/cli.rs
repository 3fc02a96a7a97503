//! Command-line settings of the timeline server.

use vstd::prelude::*;
use crate::text::{digits_value, is_digit};

verus! {

/// The severity levels that the server can log at.
#[derive(Clone, Copy, Debug, PartialEq, Eq)]
pub enum LogLevel {
    Error,
    Warn,
    Info,
    Debug,
    Trace,
}

/// The number that `usize::from_str` reads from `s`: an optional `+`, then
/// one or more decimal digits (`None` for any other text).
pub open spec fn decimal_number(s: Seq<char>) -> Option<int> {
    let digits = if s.len() > 0 && s[0] == '+' {
        s.drop_first()
    } else {
        s
    };
    if digits.len() > 0 && forall|i: int| 0 <= i < digits.len() ==> is_digit(#[trigger] digits[i]) {
        Some(digits_value(digits))
    } else {
        None
    }
}

/// `c` in lower case, for ASCII letters.
pub open spec fn ascii_lower(c: char) -> char {
    if 'A' <= c && c <= 'Z' {
        ((c as int) + 32) as char
    } else {
        c
    }
}

/// Whether `s` equals `word` (lower-case) when ASCII case is ignored.
pub open spec fn equals_ignoring_case(s: Seq<char>, word: Seq<char>) -> bool {
    s.len() == word.len() && forall|i: int| 0 <= i < s.len() ==> ascii_lower(#[trigger] s[i]) == word[i]
}

/// The level that `tracing::Level::from_str` reads from `s`: the numbers
/// 1 to 5 (error to trace), or a level's name in any ASCII case.
pub open spec fn level_from_text(s: Seq<char>) -> Option<LogLevel> {
    let n = decimal_number(s);
    if n == Some(1int) {
        Some(LogLevel::Error)
    } else if n == Some(2int) {
        Some(LogLevel::Warn)
    } else if n == Some(3int) {
        Some(LogLevel::Info)
    } else if n == Some(4int) {
        Some(LogLevel::Debug)
    } else if n == Some(5int) {
        Some(LogLevel::Trace)
    } else {
        level_named(s)
    }
}

/// The level whose name `s` is, in any ASCII case.
pub open spec fn level_named(s: Seq<char>) -> Option<LogLevel> {
    if equals_ignoring_case(s, "error"@) {
        Some(LogLevel::Error)
    } else if equals_ignoring_case(s, "warn"@) {
        Some(LogLevel::Warn)
    } else if equals_ignoring_case(s, "info"@) {
        Some(LogLevel::Info)
    } else if equals_ignoring_case(s, "debug"@) {
        Some(LogLevel::Debug)
    } else if equals_ignoring_case(s, "trace"@) {
        Some(LogLevel::Trace)
    } else {
        None
    }
}

/// Reads a log level with tracing's `FromStr` impl for `Level`, which
/// first reads `s` as a `usize` (1 to 5 give error to trace) and otherwise
/// compares it, ignoring ASCII case, with the five level names.
#[verifier::external_body]
fn parse_log_level(s: &str) -> (res: Option<LogLevel>)
    ensures
        res == level_from_text(s@),
{
    match s.parse::<tracing::Level>() {
        Ok(tracing::Level::ERROR) => Some(LogLevel::Error),
        Ok(tracing::Level::WARN) => Some(LogLevel::Warn),
        Ok(tracing::Level::INFO) => Some(LogLevel::Info),
        Ok(tracing::Level::DEBUG) => Some(LogLevel::Debug),
        Ok(_) => Some(LogLevel::Trace),
        Err(_) => None,
    }
}

/// The log level that a command-line value names (see `level_from_text`).
pub fn read_log_level(s: &str) -> (res: Option<LogLevel>)
    ensures
        res == level_from_text(s@),
{
    parse_log_level(s)
}

/// The server's command-line settings.
pub struct Args {
    /// Address and port to listen on.
    pub bind_addr: String,
    /// Path of the configuration file.
    pub config_file: String,
    pub log_level: LogLevel,
    /// Whether logs are written as JSON.
    pub log_json: bool,
}

impl Args {
    /// The settings given on the command line, each one that was left out
    /// replaced by its default: `127.0.0.1:3000`, `timeline.toml`, `INFO`.
    pub fn with_defaults(
        bind_addr: Option<String>,
        config_file: Option<String>,
        log_level: Option<LogLevel>,
        log_json: bool,
    ) -> (res: Args)
        ensures
            res.bind_addr@ == match bind_addr {
                Some(a) => a@,
                None => "127.0.0.1:3000"@,
            },
            res.config_file@ == match config_file {
                Some(f) => f@,
                None => "timeline.toml"@,
            },
            res.log_level == match log_level {
                Some(l) => l,
                None => LogLevel::Info,
            },
            res.log_json == log_json,
    {
        let bind_addr = match bind_addr {
            Some(a) => a,
            None => String::from_str("127.0.0.1:3000"),
        };
        let config_file = match config_file {
            Some(f) => f,
            None => String::from_str("timeline.toml"),
        };
        let log_level = match log_level {
            Some(l) => l,
            None => LogLevel::Info,
        };
        Args { bind_addr, config_file, log_level, log_json }
    }
}

} // verus!
