//! Service settings and the rules that derive them from raw values.
use vstd::prelude::*;

verus! {

/// Verbosity of the service log.
#[derive(Clone, Copy, Debug, PartialEq, Eq, Structural)]
pub enum LogLevel {
    Trace,
    Debug,
    Info,
    Warn,
    Error,
}

/// Service settings. Token lifetimes are in seconds.
pub struct Config {
    pub port: u16,
    pub jwt_secret: String,
    pub access_ttl: i32,
    pub refresh_ttl: i32,
    pub db_url: String,
    pub migrate: bool,
    pub log_level: LogLevel,
}

/// Upper-case form of a text.
pub uninterp spec fn upper_of(s: Seq<char>) -> Seq<char>;

/// Relies on `str::to_uppercase`: the upper-case form depends on the text alone.
#[verifier::external_body]
fn uppercase(s: &str) -> (r: String)
    ensures
        r@ == upper_of(s@),
{
    s.to_uppercase()
}

/// The level an upper-case name selects; any unknown name selects `Info`.
pub open spec fn level_named(u: Seq<char>) -> LogLevel {
    if u == "TRACE"@ {
        LogLevel::Trace
    } else if u == "DEBUG"@ {
        LogLevel::Debug
    } else if u == "WARN"@ {
        LogLevel::Warn
    } else if u == "ERROR"@ {
        LogLevel::Error
    } else {
        LogLevel::Info
    }
}

/// Default access-token lifetime, in minutes.
pub const DEFAULT_ACCESS_MINUTES: i32 = 15;

/// Default refresh-token lifetime, in days.
pub const DEFAULT_REFRESH_DAYS: i32 = 7;

/// `count` units of `unit` seconds, when it fits an `i32`.
pub open spec fn seconds_of(count: int, unit: int) -> Option<i32> {
    if i32::MIN <= count * unit <= i32::MAX {
        Some((count * unit) as i32)
    } else {
        None
    }
}

impl LogLevel {
    /// The level an already upper-case name selects.
    pub fn from_upper(upper: &String) -> (r: LogLevel)
        ensures
            r == level_named(upper@),
    {
        if *upper == String::from_str("TRACE") {
            LogLevel::Trace
        } else if *upper == String::from_str("DEBUG") {
            LogLevel::Debug
        } else if *upper == String::from_str("WARN") {
            LogLevel::Warn
        } else if *upper == String::from_str("ERROR") {
            LogLevel::Error
        } else {
            LogLevel::Info
        }
    }

    /// The level a name selects, in any letter case.
    pub fn from_name(name: &str) -> (r: LogLevel)
        ensures
            r == level_named(upper_of(name@)),
    {
        let upper = uppercase(name);
        LogLevel::from_upper(&upper)
    }
}

impl Config {
    /// Access-token lifetime in seconds for a setting in minutes (the
    /// default when absent); `None` when it does not fit an `i32`.
    pub fn access_ttl_seconds(minutes: Option<i32>) -> (r: Option<i32>)
        ensures
            r == seconds_of(
                (match minutes {
                    Some(m) => m,
                    None => DEFAULT_ACCESS_MINUTES,
                }) as int,
                60,
            ),
    {
        let m = match minutes {
            Some(m) => m,
            None => DEFAULT_ACCESS_MINUTES,
        };
        let s: i64 = m as i64 * 60;
        if s < i32::MIN as i64 || s > i32::MAX as i64 {
            None
        } else {
            Some(s as i32)
        }
    }

    /// Refresh-token lifetime in seconds for a setting in days (the default
    /// when absent); `None` when it does not fit an `i32`.
    pub fn refresh_ttl_seconds(days: Option<i32>) -> (r: Option<i32>)
        ensures
            r == seconds_of(
                (match days {
                    Some(d) => d,
                    None => DEFAULT_REFRESH_DAYS,
                }) as int,
                86400,
            ),
    {
        let d = match days {
            Some(d) => d,
            None => DEFAULT_REFRESH_DAYS,
        };
        let s: i64 = d as i64 * 86400;
        if s < i32::MIN as i64 || s > i32::MAX as i64 {
            None
        } else {
            Some(s as i32)
        }
    }
}

} // verus!
