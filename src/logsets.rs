use vstd::prelude::*;

verus! {

/// How much is logged, from nothing to everything.
#[derive(Clone, Copy, Debug, PartialEq, Eq, Structural)]
pub enum LogLevel {
    Off,
    Error,
    Warn,
    Info,
    Debug,
    Trace,
}

/// The `logs` section of the site configuration.
#[derive(Clone, Debug)]
pub struct LogConfig {
    pub file_loglevel: Option<u8>,
    pub term_loglevel: Option<u8>,
    pub logfile: Option<String>,
}

/// Where and how much to log. `logfile` is relative to the working directory.
#[derive(Clone, Debug)]
pub struct LogSets {
    pub file_loglevel: LogLevel,
    pub term_loglevel: LogLevel,
    pub logfile: String,
}

pub open spec fn level_of(o: u8) -> Option<LogLevel> {
    if o == 0 {
        Some(LogLevel::Off)
    } else if o == 1 {
        Some(LogLevel::Error)
    } else if o == 2 {
        Some(LogLevel::Warn)
    } else if o == 3 {
        Some(LogLevel::Info)
    } else if o == 4 {
        Some(LogLevel::Debug)
    } else if o == 5 {
        Some(LogLevel::Trace)
    } else {
        None
    }
}

/// A configured level, 0 (quiet) to 5 (verbose); `None` outside that range.
pub fn log_level(o: u8) -> (r: Option<LogLevel>)
    ensures
        r == level_of(o),
{
    match o {
        0 => Some(LogLevel::Off),
        1 => Some(LogLevel::Error),
        2 => Some(LogLevel::Warn),
        3 => Some(LogLevel::Info),
        4 => Some(LogLevel::Debug),
        5 => Some(LogLevel::Trace),
        _ => None,
    }
}

/// A configured level, or `default` where none is configured; `Err` carries a
/// level outside the range.
pub open spec fn configured_level(o: Option<u8>, default: LogLevel) -> Result<LogLevel, u8> {
    match o {
        None => Ok(default),
        Some(l) => match level_of(l) {
            Some(v) => Ok(v),
            None => Err(l),
        },
    }
}

fn level_or(o: Option<u8>, default: LogLevel) -> (r: Result<LogLevel, u8>)
    ensures
        r == configured_level(o, default),
{
    match o {
        None => Ok(default),
        Some(l) => match log_level(l) {
            Some(v) => Ok(v),
            None => Err(l),
        },
    }
}

/// The logging set-up of a configuration: the file logs at `Info` and the
/// terminal at `Warn` unless configured, to `./cynthia.log` unless configured.
/// An out-of-range level is the error, the file's level checked first.
pub fn log_sets(logs: Option<LogConfig>) -> (r: Result<LogSets, u8>)
    ensures
        match logs {
            None => r matches Ok(s) && s.file_loglevel == LogLevel::Info && s.term_loglevel
                == LogLevel::Warn && s.logfile@ == "./cynthia.log"@,
            Some(d) => match (
                configured_level(d.file_loglevel, LogLevel::Info),
                configured_level(d.term_loglevel, LogLevel::Warn),
            ) {
                (Err(l), _) => r == Err::<LogSets, u8>(l),
                (Ok(_), Err(l)) => r == Err::<LogSets, u8>(l),
                (Ok(f), Ok(t)) => r matches Ok(s) && s.file_loglevel == f && s.term_loglevel == t
                    && s.logfile@ == match d.logfile {
                    Some(p) => p@,
                    None => "./cynthia.log"@,
                },
            },
        },
{
    match logs {
        None => Ok(
            LogSets {
                file_loglevel: LogLevel::Info,
                term_loglevel: LogLevel::Warn,
                logfile: String::from_str("./cynthia.log"),
            },
        ),
        Some(d) => {
            let file_loglevel = match level_or(d.file_loglevel, LogLevel::Info) {
                Ok(v) => v,
                Err(l) => return Err(l),
            };
            let term_loglevel = match level_or(d.term_loglevel, LogLevel::Warn) {
                Ok(v) => v,
                Err(l) => return Err(l),
            };
            let logfile = match d.logfile {
                Some(p) => p,
                None => String::from_str("./cynthia.log"),
            };
            Ok(LogSets { file_loglevel, term_loglevel, logfile })
        },
    }
}

} // verus!
