//! How the logger is set up in each environment.
use crate::domain::errors::StartupError;
use vstd::prelude::*;
use vstd::string::StringExecFns;

verus! {

/// Shape of the log lines.
#[derive(Clone, Copy, Debug, PartialEq, Eq, Structural)]
pub enum LogFormat {
    /// Lines for a person to read.
    Pretty,
    /// One JSON object per line, with a UTC timestamp and without target.
    Json,
}

/// Least severe level that is logged where the environment names no filter.
#[derive(Clone, Copy, Debug, PartialEq, Eq, Structural)]
pub enum LogLevel {
    Debug,
    Info,
}

/// How the logger is set up.
#[derive(Clone, Copy, Debug, PartialEq, Eq, Structural)]
pub struct LoggerSetup {
    pub format: LogFormat,
    pub default_level: LogLevel,
}

/// The setup of each known environment.
pub open spec fn setup_of(app_env: Seq<char>) -> Option<LoggerSetup> {
    if app_env == "development"@ {
        Some(LoggerSetup { format: LogFormat::Pretty, default_level: LogLevel::Debug })
    } else if app_env == "production"@ || app_env == "test"@ {
        Some(LoggerSetup { format: LogFormat::Json, default_level: LogLevel::Info })
    } else {
        None
    }
}

/// The logger setup of the environment `app_env`, or the refusal of an
/// environment that is not known.
pub fn logger_setup(app_env: &str) -> (r: Result<LoggerSetup, StartupError>)
    ensures
        match setup_of(app_env@) {
            Some(setup) => r == Ok::<LoggerSetup, StartupError>(setup),
            None => r matches Err(StartupError::InvalidAppEnv(name)) && name@ == app_env@,
        },
{
    let name = String::from_str(app_env);
    if name == String::from_str("development") {
        Ok(LoggerSetup { format: LogFormat::Pretty, default_level: LogLevel::Debug })
    } else if name == String::from_str("production") || name == String::from_str("test") {
        Ok(LoggerSetup { format: LogFormat::Json, default_level: LogLevel::Info })
    } else {
        Err(StartupError::InvalidAppEnv(name))
    }
}

} // verus!
