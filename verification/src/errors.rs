//! The process error taxonomy. Every variant carries plain text (or a
//! configuration fault); `message` writes the line the process prints.

use vstd::prelude::*;
use vstd::string::*;
use crate::config::ConfigError;
use crate::text::{dec_seq_of, u64_to_string};

verus! {

/// A failure of the process, by subsystem.
#[derive(Clone, Debug)]
pub enum AppError {
    Io(String),
    Display(String),
    SystemInfo(String),
    Multiplexer(String),
    Config(ConfigError),
    Daemon(String),
    ScreenFactory(String),
    ScreenManager(String),
    Application(String),
    Hardware(String),
    Permission(String),
}

/// The printed form of a configuration fault.
pub open spec fn config_error_message_spec(e: ConfigError) -> Seq<char> {
    match e {
        ConfigError::InvalidInterval => "Update interval must be greater than 0"@,
        ConfigError::InvalidScreenDuration => "Screen duration must be greater than 0"@,
        ConfigError::NoScreensEnabled => "At least one screen must be enabled"@,
        ConfigError::InvalidScreen(s) => "Invalid screen type: "@ + s@,
        ConfigError::InvalidMultiplexerChannel(c) => "Multiplexer channel must be 0-7, got: "@
            + dec_seq_of(c as int),
    }
}

/// The printed form of a process failure.
pub open spec fn app_error_message_spec(e: AppError) -> Seq<char> {
    match e {
        AppError::Io(m) => "I/O error: "@ + m@,
        AppError::Display(m) => "Display error: "@ + m@,
        AppError::SystemInfo(m) => "System info error: "@ + m@,
        AppError::Multiplexer(m) => "Multiplexer error: "@ + m@,
        AppError::Config(c) => "Configuration error: "@ + config_error_message_spec(c),
        AppError::Daemon(m) => "Daemon error: "@ + m@,
        AppError::ScreenFactory(m) => "Screen factory error: "@ + m@,
        AppError::ScreenManager(m) => "Screen manager error: "@ + m@,
        AppError::Application(m) => "Application error: "@ + m@,
        AppError::Hardware(m) => "Hardware error: "@ + m@,
        AppError::Permission(m) => "Permission error: "@ + m@,
    }
}

impl ConfigError {
    /// The line this fault prints.
    pub fn message(&self) -> (r: String)
        ensures
            r@ == config_error_message_spec(*self),
    {
        match self {
            ConfigError::InvalidInterval => String::from_str(
                "Update interval must be greater than 0",
            ),
            ConfigError::InvalidScreenDuration => String::from_str(
                "Screen duration must be greater than 0",
            ),
            ConfigError::NoScreensEnabled => String::from_str(
                "At least one screen must be enabled",
            ),
            ConfigError::InvalidScreen(s) => {
                let mut m = String::from_str("Invalid screen type: ");
                m.append(s.as_str());
                m
            },
            ConfigError::InvalidMultiplexerChannel(c) => {
                let mut m = String::from_str("Multiplexer channel must be 0-7, got: ");
                let num = u64_to_string(*c as u64);
                m.append(num.as_str());
                m
            },
        }
    }
}

impl AppError {
    /// The line this failure prints.
    pub fn message(&self) -> (r: String)
        ensures
            r@ == app_error_message_spec(*self),
    {
        match self {
            AppError::Io(m) => Self::prefixed("I/O error: ", m),
            AppError::Display(m) => Self::prefixed("Display error: ", m),
            AppError::SystemInfo(m) => Self::prefixed("System info error: ", m),
            AppError::Multiplexer(m) => Self::prefixed("Multiplexer error: ", m),
            AppError::Config(c) => {
                let mut r = String::from_str("Configuration error: ");
                let body = c.message();
                r.append(body.as_str());
                r
            },
            AppError::Daemon(m) => Self::prefixed("Daemon error: ", m),
            AppError::ScreenFactory(m) => Self::prefixed("Screen factory error: ", m),
            AppError::ScreenManager(m) => Self::prefixed("Screen manager error: ", m),
            AppError::Application(m) => Self::prefixed("Application error: ", m),
            AppError::Hardware(m) => Self::prefixed("Hardware error: ", m),
            AppError::Permission(m) => Self::prefixed("Permission error: ", m),
        }
    }

    fn prefixed(prefix: &str, body: &String) -> (r: String)
        ensures
            r@ == prefix@ + body@,
    {
        let mut r = prefix.to_owned();
        r.append(body.as_str());
        r
    }

    /// A display failure with the given text.
    pub fn display_init(msg: &str) -> (r: Self)
        ensures
            r matches AppError::Display(m) && m@ == msg@,
    {
        AppError::Display(msg.to_owned())
    }

    /// A telemetry failure with the given text.
    pub fn system_info(msg: &str) -> (r: Self)
        ensures
            r matches AppError::SystemInfo(m) && m@ == msg@,
    {
        AppError::SystemInfo(msg.to_owned())
    }

    /// A daemonization failure with the given text.
    pub fn daemon(msg: &str) -> (r: Self)
        ensures
            r matches AppError::Daemon(m) && m@ == msg@,
    {
        AppError::Daemon(msg.to_owned())
    }

    /// A registry failure with the given text.
    pub fn screen_factory(msg: &str) -> (r: Self)
        ensures
            r matches AppError::ScreenFactory(m) && m@ == msg@,
    {
        AppError::ScreenFactory(msg.to_owned())
    }

    /// A scheduler failure with the given text.
    pub fn screen_manager(msg: &str) -> (r: Self)
        ensures
            r matches AppError::ScreenManager(m) && m@ == msg@,
    {
        AppError::ScreenManager(msg.to_owned())
    }

    /// An application failure with the given text.
    pub fn application(msg: &str) -> (r: Self)
        ensures
            r matches AppError::Application(m) && m@ == msg@,
    {
        AppError::Application(msg.to_owned())
    }

    /// A hardware failure with the given text.
    pub fn hardware(msg: &str) -> (r: Self)
        ensures
            r matches AppError::Hardware(m) && m@ == msg@,
    {
        AppError::Hardware(msg.to_owned())
    }

    /// A permission failure with the given text.
    pub fn permission(msg: &str) -> (r: Self)
        ensures
            r matches AppError::Permission(m) && m@ == msg@,
    {
        AppError::Permission(msg.to_owned())
    }

    /// A multiplexer failure with the given text.
    pub fn multiplexer(msg: &str) -> (r: Self)
        ensures
            r matches AppError::Multiplexer(m) && m@ == msg@,
    {
        AppError::Multiplexer(msg.to_owned())
    }
}

impl From<ConfigError> for AppError {
    /// A configuration fault wrapped as a process failure.
    fn from(err: ConfigError) -> (r: Self) {
        AppError::Config(err)
    }
}

impl vstd::std_specs::convert::FromSpecImpl<ConfigError> for AppError {
    open spec fn obeys_from_spec() -> bool {
        true
    }

    open spec fn from_spec(err: ConfigError) -> Self {
        AppError::Config(err)
    }
}

/// Wraps a plain-text failure as a display failure under a context
/// line.
pub trait DisplayErrorExt<T> {
    /// The value untouched, or the text behind `context: `.
    fn display_err(self, context: &str) -> (r: Result<T, AppError>) where Self: Sized;
}

impl<T> DisplayErrorExt<T> for Result<T, String> {
    fn display_err(self, context: &str) -> (r: Result<T, AppError>)
        ensures
            self matches Ok(v) ==> (r matches Ok(w) && w == v),
            self matches Err(m) ==> (r matches Err(e) && e matches AppError::Display(t) && t@
                == context@ + ": "@ + m@),
    {
        match self {
            Ok(v) => Ok(v),
            Err(m) => {
                let mut t = context.to_owned();
                t.append(": ");
                t.append(m.as_str());
                Err(AppError::Display(t))
            },
        }
    }
}

} // verus!
